[package]
name = "condash"
version = "0.1.0"
edition = "2021"
publish = false

[dependencies]
anyhow = "1"
clap = { version = "4", features = ["derive"] }
colored = "2"
ctrlc = "3"
reqwest = { version = "0.12", default-features = false, features = ["blocking"] }
tempfile = "3"
webbrowser = "1"
