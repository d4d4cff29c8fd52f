//! Lifecycle orchestration for a disposable observability stack scoped to
//! one running container: port preconditions, target validation, workspace
//! provisioning, stack start, health gating, interrupt-driven interactive
//! wait, and an exactly-once teardown on every exit path.
//!
//! The library owns every decision of the run; a thin driver performs the
//! external operations (bind probes, runtime calls, filesystem writes,
//! compose invocations, HTTP probes) and reports each outcome back.

pub mod errors;
pub mod flag;
pub mod guard;
pub mod health;
pub mod ports;
pub mod runner;
pub mod workspace;
