use condash::errors::RunError;
use condash::ports::{check_ports_available, required_ports, EXPORTER_PORT, METRICS_STORE_PORT, UI_PORT};

#[test]
fn required_ports_are_the_three_fixed_ones() {
    assert_eq!(required_ports(), vec![3000, 9090, 8080]);
    assert_eq!(UI_PORT, 3000);
    assert_eq!(METRICS_STORE_PORT, 9090);
    assert_eq!(EXPORTER_PORT, 8080);
}

#[test]
fn all_ports_free_succeeds() {
    let free = vec![true, true, true];
    assert!(check_ports_available(&free).is_ok());
}

#[test]
fn one_occupied_port_is_reported() {
    let free = vec![true, false, true];
    match check_ports_available(&free) {
        Err(RunError::PortConflict(ports)) => assert_eq!(ports, vec![9090]),
        other => panic!("expected a port conflict, got {:?}", other),
    }
}

#[test]
fn all_occupied_ports_are_reported_in_probe_order() {
    let free = vec![false, false, false];
    match check_ports_available(&free) {
        Err(RunError::PortConflict(ports)) => assert_eq!(ports, vec![3000, 9090, 8080]),
        other => panic!("expected a port conflict, got {:?}", other),
    }
}

#[test]
fn first_and_last_occupied_are_both_reported() {
    let free = vec![false, true, false];
    match check_ports_available(&free) {
        Err(RunError::PortConflict(ports)) => assert_eq!(ports, vec![3000, 8080]),
        other => panic!("expected a port conflict, got {:?}", other),
    }
}
