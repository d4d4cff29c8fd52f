use condash::errors::{ComposeOp, RunError};
use condash::flag::ShutdownFlag;
use condash::health::HealthStep;
use condash::runner::{RunState, Runner};
use condash::workspace::dashboard_url;

fn advance_to_port_checking(target: &str) -> Runner {
    let mut runner = Runner::new(String::from(target));
    assert_eq!(runner.current_state(), RunState::Idle);
    runner.begin();
    assert_eq!(runner.current_state(), RunState::Validating);
    runner.on_validation(true);
    assert_eq!(runner.current_state(), RunState::PortChecking);
    runner
}

fn advance_to_health_gating(target: &str) -> Runner {
    let mut runner = advance_to_port_checking(target);
    runner.on_ports_probed(&vec![true, true, true]);
    assert_eq!(runner.current_state(), RunState::Provisioning);
    runner.on_provisioned(Some(String::from("/tmp/stack-ws")));
    assert_eq!(runner.current_state(), RunState::StackStarting);
    runner.on_stack_start(None);
    assert_eq!(runner.current_state(), RunState::HealthGating);
    runner.on_signal_setup(true);
    assert_eq!(runner.current_state(), RunState::HealthGating);
    runner
}

#[test]
fn clean_run_with_interrupt_tears_down_exactly_once() {
    let mut runner = advance_to_health_gating("web1");
    assert_eq!(runner.on_health_probe(false), HealthStep::Retry);
    assert_eq!(runner.on_health_probe(false), HealthStep::Retry);
    assert_eq!(runner.on_health_probe(true), HealthStep::Ready);
    assert_eq!(runner.health_attempts(), 3);
    assert_eq!(runner.current_state(), RunState::Running);

    let url = dashboard_url("web1");
    assert!(url.contains("var-container=web1"));

    let mut flag = ShutdownFlag::new();
    assert!(!runner.on_poll(&flag));
    assert_eq!(runner.current_state(), RunState::Running);
    flag.trigger();
    flag.trigger();
    assert!(runner.on_poll(&flag));
    assert_eq!(runner.current_state(), RunState::TearingDown);

    assert!(runner.teardown_decision());
    runner.on_teardown_result(None);
    assert_eq!(runner.current_state(), RunState::Terminated);
    assert!(runner.succeeded());
    assert_eq!(runner.primary_failure(), &None);
    assert_eq!(runner.secondary_failure(), &None);
}

#[test]
fn occupied_port_ends_the_run_before_any_workspace_or_stack() {
    let mut runner = advance_to_port_checking("web1");
    runner.on_ports_probed(&vec![true, false, true]);
    assert_eq!(runner.current_state(), RunState::Terminated);
    assert_eq!(
        runner.primary_failure(),
        &Some(RunError::PortConflict(vec![9090]))
    );
    assert_eq!(runner.workspace_root(), &None);
    assert!(!runner.succeeded());
}

#[test]
fn failed_compose_up_reports_stderr_and_never_directs_down() {
    let mut runner = advance_to_port_checking("web1");
    runner.on_ports_probed(&vec![true, true, true]);
    runner.on_provisioned(Some(String::from("/tmp/stack-ws")));
    runner.on_stack_start(Some(String::from("network condash unreachable")));
    assert_eq!(runner.current_state(), RunState::TearingDown);
    assert_eq!(
        runner.primary_failure(),
        &Some(RunError::ComposeFailure(
            ComposeOp::Up,
            String::from("network condash unreachable")
        ))
    );
    assert!(!runner.teardown_decision());
    runner.on_teardown_result(None);
    assert_eq!(runner.current_state(), RunState::Terminated);
    assert!(!runner.succeeded());
}

#[test]
fn health_timeout_after_thirty_attempts_still_tears_down_once() {
    let mut runner = advance_to_health_gating("web1");
    for _ in 0..29 {
        assert_eq!(runner.on_health_probe(false), HealthStep::Retry);
    }
    assert_eq!(runner.on_health_probe(false), HealthStep::Timeout);
    assert_eq!(runner.health_attempts(), 30);
    assert_eq!(runner.current_state(), RunState::TearingDown);
    assert_eq!(runner.primary_failure(), &Some(RunError::HealthTimeout));

    assert!(runner.teardown_decision());
    runner.on_teardown_result(None);
    assert_eq!(runner.current_state(), RunState::Terminated);
    assert_eq!(runner.primary_failure(), &Some(RunError::HealthTimeout));
}

#[test]
fn missing_target_ends_the_run_at_validation() {
    let mut runner = Runner::new(String::from("nope"));
    runner.begin();
    runner.on_validation(false);
    assert_eq!(runner.current_state(), RunState::Terminated);
    assert_eq!(runner.primary_failure(), &Some(RunError::TargetNotFound));
}

#[test]
fn workspace_io_failure_ends_the_run_at_provisioning() {
    let mut runner = advance_to_port_checking("web1");
    runner.on_ports_probed(&vec![true, true, true]);
    runner.on_provisioned(None);
    assert_eq!(runner.current_state(), RunState::Terminated);
    assert_eq!(runner.primary_failure(), &Some(RunError::WorkspaceIo));
    assert_eq!(runner.workspace_root(), &None);
}

#[test]
fn signal_setup_failure_still_passes_through_teardown() {
    let mut runner = advance_to_port_checking("web1");
    runner.on_ports_probed(&vec![true, true, true]);
    runner.on_provisioned(Some(String::from("/tmp/stack-ws")));
    runner.on_stack_start(None);
    runner.on_signal_setup(false);
    assert_eq!(runner.current_state(), RunState::TearingDown);
    assert_eq!(
        runner.primary_failure(),
        &Some(RunError::SignalSetupFailure)
    );
    assert!(runner.teardown_decision());
    runner.on_teardown_result(None);
    assert_eq!(runner.current_state(), RunState::Terminated);
}

#[test]
fn teardown_problem_is_a_secondary_note_never_the_root_cause() {
    let mut runner = advance_to_health_gating("web1");
    assert_eq!(runner.on_health_probe(false), HealthStep::Retry);
    for _ in 0..28 {
        runner.on_health_probe(false);
    }
    assert_eq!(runner.on_health_probe(false), HealthStep::Timeout);
    assert!(runner.teardown_decision());
    runner.on_teardown_result(Some(String::from("no such project")));
    assert_eq!(runner.current_state(), RunState::Terminated);
    assert_eq!(runner.primary_failure(), &Some(RunError::HealthTimeout));
    assert_eq!(
        runner.secondary_failure(),
        &Some(RunError::TeardownFailure(
            ComposeOp::Down,
            String::from("no such project")
        ))
    );
}

#[test]
fn workspace_root_is_kept_for_the_whole_run() {
    let runner = advance_to_health_gating("web1");
    assert_eq!(
        runner.workspace_root(),
        &Some(String::from("/tmp/stack-ws"))
    );
}
