use backend_supervisor::health::{AttemptOutcome, HealthCheckOutcome, HealthProbe};
use backend_supervisor::paths::{resolve, PathResolutionError};
use backend_supervisor::supervisor::{
    plan_spawn, start_transition, start_verdict, stop_transition, KillStrategy, SpawnPhase,
    StartAttempt, StartError, StopAction, SupervisorState, BACKEND_PORT,
};

fn p(components: &[&str]) -> Vec<String> {
    components.iter().map(|c| c.to_string()).collect()
}

#[test]
fn start_twice_keeps_first_handle() {
    let mut state = SupervisorState::new();
    assert!(!state.is_running());
    start_transition(&mut state, 41);
    assert!(state.is_running());
    assert_eq!(state.handle, Some(41));
    // A second start is a no-op: the handle is the one the first start
    // recorded.
    start_transition(&mut state, 99);
    assert!(state.is_running());
    assert_eq!(state.handle, Some(41));
}

#[test]
fn stop_twice_is_noop() {
    let mut state = SupervisorState::new();
    start_transition(&mut state, 41);
    let first = stop_transition(&mut state, false);
    assert_eq!(
        first,
        StopAction::Terminate {
            pid: 41,
            strategy: KillStrategy::Direct
        }
    );
    assert!(!state.is_running());
    let second = stop_transition(&mut state, false);
    assert_eq!(second, StopAction::NoProcess);
    assert!(!state.is_running());
}

#[test]
fn stop_without_start_is_noop() {
    let mut state = SupervisorState::new();
    let action = stop_transition(&mut state, false);
    assert_eq!(action, StopAction::NoProcess);
    assert!(!state.is_running());
}

#[test]
fn stop_uses_tree_kill_on_windows() {
    let mut state = SupervisorState::new();
    start_transition(&mut state, 7);
    let action = stop_transition(&mut state, true);
    assert_eq!(
        action,
        StopAction::Terminate {
            pid: 7,
            strategy: KillStrategy::ProcessTree
        }
    );
}

#[test]
fn exactly_one_fallback_after_primary_failure() {
    let mut attempt = StartAttempt::new(false);
    assert_eq!(attempt.next_interpreter(), "python3");
    attempt.record(Err("primary missing".to_string()));
    // One fallback spawn is owed, with the alternate interpreter name.
    assert!(attempt.pending());
    assert_eq!(attempt.next_interpreter(), "python");
    attempt.record(Err("fallback missing".to_string()));
    // No further attempt: the error carries both messages.
    assert!(!attempt.pending());
    match attempt.result() {
        Err(StartError::SpawnFailed { primary, fallback }) => {
            assert_eq!(primary, "primary missing");
            assert_eq!(fallback, "fallback missing");
        }
        _ => panic!("expected SpawnFailed"),
    }
}

#[test]
fn fallback_succeeds_after_primary_failure() {
    let mut attempt = StartAttempt::new(false);
    attempt.record(Err("primary missing".to_string()));
    assert!(attempt.pending());
    attempt.record(Ok(55));
    assert!(!attempt.pending());
    assert_eq!(attempt.result().unwrap(), 55);
}

#[test]
fn primary_success_needs_no_fallback() {
    let mut attempt = StartAttempt::new(false);
    attempt.record(Ok(42));
    assert!(!attempt.pending());
    assert!(matches!(
        attempt.phase,
        SpawnPhase::Succeeded { pid: 42 }
    ));
    assert_eq!(attempt.result().unwrap(), 42);
}

#[test]
fn windows_interpreter_order() {
    let mut attempt = StartAttempt::new(true);
    assert_eq!(attempt.next_interpreter(), "python");
    attempt.record(Err("not found".to_string()));
    assert_eq!(attempt.next_interpreter(), "python3");
}

#[test]
fn start_succeeds_whatever_the_probe_said() {
    let mut state = SupervisorState::new();
    start_transition(&mut state, 12);
    assert!(start_verdict(&state, HealthCheckOutcome::Healthy).is_ok());
    assert!(start_verdict(&state, HealthCheckOutcome::TimedOut).is_ok());
    assert!(start_verdict(&state, HealthCheckOutcome::Unreachable).is_ok());
    assert!(state.is_running());
}

#[test]
fn stop_during_probe_still_terminates() {
    let mut state = SupervisorState::new();
    start_transition(&mut state, 23);
    let mut probe = HealthProbe::new(5);
    probe.record(AttemptOutcome::ConnectionError);
    probe.record(AttemptOutcome::ConnectionError);
    assert!(!probe.done());
    // The stop does not wait for the probe: the process is terminated and
    // the state marked not-running while the probe is mid-flight.
    let action = stop_transition(&mut state, false);
    assert_eq!(
        action,
        StopAction::Terminate {
            pid: 23,
            strategy: KillStrategy::Direct
        }
    );
    assert!(!state.is_running());
    // The probe's remaining attempts observe connection failures and the
    // probe runs to completion rather than hanging.
    probe.record(AttemptOutcome::ConnectionError);
    probe.record(AttemptOutcome::ConnectionError);
    probe.record(AttemptOutcome::ConnectionError);
    assert!(probe.done());
    assert_eq!(probe.outcome(), HealthCheckOutcome::Unreachable);
}

#[test]
fn plan_spawn_builds_primary_command() {
    let exe_dir = p(&["opt", "app"]);
    let cwd = p(&["home", "proj", "ui", "src-tauri"]);
    let resolution = resolve(&exe_dir, &cwd, &vec![false, false], true);
    let cmd = plan_spawn(resolution, false).unwrap();
    assert_eq!(cmd.interpreter, "python3");
    assert_eq!(cmd.entry_point, p(&["home", "proj", "src", "run_server.py"]));
    assert_eq!(cmd.working_dir, p(&["home", "proj", "src"]));
    assert_eq!(cmd.port, BACKEND_PORT);
    assert_eq!(cmd.port, 8000);
}

#[test]
fn resolution_failure_plans_no_spawn() {
    let r = plan_spawn(Err(PathResolutionError::NotFound), false);
    match r {
        Err(StartError::PathResolution(e)) => assert_eq!(e, PathResolutionError::NotFound),
        _ => panic!("expected a path-resolution error, not a command"),
    }
}
