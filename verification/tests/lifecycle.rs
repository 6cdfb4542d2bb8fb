use outprio_shell::backend::{
    backend_image_name, backend_launch_path, terminate_arguments, terminate_program,
};
use outprio_shell::plan::{log_for, plan_for_event, Action, Event, Outcome, Stream};
use outprio_shell::supervisor::{Phase, Supervisor};

#[test]
fn startup_terminates_before_launching() {
    let mut sup = Supervisor::new();
    let plan = sup.handle_event(Event::WindowReady);
    let actions: Vec<Action> = plan.iter().map(|s| s.action).collect();
    assert_eq!(
        actions,
        vec![
            Action::TerminateExisting,
            Action::LaunchBackend,
            Action::Unminimize,
            Action::ShowWindow,
            Action::FocusWindow,
        ]
    );
    let terminate_at = actions.iter().position(|a| *a == Action::TerminateExisting).unwrap();
    let launch_at = actions.iter().position(|a| *a == Action::LaunchBackend).unwrap();
    assert!(terminate_at < launch_at);
}

#[test]
fn startup_log_lines() {
    let mut sup = Supervisor::new();
    let plan = sup.handle_event(Event::WindowReady);
    let kill_ok = plan[0].on_success.unwrap();
    assert_eq!(kill_ok.stream, Stream::Stdout);
    assert_eq!(kill_ok.text, "[OutPrio] Existing backend processes terminated.");
    let kill_err = plan[0].on_failure.unwrap();
    assert_eq!(kill_err.stream, Stream::Stderr);
    assert_eq!(kill_err.text, "[OutPrio] Failed to kill existing backend processes: ");
    let launch_ok = plan[1].on_success.unwrap();
    assert_eq!(launch_ok.stream, Stream::Stdout);
    assert_eq!(launch_ok.text, "[OutPrio] Backend launched successfully.");
    let launch_err = plan[1].on_failure.unwrap();
    assert_eq!(launch_err.stream, Stream::Stderr);
    assert_eq!(launch_err.text, "[OutPrio] Failed to launch backend: ");
    for step in &plan[2..] {
        assert!(step.on_success.is_none());
        assert!(step.on_failure.is_none());
    }
}

#[test]
fn close_request_terminates_exactly_once() {
    let mut sup = Supervisor::new();
    sup.record_outcome(Action::LaunchBackend, Outcome::Succeeded);
    let plan = sup.handle_event(Event::CloseRequested);
    assert_eq!(plan.len(), 1);
    assert_eq!(plan[0].action, Action::TerminateExisting);
    let ok = plan[0].on_success.unwrap();
    assert_eq!(ok.stream, Stream::Stdout);
    assert_eq!(ok.text, "[OutPrio] Backend processes terminated.");
    let err = plan[0].on_failure.unwrap();
    assert_eq!(err.stream, Stream::Stderr);
    assert_eq!(err.text, "[OutPrio] Failed to kill backend processes: ");
}

#[test]
fn indifferent_event_demands_nothing() {
    let mut sup = Supervisor::new();
    let plan = sup.handle_event(Event::Other);
    assert!(plan.is_empty());
    assert_eq!(sup.phase, Phase::NotLaunched);
}

#[test]
fn two_close_requests_terminate_twice_harmlessly() {
    let mut sup = Supervisor::new();
    sup.record_outcome(Action::LaunchBackend, Outcome::Succeeded);
    assert_eq!(sup.phase, Phase::Running);

    let first = sup.handle_event(Event::CloseRequested);
    let terminates_first =
        first.iter().filter(|s| s.action == Action::TerminateExisting).count();
    assert_eq!(terminates_first, 1);
    sup.record_outcome(Action::TerminateExisting, Outcome::Succeeded);
    assert_eq!(sup.phase, Phase::Terminated);

    let second = sup.handle_event(Event::CloseRequested);
    let terminates_second =
        second.iter().filter(|s| s.action == Action::TerminateExisting).count();
    assert_eq!(terminates_second, 1);
    sup.record_outcome(Action::TerminateExisting, Outcome::Failed);
    assert_eq!(sup.phase, Phase::Terminated);
}

#[test]
fn missing_backend_still_shows_window() {
    let mut sup = Supervisor::new();
    let plan = sup.handle_event(Event::WindowReady);

    let log = log_for(&plan[1], Outcome::Failed).unwrap();
    assert_eq!(log.stream, Stream::Stderr);
    assert_eq!(log.text, "[OutPrio] Failed to launch backend: ");
    sup.record_outcome(Action::LaunchBackend, Outcome::Failed);
    assert_eq!(sup.phase, Phase::NotLaunched);

    let launch_at = plan.iter().position(|s| s.action == Action::LaunchBackend).unwrap();
    let show_at = plan.iter().position(|s| s.action == Action::ShowWindow).unwrap();
    let focus_at = plan.iter().position(|s| s.action == Action::FocusWindow).unwrap();
    assert!(launch_at < show_at);
    assert!(launch_at < focus_at);
}

#[test]
fn terminate_with_no_match_is_a_no_op() {
    let mut sup = Supervisor::new();
    sup.record_outcome(Action::TerminateExisting, Outcome::Failed);
    assert_eq!(sup.phase, Phase::NotLaunched);
    sup.record_outcome(Action::TerminateExisting, Outcome::Succeeded);
    assert_eq!(sup.phase, Phase::NotLaunched);

    let plan = sup.handle_event(Event::WindowReady);
    assert_eq!(plan.len(), 5);
}

#[test]
fn launch_outcomes_move_the_phase() {
    let mut degraded = Supervisor::new();
    degraded.record_outcome(Action::LaunchBackend, Outcome::Failed);
    assert_eq!(degraded.phase, Phase::NotLaunched);

    let mut healthy = Supervisor::new();
    healthy.record_outcome(Action::LaunchBackend, Outcome::Succeeded);
    assert_eq!(healthy.phase, Phase::Running);
    healthy.record_outcome(Action::TerminateExisting, Outcome::Succeeded);
    assert_eq!(healthy.phase, Phase::Terminated);
    healthy.record_outcome(Action::LaunchBackend, Outcome::Succeeded);
    assert_eq!(healthy.phase, Phase::Terminated);
}

#[test]
fn window_outcomes_are_ignored() {
    let mut sup = Supervisor::new();
    let plan = sup.handle_event(Event::WindowReady);
    for step in &plan[2..] {
        assert!(log_for(step, Outcome::Succeeded).is_none());
        assert!(log_for(step, Outcome::Failed).is_none());
        sup.record_outcome(step.action, Outcome::Failed);
        assert_eq!(sup.phase, Phase::NotLaunched);
    }
}

#[test]
fn log_for_picks_by_outcome() {
    let mut sup = Supervisor::new();
    let plan = sup.handle_event(Event::CloseRequested);
    let ok = log_for(&plan[0], Outcome::Succeeded).unwrap();
    assert_eq!(ok.text, "[OutPrio] Backend processes terminated.");
    let err = log_for(&plan[0], Outcome::Failed).unwrap();
    assert_eq!(err.text, "[OutPrio] Failed to kill backend processes: ");
}

#[test]
fn terminate_command_shape() {
    assert_eq!(terminate_program(), "taskkill");
    assert_eq!(terminate_arguments(), vec!["/IM", "outprioAPI.exe", "/F", "/T"]);
}

#[test]
fn backend_identity() {
    assert_eq!(backend_image_name(), "outprioAPI.exe");
    assert_eq!(backend_launch_path(), "bin/outprioAPI.exe");
    let args = terminate_arguments();
    assert_eq!(args[1], backend_image_name());
}
