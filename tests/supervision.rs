use ripper_launcher::sidecar::{
    find_mod_link, is_healthy_response, poll_signal, relay_action, BackendSignal, HealthPoll,
    PollStep, RelayAction, RelayEvent, Supervisor, MAX_HEALTH_ATTEMPTS, worker_data_dir,
};
use ripper_launcher::launch::{check_executable, launch_result, spawn_failed, LaunchError};

fn run_poll(healthy_at: Option<u32>) -> (u32, PollStep) {
    let mut poll = HealthPoll::new();
    loop {
        let n = poll.attempts();
        let step = poll.record(Some(n) == healthy_at);
        if poll.finished() {
            return (poll.attempts(), step);
        }
    }
}

#[test]
fn poll_gives_up_after_the_budget() {
    let (attempts, step) = run_poll(None);
    assert_eq!(attempts, 60);
    assert_eq!(MAX_HEALTH_ATTEMPTS, 60);
    assert_eq!(step, PollStep::GiveUp);
    assert_eq!(poll_signal(step), Some(BackendSignal::StartupFailed));
}

#[test]
fn poll_stops_at_first_healthy_answer() {
    let (attempts, step) = run_poll(Some(4));
    assert_eq!(attempts, 5);
    assert_eq!(step, PollStep::Ready);
    assert_eq!(poll_signal(step), Some(BackendSignal::Ready));
    let (attempts, step) = run_poll(Some(59));
    assert_eq!(attempts, 60);
    assert_eq!(step, PollStep::Ready);
}

#[test]
fn poll_reports_progress_every_ten_attempts() {
    let mut poll = HealthPoll::new();
    let first = poll.record(false);
    assert_eq!(first, PollStep::Retry { attempt: 1, report_progress: false });
    for _ in 0..8 {
        poll.record(false);
    }
    assert_eq!(poll.record(false), PollStep::Retry { attempt: 10, report_progress: true });
    assert_eq!(poll_signal(first), None);
}

#[test]
fn health_response_needs_status_and_token() {
    assert!(is_healthy_response("HTTP/1.1 200 OK\r\n\r\n{\"status\":\"healthy\"}"));
    assert!(!is_healthy_response("HTTP/1.1 503 Service Unavailable\r\n\r\nunhealthy"));
    assert!(!is_healthy_response("HTTP/1.1 200 OK\r\n\r\n{}"));
    assert!(!is_healthy_response(""));
}

#[test]
fn terminate_twice_leaves_nothing() {
    let mut s: Supervisor<u32> = Supervisor::new();
    assert_eq!(s.attach(7), None);
    assert!(s.is_running());
    assert_eq!(s.terminate(), Some(7));
    assert_eq!(s.terminate(), None);
    assert!(!s.is_running());
}

#[test]
fn terminate_without_spawn_is_a_no_op() {
    let mut s: Supervisor<String> = Supervisor::new();
    assert_eq!(s.terminate(), None);
    assert!(!s.is_running());
}

#[test]
fn relay_treats_both_streams_alike() {
    assert_eq!(relay_action(RelayEvent::Stdout), RelayAction::LogInfo);
    assert_eq!(relay_action(RelayEvent::Stderr), RelayAction::LogInfo);
    assert_eq!(relay_action(RelayEvent::Terminated), RelayAction::ReportCrashed);
    assert_eq!(relay_action(RelayEvent::Error), RelayAction::LogErrorAndStop);
    assert_eq!(relay_action(RelayEvent::Other), RelayAction::Ignore);
    assert!(RelayAction::ReportCrashed.stops());
    assert!(!RelayAction::LogInfo.stops());
}

#[test]
fn signal_topics() {
    assert_eq!(BackendSignal::Ready.topic(), "backend-ready");
    assert_eq!(BackendSignal::Crashed.topic(), "backend-crashed");
    assert_eq!(BackendSignal::StartupFailed.topic(), "backend-startup-failed");
}

#[test]
fn first_mod_link_argument() {
    let argv = vec!["app.exe".to_string(), "nxm://cyberpunk/1".to_string(), "nxm://x".to_string()];
    assert_eq!(find_mod_link(&argv), Some(1));
    assert_eq!(find_mod_link(&vec!["app.exe".to_string()]), None);
}

#[test]
fn missing_executable_is_not_spawned() {
    let r = check_executable("C:\\Games\\CP\\bin\\x64\\Cyberpunk2077.exe".to_string(), false);
    match &r {
        Err(LaunchError::ExecutableNotFound { path }) => {
            assert_eq!(path, "C:\\Games\\CP\\bin\\x64\\Cyberpunk2077.exe")
        }
        _ => panic!("expected ExecutableNotFound"),
    }
    assert_eq!(
        launch_result(r, None),
        Err("Game executable not found: C:\\Games\\CP\\bin\\x64\\Cyberpunk2077.exe".to_string())
    );
}

#[test]
fn launch_outcomes() {
    let ok = check_executable("/bin/game".to_string(), true);
    assert!(matches!(ok, Ok(ref p) if p == "/bin/game"));
    assert_eq!(launch_result(ok, None), Ok(()));
    let ok = check_executable("/bin/game".to_string(), true);
    assert_eq!(
        launch_result(ok, Some("permission denied".to_string())),
        Err("Failed to launch game: permission denied".to_string())
    );
    assert_eq!(
        spawn_failed("bad format".to_string()).message(),
        "Failed to launch game: bad format"
    );
}

#[test]
fn data_dir_under_user_root_or_fallback() {
    assert_eq!(worker_data_dir(None), "./data");
    let sep = std::path::MAIN_SEPARATOR;
    assert_eq!(
        worker_data_dir(Some("/home/u/.local/share".to_string())),
        format!("/home/u/.local/share{}RipperModManager", sep)
    );
}
