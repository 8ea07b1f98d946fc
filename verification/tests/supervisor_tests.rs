use blocon::errors::StartupError;
use blocon::health::{health_address, health_request, response_indicates_healthy};
use blocon::supervisor::{
    Phase, PollOutcome, StartDecision, StreamTag, Supervisor, POLL_INTERVAL_MS, WAIT_BUDGET_MS,
};

#[test]
fn healthy_response_is_a_200_status_line() {
    assert!(response_indicates_healthy("HTTP/1.1 200 OK\r\n\r\n"));
    assert!(response_indicates_healthy("HTTP/1.0 200 OK\r\nContent-Length: 2\r\n\r\nok"));
    assert!(!response_indicates_healthy("HTTP/1.1 500 Internal Server Error\r\n\r\n"));
    assert!(!response_indicates_healthy("HTTP/1.1 404 Not Found\r\n\r\n"));
    assert!(!response_indicates_healthy(""));
    assert!(!response_indicates_healthy("garbage"));
}

#[test]
fn probe_request_and_address_are_fixed() {
    assert_eq!(health_address(), "127.0.0.1:8000");
    assert_eq!(
        health_request(),
        "GET /health HTTP/1.1\r\nHost: 127.0.0.1:8000\r\nConnection: close\r\n\r\n"
    );
}

#[test]
fn healthy_backend_is_reused_and_never_terminated() {
    let mut s = Supervisor::new();
    let d = s.on_probe(true);
    assert_eq!(d, StartDecision::UseExisting);
    assert_eq!(s.phase, Phase::Running);
    assert!(!s.owns_backend);
    // a later shutdown signal must not kill a backend we did not start
    assert!(!s.on_shutdown());
    assert_eq!(s.phase, Phase::Terminated);
}

#[test]
fn spawned_backend_is_terminated_exactly_once() {
    let mut s = Supervisor::new();
    assert_eq!(s.on_probe(false), StartDecision::SpawnBackend);
    s.on_spawned(true);
    assert!(s.owns_backend);
    assert_eq!(s.phase, Phase::Waiting);
    assert_eq!(s.on_poll_tick(true), PollOutcome::BackendReady);
    assert_eq!(s.phase, Phase::Running);
    assert!(s.on_shutdown());
    assert!(!s.on_shutdown());
    assert!(!s.on_shutdown());
}

#[test]
fn spawn_failure_is_fatal() {
    let mut s = Supervisor::new();
    s.on_probe(false);
    s.on_spawned(false);
    assert_eq!(s.phase, Phase::Failed);
    assert_eq!(s.failure, Some(StartupError::Spawn));
    assert!(!s.on_shutdown());
}

#[test]
fn exhausted_wait_budget_reports_health_timeout() {
    let mut s = Supervisor::new();
    s.on_probe(false);
    s.on_spawned(true);
    let polls = WAIT_BUDGET_MS / POLL_INTERVAL_MS;
    for i in 0..polls {
        let outcome = s.on_poll_tick(false);
        if i + 1 < polls {
            assert_eq!(outcome, PollOutcome::KeepWaiting);
        } else {
            // the poll that exhausts the budget kills the owned child
            assert_eq!(outcome, PollOutcome::TimedOut { terminate_child: true });
        }
    }
    assert_eq!(s.phase, Phase::Failed);
    assert_eq!(s.failure, Some(StartupError::HealthTimeout));
    assert!(!s.backend_alive);
    // the child was already terminated on failure
    assert!(!s.on_shutdown());
}

#[test]
fn output_log_keeps_tagged_lines_in_order() {
    let mut s = Supervisor::new();
    s.append_line(StreamTag::Stdout, "starting".to_string());
    s.append_line(StreamTag::Stderr, "warning: slow disk".to_string());
    s.append_line(StreamTag::Lifecycle, "listening".to_string());
    assert_eq!(s.log.len(), 3);
    assert_eq!(s.log[0].tag, StreamTag::Stdout);
    assert_eq!(s.log[0].text, "starting");
    assert_eq!(s.log[2].tag, StreamTag::Lifecycle);
    let recent = s.recent_lines(2);
    assert_eq!(recent, vec!["warning: slow disk".to_string(), "listening".to_string()]);
    let all = s.recent_lines(10);
    assert_eq!(all.len(), 3);
    assert_eq!(all[0], "starting");
}

#[test]
fn startup_error_messages_name_the_failure() {
    assert_eq!(StartupError::Spawn.message(), "backend process could not be started");
    assert_eq!(StartupError::HealthTimeout.message(), "backend health check timed out");
}
