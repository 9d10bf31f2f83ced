use api_supervisor::supervisor::{
    start_result, stop_result, ReadinessPoll, StartEvent, StopEvent, Supervisor, PROBE_ATTEMPTS,
    PROBE_INTERVAL_MS,
};

#[test]
fn status_reports_fixed_port_and_url() {
    let s: Supervisor<u32> = Supervisor::new(3838);
    let info = s.get_api_info();
    assert_eq!(info.port, 3838);
    assert_eq!(info.url, "http://localhost:3838");
}

#[test]
fn status_url_edge_ports() {
    let low: Supervisor<u32> = Supervisor::new(0);
    assert_eq!(low.get_api_info().url, "http://localhost:0");
    let high: Supervisor<u32> = Supervisor::new(65535);
    assert_eq!(high.get_api_info().url, "http://localhost:65535");
    let common: Supervisor<u32> = Supervisor::new(80);
    assert_eq!(common.get_api_info().url, "http://localhost:80");
}

#[test]
fn health_url_targets_health_path() {
    let s: Supervisor<u32> = Supervisor::new(3838);
    assert_eq!(s.health_url(), "http://localhost:3838/health");
}

#[test]
fn status_is_pure_across_start_and_stop() {
    let mut s: Supervisor<u32> = Supervisor::new(3838);
    let before = s.get_api_info();
    s.record_child(7);
    let running = s.get_api_info();
    s.take_child();
    let after = s.get_api_info();
    assert_eq!(before.port, running.port);
    assert_eq!(before.url, running.url);
    assert_eq!(running.port, after.port);
    assert_eq!(running.url, after.url);
}

#[test]
fn start_is_idempotent() {
    let mut s: Supervisor<u32> = Supervisor::new(3838);
    assert!(!s.is_running());
    let mut spawned = 0u32;

    // First start: nothing tracked, so it spawns and records one child.
    if !s.is_running() {
        spawned += 1;
        s.record_child(11);
    }
    let first = start_result(3838, StartEvent::Ready);
    assert_eq!(first, Ok("API server started on port 3838".to_string()));

    // Second start: the check answers "running", so nothing is spawned.
    assert!(s.is_running());
    if !s.is_running() {
        spawned += 1;
        s.record_child(12);
    }
    let second = start_result(3838, StartEvent::AlreadyRunning);
    assert_eq!(second, Ok("API server already running on port 3838".to_string()));
    assert_eq!(spawned, 1);
}

#[test]
fn stop_is_idempotent() {
    let mut s: Supervisor<u32> = Supervisor::new(3838);
    s.record_child(9);

    let first_taken = s.take_child();
    assert_eq!(first_taken, Some(9));
    let first = stop_result(StopEvent::Killed);
    assert_eq!(first, Ok("API server stopped".to_string()));

    let second_taken = s.take_child();
    assert_eq!(second_taken, None);
    let second = stop_result(StopEvent::NotRunning);
    assert_eq!(second, Ok("No API server running".to_string()));
}

#[test]
fn exclusive_take_one_winner() {
    let mut s: Supervisor<u32> = Supervisor::new(3838);
    s.record_child(21);
    let mut winners = 0u32;
    let mut losers = 0u32;
    for _ in 0..5 {
        match s.take_child() {
            Some(h) => {
                assert_eq!(h, 21);
                winners += 1;
            }
            None => losers += 1,
        }
    }
    assert_eq!(winners, 1);
    assert_eq!(losers, 4);
}

#[test]
fn readiness_timeout_spends_full_budget() {
    let mut p = ReadinessPoll::new();
    let mut failures = 0u32;
    while !p.exhausted() {
        p.record_failure();
        failures += 1;
    }
    assert_eq!(failures, PROBE_ATTEMPTS);
    assert_eq!(failures as u64 * PROBE_INTERVAL_MS, 15000);
    let r = start_result(3838, StartEvent::TimedOut);
    assert_eq!(
        r,
        Err("API server failed to start within 15 seconds".to_string())
    );
}

#[test]
fn spawn_failure_message() {
    let r = start_result(3838, StartEvent::SpawnFailed("No such file".to_string()));
    assert_eq!(r, Err("Failed to start API server: No such file".to_string()));
}

#[test]
fn kill_failure_message() {
    let r = stop_result(StopEvent::KillFailed("Operation not permitted".to_string()));
    assert_eq!(r, Err("Failed to kill: Operation not permitted".to_string()));
}

#[test]
fn teardown_leaves_nothing_tracked() {
    let mut s: Supervisor<u32> = Supervisor::new(3838);
    s.record_child(33);
    // Teardown: the same exclusive take, with the kill result discarded.
    let _ = s.take_child();
    assert!(!s.is_running());
    assert_eq!(s.take_child(), None);
}

#[test]
fn scenario_ready_on_fifth_probe() {
    // Port 3838, against a backend that answers /health only from its
    // fifth probe on: start succeeds on the fifth attempt, well inside
    // the budget, and a later stop takes and kills the one process.
    let mut s: Supervisor<u32> = Supervisor::new(3838);
    assert!(!s.is_running());
    s.record_child(41);

    let mut p = ReadinessPoll::new();
    let mut outcome = None;
    let mut probes_sent = 0u32;
    while outcome.is_none() && !p.exhausted() {
        probes_sent += 1;
        let answered_ok = probes_sent >= 5;
        if answered_ok {
            outcome = Some(start_result(3838, StartEvent::Ready));
        } else {
            p.record_failure();
        }
    }
    assert_eq!(probes_sent, 5);
    assert!(probes_sent as u64 * PROBE_INTERVAL_MS <= 3000);
    assert_eq!(
        outcome.unwrap(),
        Ok("API server started on port 3838".to_string())
    );

    let taken = s.take_child();
    assert_eq!(taken, Some(41));
    assert_eq!(
        stop_result(StopEvent::Killed),
        Ok("API server stopped".to_string())
    );
    assert!(!s.is_running());
}
