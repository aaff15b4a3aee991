use podman_healthcheckd::monitor::{HealthMonitor, LoopAction, LoopEvent};
use podman_healthcheckd::podman::HealthcheckConfig;
use std::time::Duration;

fn config(start_period: u64, retries: u32) -> HealthcheckConfig {
    HealthcheckConfig {
        test: vec!["CMD".to_string(), "true".to_string()],
        interval: 10_000_000_000,
        timeout: 2_500_000_000,
        start_period,
        retries,
    }
}

fn monitor(start_period: u64, retries: u32) -> HealthMonitor {
    HealthMonitor::new("c1".to_string(), "web".to_string(), config(start_period, retries))
}

fn assert_sleep(action: LoopAction, expected: Duration) {
    match action {
        LoopAction::Sleep(d) => assert_eq!(d, expected),
        other => panic!("expected a sleep, got {:?}", other),
    }
}

fn assert_check(m: &HealthMonitor, expected: Duration) {
    match m.action() {
        LoopAction::RunCheck(d) => assert_eq!(d, expected),
        other => panic!("expected a check, got {:?}", other),
    }
}

fn assert_record(m: &HealthMonitor, want_healthy: bool, want_failures: u32) {
    match m.action() {
        LoopAction::Record { healthy, consecutive_failures } => {
            assert_eq!(healthy, want_healthy);
            assert_eq!(consecutive_failures, want_failures);
        }
        other => panic!("expected a record, got {:?}", other),
    }
}

fn finish_round(m: &mut HealthMonitor, changed: bool) {
    assert!(m.step(LoopEvent::Recorded(changed)));
    if changed {
        assert!(matches!(m.action(), LoopAction::Publish));
        assert!(m.step(LoopEvent::Published));
    }
    assert_sleep(m.action(), Duration::from_secs(10));
    assert!(m.step(LoopEvent::Elapsed));
}

#[test]
fn start_period_is_waited_for() {
    let mut m = monitor(7_000_000_000, 3);
    assert_sleep(m.action(), Duration::from_secs(7));
    assert!(m.step(LoopEvent::Elapsed));
    assert_check(&m, Duration::from_millis(2500));
}

#[test]
fn no_start_period_means_no_wait() {
    let m = monitor(0, 3);
    assert_check(&m, Duration::from_millis(2500));
    assert_eq!(m.id(), "c1");
    assert_eq!(m.name(), "web");
    assert_eq!(m.retries(), 3);
}

#[test]
fn zero_settings_take_the_default() {
    let mut m = HealthMonitor::new(
        "c".to_string(),
        "n".to_string(),
        HealthcheckConfig { test: vec![], interval: 0, timeout: 0, start_period: 0, retries: 0 },
    );
    assert_check(&m, Duration::from_secs(30));
    assert!(m.step(LoopEvent::CheckFinished(true)));
    assert!(m.step(LoopEvent::Recorded(false)));
    assert_sleep(m.action(), Duration::from_secs(30));
}

#[test]
fn unhealthy_from_the_threshold_on() {
    let mut m = monitor(0, 3);
    for n in 1..8 {
        assert!(m.step(LoopEvent::CheckFinished(false)));
        assert_record(&m, n < 3, n);
        assert_eq!(m.is_healthy(), n < 3);
        assert_eq!(m.consecutive_failures(), n);
        finish_round(&mut m, n % 2 == 0);
    }
}

#[test]
fn no_retries_count_as_one() {
    let mut m = monitor(0, 0);
    assert_eq!(m.threshold(), 1);
    assert!(m.step(LoopEvent::CheckFinished(false)));
    assert_record(&m, false, 1);
}

#[test]
fn passed_check_restores_health() {
    let mut m = monitor(0, 1);
    assert!(m.step(LoopEvent::CheckFinished(false)));
    assert_record(&m, false, 1);
    finish_round(&mut m, true);
    assert!(m.step(LoopEvent::CheckFinished(true)));
    assert_record(&m, true, 0);
    finish_round(&mut m, true);
    assert!(m.step(LoopEvent::CheckFinished(false)));
    assert_record(&m, false, 1);
}

#[test]
fn healthcheck_run_is_the_only_command() {
    let mut m = monitor(5, 1);
    assert_eq!(m.command(), None);
    assert!(m.step(LoopEvent::Elapsed));
    for n in 0..6 {
        let args = m.command().unwrap();
        assert_eq!(args, ["healthcheck", "run", "c1"]);
        assert!(m.step(LoopEvent::CheckFinished(n == 3)));
        assert_eq!(m.command(), None);
        assert!(m.step(LoopEvent::Recorded(true)));
        assert_eq!(m.command(), None);
        assert!(m.step(LoopEvent::Published));
        assert_eq!(m.command(), None);
        assert!(m.step(LoopEvent::Elapsed));
    }
    assert!(m.step(LoopEvent::Cancelled));
    assert_eq!(m.command(), None);
}

#[test]
fn cancellation_stops_waits_and_checks() {
    let mut starting = monitor(1, 1);
    assert!(starting.step(LoopEvent::Cancelled));
    assert!(matches!(starting.action(), LoopAction::Stop));
    let mut checking = monitor(0, 1);
    assert!(checking.step(LoopEvent::Cancelled));
    assert!(matches!(checking.action(), LoopAction::Stop));
    let mut waiting = monitor(0, 1);
    assert!(waiting.step(LoopEvent::CheckFinished(true)));
    assert!(waiting.step(LoopEvent::Recorded(false)));
    assert!(waiting.step(LoopEvent::Cancelled));
    assert!(matches!(waiting.action(), LoopAction::Stop));
    assert!(!waiting.step(LoopEvent::Elapsed));
    assert!(matches!(waiting.action(), LoopAction::Stop));
}

#[test]
fn cancellation_is_not_looked_at_during_report() {
    let mut m = monitor(0, 1);
    assert!(m.step(LoopEvent::CheckFinished(false)));
    assert!(!m.step(LoopEvent::Cancelled));
    assert_record(&m, false, 1);
    assert!(m.step(LoopEvent::Recorded(true)));
    assert!(!m.step(LoopEvent::Cancelled));
    assert!(matches!(m.action(), LoopAction::Publish));
}

#[test]
fn events_out_of_place_change_nothing() {
    let mut m = monitor(0, 1);
    assert!(!m.step(LoopEvent::Elapsed));
    assert!(!m.step(LoopEvent::Recorded(true)));
    assert!(!m.step(LoopEvent::Published));
    assert_check(&m, Duration::from_millis(2500));
    assert_eq!(m.consecutive_failures(), 0);
}
