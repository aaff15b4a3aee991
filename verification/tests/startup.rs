use podman_healthcheckd::paths::{lock_path, status_path};
use podman_healthcheckd::podman::{HealthcheckConfig, PsEntry};
use podman_healthcheckd::startup::{running_containers, ScanStep, StartupScan};
use podman_healthcheckd::tasks::TaskManager;
use podman_healthcheckd::timing::ns_to_duration;
use std::time::Duration;

fn entry(id: &str, names: &[&str], state: &str) -> PsEntry {
    PsEntry {
        id: id.to_string(),
        names: names.iter().map(|n| n.to_string()).collect(),
        state: state.to_string(),
    }
}

#[test]
fn running_containers_are_launched_in_order() {
    let entries = vec![
        entry("1", &["a", "b"], "running"),
        entry("2", &["c"], "exited"),
        entry("3", &[], "running"),
        entry("4", &["d"], "Running"),
        entry("5", &["e"], "running"),
    ];
    let launches = running_containers(&entries);
    let got: Vec<(&str, &str)> =
        launches.iter().map(|l| (l.id.as_str(), l.name.as_str())).collect();
    assert_eq!(got, vec![("1", "a"), ("3", ""), ("5", "e")]);
}

#[test]
fn good_listing_starts_at_once() {
    match StartupScan::new().enumerate_existing(Ok(vec![entry("1", &["a"], "running")])) {
        ScanStep::Start(launches) => {
            assert_eq!(launches.len(), 1);
            assert_eq!(launches[0].id, "1");
        }
        other => panic!("expected a start, got {:?}", other),
    }
    match StartupScan::new().enumerate_existing(Ok(vec![])) {
        ScanStep::Start(launches) => assert!(launches.is_empty()),
        other => panic!("expected a start, got {:?}", other),
    }
}

#[test]
fn fifth_failure_gives_up() {
    let mut scan = StartupScan::new();
    for n in 1..5 {
        match scan.enumerate_existing(Err(format!("failure {}", n))) {
            ScanStep::Retry { pause, scan: next } => {
                assert_eq!(pause, Duration::from_secs(3));
                assert_eq!(next.failed_attempts(), n);
                scan = next;
            }
            other => panic!("expected a retry, got {:?}", other),
        }
    }
    match scan.enumerate_existing(Err("failure 5".to_string())) {
        ScanStep::GiveUp { attempts, reason } => {
            assert_eq!(attempts, 5);
            assert_eq!(reason, "failure 5");
        }
        other => panic!("expected to give up, got {:?}", other),
    }
}

#[test]
fn listing_after_failures_still_starts() {
    let mut scan = StartupScan::new();
    for _ in 0..4 {
        match scan.enumerate_existing(Err("busy".to_string())) {
            ScanStep::Retry { scan: next, .. } => scan = next,
            other => panic!("expected a retry, got {:?}", other),
        }
    }
    assert!(matches!(
        scan.enumerate_existing(Ok(vec![entry("1", &["a"], "running")])),
        ScanStep::Start(_)
    ));
}

#[test]
fn scan_watches_running_containers_with_healthchecks() {
    let entries = vec![
        entry("1", &["checked"], "running"),
        entry("2", &["unchecked"], "running"),
        entry("3", &["checked"], "exited"),
        entry("1", &["again"], "running"),
    ];
    let mut manager: TaskManager<String> = TaskManager::new();
    for launch in running_containers(&entries) {
        let config = if launch.name == "unchecked" {
            None
        } else {
            Some(HealthcheckConfig {
                test: vec![],
                interval: 0,
                timeout: 0,
                start_period: 0,
                retries: 0,
            })
        };
        let label = launch.name.clone();
        manager.start_container(launch.id, launch.name, config, |_| label);
    }
    assert_eq!(manager.count(), 1);
    assert_eq!(manager.stop_container("1").unwrap().handle, "checked");
}

#[test]
fn paths_follow_the_runtime_directory() {
    assert_eq!(
        status_path(Some("/run/user/1000")),
        "/run/user/1000/podman-healthcheckd-status.json"
    );
    assert_eq!(status_path(None), "/run/podman-healthcheckd-status.json");
    assert_eq!(lock_path(Some("/run/user/1000")), "/run/user/1000/podman-healthcheckd.lock");
    assert_eq!(lock_path(None), "/tmp/podman-healthcheckd.lock");
    assert_eq!(lock_path(Some("")), "/podman-healthcheckd.lock");
    assert_ne!(status_path(Some("/tmp")), lock_path(Some("/tmp")));
}

#[test]
fn nanoseconds_become_durations() {
    assert_eq!(ns_to_duration(0), Duration::from_secs(30));
    assert_eq!(ns_to_duration(1), Duration::from_nanos(1));
    assert_eq!(ns_to_duration(1_500_000_000), Duration::from_millis(1500));
    assert_eq!(ns_to_duration(u64::MAX), Duration::from_nanos(u64::MAX));
}

#[test]
fn longer_settings_mean_longer_times() {
    let settings = [1, 2, 999_999_999, 1_000_000_000, 30_000_000_000, u64::MAX];
    for pair in settings.windows(2) {
        assert!(ns_to_duration(pair[0]) < ns_to_duration(pair[1]));
    }
    for ns in settings {
        assert_eq!(ns_to_duration(ns).as_nanos(), u128::from(ns));
        assert_eq!(ns_to_duration(0) == ns_to_duration(ns), ns == 30_000_000_000);
    }
    assert_eq!(ns_to_duration(0).as_nanos(), 30_000_000_000);
}
