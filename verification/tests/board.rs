use podman_healthcheckd::monitor::{HealthMonitor, LoopEvent};
use podman_healthcheckd::podman::HealthcheckConfig;
use podman_healthcheckd::status::{ContainerStatus, StatusBoard};

fn status(healthy: bool, consecutive_failures: u32, last_check: &str) -> ContainerStatus {
    ContainerStatus {
        name: "web".to_string(),
        healthy,
        consecutive_failures,
        last_check: last_check.to_string(),
    }
}

fn monitor(id: &str, retries: u32) -> HealthMonitor {
    let config =
        HealthcheckConfig { test: vec![], interval: 0, timeout: 0, start_period: 0, retries };
    HealthMonitor::new(id.to_string(), "web".to_string(), config)
}

#[test]
fn first_entry_is_news() {
    let mut board = StatusBoard::new();
    assert!(board.record("a".to_string(), status(true, 0, "t1")));
    let entry = board.get("a").unwrap();
    assert_eq!(entry.name, "web");
    assert!(entry.healthy);
    assert_eq!(entry.consecutive_failures, 0);
    assert_eq!(entry.last_check, "t1");
}

#[test]
fn repeated_verdict_is_no_news_but_is_entered() {
    let mut board = StatusBoard::new();
    assert!(board.record("a".to_string(), status(true, 0, "t1")));
    let mut renamed = status(true, 0, "t2");
    renamed.name = "other".to_string();
    assert!(!board.record("a".to_string(), renamed));
    assert_eq!(board.get("a").unwrap().last_check, "t2");
    assert_eq!(board.get("a").unwrap().name, "other");
}

#[test]
fn change_of_health_or_count_is_news() {
    let mut board = StatusBoard::new();
    board.record("a".to_string(), status(true, 0, "t1"));
    assert!(board.record("a".to_string(), status(true, 1, "t2")));
    assert!(board.record("a".to_string(), status(false, 1, "t3")));
    assert!(!board.record("a".to_string(), status(false, 1, "t4")));
}

#[test]
fn containers_do_not_touch_each_other() {
    let mut board = StatusBoard::new();
    board.record("a".to_string(), status(true, 0, "t1"));
    assert!(board.record("b".to_string(), status(false, 9, "t2")));
    assert!(!board.record("a".to_string(), status(true, 0, "t3")));
    board.remove("b");
    assert!(board.get("b").is_none());
    assert_eq!(board.get("a").unwrap().last_check, "t3");
}

#[test]
fn verdict_after_removal_is_news() {
    let mut board = StatusBoard::new();
    board.record("a".to_string(), status(true, 0, "t1"));
    board.remove("a");
    board.remove("missing");
    assert!(board.get("a").is_none());
    assert!(board.record("a".to_string(), status(true, 0, "t2")));
}

#[test]
fn clearing_empties_the_board() {
    let mut board = StatusBoard::new();
    board.record("a".to_string(), status(true, 0, "t1"));
    board.record("b".to_string(), status(true, 0, "t1"));
    board.clear_status();
    assert!(board.snapshot().is_empty());
    assert!(board.get("a").is_none());
}

#[test]
fn snapshot_holds_every_entry_once() {
    let mut board = StatusBoard::new();
    board.record("a".to_string(), status(true, 0, "t1"));
    board.record("b".to_string(), status(false, 3, "t2"));
    board.record("a".to_string(), status(true, 1, "t3"));
    let mut rows = board.snapshot();
    rows.sort_by(|x, y| x.0.cmp(&y.0));
    assert_eq!(rows.len(), 2);
    assert_eq!(rows[0].0, "a");
    assert_eq!(rows[0].1.last_check, "t3");
    assert_eq!(rows[1].0, "b");
    assert_eq!(rows[1].1.consecutive_failures, 3);
}

#[test]
fn monitor_is_entered_as_it_stands() {
    let mut board = StatusBoard::new();
    let mut m = monitor("a", 2);
    assert!(m.step(LoopEvent::CheckFinished(false)));
    assert!(board.record_at(&m, "2026-01-02T03:04:05+00:00".to_string()));
    let entry = board.get("a").unwrap();
    assert_eq!(entry.name, "web");
    assert!(entry.healthy);
    assert_eq!(entry.consecutive_failures, 1);
    assert_eq!(entry.last_check, "2026-01-02T03:04:05+00:00");
    assert!(!board.record_at(&m, "later".to_string()));
}

#[test]
fn entry_made_now_tells_the_time() {
    let before = chrono::Utc::now();
    let mut board = StatusBoard::new();
    let m = monitor("a", 1);
    assert!(board.record_now(&m));
    assert!(!board.record_now(&m));
    let after = chrono::Utc::now();
    let told = board.get("a").unwrap().last_check.clone();
    let moment_text = told.strip_suffix("+00:00").unwrap();
    let (date, time) = moment_text.split_once('T').unwrap();
    let shape: String =
        date.chars().map(|c| if c.is_ascii_digit() { '0' } else { c }).collect();
    assert_eq!(shape, "0000-00-00");
    let shape: String =
        time.chars().map(|c| if c.is_ascii_digit() { '0' } else { c }).collect();
    assert!(["00:00:00", "00:00:00.000", "00:00:00.000000", "00:00:00.000000000"]
        .contains(&shape.as_str()));
    let moment = chrono::DateTime::parse_from_rfc3339(&told).unwrap();
    assert!(before <= moment && moment <= after);
}

#[test]
fn steady_container_is_published_once() {
    let mut board = StatusBoard::new();
    let mut m = monitor("a", 3);
    let mut published = 0;
    for _ in 0..5 {
        assert!(m.step(LoopEvent::CheckFinished(true)));
        let changed = board.record_now(&m);
        assert!(m.step(LoopEvent::Recorded(changed)));
        if changed {
            published += 1;
            assert!(m.step(LoopEvent::Published));
        }
        assert!(m.step(LoopEvent::Elapsed));
    }
    assert_eq!(published, 1);
}
