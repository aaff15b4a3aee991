use podman_healthcheckd::monitor::LoopAction;
use podman_healthcheckd::podman::HealthcheckConfig;
use podman_healthcheckd::tasks::TaskManager;
use std::time::Duration;

fn config(timeout: u64) -> Option<HealthcheckConfig> {
    Some(HealthcheckConfig { test: vec![], interval: 0, timeout, start_period: 0, retries: 1 })
}

#[test]
fn start_spawns_a_fresh_monitor() {
    let mut manager: TaskManager<String> = TaskManager::new();
    let started = manager.start_container(
        "a".to_string(),
        "web".to_string(),
        config(4_000_000_000),
        |monitor| {
            assert_eq!(monitor.id(), "a");
            assert_eq!(monitor.name(), "web");
            assert_eq!(monitor.consecutive_failures(), 0);
            match monitor.action() {
                LoopAction::RunCheck(d) => assert_eq!(d, Duration::from_secs(4)),
                other => panic!("expected a check, got {:?}", other),
            }
            "handle".to_string()
        },
    );
    assert!(started);
    assert!(manager.is_watched("a"));
    assert_eq!(manager.count(), 1);
}

#[test]
fn second_start_keeps_the_first_loop() {
    let mut manager: TaskManager<u32> = TaskManager::new();
    assert!(manager.start_container("a".to_string(), "one".to_string(), config(0), |_| 1));
    let again = manager.start_container("a".to_string(), "two".to_string(), config(0), |_| {
        panic!("spawned twice")
    });
    assert!(!again);
    let task = manager.stop_container("a").unwrap();
    assert_eq!(task.name, "one");
    assert_eq!(task.handle, 1);
}

#[test]
fn container_without_healthcheck_is_not_watched() {
    let mut manager: TaskManager<u32> = TaskManager::new();
    let started = manager
        .start_container("a".to_string(), "web".to_string(), None, |_| panic!("spawned"));
    assert!(!started);
    assert!(!manager.is_watched("a"));
    assert_eq!(manager.count(), 0);
}

#[test]
fn stop_undoes_start() {
    let mut manager: TaskManager<u32> = TaskManager::new();
    manager.start_container("a".to_string(), "x".to_string(), config(0), |_| 1);
    manager.start_container("b".to_string(), "y".to_string(), config(0), |_| 2);
    assert_eq!(manager.stop_container("a").unwrap().handle, 1);
    assert!(manager.stop_container("a").is_none());
    assert!(!manager.is_watched("a"));
    assert!(manager.is_watched("b"));
    assert_eq!(manager.count(), 1);
    assert!(manager.start_container("a".to_string(), "x".to_string(), config(0), |_| 3));
    assert_eq!(manager.stop_container("a").unwrap().handle, 3);
}

#[test]
fn stop_all_gives_back_every_loop() {
    let mut manager: TaskManager<u32> = TaskManager::new();
    manager.start_container("a".to_string(), "x".to_string(), config(0), |_| 1);
    manager.start_container("b".to_string(), "y".to_string(), config(0), |_| 2);
    manager.start_container("c".to_string(), "z".to_string(), config(0), |_| 3);
    let mut stopped: Vec<(String, String, u32)> =
        manager.stop_all().into_iter().map(|(id, t)| (id, t.name, t.handle)).collect();
    stopped.sort();
    let expected = vec![
        ("a".to_string(), "x".to_string(), 1),
        ("b".to_string(), "y".to_string(), 2),
        ("c".to_string(), "z".to_string(), 3),
    ];
    assert_eq!(stopped, expected);
    assert_eq!(manager.count(), 0);
    assert!(manager.stop_all().is_empty());
}

#[test]
fn ids_are_compared_whole() {
    let mut manager: TaskManager<u32> = TaskManager::new();
    manager.start_container("abc".to_string(), "x".to_string(), config(0), |_| 1);
    assert!(!manager.is_watched("ab"));
    assert!(!manager.is_watched("abcd"));
    assert!(!manager.is_watched("abd"));
    assert!(!manager.is_watched(""));
    assert!(manager.is_watched("abc"));
}

#[test]
fn watched_container_is_not_inspected() {
    let mut manager: TaskManager<u32> = TaskManager::new();
    assert_eq!(manager.inspection("a").unwrap(), ["inspect", "a"]);
    manager.start_container("a".to_string(), "x".to_string(), config(0), |_| 1);
    assert!(manager.inspection("a").is_none());
    assert_eq!(manager.inspection("b").unwrap(), ["inspect", "b"]);
    manager.stop_container("a");
    assert_eq!(manager.inspection("a").unwrap(), ["inspect", "a"]);
}

#[test]
fn one_loop_is_spawned_for_each_container() {
    let mut manager: TaskManager<u32> = TaskManager::new();
    let mut spawned = 0;
    let starts = [("a", false), ("a", true), ("b", true), ("a", true), ("c", false), ("a", false)];
    for (id, checked) in starts {
        let settings = if checked { config(0) } else { None };
        manager.start_container(id.to_string(), "x".to_string(), settings, |_| {
            spawned += 1;
            spawned
        });
    }
    assert_eq!(spawned, 2);
    assert_eq!(manager.count(), 2);
}
