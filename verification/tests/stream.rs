use podman_healthcheckd::events::{
    event_action, first_stream_step, first_watch_step, watch_events, watch_events_inner, Action, PodmanEvent, StreamEvent, StreamStep,
    WatchEvent, WatchStep,
};
use podman_healthcheckd::podman::HealthcheckConfig;
use podman_healthcheckd::tasks::TaskManager;
use std::time::Duration;

fn event(kind: &str, status: &str) -> PodmanEvent {
    PodmanEvent {
        id: "abc".to_string(),
        name: "web".to_string(),
        status: status.to_string(),
        kind: kind.to_string(),
    }
}

fn stops(action: Option<Action>) -> bool {
    match action {
        Some(Action::Stop { id }) => id == "abc",
        _ => false,
    }
}

fn starts(action: Option<Action>) -> bool {
    match action {
        Some(Action::Start { id, name }) => id == "abc" && name == "web",
        _ => false,
    }
}

#[test]
fn start_event_starts() {
    assert!(starts(event_action(event("container", "start"))));
}

#[test]
fn end_events_stop() {
    assert!(stops(event_action(event("container", "died"))));
    assert!(stops(event_action(event("container", "stop"))));
    assert!(stops(event_action(event("container", "remove"))));
}

#[test]
fn other_events_call_for_nothing() {
    assert!(event_action(event("container", "health_status")).is_none());
    assert!(event_action(event("container", "create")).is_none());
    assert!(event_action(event("container", "")).is_none());
    assert!(event_action(event("container", "Start")).is_none());
    assert!(event_action(event("pod", "start")).is_none());
    assert!(event_action(event("image", "remove")).is_none());
}

#[test]
fn lines_are_sent_or_passed_over() {
    match watch_events_inner(StreamEvent::Line(Some(event("container", "start")))) {
        StreamStep::Send(action) => assert!(starts(Some(action))),
        other => panic!("expected an action, got {:?}", other),
    }
    assert!(matches!(
        watch_events_inner(StreamEvent::Line(Some(event("pod", "start")))),
        StreamStep::Read
    ));
    assert!(matches!(watch_events_inner(StreamEvent::Line(None)), StreamStep::Read));
    assert!(matches!(watch_events_inner(StreamEvent::Sent(true)), StreamStep::Read));
}

#[test]
fn first_steps() {
    assert!(matches!(first_watch_step(), WatchStep::Stream));
    assert!(matches!(first_stream_step(), StreamStep::Read));
}

#[test]
fn lines_are_handed_on_in_order() {
    let lines = vec![
        Some(event("container", "start")),
        None,
        Some(event("pod", "start")),
        Some(event("container", "died")),
        Some(event("container", "exec")),
        Some(event("container", "start")),
    ];
    let mut sent = Vec::new();
    for line in lines {
        let mut step = watch_events_inner(StreamEvent::Line(line));
        if let StreamStep::Send(action) = step {
            sent.push(action);
            step = watch_events_inner(StreamEvent::Sent(true));
        }
        assert!(matches!(step, StreamStep::Read));
    }
    assert_eq!(sent.len(), 3);
    let mut sent = sent.into_iter();
    assert!(starts(sent.next()));
    assert!(stops(sent.next()));
    assert!(starts(sent.next()));
}

#[test]
fn stream_ends() {
    assert!(matches!(watch_events_inner(StreamEvent::Sent(false)), StreamStep::Close));
    assert!(matches!(watch_events_inner(StreamEvent::EndOfStream), StreamStep::Close));
    assert!(matches!(watch_events_inner(StreamEvent::Cancelled), StreamStep::Close));
    assert!(matches!(watch_events_inner(StreamEvent::ReadFailed), StreamStep::Fail));
}

#[test]
fn watcher_reconnects_after_five_seconds() {
    match watch_events(WatchEvent::StreamEnded { cancelled: false }) {
        WatchStep::Pause(d) => assert_eq!(d, Duration::from_secs(5)),
        other => panic!("expected a pause, got {:?}", other),
    }
    assert!(matches!(watch_events(WatchEvent::PauseElapsed), WatchStep::Stream));
}

#[test]
fn watcher_stops_on_shutdown() {
    assert!(matches!(
        watch_events(WatchEvent::StreamEnded { cancelled: true }),
        WatchStep::Stop
    ));
    assert!(matches!(watch_events(WatchEvent::Cancelled), WatchStep::Stop));
}

fn apply(manager: &mut TaskManager<u32>, action: Action) {
    match action {
        Action::Start { id, name } => {
            let config = HealthcheckConfig {
                test: vec![],
                interval: 0,
                timeout: 0,
                start_period: 0,
                retries: 0,
            };
            manager.start_container(id, name, Some(config), |_| 1);
        }
        Action::Stop { id } => {
            manager.stop_container(&id);
        }
    }
}

#[test]
fn end_event_undoes_start_event() {
    let mut manager: TaskManager<u32> = TaskManager::new();
    apply(&mut manager, event_action(event("container", "start")).unwrap());
    assert_eq!(manager.count(), 1);
    apply(&mut manager, event_action(event("container", "died")).unwrap());
    assert_eq!(manager.count(), 0);
    apply(&mut manager, event_action(event("container", "remove")).unwrap());
    assert_eq!(manager.count(), 0);
}
