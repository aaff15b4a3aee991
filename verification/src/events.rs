//! The stream of container events: what each event calls for, and how long the stream
//! is kept up.

use crate::tasks::{started_with, Task};
use crate::text::same_text;
use crate::timing::{span, total_nanos, NANOS_PER_SEC};
use std::time::Duration;
use vstd::prelude::*;

verus! {

/// Seconds from the end of one event stream to the start of the next.
pub const RECONNECT_SECS: u64 = 5;

/// An event as `podman events` reports it. `kind` is the type of the thing it is about.
#[derive(Debug)]
pub struct PodmanEvent {
    pub id: String,
    pub name: String,
    pub status: String,
    pub kind: String,
}

/// What an event calls for.
#[derive(Debug)]
pub enum Action {
    /// The container runs: watch it.
    Start { id: String, name: String },
    /// The container runs no longer: stop watching it.
    Stop { id: String },
}

/// The statuses of a container that runs no longer.
pub open spec fn is_end(status: Seq<char>) -> bool {
    status == "died"@ || status == "stop"@ || status == "remove"@
}

/// What an event calls for: nothing, unless it is about the start or the end of a
/// container.
pub open spec fn action_of(event: PodmanEvent) -> Option<Action> {
    if event.kind@ != "container"@ {
        None
    } else if event.status@ == "start"@ {
        Some(Action::Start { id: event.id, name: event.name })
    } else if is_end(event.status@) {
        Some(Action::Stop { id: event.id })
    } else {
        None
    }
}

/// What the event calls for.
pub fn event_action(event: PodmanEvent) -> (res: Option<Action>)
    ensures
        res == action_of(event),
        res matches Some(Action::Start { .. }) <==> event.kind@ == "container"@ && event.status@
            == "start"@,
        res matches Some(Action::Stop { .. }) <==> event.kind@ == "container"@ && (event.status@
            == "died"@ || event.status@ == "stop"@ || event.status@ == "remove"@),
        res matches Some(Action::Start { id, name }) ==> id == event.id && name == event.name,
        res matches Some(Action::Stop { id }) ==> id == event.id,
{
    proof {
        lemma_statuses_differ();
    }
    if !same_text(event.kind.as_str(), "container") {
        return None;
    }
    let status: &str = event.status.as_str();
    if same_text(status, "start") {
        Some(Action::Start { id: event.id, name: event.name })
    } else if same_text(status, "died") || same_text(status, "stop") || same_text(
        status,
        "remove",
    ) {
        Some(Action::Stop { id: event.id })
    } else {
        None
    }
}

/// What happened to an event stream.
#[derive(Debug)]
pub enum StreamEvent {
    /// A line came, and reads as this event, or as none.
    Line(Option<PodmanEvent>),
    /// The stream came to its end.
    EndOfStream,
    /// The stream could not be read.
    ReadFailed,
    /// The daemon is shutting down.
    Cancelled,
    /// An action was handed on, or found nobody to take it.
    Sent(bool),
}

/// What is to be done with an event stream.
#[derive(Debug)]
pub enum StreamStep {
    /// Wait for the next line, or until cancelled.
    Read,
    /// Hand on this action.
    Send(Action),
    /// End the command behind the stream; the stream is done.
    Close,
    /// Give up the stream with the error of the read.
    Fail,
}

/// What is to be done after an event. A line that does not read as an event, or whose
/// event calls for nothing, is passed over.
pub open spec fn stream_step(event: StreamEvent) -> StreamStep {
    match event {
        StreamEvent::Line(Some(event)) => match action_of(event) {
            Some(action) => StreamStep::Send(action),
            None => StreamStep::Read,
        },
        StreamEvent::Line(None) => StreamStep::Read,
        StreamEvent::EndOfStream => StreamStep::Close,
        StreamEvent::ReadFailed => StreamStep::Fail,
        StreamEvent::Cancelled => StreamStep::Close,
        StreamEvent::Sent(taken) => if taken {
            StreamStep::Read
        } else {
            StreamStep::Close
        },
    }
}

/// The first step of an event stream that was just opened: to read.
pub fn first_stream_step() -> (res: StreamStep)
    ensures
        res == StreamStep::Read,
{
    StreamStep::Read
}

/// The next step of an open event stream.
pub fn watch_events_inner(event: StreamEvent) -> (res: StreamStep)
    ensures
        res == stream_step(event),
{
    match event {
        StreamEvent::Line(Some(event)) => match event_action(event) {
            Some(action) => StreamStep::Send(action),
            None => StreamStep::Read,
        },
        StreamEvent::Line(None) => StreamStep::Read,
        StreamEvent::EndOfStream => StreamStep::Close,
        StreamEvent::ReadFailed => StreamStep::Fail,
        StreamEvent::Cancelled => StreamStep::Close,
        StreamEvent::Sent(taken) => if taken {
            StreamStep::Read
        } else {
            StreamStep::Close
        },
    }
}

/// What happened to the watcher, which keeps an event stream up.
#[derive(Clone, Copy, Debug)]
pub enum WatchEvent {
    /// The stream closed or failed. The daemon may be shutting down by then.
    StreamEnded { cancelled: bool },
    /// The pause is over.
    PauseElapsed,
    /// The daemon is shutting down.
    Cancelled,
}

/// What the watcher is to do.
#[derive(Clone, Copy, Debug)]
pub enum WatchStep {
    /// Open an event stream.
    Stream,
    /// Wait for this long, or until cancelled.
    Pause(Duration),
    /// End the watcher.
    Stop,
}

/// What the watcher is to do after an event.
pub open spec fn watch_step(event: WatchEvent) -> WatchStep {
    match event {
        WatchEvent::StreamEnded { cancelled } => if cancelled {
            WatchStep::Stop
        } else {
            WatchStep::Pause(span((RECONNECT_SECS * NANOS_PER_SEC) as u64))
        },
        WatchEvent::PauseElapsed => WatchStep::Stream,
        WatchEvent::Cancelled => WatchStep::Stop,
    }
}

/// The first step of the watcher: to open an event stream.
pub fn first_watch_step() -> (res: WatchStep)
    ensures
        res == WatchStep::Stream,
{
    WatchStep::Stream
}

/// The next step of the watcher.
pub fn watch_events(event: WatchEvent) -> (res: WatchStep)
    ensures
        res == watch_step(event),
        res matches WatchStep::Pause(pause) ==> total_nanos(pause) == RECONNECT_SECS
            * NANOS_PER_SEC,
        res matches WatchStep::Pause(pause) ==> total_nanos(pause) == 5_000_000_000,
        res is Pause <==> event == (WatchEvent::StreamEnded { cancelled: false }),
        res is Stream <==> event == WatchEvent::PauseElapsed,
        res is Stop <==> event == WatchEvent::Cancelled || event == (WatchEvent::StreamEnded {
            cancelled: true,
        }),
{
    match event {
        WatchEvent::StreamEnded { cancelled } => if cancelled {
            WatchStep::Stop
        } else {
            WatchStep::Pause(Duration::from_secs(RECONNECT_SECS))
        },
        WatchEvent::PauseElapsed => WatchStep::Stream,
        WatchEvent::Cancelled => WatchStep::Stop,
    }
}

/// The register of check loops after an action. `handle` is that of the loop that a
/// started container gets if it has a healthcheck.
pub open spec fn applied<H>(
    tasks: Map<Seq<char>, Task<H>>,
    action: Action,
    handle: Option<H>,
) -> Map<Seq<char>, Task<H>> {
    match action {
        Action::Start { id, name } => started_with(tasks, id@, name, handle),
        Action::Stop { id } => tasks.remove(id@),
    }
}

/// What a line calls for: what its event does, or nothing where it reads as none.
pub open spec fn called_for(line: Option<PodmanEvent>) -> Option<Action> {
    match line {
        Some(event) => action_of(event),
        None => None,
    }
}

/// The step after a line was dealt with, an action that it called for being taken.
pub open spec fn step_after_line(line: Option<PodmanEvent>) -> StreamStep {
    match stream_step(StreamEvent::Line(line)) {
        StreamStep::Send(_) => stream_step(StreamEvent::Sent(true)),
        step => step,
    }
}

/// The actions that a stream hands on as it reads the lines one after the other, every
/// action being taken.
pub open spec fn actions_sent(lines: Seq<Option<PodmanEvent>>) -> Seq<Action>
    decreases lines.len(),
{
    if lines.len() == 0 {
        Seq::empty()
    } else {
        let earlier = actions_sent(lines.drop_last());
        match stream_step(StreamEvent::Line(lines.last())) {
            StreamStep::Send(action) => earlier.push(action),
            _ => earlier,
        }
    }
}

/// No line ends a stream: once it is dealt with, the stream reads on.
pub proof fn law_stream_reads_on_after_a_line(line: Option<PodmanEvent>)
    ensures
        step_after_line(line) == StreamStep::Read,
{
}

/// The actions handed on are what the lines call for, in order, each once.
pub proof fn law_lines_are_handed_on_in_order(lines: Seq<Option<PodmanEvent>>)
    ensures
        actions_sent(lines) == lines.map_values(|line| called_for(line)).filter(
            |action: Option<Action>| action is Some,
        ).map_values(|action: Option<Action>| action->0),
    decreases lines.len(),
{
    let calls = lines.map_values(|line| called_for(line));
    let some = |action: Option<Action>| action is Some;
    let value = |action: Option<Action>| action->0;
    reveal(Seq::filter);
    if lines.len() == 0 {
        assert(calls.filter(some).map_values(value) =~= Seq::<Action>::empty());
    } else {
        let earlier = lines.drop_last();
        law_lines_are_handed_on_in_order(earlier);
        let earlier_calls = earlier.map_values(|line| called_for(line));
        assert(calls.drop_last() =~= earlier_calls);
        assert(calls.last() == called_for(lines.last()));
        if called_for(lines.last()) is Some {
            assert(calls.filter(some) == earlier_calls.filter(some).push(calls.last()));
            assert(calls.filter(some).map_values(value) =~= earlier_calls.filter(some).map_values(
                value,
            ).push(calls.last()->0));
        } else {
            assert(calls.filter(some) == earlier_calls.filter(some));
        }
    }
}

/// The actions of two runs of lines follow one another.
pub proof fn law_actions_follow_one_another(
    first: Seq<Option<PodmanEvent>>,
    second: Seq<Option<PodmanEvent>>,
)
    ensures
        actions_sent(first + second) == actions_sent(first) + actions_sent(second),
    decreases second.len(),
{
    if second.len() == 0 {
        assert(first + second =~= first);
        assert(actions_sent(first) + actions_sent(second) =~= actions_sent(first));
    } else {
        law_actions_follow_one_another(first, second.drop_last());
        assert((first + second).drop_last() =~= first + second.drop_last());
        assert((first + second).last() == second.last());
        assert(actions_sent(first + second) =~= actions_sent(first) + actions_sent(second));
    }
}

/// A line that reads as no event, or whose event calls for nothing, makes no difference
/// wherever it stands.
pub proof fn law_other_lines_make_no_difference(
    before: Seq<Option<PodmanEvent>>,
    line: Option<PodmanEvent>,
    after: Seq<Option<PodmanEvent>>,
)
    requires
        called_for(line) is None,
    ensures
        actions_sent(before.push(line) + after) == actions_sent(before + after),
{
    law_actions_follow_one_another(before.push(line), after);
    law_actions_follow_one_another(before, after);
    assert(before.push(line).drop_last() =~= before);
}

/// Events about anything but a container call for nothing.
pub proof fn law_only_containers_matter(event: PodmanEvent)
    requires
        event.kind@ != "container"@,
    ensures
        stream_step(StreamEvent::Line(Some(event))) == StreamStep::Read,
{
}

/// The start of a container and its end undo each other.
pub proof fn law_end_event_undoes_start_event<H>(
    tasks: Map<Seq<char>, Task<H>>,
    start: PodmanEvent,
    end: PodmanEvent,
    handle: Option<H>,
)
    requires
        start.kind@ == "container"@,
        start.status@ == "start"@,
        end.kind@ == "container"@,
        is_end(end.status@),
        end.id@ == start.id@,
        !tasks.contains_key(start.id@),
    ensures
        action_of(start) is Some,
        action_of(end) is Some,
        applied(applied(tasks, action_of(start)->0, handle), action_of(end)->0, None) == tasks,
{
    reveal_strlit("start");
    reveal_strlit("died");
    reveal_strlit("stop");
    reveal_strlit("remove");
    assert("start"@.len() == 5);
    assert("start"@ != "died"@);
    assert("start"@ != "stop"@);
    assert("start"@ != "remove"@);
    assert(applied(applied(tasks, action_of(start)->0, handle), action_of(end)->0, None) =~= tasks);
}

/// The end of a container may be reported more than once: only the first report
/// changes anything.
pub proof fn law_repeated_end_changes_nothing<H>(
    tasks: Map<Seq<char>, Task<H>>,
    first: PodmanEvent,
    second: PodmanEvent,
    handle: Option<H>,
)
    requires
        action_of(first) matches Some(Action::Stop { .. }),
        action_of(second) matches Some(Action::Stop { .. }),
        first.id@ == second.id@,
    ensures
        applied(applied(tasks, action_of(first)->0, handle), action_of(second)->0, handle)
            == applied(tasks, action_of(first)->0, handle),
{
    let once = applied(tasks, action_of(first)->0, handle);
    assert(applied(once, action_of(second)->0, handle) =~= once);
}

/// The watcher ends only on shutdown: a stream that ended otherwise is opened again
/// after the pause.
pub proof fn law_watcher_ends_only_on_shutdown(event: WatchEvent)
    ensures
        watch_step(event) == WatchStep::Stop <==> event == WatchEvent::Cancelled || event == (
        WatchEvent::StreamEnded { cancelled: true }),
        event == (WatchEvent::StreamEnded { cancelled: false }) ==> watch_step(event) is Pause,
        event == WatchEvent::PauseElapsed ==> watch_step(event) == WatchStep::Stream,
{
}

proof fn lemma_statuses_differ()
    ensures
        "start"@ != "died"@,
        "start"@ != "stop"@,
        "start"@ != "remove"@,
{
    reveal_strlit("start");
    reveal_strlit("died");
    reveal_strlit("stop");
    reveal_strlit("remove");
    assert("start"@.len() == 5);
    assert("died"@.len() == 4);
    assert("stop"@.len() == 4);
    assert("remove"@.len() == 6);
}

/// An event calls for a start exactly where it is about a container with the status
/// `start`, and for a stop exactly where it is about one with the status `died`, `stop`
/// or `remove`; any other status calls for nothing. The action is about the container of
/// the event.
pub proof fn law_statuses_that_call_for_something(event: PodmanEvent)
    ensures
        action_of(event) matches Some(Action::Start { .. }) <==> event.kind@ == "container"@
            && event.status@ == "start"@,
        action_of(event) matches Some(Action::Stop { .. }) <==> event.kind@ == "container"@ && (
        event.status@ == "died"@ || event.status@ == "stop"@ || event.status@ == "remove"@),
        event.status@ != "start"@ && event.status@ != "died"@ && event.status@ != "stop"@
            && event.status@ != "remove"@ ==> action_of(event) is None,
        action_of(event) matches Some(Action::Start { id, name }) ==> id == event.id && name
            == event.name,
        action_of(event) matches Some(Action::Stop { id }) ==> id == event.id,
{
    lemma_statuses_differ();
}

/// An event calls for the same whatever container it is about: its kind and its status
/// decide, and its id and its name do not.
pub proof fn law_every_container_is_treated_alike(a: PodmanEvent, b: PodmanEvent)
    requires
        a.kind@ == b.kind@,
        a.status@ == b.status@,
    ensures
        action_of(a) is None <==> action_of(b) is None,
        action_of(a) matches Some(Action::Start { .. }) <==> action_of(b) matches Some(
            Action::Start { .. },
        ),
{
    law_statuses_that_call_for_something(a);
    law_statuses_that_call_for_something(b);
}

/// A stream closes exactly at its end, on shutdown, or when nobody takes an action; it
/// fails exactly when it cannot be read; it hands on exactly the starts and ends of
/// containers; and after anything else it reads on.
pub proof fn law_what_a_stream_does(event: StreamEvent)
    ensures
        stream_step(event) is Close <==> event is EndOfStream || event is Cancelled || event
            == StreamEvent::Sent(false),
        stream_step(event) is Fail <==> event is ReadFailed,
        stream_step(event) is Send <==> (event matches StreamEvent::Line(Some(e)) && e.kind@
            == "container"@ && (e.status@ == "start"@ || e.status@ == "died"@ || e.status@
            == "stop"@ || e.status@ == "remove"@)),
        event matches StreamEvent::Line(Some(e)) ==> (stream_step(event) matches StreamStep::Send(
            Action::Start { id, name },
        ) ==> e.status@ == "start"@ && id == e.id && name == e.name),
        event matches StreamEvent::Line(Some(e)) ==> (stream_step(event) matches StreamStep::Send(
            Action::Stop { id },
        ) ==> e.status@ != "start"@ && id == e.id),
{
    lemma_statuses_differ();
}

/// The watcher pauses exactly when a stream ended short of shutdown, and then for five
/// seconds; it opens a stream exactly after a pause.
pub proof fn law_what_the_watcher_does(event: WatchEvent)
    ensures
        event == (WatchEvent::StreamEnded { cancelled: false }) ==> watch_step(event)
            == WatchStep::Pause(span(5_000_000_000)),
        watch_step(event) is Pause <==> event == (WatchEvent::StreamEnded { cancelled: false }),
        watch_step(event) is Stream <==> event == WatchEvent::PauseElapsed,
{
}

/// Each line of a container that starts or ends adds one action about that container
/// after those before it; every other line adds none.
pub proof fn law_what_a_line_adds(lines: Seq<Option<PodmanEvent>>, line: Option<PodmanEvent>)
    ensures
        ({
            let before = actions_sent(lines);
            let after = actions_sent(lines.push(line));
            match line {
                Some(e) => if e.kind@ == "container"@ && e.status@ == "start"@ {
                    after == before.push(Action::Start { id: e.id, name: e.name })
                } else if e.kind@ == "container"@ && (e.status@ == "died"@ || e.status@ == "stop"@
                    || e.status@ == "remove"@) {
                    after == before.push(Action::Stop { id: e.id })
                } else {
                    after == before
                },
                None => after == before,
            }
        }),
{
    lemma_statuses_differ();
    assert(lines.push(line).drop_last() =~= lines);
}

} // verus!
