//! The check loop of one container: when to check, and when to report.
//!
//! The loop is a clock for `podman healthcheck run`, which itself sees to retries and to
//! what follows a failure. The count of failures serves the status board.
//!
//! A monitor is a state machine. Its phase calls for one thing to be done at a time
//! (`action`), and `step` takes what came of it.

use crate::podman::{healthcheck_args, texts, HealthcheckConfig};
use crate::timing::{effective_nanos, ns_to_duration, span, total_nanos};
use std::time::Duration;
use vstd::prelude::*;

verus! {

/// Where in its loop a monitor stands.
#[derive(Clone, Copy, Debug, PartialEq, Eq, Structural)]
pub enum Phase {
    /// Before the first check, while the container starts.
    Starting,
    /// A check is running.
    Checking,
    /// The verdict is to be entered in the status board.
    Recording,
    /// The status board changed and is to be published.
    Publishing,
    /// Between two checks.
    Waiting,
    /// The loop has ended.
    Stopped,
}

/// What a monitor wants done.
#[derive(Clone, Copy, Debug)]
pub enum LoopAction {
    /// Wait for this long, or until cancelled.
    Sleep(Duration),
    /// Run the check with this much time, or until cancelled.
    RunCheck(Duration),
    /// Enter this verdict in the status board.
    Record { healthy: bool, consecutive_failures: u32 },
    /// Publish the status board.
    Publish,
    /// End the loop.
    Stop,
}

/// What happened to a monitor.
#[derive(Clone, Copy, Debug)]
pub enum LoopEvent {
    /// The wait is over.
    Elapsed,
    /// The check ended, and passed or not.
    CheckFinished(bool),
    /// The verdict was entered, and changed the board or not.
    Recorded(bool),
    /// The board was published.
    Published,
    /// The daemon is shutting down.
    Cancelled,
}

/// Failed checks in a row that make a container unhealthy: at least one.
pub open spec fn threshold_of(retries: u32) -> nat {
    if retries == 0 {
        1
    } else {
        retries as nat
    }
}

/// A monitor as a mathematical value.
pub struct MonitorView {
    pub id: Seq<char>,
    pub name: Seq<char>,
    pub start_period: u64,
    pub interval: u64,
    pub timeout: u64,
    pub retries: u32,
    pub phase: Phase,
    pub consecutive_failures: nat,
}

impl MonitorView {
    /// The container is healthy while the failures in a row stay under the threshold.
    pub open spec fn healthy(self) -> bool {
        self.consecutive_failures < threshold_of(self.retries)
    }

    /// A monitor at the start of its loop.
    pub open spec fn fresh(id: Seq<char>, name: Seq<char>, config: HealthcheckConfig) -> Self {
        MonitorView {
            id,
            name,
            start_period: config.start_period,
            interval: config.interval,
            timeout: config.timeout,
            retries: config.retries,
            phase: if config.start_period == 0 {
                Phase::Checking
            } else {
                Phase::Starting
            },
            consecutive_failures: 0,
        }
    }

    /// The event can happen in this phase. A loop that is busy with a report does not
    /// look at cancellation.
    pub open spec fn accepts(self, event: LoopEvent) -> bool {
        match event {
            LoopEvent::Elapsed => self.phase == Phase::Starting || self.phase == Phase::Waiting,
            LoopEvent::CheckFinished(_) => self.phase == Phase::Checking,
            LoopEvent::Recorded(_) => self.phase == Phase::Recording,
            LoopEvent::Published => self.phase == Phase::Publishing,
            LoopEvent::Cancelled => self.phase == Phase::Starting || self.phase == Phase::Checking
                || self.phase == Phase::Waiting,
        }
    }

    /// The monitor after an event. One that cannot happen in this phase changes nothing.
    pub open spec fn next(self, event: LoopEvent) -> Self {
        if !self.accepts(event) {
            self
        } else {
            match event {
                LoopEvent::Elapsed => MonitorView { phase: Phase::Checking, ..self },
                LoopEvent::CheckFinished(passed) => MonitorView {
                    phase: Phase::Recording,
                    consecutive_failures: if passed {
                        0
                    } else {
                        self.consecutive_failures + 1
                    },
                    ..self
                },
                LoopEvent::Recorded(changed) => MonitorView {
                    phase: if changed {
                        Phase::Publishing
                    } else {
                        Phase::Waiting
                    },
                    ..self
                },
                LoopEvent::Published => MonitorView { phase: Phase::Waiting, ..self },
                LoopEvent::Cancelled => MonitorView { phase: Phase::Stopped, ..self },
            }
        }
    }

    /// The monitor after a history of events, in order.
    pub open spec fn run(self, events: Seq<LoopEvent>) -> Self
        decreases events.len(),
    {
        if events.len() == 0 {
            self
        } else {
            self.run(events.drop_last()).next(events.last())
        }
    }

    /// The nanoseconds to wait, where the phase is a wait.
    pub open spec fn wait_nanos(self) -> u64 {
        if self.phase == Phase::Starting {
            self.start_period
        } else {
            effective_nanos(self.interval)
        }
    }

    /// What the phase calls for.
    pub open spec fn action(self) -> LoopAction {
        match self.phase {
            Phase::Starting => LoopAction::Sleep(span(self.wait_nanos())),
            Phase::Checking => LoopAction::RunCheck(span(effective_nanos(self.timeout))),
            Phase::Recording => LoopAction::Record {
                healthy: self.healthy(),
                consecutive_failures: self.consecutive_failures as u32,
            },
            Phase::Publishing => LoopAction::Publish,
            Phase::Waiting => LoopAction::Sleep(span(self.wait_nanos())),
            Phase::Stopped => LoopAction::Stop,
        }
    }

    /// The arguments of the `podman` command that the phase calls for, if it calls for
    /// one.
    pub open spec fn command(self) -> Option<Seq<Seq<char>>> {
        if self.phase == Phase::Checking {
            Some(seq!["healthcheck"@, "run"@, self.id])
        } else {
            None
        }
    }

    /// What every monitor keeps: nothing is counted before the first check.
    pub open spec fn inv(self) -> bool {
        self.phase == Phase::Starting ==> self.start_period > 0 && self.consecutive_failures == 0
    }
}

/// The check loop of one container.
#[derive(Debug)]
pub struct HealthMonitor {
    id: String,
    name: String,
    config: HealthcheckConfig,
    phase: Phase,
    consecutive_failures: u32,
}

impl View for HealthMonitor {
    type V = MonitorView;

    closed spec fn view(&self) -> MonitorView {
        MonitorView {
            id: self.id@,
            name: self.name@,
            start_period: self.config.start_period,
            interval: self.config.interval,
            timeout: self.config.timeout,
            retries: self.config.retries,
            phase: self.phase,
            consecutive_failures: self.consecutive_failures as nat,
        }
    }
}

impl HealthMonitor {
    /// A monitor for the container, at the start of its loop.
    pub fn new(id: String, name: String, config: HealthcheckConfig) -> (res: Self)
        ensures
            res@ == MonitorView::fresh(id@, name@, config),
            res@.inv(),
            res@.id == id@,
            res@.name == name@,
            res@.start_period == config.start_period,
            res@.interval == config.interval,
            res@.timeout == config.timeout,
            res@.retries == config.retries,
            res@.consecutive_failures == 0,
            config.start_period == 0 ==> res@.phase == Phase::Checking,
            config.start_period > 0 ==> res@.phase == Phase::Starting,
    {
        let phase: Phase = if config.start_period == 0 {
            Phase::Checking
        } else {
            Phase::Starting
        };
        HealthMonitor {
            id,
            name,
            config,
            phase,
            consecutive_failures: 0,
        }
    }

    /// The container's id.
    pub fn id(&self) -> (res: &str)
        ensures
            res@ == self@.id,
    {
        self.id.as_str()
    }

    /// The container's name.
    pub fn name(&self) -> (res: &str)
        ensures
            res@ == self@.name,
    {
        self.name.as_str()
    }

    /// The retries that the container asks for.
    pub fn retries(&self) -> (res: u32)
        ensures
            res == self@.retries,
    {
        self.config.retries
    }

    /// Failed checks since the last that passed.
    pub fn consecutive_failures(&self) -> (res: u32)
        ensures
            res == self@.consecutive_failures,
    {
        self.consecutive_failures
    }

    /// Failed checks in a row that make the container unhealthy.
    pub fn threshold(&self) -> (res: u32)
        ensures
            res == threshold_of(self@.retries),
            res >= 1,
            self@.retries >= 1 ==> res == self@.retries,
            self@.retries == 0 ==> res == 1,
    {
        if self.config.retries == 0 {
            1
        } else {
            self.config.retries
        }
    }

    /// Whether the failures in a row stay under the threshold.
    pub fn is_healthy(&self) -> (res: bool)
        ensures
            res == self@.healthy(),
            self@.retries >= 1 ==> (res <==> self@.consecutive_failures < self@.retries),
            self@.retries == 0 ==> (res <==> self@.consecutive_failures == 0),
    {
        self.consecutive_failures < self.threshold()
    }

    /// What is to be done now.
    pub fn action(&self) -> (res: LoopAction)
        ensures
            res == self@.action(),
            res matches LoopAction::Sleep(pause) ==> total_nanos(pause) == self@.wait_nanos(),
            res matches LoopAction::RunCheck(timeout) ==> total_nanos(timeout) == effective_nanos(
                self@.timeout,
            ),
            self@.phase == Phase::Starting ==> (res matches LoopAction::Sleep(pause)
                && total_nanos(pause) == self@.start_period),
            self@.phase == Phase::Waiting && self@.interval > 0 ==> (res matches LoopAction::Sleep(
                pause,
            ) && total_nanos(pause) == self@.interval),
            self@.phase == Phase::Waiting && self@.interval == 0 ==> (
            res matches LoopAction::Sleep(pause) && total_nanos(pause) == 30_000_000_000),
            self@.phase == Phase::Checking && self@.timeout > 0 ==> (
            res matches LoopAction::RunCheck(timeout) && total_nanos(timeout) == self@.timeout),
            self@.phase == Phase::Checking && self@.timeout == 0 ==> (
            res matches LoopAction::RunCheck(timeout) && total_nanos(timeout) == 30_000_000_000),
            self@.phase == Phase::Recording ==> (res matches LoopAction::Record {
                healthy,
                consecutive_failures,
            } && consecutive_failures == self@.consecutive_failures && healthy == (
            self@.consecutive_failures == 0 || self@.consecutive_failures < self@.retries)),
    {
        match self.phase {
            Phase::Starting => LoopAction::Sleep(Duration::from_nanos(self.config.start_period)),
            Phase::Checking => LoopAction::RunCheck(ns_to_duration(self.config.timeout)),
            Phase::Recording => LoopAction::Record {
                healthy: self.is_healthy(),
                consecutive_failures: self.consecutive_failures,
            },
            Phase::Publishing => LoopAction::Publish,
            Phase::Waiting => LoopAction::Sleep(ns_to_duration(self.config.interval)),
            Phase::Stopped => LoopAction::Stop,
        }
    }

    /// The arguments of the `podman` command that is to be run now, if one is.
    pub fn command(&self) -> (res: Option<Vec<String>>)
        ensures
            match res {
                Some(args) => self@.command() == Some(texts(args@)),
                None => self@.command() is None,
            },
            res is Some <==> self@.phase == Phase::Checking,
            res matches Some(args) ==> args@.len() == 3 && args@[0]@ == "healthcheck"@
                && args@[1]@ == "run"@ && args@[2]@ == self@.id,
    {
        match self.phase {
            Phase::Checking => Some(healthcheck_args(self.id.as_str())),
            _ => None,
        }
    }

    /// Takes an event, and says whether it can happen in this phase. One that cannot
    /// changes nothing.
    ///
    /// The count of failures must have room for one more.
    pub fn step(&mut self, event: LoopEvent) -> (res: bool)
        requires
            old(self)@.inv(),
            event == LoopEvent::CheckFinished(false) && old(self)@.accepts(event) ==> old(
                self,
            )@.consecutive_failures < u32::MAX,
        ensures
            res == old(self)@.accepts(event),
            final(self)@ == old(self)@.next(event),
            final(self)@.inv(),
    {
        match (self.phase, event) {
            (Phase::Starting, LoopEvent::Elapsed) => {
                self.phase = Phase::Checking;
                true
            },
            (Phase::Waiting, LoopEvent::Elapsed) => {
                self.phase = Phase::Checking;
                true
            },
            (Phase::Checking, LoopEvent::CheckFinished(passed)) => {
                if passed {
                    self.consecutive_failures = 0;
                } else {
                    self.consecutive_failures = self.consecutive_failures + 1;
                }
                self.phase = Phase::Recording;
                true
            },
            (Phase::Recording, LoopEvent::Recorded(changed)) => {
                self.phase =
                if changed {
                    Phase::Publishing
                } else {
                    Phase::Waiting
                };
                true
            },
            (Phase::Publishing, LoopEvent::Published) => {
                self.phase = Phase::Waiting;
                true
            },
            (Phase::Starting, LoopEvent::Cancelled) => {
                self.phase = Phase::Stopped;
                true
            },
            (Phase::Checking, LoopEvent::Cancelled) => {
                self.phase = Phase::Stopped;
                true
            },
            (Phase::Waiting, LoopEvent::Cancelled) => {
                self.phase = Phase::Stopped;
                true
            },
            _ => false,
        }
    }
}

/// Every event of the history could happen when it did.
pub open spec fn is_history(start: MonitorView, events: Seq<LoopEvent>) -> bool
    decreases events.len(),
{
    events.len() == 0 || (is_history(start, events.drop_last()) && start.run(
        events.drop_last(),
    ).accepts(events.last()))
}

/// The failed checks of a history since the last check that passed.
pub open spec fn failures_since_pass(events: Seq<LoopEvent>) -> nat
    decreases events.len(),
{
    if events.len() == 0 {
        0
    } else {
        match events.last() {
            LoopEvent::CheckFinished(true) => 0,
            LoopEvent::CheckFinished(false) => failures_since_pass(events.drop_last()) + 1,
            _ => failures_since_pass(events.drop_last()),
        }
    }
}

/// The events are the same, except perhaps for whether a check passed.
pub open spec fn same_but_for_outcome(a: LoopEvent, b: LoopEvent) -> bool {
    a == b || (a is CheckFinished && b is CheckFinished)
}

/// From one check to the next where the check fails: the verdict is entered, published
/// if it changed the board, and the interval passes.
pub open spec fn failing_round(m: MonitorView, changed: bool) -> MonitorView {
    m.next(LoopEvent::CheckFinished(false)).next(LoopEvent::Recorded(changed)).next(
        LoopEvent::Published,
    ).next(LoopEvent::Elapsed)
}

/// As many failing rounds as `changes` has entries, which say what changed the board.
pub open spec fn failing_rounds(m: MonitorView, changes: Seq<bool>) -> MonitorView
    decreases changes.len(),
{
    if changes.len() == 0 {
        m
    } else {
        failing_round(failing_rounds(m, changes.drop_last()), changes.last())
    }
}

/// Whatever happens, a monitor keeps its invariant.
pub proof fn law_invariant_is_kept(m: MonitorView, events: Seq<LoopEvent>)
    requires
        m.inv(),
    ensures
        m.run(events).inv(),
    decreases events.len(),
{
    if events.len() > 0 {
        law_invariant_is_kept(m, events.drop_last());
    }
}

/// Whatever happens, a monitor keeps its container and its settings.
pub proof fn law_settings_never_change(m: MonitorView, events: Seq<LoopEvent>)
    ensures
        m.run(events).id == m.id,
        m.run(events).name == m.name,
        m.run(events).start_period == m.start_period,
        m.run(events).interval == m.interval,
        m.run(events).timeout == m.timeout,
        m.run(events).retries == m.retries,
    decreases events.len(),
{
    if events.len() > 0 {
        law_settings_never_change(m, events.drop_last());
    }
}

/// The loop is only a clock: whatever happens, the one `podman` command that it ever
/// calls for is the healthcheck of its container, when a check is due.
pub proof fn law_loop_is_only_a_clock(m: MonitorView, events: Seq<LoopEvent>)
    ensures
        m.run(events).command() is Some <==> m.run(events).action() is RunCheck,
        m.run(events).command() matches Some(args) ==> args == seq!["healthcheck"@, "run"@, m.id],
{
    law_settings_never_change(m, events);
}

/// Whether checks pass has no bearing on what the loop does next: two loops in the same
/// phase stay so through events that are the same but for the outcome of checks,
/// whatever their counts and settings.
pub proof fn law_outcomes_do_not_steer_the_loop(
    m: MonitorView,
    n: MonitorView,
    events: Seq<LoopEvent>,
    others: Seq<LoopEvent>,
)
    requires
        m.phase == n.phase,
        events.len() == others.len(),
        forall|i: int|
            0 <= i < events.len() ==> same_but_for_outcome(
                #[trigger] events[i],
                #[trigger] others[i],
            ),
    ensures
        m.run(events).phase == n.run(others).phase,
    decreases events.len(),
{
    if events.len() > 0 {
        let earlier = events.drop_last();
        let earlier_others = others.drop_last();
        assert forall|i: int| 0 <= i < earlier.len() implies same_but_for_outcome(
            #[trigger] earlier[i],
            #[trigger] earlier_others[i],
        ) by {
            assert(earlier[i] == events[i] && earlier_others[i] == others[i]);
        }
        law_outcomes_do_not_steer_the_loop(m, n, earlier, earlier_others);
        let last = events.len() - 1;
        assert(same_but_for_outcome(events[last], others[last]));
    }
}

/// The count of failures is that of the failed checks since the last that passed.
pub proof fn law_failures_are_counted(
    id: Seq<char>,
    name: Seq<char>,
    config: HealthcheckConfig,
    events: Seq<LoopEvent>,
)
    requires
        is_history(MonitorView::fresh(id, name, config), events),
    ensures
        MonitorView::fresh(id, name, config).run(events).consecutive_failures
            == failures_since_pass(events),
    decreases events.len(),
{
    if events.len() > 0 {
        law_failures_are_counted(id, name, config, events.drop_last());
    }
}

/// From a count of nothing, a container stays healthy while fewer checks in a row have
/// failed than the threshold, and is unhealthy from then on for as long as they fail.
pub proof fn law_unhealthy_from_the_threshold_on(m: MonitorView, changes: Seq<bool>)
    requires
        m.phase == Phase::Checking,
        m.consecutive_failures == 0,
    ensures
        failing_rounds(m, changes) == (MonitorView { consecutive_failures: changes.len(), ..m }),
        failing_rounds(m, changes).healthy() <==> changes.len() < threshold_of(m.retries),
    decreases changes.len(),
{
    if changes.len() > 0 {
        law_unhealthy_from_the_threshold_on(m, changes.drop_last());
    }
}

/// A check that passed makes the container healthy, with no failures counted.
pub proof fn law_passed_check_restores_health(m: MonitorView)
    requires
        m.phase == Phase::Checking,
    ensures
        m.next(LoopEvent::CheckFinished(true)).action() == (LoopAction::Record {
            healthy: true,
            consecutive_failures: 0,
        }),
{
}

/// Cancellation ends the loop wherever it waits or checks.
pub proof fn law_cancellation_ends_the_loop(m: MonitorView)
    requires
        m.phase == Phase::Starting || m.phase == Phase::Checking || m.phase == Phase::Waiting,
    ensures
        m.next(LoopEvent::Cancelled).action() == LoopAction::Stop,
{
}

/// A loop busy with a report comes to its wait, where it heeds cancellation, whether or
/// not the report is news.
pub proof fn law_busy_loop_comes_to_its_wait(m: MonitorView, changed: bool)
    requires
        m.phase == Phase::Recording || m.phase == Phase::Publishing,
    ensures
        m.next(LoopEvent::Recorded(changed)).next(LoopEvent::Published).phase == Phase::Waiting,
{
}

/// A loop that has ended stays ended.
pub proof fn law_stopped_is_final(m: MonitorView, events: Seq<LoopEvent>)
    requires
        m.phase == Phase::Stopped,
    ensures
        m.run(events) == m,
    decreases events.len(),
{
    if events.len() > 0 {
        law_stopped_is_final(m, events.drop_last());
    }
}

/// A loop never spins: a wait lasts at least a nanosecond.
pub proof fn law_waits_take_time(m: MonitorView)
    requires
        m.inv(),
        m.phase == Phase::Starting || m.phase == Phase::Waiting,
    ensures
        m.wait_nanos() > 0,
        m.action() == LoopAction::Sleep(span(m.wait_nanos())),
{
}

/// A new monitor takes the container and every setting as given, counts nothing, and
/// begins with its start period exactly where there is one.
pub proof fn law_fresh_monitor_takes_the_settings(
    id: Seq<char>,
    name: Seq<char>,
    config: HealthcheckConfig,
)
    ensures
        ({
            let m = MonitorView::fresh(id, name, config);
            &&& m.id == id && m.name == name
            &&& m.start_period == config.start_period
            &&& m.interval == config.interval
            &&& m.timeout == config.timeout
            &&& m.retries == config.retries
            &&& m.consecutive_failures == 0
            &&& config.start_period > 0 ==> m.action() == LoopAction::Sleep(
                span(config.start_period),
            )
            &&& config.start_period == 0 ==> m.action() is RunCheck
        }),
{
}

/// Between two checks the pause is the interval and nothing else: as many nanoseconds
/// as the setting where it is positive, thirty seconds where it is zero. Before the
/// first check it is the start period.
pub proof fn law_pauses_follow_the_settings(m: MonitorView)
    ensures
        m.phase == Phase::Waiting && m.interval > 0 ==> m.action() == LoopAction::Sleep(
            span(m.interval),
        ),
        m.phase == Phase::Waiting && m.interval == 0 ==> m.action() == LoopAction::Sleep(
            span(30_000_000_000),
        ),
        m.phase == Phase::Starting ==> m.action() == LoopAction::Sleep(span(m.start_period)),
        m.phase == Phase::Waiting && m.interval > 0 ==> m.wait_nanos() == m.interval,
        m.phase == Phase::Waiting && m.interval == 0 ==> m.wait_nanos() == 30_000_000_000,
        m.phase == Phase::Starting ==> m.wait_nanos() == m.start_period,
{
}

/// A check is given its timeout and nothing else: as many nanoseconds as the setting
/// where it is positive, thirty seconds where it is zero.
pub proof fn law_checks_follow_the_timeout(m: MonitorView)
    ensures
        m.phase == Phase::Checking && m.timeout > 0 ==> m.action() == LoopAction::RunCheck(
            span(m.timeout),
        ),
        m.phase == Phase::Checking && m.timeout == 0 ==> m.action() == LoopAction::RunCheck(
            span(30_000_000_000),
        ),
{
}

/// What a loop does in a phase depends on the one setting that the phase is about: two
/// loops between checks with the same interval pause alike, two that check with the same
/// timeout check alike, and two that report the same count under the same retries report
/// alike, whatever else sets them apart.
pub proof fn law_other_settings_do_not_matter(m: MonitorView, n: MonitorView)
    requires
        m.phase == n.phase,
    ensures
        m.phase == Phase::Waiting && m.interval == n.interval ==> m.action() == n.action(),
        m.phase == Phase::Starting && m.start_period == n.start_period ==> m.action()
            == n.action(),
        m.phase == Phase::Checking && m.timeout == n.timeout ==> m.action() == n.action(),
        m.phase == Phase::Recording && m.retries == n.retries && m.consecutive_failures
            == n.consecutive_failures ==> m.action() == n.action(),
        m.phase == Phase::Publishing || m.phase == Phase::Stopped ==> m.action() == n.action(),
{
}

/// A container is healthy exactly while its failures in a row are fewer than its
/// retries; with no retries, exactly while there are none. The verdict that is entered
/// says so, with the count.
pub proof fn law_health_is_failures_under_retries(m: MonitorView)
    ensures
        m.retries >= 1 ==> (m.healthy() <==> m.consecutive_failures < m.retries),
        m.retries == 0 ==> (m.healthy() <==> m.consecutive_failures == 0),
        m.phase == Phase::Recording && m.retries >= 1 ==> m.action() == (LoopAction::Record {
            healthy: m.consecutive_failures < m.retries,
            consecutive_failures: m.consecutive_failures as u32,
        }),
        m.phase == Phase::Recording && m.retries == 0 ==> m.action() == (LoopAction::Record {
            healthy: m.consecutive_failures == 0,
            consecutive_failures: m.consecutive_failures as u32,
        }),
{
}

/// The verdict of every check that fails, in a row from a count of nothing: the check
/// after `changes` failures reports one failure more, and health exactly while that is
/// fewer than the retries.
pub proof fn law_verdicts_of_failures_in_a_row(m: MonitorView, changes: Seq<bool>)
    requires
        m.phase == Phase::Checking,
        m.consecutive_failures == 0,
    ensures
        failing_rounds(m, changes).next(LoopEvent::CheckFinished(false)).action() == (
        LoopAction::Record {
            healthy: changes.len() + 1 < m.retries,
            consecutive_failures: (changes.len() + 1) as u32,
        }),
{
    law_unhealthy_from_the_threshold_on(m, changes);
}

/// More failures never make a container healthier, and more retries never make it less
/// healthy.
pub proof fn law_health_is_monotone(m: MonitorView, n: MonitorView)
    requires
        m.consecutive_failures <= n.consecutive_failures,
        m.retries >= n.retries,
        n.healthy(),
    ensures
        m.healthy(),
{
}

/// A check that passed leaves no failure counted, one that failed leaves one more than
/// before, and nothing else that happens touches the count.
pub proof fn law_only_checks_move_the_count(m: MonitorView, event: LoopEvent)
    ensures
        m.phase == Phase::Checking && event == LoopEvent::CheckFinished(true) ==> m.next(
            event,
        ).consecutive_failures == 0,
        m.phase == Phase::Checking && event == LoopEvent::CheckFinished(false) ==> m.next(
            event,
        ).consecutive_failures == m.consecutive_failures + 1,
        m.phase != Phase::Checking || !(event is CheckFinished) ==> m.next(
            event,
        ).consecutive_failures == m.consecutive_failures,
{
}

/// Which event can follow which in the life of a loop. The first is the end of the start
/// period where there is one, else the end of a check. The end of a check is entered; an
/// entry that changed the board is published; then the interval passes; then the check
/// ends. The loop can be cancelled before a check has ended and while it waits, and
/// nothing follows that.
pub proof fn law_order_of_events(
    id: Seq<char>,
    name: Seq<char>,
    config: HealthcheckConfig,
    events: Seq<LoopEvent>,
    event: LoopEvent,
)
    requires
        is_history(MonitorView::fresh(id, name, config), events),
    ensures
        ({
            let can_happen = MonitorView::fresh(id, name, config).run(events).accepts(event);
            if events.len() == 0 && config.start_period > 0 {
                can_happen <==> event == LoopEvent::Elapsed || event == LoopEvent::Cancelled
            } else if events.len() == 0 {
                can_happen <==> event is CheckFinished || event == LoopEvent::Cancelled
            } else {
                match events.last() {
                    LoopEvent::Elapsed => can_happen <==> event is CheckFinished || event
                        == LoopEvent::Cancelled,
                    LoopEvent::CheckFinished(_) => can_happen <==> event is Recorded,
                    LoopEvent::Recorded(true) => can_happen <==> event == LoopEvent::Published,
                    LoopEvent::Recorded(false) => can_happen <==> event == LoopEvent::Elapsed
                        || event == LoopEvent::Cancelled,
                    LoopEvent::Published => can_happen <==> event == LoopEvent::Elapsed || event
                        == LoopEvent::Cancelled,
                    LoopEvent::Cancelled => !can_happen,
                }
            }
        }),
{
}

/// An event that cannot happen at this point of a loop's life changes nothing.
pub proof fn law_events_out_of_order_change_nothing(
    id: Seq<char>,
    name: Seq<char>,
    config: HealthcheckConfig,
    events: Seq<LoopEvent>,
    event: LoopEvent,
)
    requires
        is_history(MonitorView::fresh(id, name, config), events),
        !is_history(MonitorView::fresh(id, name, config), events.push(event)),
    ensures
        MonitorView::fresh(id, name, config).run(events.push(event)) == MonitorView::fresh(
            id,
            name,
            config,
        ).run(events),
{
    assert(events.push(event).drop_last() =~= events);
}

/// What a loop does is told by the settings of its container and by what happened last:
/// the start period is waited out once, at the beginning; after every wait comes a check
/// under the timeout; after every check its verdict is entered, and published if that
/// changed the board; then the interval is waited out; until cancelled.
pub proof fn law_action_follows_from_what_happened_last(
    id: Seq<char>,
    name: Seq<char>,
    config: HealthcheckConfig,
    events: Seq<LoopEvent>,
)
    requires
        is_history(MonitorView::fresh(id, name, config), events),
    ensures
        ({
            let start = MonitorView::fresh(id, name, config);
            let action = start.run(events).action();
            let pause = span(
                if config.interval > 0 {
                    config.interval
                } else {
                    30_000_000_000
                },
            );
            let timeout = span(
                if config.timeout > 0 {
                    config.timeout
                } else {
                    30_000_000_000
                },
            );
            if events.len() == 0 && config.start_period > 0 {
                action == LoopAction::Sleep(span(config.start_period))
            } else if events.len() == 0 {
                action == LoopAction::RunCheck(timeout)
            } else {
                let before = start.run(events.drop_last()).consecutive_failures;
                match events.last() {
                    LoopEvent::Elapsed => action == LoopAction::RunCheck(timeout),
                    LoopEvent::CheckFinished(true) => action == (LoopAction::Record {
                        healthy: true,
                        consecutive_failures: 0,
                    }),
                    LoopEvent::CheckFinished(false) => action == (LoopAction::Record {
                        healthy: before + 1 < config.retries,
                        consecutive_failures: (before + 1) as u32,
                    }),
                    LoopEvent::Recorded(true) => action == LoopAction::Publish,
                    LoopEvent::Recorded(false) => action == LoopAction::Sleep(pause),
                    LoopEvent::Published => action == LoopAction::Sleep(pause),
                    LoopEvent::Cancelled => action == LoopAction::Stop,
                }
            }
        }),
{
    let start = MonitorView::fresh(id, name, config);
    law_settings_never_change(start, events);
    if events.len() > 0 {
        law_settings_never_change(start, events.drop_last());
    }
}

/// The count reported at any point of a loop's life is the number of checks at the end
/// of its history that failed with none that passed among them.
pub proof fn law_count_is_the_failures_at_the_end(
    id: Seq<char>,
    name: Seq<char>,
    config: HealthcheckConfig,
    earlier: Seq<LoopEvent>,
    later: Seq<LoopEvent>,
)
    requires
        is_history(MonitorView::fresh(id, name, config), earlier + later),
        earlier.len() == 0 || earlier.last() == LoopEvent::CheckFinished(true),
        forall|i: int|
            0 <= i < later.len() ==> #[trigger] later[i] != LoopEvent::CheckFinished(true),
    ensures
        MonitorView::fresh(id, name, config).run(earlier + later).consecutive_failures
            == later.filter(|event: LoopEvent| event == LoopEvent::CheckFinished(false)).len(),
    decreases later.len(),
{
    let start = MonitorView::fresh(id, name, config);
    let events = earlier + later;
    let failed = |event: LoopEvent| event == LoopEvent::CheckFinished(false);
    reveal(Seq::filter);
    if later.len() == 0 {
        assert(events =~= earlier);
        assert(later.filter(failed).len() == 0);
    } else {
        let rest = later.drop_last();
        assert(events.drop_last() =~= earlier + rest);
        assert(events.last() == later.last());
        assert(later[later.len() - 1] != LoopEvent::CheckFinished(true));
        assert forall|i: int| 0 <= i < rest.len() implies #[trigger] rest[i]
            != LoopEvent::CheckFinished(true) by {
            assert(rest[i] == later[i]);
        }
        law_count_is_the_failures_at_the_end(id, name, config, earlier, rest);
    }
}

} // verus!
