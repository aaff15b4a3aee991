//! The status board: the last verdict on each container.

use crate::monitor::{HealthMonitor, LoopEvent, MonitorView, Phase};
use crate::table::{distinct_keys, law_rows_are_the_map, rows_map, Table};
use vstd::prelude::*;

verus! {

/// The last verdict on a container.
#[derive(Debug)]
pub struct ContainerStatus {
    pub name: String,
    pub healthy: bool,
    pub consecutive_failures: u32,
    /// When the check ended, as an RFC 3339 timestamp.
    pub last_check: String,
}

impl Clone for ContainerStatus {
    fn clone(&self) -> (res: Self)
        ensures
            res == *self,
    {
        ContainerStatus {
            name: self.name.clone(),
            healthy: self.healthy,
            consecutive_failures: self.consecutive_failures,
            last_check: self.last_check.clone(),
        }
    }
}

/// The verdict differs from the one on the board: in health, in the count of failures,
/// or because the board had none. The name and the time do not count.
pub open spec fn is_news(
    board: Map<Seq<char>, ContainerStatus>,
    id: Seq<char>,
    healthy: bool,
    consecutive_failures: u32,
) -> bool {
    !board.contains_key(id) || board[id].healthy != healthy || board[id].consecutive_failures
        != consecutive_failures
}

/// From one position up to another there is nothing but decimal digits.
pub open spec fn digits(text: Seq<char>, from: int, to: int) -> bool {
    forall|i: int| from <= i < to ==> 0x30 <= (#[trigger] text[i]) as u32 <= 0x39
}

/// An RFC 3339 timestamp in coordinated universal time, with its `T` at position `t`:
/// year, month and day before it; hour, minute and second after it, the second with
/// three, six or nine decimals or none; and the offset at the end.
pub open spec fn is_utc_timestamp_at(text: Seq<char>, t: int) -> bool {
    let end = text.len() - 6;
    let decimals = end - (t + 9);
    &&& 10 <= t < text.len()
    &&& digits(text, t - 10, t - 6)
    &&& text[t - 6] == '-'
    &&& digits(text, t - 5, t - 3)
    &&& text[t - 3] == '-'
    &&& digits(text, t - 2, t)
    &&& text[t] == 'T'
    &&& digits(text, t + 1, t + 3)
    &&& text[t + 3] == ':'
    &&& digits(text, t + 4, t + 6)
    &&& text[t + 6] == ':'
    &&& digits(text, t + 7, t + 9)
    &&& decimals == 0 || decimals == 4 || decimals == 7 || decimals == 10
    &&& decimals > 0 ==> text[t + 9] == '.' && digits(text, t + 10, end)
    &&& text.subrange(end, text.len() as int) == "+00:00"@
}

/// An RFC 3339 timestamp in coordinated universal time.
pub open spec fn is_utc_timestamp(text: Seq<char>) -> bool {
    exists|t: int| is_utc_timestamp_at(text, t)
}

/// Calls `chrono::Utc::now` and `DateTime::to_rfc3339`. The text is an RFC 3339
/// timestamp in coordinated universal time. Which moment it tells is not stated: that
/// rests on the clock. A clock set before the year 1970, or beyond the years that
/// `chrono` can tell, makes the outside function panic.
#[verifier::external_body]
fn now_rfc3339() -> (res: String)
    ensures
        is_utc_timestamp(res@),
{
    chrono::Utc::now().to_rfc3339()
}

/// The last verdict on each container, by the container's id.
#[derive(Debug)]
pub struct StatusBoard {
    table: Table<ContainerStatus>,
}

impl View for StatusBoard {
    type V = Map<Seq<char>, ContainerStatus>;

    closed spec fn view(&self) -> Map<Seq<char>, ContainerStatus> {
        self.table@
    }
}

impl StatusBoard {
    /// No container occurs twice.
    pub closed spec fn wf(&self) -> bool {
        self.table.wf()
    }

    /// An empty board.
    pub fn new() -> (res: Self)
        ensures
            res.wf(),
            res@ == Map::<Seq<char>, ContainerStatus>::empty(),
    {
        StatusBoard { table: Table::new() }
    }

    /// The last verdict on the container.
    pub fn get(&self, id: &str) -> (res: Option<&ContainerStatus>)
        requires
            self.wf(),
        ensures
            match res {
                Some(status) => self@.contains_key(id@) && *status == self@[id@],
                None => !self@.contains_key(id@),
            },
    {
        self.table.get(id)
    }

    /// Enters a verdict, and says whether it is news.
    pub fn record(&mut self, id: String, status: ContainerStatus) -> (changed: bool)
        requires
            old(self).wf(),
        ensures
            final(self).wf(),
            final(self)@ == old(self)@.insert(id@, status),
            changed == is_news(old(self)@, id@, status.healthy, status.consecutive_failures),
            changed <==> !(old(self)@.contains_key(id@) && old(self)@[id@].healthy
                == final(self)@[id@].healthy && old(self)@[id@].consecutive_failures
                == final(self)@[id@].consecutive_failures),
    {
        let changed: bool = match self.table.get(id.as_str()) {
            Some(prev) => prev.healthy != status.healthy || prev.consecutive_failures
                != status.consecutive_failures,
            None => true,
        };
        self.table.insert(id, status);
        changed
    }

    /// Enters what a monitor makes of its container at the given time.
    pub fn record_at(&mut self, monitor: &HealthMonitor, last_check: String) -> (changed: bool)
        requires
            old(self).wf(),
        ensures
            final(self).wf(),
            final(self)@.dom() == old(self)@.dom().insert(monitor@.id),
            final(self)@.remove(monitor@.id) == old(self)@.remove(monitor@.id),
            shows(final(self)@[monitor@.id], monitor@),
            final(self)@[monitor@.id].last_check == last_check,
            changed == is_news(
                old(self)@,
                monitor@.id,
                monitor@.healthy(),
                monitor@.consecutive_failures as u32,
            ),
            final(self)@[monitor@.id].name@ == monitor@.name,
            final(self)@[monitor@.id].consecutive_failures == monitor@.consecutive_failures,
            final(self)@[monitor@.id].healthy == (monitor@.consecutive_failures == 0
                || monitor@.consecutive_failures < monitor@.retries),
            changed <==> !(old(self)@.contains_key(monitor@.id) && old(self)@[monitor@.id].healthy
                == final(self)@[monitor@.id].healthy && old(self)@[monitor@.id].consecutive_failures
                == final(self)@[monitor@.id].consecutive_failures),
    {
        let id: String = monitor.id().to_owned();
        let status: ContainerStatus = ContainerStatus {
            name: monitor.name().to_owned(),
            healthy: monitor.is_healthy(),
            consecutive_failures: monitor.consecutive_failures(),
            last_check,
        };
        let ghost before = self@;
        let changed: bool = self.record(id, status);
        proof {
            assert(self@.dom() =~= before.dom().insert(monitor@.id));
            assert(self@.remove(monitor@.id) =~= before.remove(monitor@.id));
        }
        changed
    }

    /// Enters what a monitor makes of its container now.
    pub fn record_now(&mut self, monitor: &HealthMonitor) -> (changed: bool)
        requires
            old(self).wf(),
        ensures
            final(self).wf(),
            final(self)@.dom() == old(self)@.dom().insert(monitor@.id),
            final(self)@.remove(monitor@.id) == old(self)@.remove(monitor@.id),
            shows(final(self)@[monitor@.id], monitor@),
            is_utc_timestamp(final(self)@[monitor@.id].last_check@),
            changed == is_news(
                old(self)@,
                monitor@.id,
                monitor@.healthy(),
                monitor@.consecutive_failures as u32,
            ),
            final(self)@[monitor@.id].name@ == monitor@.name,
            final(self)@[monitor@.id].consecutive_failures == monitor@.consecutive_failures,
            final(self)@[monitor@.id].healthy == (monitor@.consecutive_failures == 0
                || monitor@.consecutive_failures < monitor@.retries),
            changed <==> !(old(self)@.contains_key(monitor@.id) && old(self)@[monitor@.id].healthy
                == final(self)@[monitor@.id].healthy && old(self)@[monitor@.id].consecutive_failures
                == final(self)@[monitor@.id].consecutive_failures),
    {
        self.record_at(monitor, now_rfc3339())
    }

    /// Takes the container off the board.
    pub fn remove(&mut self, id: &str)
        requires
            old(self).wf(),
        ensures
            final(self).wf(),
            final(self)@ == old(self)@.remove(id@),
    {
        let _removed: Option<ContainerStatus> = self.table.remove(id);
    }

    /// Takes every container off the board.
    pub fn clear_status(&mut self)
        requires
            old(self).wf(),
        ensures
            final(self).wf(),
            final(self)@ == Map::<Seq<char>, ContainerStatus>::empty(),
    {
        let _drained: Vec<(String, ContainerStatus)> = self.table.drain();
    }

    /// A copy of the board, to be written out while the board itself moves on.
    pub fn snapshot(&self) -> (res: Vec<(String, ContainerStatus)>)
        requires
            self.wf(),
        ensures
            distinct_keys(res@),
            rows_map(res@) == self@,
            res@.len() == self@.dom().len(),
            forall|i: int|
                0 <= i < res@.len() ==> self@.contains_key((#[trigger] res@[i]).0@)
                    && self@[res@[i].0@] == res@[i].1,
            forall|key: Seq<char>| #[trigger]
                self@.contains_key(key) ==> exists|i: int|
                    0 <= i < res@.len() && (#[trigger] res@[i]).0@ == key,
    {
        let rows: &Vec<(String, ContainerStatus)> = self.table.rows();
        let n: usize = rows.len();
        let mut copy: Vec<(String, ContainerStatus)> = Vec::new();
        let mut i: usize = 0;
        while i < n
            invariant
                i <= n,
                n == rows@.len(),
                copy@ == rows@.subrange(0, i as int),
            decreases n - i,
        {
            copy.push((rows[i].0.clone(), rows[i].1.clone()));
            i = i + 1;
            assert(copy@ =~= rows@.subrange(0, i as int));
        }
        assert(copy@ =~= rows@);
        proof {
            law_rows_are_the_map(copy@);
        }
        copy
    }
}

/// The entry tells the name, the health and the count of failures of this monitor.
pub open spec fn shows(status: ContainerStatus, monitor: MonitorView) -> bool {
    &&& status.name@ == monitor.name
    &&& status.healthy == monitor.healthy()
    &&& status.consecutive_failures == monitor.consecutive_failures
}

/// A verdict entered a second time is no news, whatever the name and the time.
pub proof fn law_repeated_verdict_is_no_news(
    board: Map<Seq<char>, ContainerStatus>,
    id: Seq<char>,
    status: ContainerStatus,
)
    ensures
        !is_news(board.insert(id, status), id, status.healthy, status.consecutive_failures),
{
}

/// What is entered for one container is no matter to the verdicts on the others.
pub proof fn law_verdicts_are_independent(
    board: Map<Seq<char>, ContainerStatus>,
    id: Seq<char>,
    status: ContainerStatus,
    other: Seq<char>,
    healthy: bool,
    consecutive_failures: u32,
)
    requires
        other != id,
    ensures
        is_news(board.insert(id, status), other, healthy, consecutive_failures) == is_news(
            board,
            other,
            healthy,
            consecutive_failures,
        ),
        is_news(board.remove(id), other, healthy, consecutive_failures) == is_news(
            board,
            other,
            healthy,
            consecutive_failures,
        ),
{
}

/// Once a container was taken off the board, its next verdict is news.
pub proof fn law_verdict_after_removal_is_news(
    board: Map<Seq<char>, ContainerStatus>,
    id: Seq<char>,
    healthy: bool,
    consecutive_failures: u32,
)
    ensures
        is_news(board.remove(id), id, healthy, consecutive_failures),
{
}

/// Taking a container off the board undoes its first entry.
pub proof fn law_removal_undoes_first_entry(
    board: Map<Seq<char>, ContainerStatus>,
    id: Seq<char>,
    status: ContainerStatus,
)
    requires
        !board.contains_key(id),
    ensures
        board.insert(id, status).remove(id) == board,
{
    assert(board.insert(id, status).remove(id) =~= board);
}

/// A container that keeps passing its checks is published once: while the board shows
/// it healthy with no failures, the next passed check leads straight to the wait.
pub proof fn law_steady_container_is_not_published_again(
    board: Map<Seq<char>, ContainerStatus>,
    monitor: MonitorView,
)
    requires
        monitor.phase == Phase::Checking,
        board.contains_key(monitor.id),
        board[monitor.id].healthy,
        board[monitor.id].consecutive_failures == 0,
    ensures
        ({
            let passed = monitor.next(LoopEvent::CheckFinished(true));
            let news = is_news(
                board,
                passed.id,
                passed.healthy(),
                passed.consecutive_failures as u32,
            );
            !news && passed.next(LoopEvent::Recorded(news)).phase == Phase::Waiting
        }),
{
}

/// A verdict is no news exactly where the board shows the container with the same health
/// and the same count.
pub proof fn law_news_is_any_difference(
    board: Map<Seq<char>, ContainerStatus>,
    id: Seq<char>,
    healthy: bool,
    consecutive_failures: u32,
)
    ensures
        !board.contains_key(id) ==> is_news(board, id, healthy, consecutive_failures),
        board.contains_key(id) ==> (!is_news(board, id, healthy, consecutive_failures)
            <==> board[id].healthy == healthy && board[id].consecutive_failures
            == consecutive_failures),
{
}

/// News goes both ways: what is news after one verdict is news the other way round.
pub proof fn law_news_goes_both_ways(
    board: Map<Seq<char>, ContainerStatus>,
    id: Seq<char>,
    a: ContainerStatus,
    b: ContainerStatus,
)
    ensures
        is_news(board.insert(id, a), id, b.healthy, b.consecutive_failures) == is_news(
            board.insert(id, b),
            id,
            a.healthy,
            a.consecutive_failures,
        ),
{
}

/// The published board is never out of date: while it shows every container with the
/// health and the count of the board itself, and is published anew whenever an entry is
/// news, it goes on doing so.
pub proof fn law_published_board_is_current(
    board: Map<Seq<char>, ContainerStatus>,
    published: Map<Seq<char>, ContainerStatus>,
    id: Seq<char>,
    status: ContainerStatus,
)
    requires
        forall|key: Seq<char>| #[trigger]
            board.contains_key(key) ==> published.contains_key(key) && published[key].healthy
                == board[key].healthy && published[key].consecutive_failures
                == board[key].consecutive_failures,
    ensures
        ({
            let after = board.insert(id, status);
            let published_after = if is_news(
                board,
                id,
                status.healthy,
                status.consecutive_failures,
            ) {
                after
            } else {
                published
            };
            forall|key: Seq<char>| #[trigger]
                after.contains_key(key) ==> published_after.contains_key(key)
                    && published_after[key].healthy == after[key].healthy
                    && published_after[key].consecutive_failures
                    == after[key].consecutive_failures
        }),
{
    let after = board.insert(id, status);
    assert forall|key: Seq<char>| #[trigger] after.contains_key(key) && key != id implies
        board.contains_key(key) && after[key] == board[key] by {}
    if board.contains_key(id) {
        assert(published.contains_key(id));
    }
}

/// An entry that shows a monitor tells its name, its count, and health exactly while the
/// count is zero or fewer than the retries.
pub proof fn law_entry_tells_the_monitor(status: ContainerStatus, monitor: MonitorView)
    ensures
        shows(status, monitor) <==> status.name@ == monitor.name && status.consecutive_failures
            == monitor.consecutive_failures && status.healthy == (monitor.consecutive_failures == 0
            || monitor.consecutive_failures < monitor.retries),
{
}

} // verus!
