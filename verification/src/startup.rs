//! The scan at startup: list the containers, trying again a few times, and watch those
//! that run.

use crate::podman::PsEntry;
use crate::tasks::{
    arrives_checked, law_watched_are_those_with_healthchecks, started_all, Arrival, Task,
};
use crate::text::same_text;
use crate::timing::{span, total_nanos, NANOS_PER_SEC};
use std::time::Duration;
use vstd::prelude::*;

verus! {

/// How often the listing is tried.
pub const MAX_ATTEMPTS: u32 = 5;

/// Seconds from one attempt to the next.
pub const RETRY_SECS: u64 = 3;

/// A container that is to be started.
#[derive(Debug)]
pub struct Launch {
    pub id: String,
    pub name: String,
}

/// A `Launch` by its texts.
pub struct LaunchView {
    pub id: Seq<char>,
    pub name: Seq<char>,
}

impl View for Launch {
    type V = LaunchView;

    open spec fn view(&self) -> LaunchView {
        LaunchView { id: self.id@, name: self.name@ }
    }
}

/// The launches by their texts.
pub open spec fn launch_views(launches: Seq<Launch>) -> Seq<LaunchView> {
    Seq::new(launches.len(), |i: int| launches[i]@)
}

/// The container runs.
pub open spec fn is_running(entry: PsEntry) -> bool {
    entry.state@ == "running"@
}

/// The launch of a listed container: under the first of its names, or under the empty
/// name where it has none.
pub open spec fn launch_of(entry: PsEntry) -> LaunchView {
    LaunchView {
        id: entry.id@,
        name: if entry.names@.len() > 0 {
            entry.names@[0]@
        } else {
            Seq::<char>::empty()
        },
    }
}

/// The launches that a listing calls for: those of its running containers, in order.
pub open spec fn launches_of(entries: Seq<PsEntry>) -> Seq<LaunchView>
    decreases entries.len(),
{
    if entries.len() == 0 {
        Seq::empty()
    } else {
        let earlier = launches_of(entries.drop_last());
        if is_running(entries.last()) {
            earlier.push(launch_of(entries.last()))
        } else {
            earlier
        }
    }
}

/// The launches that a listing calls for.
pub fn running_containers(entries: &Vec<PsEntry>) -> (res: Vec<Launch>)
    ensures
        launch_views(res@) == launches_of(entries@),
        res@.len() == launches_of(entries@).len(),
        forall|k: int|
            0 <= k < res@.len() ==> (#[trigger] res@[k]).id@ == launches_of(entries@)[k].id
                && res@[k].name@ == launches_of(entries@)[k].name,
{
    let n: usize = entries.len();
    let mut launches: Vec<Launch> = Vec::new();
    let mut i: usize = 0;
    assert(launch_views(launches@) =~= launches_of(entries@.subrange(0, 0)));
    while i < n
        invariant
            i <= n,
            n == entries@.len(),
            launch_views(launches@) == launches_of(entries@.subrange(0, i as int)),
        decreases n - i,
    {
        let ghost before = launches@;
        let entry: &PsEntry = &entries[i];
        if same_text(entry.state.as_str(), "running") {
            let name: String = if entry.names.len() > 0 {
                entry.names[0].clone()
            } else {
                String::new()
            };
            launches.push(Launch { id: entry.id.clone(), name });
            assert(launch_views(launches@) =~= launch_views(before).push(launch_of(*entry)));
        }
        i = i + 1;
        assert(entries@.subrange(0, i as int).drop_last() =~= entries@.subrange(0, i - 1));
    }
    assert(entries@.subrange(0, n as int) =~= entries@);
    assert forall|k: int| 0 <= k < launches@.len() implies (#[trigger] launches@[k]).id@
        == launches_of(entries@)[k].id && launches@[k].name@ == launches_of(entries@)[k].name by {
        assert(launch_views(launches@)[k] == launches@[k]@);
    }
    launches
}

/// The count of failed attempts after one more, or nothing where no attempt is left.
pub open spec fn after_failed_attempt(attempts: nat) -> Option<nat> {
    if attempts + 1 >= MAX_ATTEMPTS {
        None
    } else {
        Some(attempts + 1)
    }
}

/// A scan that waits for a listing.
#[derive(Debug)]
pub struct StartupScan {
    attempts: u32,
}

/// What is to be done after a listing.
#[derive(Debug)]
pub enum ScanStep {
    /// Wait for this long, and list again.
    Retry { pause: Duration, scan: StartupScan },
    /// Start nothing: this many attempts failed, the last for this reason.
    GiveUp { attempts: u32, reason: String },
    /// Start these containers, in order.
    Start(Vec<Launch>),
}

impl StartupScan {
    /// The attempts that failed so far.
    pub closed spec fn attempts(&self) -> nat {
        self.attempts as nat
    }

    /// An attempt is left.
    pub open spec fn wf(&self) -> bool {
        self.attempts() < MAX_ATTEMPTS
    }

    /// A scan before its first listing.
    pub fn new() -> (res: Self)
        ensures
            res.wf(),
            res.attempts() == 0,
    {
        StartupScan { attempts: 0 }
    }

    /// The attempts that failed so far.
    pub fn failed_attempts(&self) -> (res: u32)
        ensures
            res == self.attempts(),
    {
        self.attempts
    }

    /// Takes what came of a listing.
    pub fn enumerate_existing(self, listing: Result<Vec<PsEntry>, String>) -> (res: ScanStep)
        requires
            self.wf(),
        ensures
            match listing {
                Ok(entries) => res is Start && launch_views(res->Start_0@) == launches_of(entries@),
                Err(reason) => match after_failed_attempt(self.attempts()) {
                    Some(attempts) => {
                        &&& res is Retry
                        &&& res->pause == span((RETRY_SECS * NANOS_PER_SEC) as u64)
                        &&& total_nanos(res->pause) == RETRY_SECS * NANOS_PER_SEC
                        &&& res->scan.wf()
                        &&& res->scan.attempts() == attempts
                    },
                    None => res == (ScanStep::GiveUp { attempts: MAX_ATTEMPTS, reason }),
                },
            },
            listing is Ok <==> res is Start,
            listing matches Err(reason) ==> (self.attempts() < 4 ==> (res matches ScanStep::Retry {
                pause,
                scan,
            } && total_nanos(pause) == 3_000_000_000 && scan.attempts() == self.attempts() + 1)),
            listing matches Err(reason) ==> (self.attempts() == 4 ==> res == (ScanStep::GiveUp {
                attempts: 5,
                reason,
            })),
    {
        match listing {
            Ok(entries) => ScanStep::Start(running_containers(&entries)),
            Err(reason) => {
                let attempts: u32 = self.attempts + 1;
                if attempts >= MAX_ATTEMPTS {
                    ScanStep::GiveUp { attempts, reason }
                } else {
                    ScanStep::Retry {
                        pause: Duration::from_secs(RETRY_SECS),
                        scan: StartupScan { attempts },
                    }
                }
            },
        }
    }
}

/// The count of failed attempts after this many failures in a row, or nothing where the
/// scan gave up.
pub open spec fn after_failures(failures: nat) -> Option<nat>
    decreases failures,
{
    if failures == 0 {
        Some(0)
    } else {
        match after_failures((failures - 1) as nat) {
            Some(attempts) => after_failed_attempt(attempts),
            None => None,
        }
    }
}

/// The scan gives up at the fifth failure, and not before.
pub proof fn law_scan_gives_up_at_the_fifth_failure(failures: nat)
    ensures
        failures < MAX_ATTEMPTS ==> after_failures(failures) == Some(failures),
        failures >= MAX_ATTEMPTS ==> after_failures(failures) is None,
    decreases failures,
{
    if failures > 0 {
        law_scan_gives_up_at_the_fifth_failure((failures - 1) as nat);
    }
}

/// Each launch is that of a running container in the listing.
#[verifier::spinoff_prover]
pub proof fn law_launches_are_of_running_containers(entries: Seq<PsEntry>)
    ensures
        launches_of(entries).len() <= entries.len(),
        forall|k: int| #![trigger launches_of(entries)[k]]
            0 <= k < launches_of(entries).len() ==> exists|i: int|
                0 <= i < entries.len() && is_running(#[trigger] entries[i]) && launches_of(
                    entries,
                )[k] == launch_of(entries[i]),
    decreases entries.len(),
{
    if entries.len() > 0 {
        let earlier = entries.drop_last();
        law_launches_are_of_running_containers(earlier);
        assert forall|k: int| #![trigger launches_of(entries)[k]]
            0 <= k < launches_of(entries).len() implies exists|i: int|
                0 <= i < entries.len() && is_running(#[trigger] entries[i]) && launches_of(
                    entries,
                )[k] == launch_of(entries[i]) by {
            if k < launches_of(earlier).len() {
                assert(launches_of(entries)[k] == launches_of(earlier)[k]);
                let i = choose|i: int|
                    0 <= i < earlier.len() && is_running(#[trigger] earlier[i]) && launches_of(
                        earlier,
                    )[k] == launch_of(earlier[i]);
                assert(entries[i] == earlier[i]);
                assert(is_running(entries[i]) && launches_of(entries)[k] == launch_of(entries[i]));
            } else {
                let i = entries.len() - 1;
                assert(entries[i] == entries.last());
                assert(is_running(entries[i]) && launches_of(entries)[k] == launch_of(entries[i]));
            }
        }
    }
}

/// Each running container in the listing is launched.
pub proof fn law_running_containers_are_launched(entries: Seq<PsEntry>, i: int)
    requires
        0 <= i < entries.len(),
        is_running(entries[i]),
    ensures
        launches_of(entries).contains(launch_of(entries[i])),
    decreases entries.len(),
{
    let earlier = entries.drop_last();
    let launches = launches_of(entries);
    if i == entries.len() - 1 {
        assert(launches[launches.len() - 1] == launch_of(entries[i]));
    } else {
        assert(earlier[i] == entries[i]);
        law_running_containers_are_launched(earlier, i);
        let k = choose|k: int|
            0 <= k < launches_of(earlier).len() && launches_of(earlier)[k] == launch_of(entries[i]);
        assert(launches[k] == launches_of(earlier)[k]);
    }
}

/// From an empty register, the scan leaves those containers watched that run and have
/// a healthcheck, and no others. The arrivals are the launches of the listing, each
/// with what came of inspecting the container; every running container is among them.
pub proof fn law_scan_watches_running_containers_with_healthchecks<H>(
    entries: Seq<PsEntry>,
    arrivals: Seq<Arrival<H>>,
)
    requires
        arrivals.len() == launches_of(entries).len(),
        forall|k: int|
            0 <= k < arrivals.len() ==> (#[trigger] arrivals[k]).id == launches_of(entries)[k].id,
    ensures
        ({
            let watched = started_all(Map::<Seq<char>, Task<H>>::empty(), arrivals);
            &&& forall|id: Seq<char>| #[trigger]
                watched.contains_key(id) <==> arrives_checked(arrivals, id)
            &&& forall|id: Seq<char>| #[trigger]
                watched.contains_key(id) ==> exists|i: int|
                    0 <= i < entries.len() && is_running(#[trigger] entries[i])
                        && entries[i].id@ == id
            &&& forall|i: int|
                0 <= i < entries.len() && is_running(#[trigger] entries[i]) ==> exists|k: int|
                    0 <= k < arrivals.len() && (#[trigger] arrivals[k]).id == entries[i].id@
        }),
{
    let empty = Map::<Seq<char>, Task<H>>::empty();
    let watched = started_all(empty, arrivals);
    law_watched_are_those_with_healthchecks(empty, arrivals);
    law_launches_are_of_running_containers(entries);
    assert forall|id: Seq<char>| #[trigger] watched.contains_key(id) implies exists|i: int|
        0 <= i < entries.len() && is_running(#[trigger] entries[i]) && entries[i].id@ == id by {
        assert(arrives_checked(arrivals, id));
        let k = choose|k: int|
            0 <= k < arrivals.len() && (#[trigger] arrivals[k]).id == id
                && arrivals[k].handle is Some;
        let launch = launches_of(entries)[k];
        let i = choose|i: int|
            0 <= i < entries.len() && is_running(#[trigger] entries[i]) && launch == launch_of(
                entries[i],
            );
        assert(entries[i].id@ == id);
    }
    assert forall|i: int|
        0 <= i < entries.len() && is_running(#[trigger] entries[i]) implies exists|k: int|
        0 <= k < arrivals.len() && (#[trigger] arrivals[k]).id == entries[i].id@ by {
        law_running_containers_are_launched(entries, i);
        let k = choose|k: int|
            0 <= k < launches_of(entries).len() && launches_of(entries)[k] == launch_of(entries[i]);
        assert(arrivals[k].id == entries[i].id@);
    }
}

/// A container is launched exactly where it is listed with the state `running`, under its
/// own id and the first of its names, or the empty name where it has none; what stands
/// before it in the listing is launched before it.
pub proof fn law_what_an_entry_adds(entries: Seq<PsEntry>, entry: PsEntry)
    ensures
        entry.state@ != "running"@ ==> launches_of(entries.push(entry)) == launches_of(entries),
        entry.state@ == "running"@ && entry.names@.len() > 0 ==> launches_of(entries.push(entry))
            == launches_of(entries).push(LaunchView { id: entry.id@, name: entry.names@[0]@ }),
        entry.state@ == "running"@ && entry.names@.len() == 0 ==> launches_of(entries.push(entry))
            == launches_of(entries).push(
            LaunchView { id: entry.id@, name: Seq::<char>::empty() },
        ),
        launches_of(Seq::<PsEntry>::empty()).len() == 0,
{
    assert(entries.push(entry).drop_last() =~= entries);
}

/// The launches of two listings follow one another.
pub proof fn law_launches_follow_one_another(first: Seq<PsEntry>, second: Seq<PsEntry>)
    ensures
        launches_of(first + second) == launches_of(first) + launches_of(second),
    decreases second.len(),
{
    if second.len() == 0 {
        assert(first + second =~= first);
        assert(launches_of(first) + launches_of(second) =~= launches_of(first));
    } else {
        law_launches_follow_one_another(first, second.drop_last());
        assert((first + second).drop_last() =~= first + second.drop_last());
        assert((first + second).last() == second.last());
        assert(launches_of(first + second) =~= launches_of(first) + launches_of(second));
    }
}

/// There are as many launches as running containers in the listing.
pub proof fn law_as_many_launches_as_running_containers(entries: Seq<PsEntry>)
    ensures
        launches_of(entries).len() == entries.filter(
            |entry: PsEntry| entry.state@ == "running"@,
        ).len(),
    decreases entries.len(),
{
    reveal(Seq::filter);
    if entries.len() > 0 {
        law_as_many_launches_as_running_containers(entries.drop_last());
    }
}

/// One failure more is counted as long as that makes fewer than five, and ends the scan
/// otherwise.
pub proof fn law_what_a_failed_attempt_does(attempts: nat)
    ensures
        attempts < 4 ==> after_failed_attempt(attempts) == Some((attempts + 1) as nat),
        attempts >= 4 ==> after_failed_attempt(attempts) is None,
        attempts < 5 ==> after_failures(attempts) == Some(attempts),
        attempts >= 5 ==> after_failures(attempts) is None,
{
    law_scan_gives_up_at_the_fifth_failure(attempts);
}

} // verus!
