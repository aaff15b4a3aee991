//! The register of running check loops, one for each watched container.

use crate::monitor::{HealthMonitor, MonitorView};
use crate::podman::{inspect_args, texts, HealthcheckConfig};
use crate::table::{distinct_keys, rows_map, Table};
use vstd::prelude::*;

verus! {

/// A running check loop: the container's name, and the handle by which the loop is
/// ended.
#[derive(Debug)]
pub struct Task<H> {
    pub name: String,
    pub handle: H,
}

/// The running check loops, by the container's id. `H` is the handle of a loop.
#[derive(Debug)]
pub struct TaskManager<H> {
    tasks: Table<Task<H>>,
}

impl<H> View for TaskManager<H> {
    type V = Map<Seq<char>, Task<H>>;

    closed spec fn view(&self) -> Map<Seq<char>, Task<H>> {
        self.tasks@
    }
}

impl<H> TaskManager<H> {
    /// No container is watched twice.
    pub closed spec fn wf(&self) -> bool {
        self.tasks.wf()
    }

    /// A register with no loops.
    pub fn new() -> (res: Self)
        ensures
            res.wf(),
            res@ == Map::<Seq<char>, Task<H>>::empty(),
    {
        TaskManager { tasks: Table::new() }
    }

    /// Whether the container is watched.
    pub fn is_watched(&self, id: &str) -> (res: bool)
        requires
            self.wf(),
        ensures
            res == self@.contains_key(id@),
    {
        self.tasks.contains_key(id)
    }

    /// The arguments of the `podman` command that brings the healthcheck of a container
    /// that starts. A container that is watched already is not inspected.
    pub fn inspection(&self, id: &str) -> (res: Option<Vec<String>>)
        requires
            self.wf(),
        ensures
            res is Some <==> !self@.contains_key(id@),
            res matches Some(args) ==> texts(args@) == seq!["inspect"@, id@],
            res matches Some(args) ==> args@.len() == 2 && args@[0]@ == "inspect"@ && args@[1]@
                == id@,
    {
        if self.tasks.contains_key(id) {
            None
        } else {
            Some(inspect_args(id))
        }
    }

    /// Starts a check loop for the container by `spawn`, given the healthcheck that
    /// inspecting it brought. A container that is watched already, or that has no
    /// healthcheck, is left as it is, and nothing is spawned: `spawn` may be called on a
    /// fresh monitor of the container, and only where a loop is due.
    pub fn start_container<F: FnOnce(HealthMonitor) -> H>(
        &mut self,
        id: String,
        name: String,
        config: Option<HealthcheckConfig>,
        spawn: F,
    ) -> (started: bool)
        requires
            old(self).wf(),
            loop_is_due(old(self)@, id@, config is Some) ==> forall|monitor: HealthMonitor|
                monitor@ == MonitorView::fresh(id@, name@, config->0) ==> #[trigger] call_requires(
                    spawn,
                    (monitor,),
                ),
        ensures
            final(self).wf(),
            started == loop_is_due(old(self)@, id@, config is Some),
            started <==> !old(self)@.contains_key(id@) && config is Some,
            !started ==> final(self)@ == old(self)@,
            started ==> exists|monitor: HealthMonitor, handle: H|
                {
                    &&& monitor@ == MonitorView::fresh(id@, name@, config->0)
                    &&& #[trigger] call_ensures(spawn, (monitor,), handle)
                    &&& final(self)@ == started_with(old(self)@, id@, name, Some(handle))
                    &&& final(self)@ == old(self)@.insert(id@, Task { name, handle })
                },
    {
        if self.tasks.contains_key(id.as_str()) {
            return false;
        }
        match config {
            Some(config) => {
                let monitor: HealthMonitor = HealthMonitor::new(id.clone(), name.clone(), config);
                let handle: H = spawn(monitor);
                self.tasks.insert(id, Task { name, handle });
                true
            },
            None => false,
        }
    }

    /// Takes the container's loop out of the register. The loop that comes back is to
    /// be ended, and the container taken off the status board; where none comes back,
    /// there is nothing to do.
    pub fn stop_container(&mut self, id: &str) -> (res: Option<Task<H>>)
        requires
            old(self).wf(),
        ensures
            final(self).wf(),
            final(self)@ == old(self)@.remove(id@),
            match res {
                Some(task) => old(self)@.contains_key(id@) && task == old(self)@[id@],
                None => !old(self)@.contains_key(id@),
            },
    {
        self.tasks.remove(id)
    }

    /// Takes every loop out of the register. Each loop that was in it comes back once,
    /// to be ended.
    pub fn stop_all(&mut self) -> (res: Vec<(String, Task<H>)>)
        requires
            old(self).wf(),
        ensures
            final(self).wf(),
            final(self)@ == Map::<Seq<char>, Task<H>>::empty(),
            distinct_keys(res@),
            rows_map(res@) == old(self)@,
            res@.len() == old(self)@.dom().len(),
            forall|i: int|
                0 <= i < res@.len() ==> old(self)@.contains_key((#[trigger] res@[i]).0@)
                    && old(self)@[res@[i].0@] == res@[i].1,
            forall|key: Seq<char>| #[trigger]
                old(self)@.contains_key(key) ==> exists|i: int|
                    0 <= i < res@.len() && (#[trigger] res@[i]).0@ == key,
    {
        self.tasks.drain()
    }

    /// The number of watched containers.
    pub fn count(&self) -> (res: usize)
        requires
            self.wf(),
        ensures
            self@.dom().finite(),
            res == self@.dom().len(),
    {
        self.tasks.len()
    }
}

/// A loop is spawned for a container that starts: it is not watched yet, and `checked`
/// says that it has a healthcheck.
pub open spec fn loop_is_due<H>(
    tasks: Map<Seq<char>, Task<H>>,
    id: Seq<char>,
    checked: bool,
) -> bool {
    checked && !tasks.contains_key(id)
}

/// The register after a container started: with a loop of this handle where inspecting
/// the container brought a healthcheck, and unchanged where it did not or where the
/// container was watched already.
pub open spec fn started_with<H>(
    tasks: Map<Seq<char>, Task<H>>,
    id: Seq<char>,
    name: String,
    handle: Option<H>,
) -> Map<Seq<char>, Task<H>> {
    match handle {
        Some(handle) => if loop_is_due(tasks, id, true) {
            tasks.insert(id, Task { name, handle })
        } else {
            tasks
        },
        None => tasks,
    }
}

/// A container that is to be started, and the handle of the loop it gets if it has a
/// healthcheck.
pub struct Arrival<H> {
    pub id: Seq<char>,
    pub name: String,
    pub handle: Option<H>,
}

/// The register after the containers started, one after the other.
pub open spec fn started_all<H>(
    tasks: Map<Seq<char>, Task<H>>,
    arrivals: Seq<Arrival<H>>,
) -> Map<Seq<char>, Task<H>>
    decreases arrivals.len(),
{
    if arrivals.len() == 0 {
        tasks
    } else {
        let last = arrivals.last();
        started_with(started_all(tasks, arrivals.drop_last()), last.id, last.name, last.handle)
    }
}

/// How many loops are spawned for the container with this id as the containers start,
/// one after the other.
pub open spec fn loops_spawned<H>(
    tasks: Map<Seq<char>, Task<H>>,
    arrivals: Seq<Arrival<H>>,
    id: Seq<char>,
) -> nat
    decreases arrivals.len(),
{
    if arrivals.len() == 0 {
        0
    } else {
        let earlier = arrivals.drop_last();
        let last = arrivals.last();
        let due = last.id == id && loop_is_due(
            started_all(tasks, earlier),
            last.id,
            last.handle is Some,
        );
        loops_spawned(tasks, earlier, id) + if due {
            1nat
        } else {
            0nat
        }
    }
}

/// Some container with this id arrives and has a healthcheck.
pub open spec fn arrives_checked<H>(arrivals: Seq<Arrival<H>>, id: Seq<char>) -> bool {
    exists|i: int| 0 <= i < arrivals.len() && (#[trigger] arrivals[i]).id == id
        && arrivals[i].handle is Some
}

/// A container that starts again while it is watched keeps the loop that it has, and
/// nothing is spawned for it.
pub proof fn law_second_start_changes_nothing<H>(
    tasks: Map<Seq<char>, Task<H>>,
    id: Seq<char>,
    name: String,
    handle: H,
    other_name: String,
    other_handle: Option<H>,
)
    ensures
        started_with(
            started_with(tasks, id, name, Some(handle)),
            id,
            other_name,
            other_handle,
        ) == started_with(tasks, id, name, Some(handle)),
        !loop_is_due(started_with(tasks, id, name, Some(handle)), id, other_handle is Some),
{
}

/// While inspecting a container brings the same each time, its second start spawns
/// nothing, whatever the first did.
pub proof fn law_repeated_start_spawns_nothing<H>(
    tasks: Map<Seq<char>, Task<H>>,
    id: Seq<char>,
    name: String,
    handle: Option<H>,
)
    ensures
        !loop_is_due(started_with(tasks, id, name, handle), id, handle is Some),
{
}

/// However often a container starts, one loop is spawned for it if it was not watched
/// before and starts with a healthcheck, and none otherwise.
pub proof fn law_one_loop_for_each_container<H>(
    tasks: Map<Seq<char>, Task<H>>,
    arrivals: Seq<Arrival<H>>,
    id: Seq<char>,
)
    ensures
        loops_spawned(tasks, arrivals, id) == if loop_is_due(
            tasks,
            id,
            arrives_checked(arrivals, id),
        ) {
            1nat
        } else {
            0nat
        },
    decreases arrivals.len(),
{
    if arrivals.len() > 0 {
        let earlier = arrivals.drop_last();
        law_one_loop_for_each_container(tasks, earlier, id);
        law_watched_are_those_with_healthchecks(tasks, earlier);
        assert(started_all(tasks, earlier).contains_key(id) <==> tasks.contains_key(id)
            || arrives_checked(earlier, id));
        lemma_arrives_checked(arrivals, id);
    }
}

/// A container arrives checked in the last arrival or in an earlier one.
proof fn lemma_arrives_checked<H>(arrivals: Seq<Arrival<H>>, id: Seq<char>)
    requires
        arrivals.len() > 0,
    ensures
        arrives_checked(arrivals, id) <==> arrives_checked(arrivals.drop_last(), id) || (
        arrivals.last().id == id && arrivals.last().handle is Some),
{
    let earlier = arrivals.drop_last();
    if arrives_checked(earlier, id) {
        let i = choose|i: int|
            0 <= i < earlier.len() && (#[trigger] earlier[i]).id == id && earlier[i].handle is Some;
        assert(arrivals[i] == earlier[i]);
    }
    if arrives_checked(arrivals, id) {
        let i = choose|i: int|
            0 <= i < arrivals.len() && (#[trigger] arrivals[i]).id == id
                && arrivals[i].handle is Some;
        if i < earlier.len() {
            assert(earlier[i] == arrivals[i]);
        }
    }
    assert(arrivals[arrivals.len() - 1] == arrivals.last());
}

/// Stopping a container undoes its start.
pub proof fn law_stop_undoes_start<H>(
    tasks: Map<Seq<char>, Task<H>>,
    id: Seq<char>,
    name: String,
    handle: Option<H>,
)
    requires
        !tasks.contains_key(id),
    ensures
        started_with(tasks, id, name, handle).remove(id) == tasks,
{
    assert(started_with(tasks, id, name, handle).remove(id) =~= tasks);
}

/// A container that stopped and starts again gets a new loop.
pub proof fn law_start_after_stop_is_new<H>(
    tasks: Map<Seq<char>, Task<H>>,
    id: Seq<char>,
    name: String,
    handle: H,
)
    ensures
        started_with(tasks.remove(id), id, name, Some(handle)).contains_key(id),
        started_with(tasks.remove(id), id, name, Some(handle))[id] == (Task { name, handle }),
{
}

/// Starting or stopping one container leaves the others as they are.
pub proof fn law_containers_are_independent<H>(
    tasks: Map<Seq<char>, Task<H>>,
    id: Seq<char>,
    name: String,
    handle: Option<H>,
    other: Seq<char>,
)
    requires
        other != id,
    ensures
        started_with(tasks, id, name, handle).contains_key(other) == tasks.contains_key(other),
        tasks.remove(id).contains_key(other) == tasks.contains_key(other),
        tasks.contains_key(other) ==> started_with(tasks, id, name, handle)[other] == tasks[other]
            && tasks.remove(id)[other] == tasks[other],
{
}

/// After any number of starts, exactly those containers are watched that were before
/// or that arrived with a healthcheck; those watched before keep their loops.
pub proof fn law_watched_are_those_with_healthchecks<H>(
    tasks: Map<Seq<char>, Task<H>>,
    arrivals: Seq<Arrival<H>>,
)
    ensures
        forall|id: Seq<char>| #[trigger]
            started_all(tasks, arrivals).contains_key(id) <==> tasks.contains_key(id)
                || arrives_checked(arrivals, id),
        forall|id: Seq<char>| #[trigger]
            tasks.contains_key(id) ==> started_all(tasks, arrivals)[id] == tasks[id],
    decreases arrivals.len(),
{
    if arrivals.len() > 0 {
        let earlier = arrivals.drop_last();
        law_watched_are_those_with_healthchecks(tasks, earlier);
        assert forall|id: Seq<char>| #[trigger]
            started_all(tasks, arrivals).contains_key(id) <==> tasks.contains_key(id)
                || arrives_checked(arrivals, id) by {
            assert(started_all(tasks, earlier).contains_key(id) <==> tasks.contains_key(id)
                || arrives_checked(earlier, id));
            lemma_arrives_checked(arrivals, id);
        }
        assert forall|id: Seq<char>| #[trigger]
            tasks.contains_key(id) implies started_all(tasks, arrivals)[id] == tasks[id] by {
            assert(started_all(tasks, earlier).contains_key(id));
        }
    } else {
        assert forall|id: Seq<char>| !arrives_checked(arrivals, id) by {}
    }
}

/// A loop is due for every container that has a healthcheck and is not watched, and for
/// no other; its start then adds that one loop, under the name and the handle given, and
/// any other start adds nothing.
pub proof fn law_start_adds_exactly_the_loop_that_is_due<H>(
    tasks: Map<Seq<char>, Task<H>>,
    id: Seq<char>,
    name: String,
    handle: Option<H>,
)
    ensures
        loop_is_due(tasks, id, handle is Some) <==> handle is Some && !tasks.contains_key(id),
        handle is Some && !tasks.contains_key(id) ==> started_with(tasks, id, name, handle)
            == tasks.insert(id, Task { name, handle: handle->0 }),
        handle is None || tasks.contains_key(id) ==> started_with(tasks, id, name, handle) == tasks,
{
}

} // verus!
