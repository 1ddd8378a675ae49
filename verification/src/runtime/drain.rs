//! A whole drain of the spawn queue, as a sequence of first polls.
//!
//! The driver hands out one spawned task at a time and takes it back after
//! its first poll. What a sequence of such admissions makes of the executor
//! and its handle is stated here, for every behaviour of the tasks.

use vstd::prelude::*;

use crate::runtime::iouring::decide;
use crate::runtime::iouring::ExecState;
use crate::runtime::iouring::RtState;
use crate::runtime::iouring::Step;
use crate::runtime::TaskId;

verus! {

/// What the first poll of one task leaves behind.
pub struct FirstPoll<F> {
    /// The task as the poll leaves it.
    pub task: F,
    /// Whether the task has finished.
    pub ready: bool,
    /// The tasks that it spawned, in the order of spawning.
    pub spawned: Seq<F>,
    /// The handle as the task leaves it.
    pub left: RtState<F>,
}

/// Whether `poll` can be the first poll of the task at the head of the
/// spawn queue: a task is queued and an identity is left for it, and the
/// task leaves the handle as a task can.
pub open spec fn admissible<F>(exec: ExecState<F>, rt: RtState<F>, poll: FirstPoll<F>) -> bool {
    let during = rt.admitting(TaskId(exec.nextid as usize));
    &&& rt.current is None
    &&& rt.spawn.len() > 0
    &&& exec.nextid < usize::MAX
    &&& during.left_as(poll.left, poll.spawned)
}

/// The executor and its handle after the task at the head of the spawn
/// queue has been handed out, polled as `poll` says, and taken back.
pub open spec fn admitted<F>(exec: ExecState<F>, rt: RtState<F>, poll: FirstPoll<F>) -> (
    ExecState<F>,
    RtState<F>,
) {
    let id = TaskId(exec.nextid as usize);
    (exec.admitting().polled(id, poll.task, poll.ready), poll.left.parked())
}

/// The executor and its handle after the admissions `polls`, one after the other.
pub open spec fn drained<F>(exec: ExecState<F>, rt: RtState<F>, polls: Seq<FirstPoll<F>>) -> (
    ExecState<F>,
    RtState<F>,
)
    decreases polls.len(),
{
    if polls.len() == 0 {
        (exec, rt)
    } else {
        let before = drained(exec, rt, polls.drop_last());
        admitted(before.0, before.1, polls.last())
    }
}

/// Whether each of `polls` is admissible where the ones before it lead.
pub open spec fn drainable<F>(exec: ExecState<F>, rt: RtState<F>, polls: Seq<FirstPoll<F>>) -> bool
    decreases polls.len(),
{
    if polls.len() == 0 {
        true
    } else {
        let before = drained(exec, rt, polls.drop_last());
        &&& drainable(exec, rt, polls.drop_last())
        &&& admissible(before.0, before.1, polls.last())
    }
}

/// The tasks that `polls` spawned, in the order of spawning.
pub open spec fn spawned_by<F>(polls: Seq<FirstPoll<F>>) -> Seq<F>
    decreases polls.len(),
{
    if polls.len() == 0 {
        Seq::<F>::empty()
    } else {
        spawned_by(polls.drop_last()) + polls.last().spawned
    }
}

/// The number of `polls` that found their task finished.
pub open spec fn finished_in<F>(polls: Seq<FirstPoll<F>>) -> nat
    decreases polls.len(),
{
    if polls.len() == 0 {
        0
    } else {
        finished_in(polls.drop_last()) + if polls.last().ready {
            1nat
        } else {
            0nat
        }
    }
}

/// A drain. Whatever the tasks do in their first polls:
///
/// * the tasks are handed out in the order in which they were queued and
///   spawned, those spawned during the drain among them, each once, and
///   what is left in the queue is what was not yet handed out;
/// * the task of the poll number `i` gets the identity that lies `i` behind
///   the first free one, so no two get the same;
/// * a task that has not finished stands in the table under its identity, a
///   finished one does not, and what stood in the table before is untouched;
/// * the table has grown by the number of unfinished tasks;
/// * between the admissions no task is current, and the invariant holds.
pub proof fn lemma_drain<F>(exec: ExecState<F>, rt: RtState<F>, polls: Seq<FirstPoll<F>>)
    requires
        exec.inv(rt),
        rt.current is None,
        drainable(exec, rt, polls),
    ensures
        ({
            let after = drained(exec, rt, polls);
            let all = rt.spawn + spawned_by(polls);
            &&& after.0.inv(after.1)
            &&& after.1.current is None
            &&& polls.len() <= all.len()
            &&& after.1.spawn == all.skip(polls.len() as int)
            &&& after.0.nextid == exec.nextid + polls.len()
            &&& after.0.finished == exec.finished + finished_in(polls)
            &&& finished_in(polls) <= polls.len()
            &&& after.0.futures.len() == exec.futures.len() + polls.len() - finished_in(polls)
            &&& forall|k: usize| #[trigger]
                exec.futures.contains_key(k) ==> after.0.futures.contains_key(k)
                    && after.0.futures[k] == exec.futures[k]
            &&& forall|i: int|
                0 <= i < polls.len() ==> {
                    let k = (exec.nextid + i) as usize;
                    if (#[trigger] polls[i]).ready {
                        !after.0.futures.contains_key(k)
                    } else {
                        after.0.futures.contains_key(k) && after.0.futures[k] == polls[i].task
                    }
                }
        }),
    decreases polls.len(),
{
    if polls.len() > 0 {
        let front = polls.drop_last();
        let poll = polls.last();
        lemma_drain(exec, rt, front);
        let before = drained(exec, rt, front);
        let after = drained(exec, rt, polls);
        let id = TaskId(before.0.nextid as usize);
        let all_front = rt.spawn + spawned_by(front);
        let all = rt.spawn + spawned_by(polls);
        assert(all =~= all_front + poll.spawned);
        assert(after.1.spawn =~= all.skip(polls.len() as int));
        assert(!before.0.futures.contains_key(id.0));
        assert(after.0.inv(after.1));
        assert forall|i: int| 0 <= i < polls.len() implies {
            let k = (exec.nextid + i) as usize;
            if (#[trigger] polls[i]).ready {
                !after.0.futures.contains_key(k)
            } else {
                after.0.futures.contains_key(k) && after.0.futures[k] == polls[i].task
            }
        } by {
            if i < front.len() {
                assert(front[i] == polls[i]);
            }
        }
    } else {
        assert(rt.spawn + spawned_by(polls) =~= rt.spawn);
        assert(rt.spawn.skip(0) =~= rt.spawn);
    }
}

/// While a drain goes on the driver does not wait: with a task queued, the
/// next step is to hand it out, so a task that was spawned during a first
/// poll is polled before the driver next blocks on the ring.
pub proof fn lemma_drain_goes_on<F>(exec: ExecState<F>, rt: RtState<F>, polls: Seq<FirstPoll<F>>)
    requires
        exec.inv(rt),
        rt.current is None,
        drainable(exec, rt, polls),
    ensures
        ({
            let after = drained(exec, rt, polls);
            let next = decide(true, after.1.spawn.len(), after.0.futures.len());
            &&& after.1.spawn.len() > 0 ==> next == (Step::Admit, true)
            &&& after.1.spawn.len() == 0 ==> next.0 != Step::Admit
            &&& polls.len() > 0 ==> decide(
                true,
                drained(exec, rt, polls.drop_last()).1.spawn.len(),
                drained(exec, rt, polls.drop_last()).0.futures.len(),
            ) == (Step::Admit, true)
        }),
{
}

/// A task that spawns another from within its first poll and then waits
/// for an operation. The spawned task is handed out next, under the
/// identity that follows, and before the driver can wait; the first task
/// stands in the table; the second does unless it has finished; and the
/// queue is empty when the drain ends.
pub proof fn lemma_spawn_from_within<F>(
    exec: ExecState<F>,
    rt: RtState<F>,
    first: FirstPoll<F>,
    second: FirstPoll<F>,
)
    requires
        exec.inv(rt),
        rt.current is None,
        rt.spawn.len() == 1,
        !first.ready,
        first.spawned.len() == 1,
        second.spawned.len() == 0,
        drainable(exec, rt, seq![first, second]),
    ensures
        ({
            let between = admitted(exec, rt, first);
            let after = drained(exec, rt, seq![first, second]);
            let a = exec.nextid as usize;
            let b = (exec.nextid + 1) as usize;
            &&& between.1.spawn == first.spawned
            &&& decide(true, between.1.spawn.len(), between.0.futures.len()) == (Step::Admit, true)
            &&& after == admitted(between.0, between.1, second)
            &&& a != b
            &&& after.0.futures.contains_key(a) && after.0.futures[a] == first.task
            &&& second.ready ==> !after.0.futures.contains_key(b)
            &&& !second.ready ==> after.0.futures.contains_key(b) && after.0.futures[b]
                == second.task
            &&& after.1.spawn.len() == 0
            &&& after.1.current is None
            &&& after.0.inv(after.1)
        }),
{
    let polls = seq![first, second];
    let front = polls.drop_last();
    assert(front =~= seq![first]);
    assert(front.drop_last() =~= Seq::<FirstPoll<F>>::empty());
    assert(polls.last() == second && front.last() == first);
    reveal_with_fuel(drained, 3);
    reveal_with_fuel(drainable, 3);
    reveal_with_fuel(spawned_by, 3);
    lemma_drain(exec, rt, polls);
    lemma_drain(exec, rt, front);
    assert(polls[0] == first && polls[1] == second);
}

} // verus!
