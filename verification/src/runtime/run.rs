//! A whole run, as the sequence of what happened in it.
//!
//! At the head of its loop the driver decides what to do next. It then
//! hands out a spawned task for its first poll, or waits, and either
//! dispatches the completion that arrived and polls its task again, or
//! finds the wait interrupted. What any sequence of such events makes of
//! the executor and its handle is stated here, for every behaviour of the
//! tasks and of the kernel.

use vstd::prelude::*;

use crate::runtime::drain::admissible;
use crate::runtime::drain::admitted;
use crate::runtime::drain::FirstPoll;
use crate::runtime::iouring::decide;
use crate::runtime::iouring::dispatchable;
use crate::runtime::iouring::Completion;
use crate::runtime::iouring::ExecState;
use crate::runtime::iouring::NotifyInfo;
use crate::runtime::iouring::RtState;
use crate::runtime::iouring::Step;
use crate::runtime::TaskId;

verus! {

/// What the dispatch of one completion and the poll that it resumes leave behind.
pub struct Resumed<F> {
    /// The completion that arrived.
    pub cqe: Completion,
    /// The task as the poll leaves it.
    pub task: F,
    /// Whether the task has finished.
    pub ready: bool,
    /// The tasks that it spawned, in the order of spawning.
    pub spawned: Seq<F>,
    /// The handle as the task leaves it.
    pub left: RtState<F>,
}

/// One turn of the driver loop.
pub enum Event<F> {
    /// A spawned task was handed out and polled for the first time.
    First(FirstPoll<F>),
    /// A completion arrived and the task that it names was polled again.
    Again(Resumed<F>),
    /// The wait for a completion was interrupted.
    Interrupted,
}

/// Whether `resumed` can follow a wait: its completion can be dispatched,
/// and the task leaves the handle as a task can that has read the result.
pub open spec fn resumable<F>(exec: ExecState<F>, rt: RtState<F>, resumed: Resumed<F>) -> bool {
    let during = rt.completed(resumed.cqe.user_data, resumed.cqe.result);
    &&& rt.current is None
    &&& dispatchable(exec, rt, resumed.cqe)
    &&& during.left_as(resumed.left, resumed.spawned)
    &&& resumed.left.delivered()
}

/// The task that `event` polls, when it happens to the given executor and handle.
pub open spec fn polled_task<F>(exec: ExecState<F>, rt: RtState<F>, event: Event<F>) -> Option<
    TaskId,
> {
    match event {
        Event::First(_) => Some(TaskId(exec.nextid as usize)),
        Event::Again(resumed) => Some(rt.notifiers[resumed.cqe.user_data].taskid),
        Event::Interrupted => None,
    }
}

/// Whether `event` finds its task finished.
pub open spec fn finishes<F>(event: Event<F>) -> bool {
    match event {
        Event::First(poll) => poll.ready,
        Event::Again(resumed) => resumed.ready,
        Event::Interrupted => false,
    }
}

/// Whether `event` can happen next: the decision of the driver asks for
/// it, and the task behaves as a task can.
pub open spec fn allowed<F>(exec: ExecState<F>, rt: RtState<F>, event: Event<F>) -> bool {
    let decision = decide(exec.draining, rt.spawn.len(), exec.futures.len());
    let decided = ExecState { draining: decision.1, ..exec };
    match event {
        Event::First(poll) => decision.0 == Step::Admit && admissible(decided, rt, poll),
        Event::Again(resumed) => decision.0 == Step::Wait && resumable(decided, rt, resumed),
        Event::Interrupted => decision.0 == Step::Wait,
    }
}

/// The executor and its handle after `event`.
pub open spec fn stepped<F>(exec: ExecState<F>, rt: RtState<F>, event: Event<F>) -> (
    ExecState<F>,
    RtState<F>,
) {
    let decision = decide(exec.draining, rt.spawn.len(), exec.futures.len());
    let decided = ExecState { draining: decision.1, ..exec };
    match event {
        Event::First(poll) => admitted(decided, rt, poll),
        Event::Again(resumed) => {
            let id = rt.notifiers[resumed.cqe.user_data].taskid;
            (
                decided.resumed(id).polled(id, resumed.task, resumed.ready),
                resumed.left.released(),
            )
        },
        Event::Interrupted => (decided, rt),
    }
}

/// The executor and its handle after `events`, one after the other.
pub open spec fn ran<F>(exec: ExecState<F>, rt: RtState<F>, events: Seq<Event<F>>) -> (
    ExecState<F>,
    RtState<F>,
)
    decreases events.len(),
{
    if events.len() == 0 {
        (exec, rt)
    } else {
        let before = ran(exec, rt, events.drop_last());
        stepped(before.0, before.1, events.last())
    }
}

/// Whether each of `events` is allowed where the ones before it lead.
pub open spec fn runnable<F>(exec: ExecState<F>, rt: RtState<F>, events: Seq<Event<F>>) -> bool
    decreases events.len(),
{
    if events.len() == 0 {
        true
    } else {
        let before = ran(exec, rt, events.drop_last());
        &&& runnable(exec, rt, events.drop_last())
        &&& allowed(before.0, before.1, events.last())
    }
}

/// Whether every task of `events` that finishes leaves no operation in flight.
pub open spec fn tidy<F>(exec: ExecState<F>, rt: RtState<F>, events: Seq<Event<F>>) -> bool
    decreases events.len(),
{
    if events.len() == 0 {
        true
    } else {
        let before = ran(exec, rt, events.drop_last());
        let after = ran(exec, rt, events);
        &&& tidy(exec, rt, events.drop_last())
        &&& finishes(events.last()) ==> after.1.holds_none(
            polled_task(before.0, before.1, events.last())->Some_0,
        )
    }
}

/// The number of first polls among `events`.
pub open spec fn first_polls<F>(events: Seq<Event<F>>) -> nat
    decreases events.len(),
{
    if events.len() == 0 {
        0
    } else {
        first_polls(events.drop_last()) + if events.last() is First {
            1nat
        } else {
            0nat
        }
    }
}

/// The number of `events` that find their task finished.
pub open spec fn finished_by<F>(events: Seq<Event<F>>) -> nat
    decreases events.len(),
{
    if events.len() == 0 {
        0
    } else {
        finished_by(events.drop_last()) + if finishes(events.last()) {
            1nat
        } else {
            0nat
        }
    }
}

/// A run. Whatever the tasks and the kernel do:
///
/// * between any two events no task is current and the invariant holds;
/// * as many identities have been handed out as first polls were made;
/// * the table holds as many tasks as were admitted and have not finished;
/// * an interrupted wait leaves the tasks, the queue and the notifiers as
///   they were;
/// * the run is not over while the table holds a task, and it is over as
///   soon as the table and the queue are empty.
pub proof fn lemma_run<F>(exec: ExecState<F>, rt: RtState<F>, events: Seq<Event<F>>)
    requires
        exec.inv(rt),
        rt.current is None,
        runnable(exec, rt, events),
    ensures
        ({
            let after = ran(exec, rt, events);
            &&& after.0.inv(after.1)
            &&& after.1.current is None
            &&& after.0.nextid == exec.nextid + first_polls(events)
            &&& after.0.finished == exec.finished + finished_by(events)
            &&& after.0.futures.len() + finished_by(events) == exec.futures.len() + first_polls(events)
            &&& decide(after.0.draining, after.1.spawn.len(), after.0.futures.len()).0
                == Step::Done ==> after.0.futures.len() == 0
            &&& after.0.futures.len() == 0 && after.1.spawn.len() == 0 ==> decide(
                after.0.draining,
                after.1.spawn.len(),
                after.0.futures.len(),
            ).0 == Step::Done
            &&& events.len() > 0 && events.last() is Interrupted ==> {
                let before = ran(exec, rt, events.drop_last());
                &&& after.1 == before.1
                &&& after.0.futures == before.0.futures
                &&& after.0.nextid == before.0.nextid
                &&& after.0.finished == before.0.finished
            }
        }),
    decreases events.len(),
{
    if events.len() > 0 {
        let front = events.drop_last();
        lemma_run(exec, rt, front);
        let before = ran(exec, rt, front);
        let decision = decide(before.0.draining, before.1.spawn.len(), before.0.futures.len());
        let decided = ExecState { draining: decision.1, ..before.0 };
        assert(decided.inv(before.1));
        match events.last() {
            Event::First(poll) => {
                let id = TaskId(decided.nextid as usize);
                assert(!decided.futures.contains_key(id.0));
            },
            Event::Again(resumed) => {
                let id = before.1.notifiers[resumed.cqe.user_data].taskid;
                let during = before.1.completed(resumed.cqe.user_data, resumed.cqe.result);
                assert(decided.resumed(id).inv(during));
                assert(decided.resumed(id).inv(resumed.left));
            },
            Event::Interrupted => {},
        }
    }
}

/// No notifier outlives a run whose tasks run the operations they start to
/// completion. If every live notifier belongs to a live task when the
/// events begin, and every task that finishes leaves no operation in
/// flight, then every live notifier belongs to a live task afterwards; and
/// once the next decision is that the run is over, no notifier is live:
/// each one that was reserved has been freed.
pub proof fn lemma_run_frees_every_notifier<F>(
    exec: ExecState<F>,
    rt: RtState<F>,
    events: Seq<Event<F>>,
)
    requires
        exec.inv(rt),
        rt.current is None,
        exec.owns(rt),
        runnable(exec, rt, events),
        tidy(exec, rt, events),
    ensures
        ({
            let after = ran(exec, rt, events);
            &&& after.0.owns(after.1)
            &&& decide(after.0.draining, after.1.spawn.len(), after.0.futures.len()).0
                == Step::Done ==> after.1.notifiers.len() == 0
        }),
    decreases events.len(),
{
    lemma_run(exec, rt, events);
    let after = ran(exec, rt, events);
    if events.len() > 0 {
        let front = events.drop_last();
        lemma_run_frees_every_notifier(exec, rt, front);
        lemma_run(exec, rt, front);
        let before = ran(exec, rt, front);
        let decision = decide(before.0.draining, before.1.spawn.len(), before.0.futures.len());
        let decided = ExecState { draining: decision.1, ..before.0 };
        assert(decided.owns(before.1));
        match events.last() {
            Event::First(poll) => {
                let id = TaskId(decided.nextid as usize);
                let during = before.1.admitting(id);
                assert forall|t: u64| #[trigger] after.1.notifiers.contains_key(t) implies after.0.is_live(
                    after.1,
                    after.1.notifiers[t].taskid,
                ) by {
                    assert(poll.left.notifiers.contains_key(t));
                    if during.notifiers.contains_key(t) {
                        assert(before.1.notifiers.contains_key(t));
                    }
                }
            },
            Event::Again(resumed) => {
                let id = before.1.notifiers[resumed.cqe.user_data].taskid;
                let during = before.1.completed(resumed.cqe.user_data, resumed.cqe.result);
                assert forall|t: u64| #[trigger] after.1.notifiers.contains_key(t) implies after.0.is_live(
                    after.1,
                    after.1.notifiers[t].taskid,
                ) by {
                    assert(resumed.left.notifiers.contains_key(t));
                    if during.notifiers.contains_key(t) {
                        assert(before.1.notifiers.contains_key(t));
                    }
                }
            },
            Event::Interrupted => {},
        }
    }
    if decide(after.0.draining, after.1.spawn.len(), after.0.futures.len()).0 == Step::Done {
        after.0.futures.dom().lemma_len0_is_empty();
        assert(after.1.notifiers =~= Map::<u64, NotifyInfo>::empty());
    }
}

} // verus!
