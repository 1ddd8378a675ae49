//! Laws of the executor and of the notifier table, stated over their
//! mathematical content.

use vstd::prelude::*;

use crate::runtime::iouring::decide;
use crate::runtime::iouring::Completion;
use crate::runtime::iouring::ExecState;
use crate::runtime::iouring::NotifyInfo;
use crate::runtime::iouring::RtState;
use crate::runtime::iouring::Step;
use crate::runtime::iouring::dispatchable;
use crate::runtime::result_of;
use crate::runtime::Errno;
use crate::runtime::TaskId;
use crate::runtime::TaskNotify;

verus! {

/// A reservation adds exactly one notifier, under a token that no live
/// notifier carries: it is stamped with the current task, held by the
/// submission entry and by the leaf, without a result, and every other
/// notifier is as it was.
pub proof fn lemma_reservation_is_fresh<F>(rt: RtState<F>)
    requires
        rt.wf(),
        rt.current is Some,
        rt.next_token < u64::MAX,
    ensures
        !rt.notifiers.contains_key(rt.next_token as u64),
        rt.reserved().wf(),
        rt.reserved().notifiers[rt.next_token as u64] == (NotifyInfo {
            taskid: rt.current->Some_0,
            task: TaskNotify::fresh(),
        }),
        rt.reserved().notifiers.remove(rt.next_token as u64) == rt.notifiers,
        rt.reserved().notifiers.len() == rt.notifiers.len() + 1,
{
    let token = rt.next_token as u64;
    assert(rt.reserved().notifiers.remove(token) =~= rt.notifiers);
}

/// The life of a notifier from its completion on. While no task is polled
/// every live notifier awaits its completion. The delivery stores the
/// result and resumes the owner; the first poll of the leaf operation reads
/// the result and gives up the hold; a further poll finds nothing; the end
/// of the resumed poll frees the notifier, after which the same user data
/// can no more be dispatched.
pub proof fn lemma_notifier_lifecycle<F>(exec: ExecState<F>, rt: RtState<F>, token: u64, res: i32)
    requires
        rt.wf(),
        rt.current is None,
        rt.notifiers.contains_key(token),
    ensures
        ({
            let completed = rt.completed(token, res);
            let observed = completed.observed(token);
            let released = observed.released();
            &&& rt.notifiers[token].task == TaskNotify::fresh()
            &&& completed.wf()
            &&& completed.current == Some(rt.notifiers[token].taskid)
            &&& completed.notifiers[token].task == (TaskNotify {
                refcnt: 1,
                result: Some(result_of(res)),
            })
            &&& observed.wf()
            &&& observed.notifiers[token].task == (TaskNotify { refcnt: 0, result: None })
            &&& !completed.delivered()
            &&& observed.delivered()
            &&& observed.observed(token) == observed
            &&& released.wf()
            &&& released.current is None
            &&& released.notifiers == rt.notifiers.remove(token)
            &&& released.notifiers.len() == rt.notifiers.len() - 1
            &&& !dispatchable(exec, released, Completion { user_data: token, result: res })
        }),
{
    let completed = rt.completed(token, res);
    let observed = completed.observed(token);
    let released = observed.released();
    assert(observed.observed(token).notifiers =~= observed.notifiers);
    assert(released.notifiers =~= rt.notifiers.remove(token));
}

/// The end of a stream is delivered as a count of zero bytes, and once: the
/// poll that follows the delivery reads `Ok(0)`, and after it the notifier
/// holds no result for any further poll.
pub proof fn lemma_end_of_stream<F>(rt: RtState<F>, token: u64)
    requires
        rt.wf(),
        rt.current is None,
        rt.notifiers.contains_key(token),
    ensures
        result_of(0) == Ok::<usize, Errno>(0),
        rt.completed(token, 0).stored(token) == Some(Ok::<usize, Errno>(0)),
        rt.completed(token, 0).observed(token).stored(token) is None,
{
}

/// The invariant of a run is kept by everything that happens in it: by what
/// a task does with the handle while it is polled (reserving an operation,
/// polling one, spawning a task) and by each step of the driver (handing out
/// a spawned task, taking it back, dispatching a completion, taking back the
/// resumed task).
pub proof fn lemma_invariant_is_kept<F>(
    exec: ExecState<F>,
    rt: RtState<F>,
    id: TaskId,
    fut: F,
    ready: bool,
    cqe: Completion,
    token: u64,
)
    requires
        exec.inv(rt),
    ensures
        rt.current is Some && rt.next_token < u64::MAX ==> exec.inv(rt.reserved()),
        exec.inv(rt.observed(token)),
        exec.inv(rt.enqueued(fut)),
        rt.current is None && exec.nextid < usize::MAX ==> exec.admitting().inv(
            rt.admitting(TaskId(exec.nextid as usize)),
        ),
        rt.current == Some(id) && rt.delivering is None ==> exec.polled(id, fut, ready).inv(
            rt.parked(),
        ),
        rt.current is None && dispatchable(exec, rt, cqe) ==> exec.resumed(
            rt.notifiers[cqe.user_data].taskid,
        ).inv(rt.completed(cqe.user_data, cqe.result)),
        rt.current == Some(id) && rt.delivered() ==> exec.polled(id, fut, ready).inv(
            rt.released(),
        ),
{
    if rt.current is Some && rt.next_token < u64::MAX {
        lemma_reservation_is_fresh(rt);
    }
}

/// No notifier outlives the run, if every task runs the operations it
/// starts to completion. As long as a task that reports completion leaves
/// no operation in flight, every live notifier belongs to a live task: this
/// holds when the run starts, and each thing that a task or the driver does
/// keeps it. When the run is over, no task is live, so no notifier is: each
/// one that was reserved has been freed, and freed once, since a freed
/// notifier cannot be dispatched again.
pub proof fn lemma_no_notifier_outlives_the_run<F>(
    exec: ExecState<F>,
    rt: RtState<F>,
    id: TaskId,
    fut: F,
    ready: bool,
    cqe: Completion,
    token: u64,
)
    requires
        exec.inv(rt),
        exec.owns(rt) || rt.notifiers == Map::<u64, NotifyInfo>::empty(),
    ensures
        exec.owns(rt),
        rt.current is Some && rt.next_token < u64::MAX ==> exec.owns(rt.reserved()),
        exec.owns(rt.observed(token)),
        exec.owns(rt.enqueued(fut)),
        rt.current is None && exec.nextid < usize::MAX ==> exec.admitting().owns(
            rt.admitting(TaskId(exec.nextid as usize)),
        ),
        rt.current == Some(id) && rt.delivering is None && (ready ==> rt.holds_none(id))
            ==> exec.polled(id, fut, ready).owns(rt.parked()),
        rt.current is None && dispatchable(exec, rt, cqe) ==> exec.resumed(
            rt.notifiers[cqe.user_data].taskid,
        ).owns(rt.completed(cqe.user_data, cqe.result)),
        rt.current == Some(id) && rt.delivered() && (ready ==> rt.released().holds_none(id))
            ==> exec.polled(id, fut, ready).owns(rt.released()),
        rt.current is None && exec.futures.len() == 0 ==> rt.notifiers.len() == 0,
{
    if rt.current is None && exec.futures.len() == 0 {
        exec.futures.dom().lemma_len0_is_empty();
        assert(rt.notifiers =~= Map::<u64, NotifyInfo>::empty());
    }
}

/// What a task does with the handle is what a task can leave behind:
/// reserving an operation, polling one and spawning a task each leave the
/// handle as the drain and the run allow, and so does any sequence of them.
pub proof fn lemma_tasks_leave_the_handle<F>(
    rt: RtState<F>,
    middle: RtState<F>,
    left: RtState<F>,
    spawned: Seq<F>,
    more: Seq<F>,
    fut: F,
    token: u64,
)
    requires
        rt.wf(),
    ensures
        rt.left_as(rt, Seq::<F>::empty()),
        rt.current is Some && rt.next_token < u64::MAX ==> rt.left_as(
            rt.reserved(),
            Seq::<F>::empty(),
        ),
        rt.left_as(rt.observed(token), Seq::<F>::empty()),
        rt.left_as(rt.enqueued(fut), seq![fut]),
        rt.left_as(middle, spawned) && middle.left_as(left, more) ==> rt.left_as(
            left,
            spawned + more,
        ),
{
    assert(rt.spawn + Seq::<F>::empty() =~= rt.spawn);
    assert(rt.enqueued(fut).spawn =~= rt.spawn + seq![fut]);
    if rt.current is Some && rt.next_token < u64::MAX {
        lemma_reservation_is_fresh(rt);
    }
    if rt.left_as(middle, spawned) && middle.left_as(left, more) {
        assert(left.spawn =~= rt.spawn + (spawned + more));
    }
}

/// The size of the task table. Every task that was ever admitted has
/// finished, stands in the table, or is the one task that is being polled;
/// between polls the table therefore holds as many tasks as were admitted
/// and have not finished.
pub proof fn lemma_task_table_size<F>(exec: ExecState<F>, rt: RtState<F>)
    requires
        exec.inv(rt),
    ensures
        exec.finished <= exec.nextid,
        exec.live(rt) == exec.nextid - exec.finished,
        rt.current is None ==> exec.futures.len() == exec.nextid - exec.finished,
        rt.current is Some ==> exec.futures.len() + 1 == exec.nextid - exec.finished,
{
}

/// At most one task is polled at a time, and it is the current task: the
/// task table does not hold it while it is polled, a delivery is in
/// progress only while a task is current, and then that task owns the
/// notifier under delivery.
pub proof fn lemma_single_active_task<F>(exec: ExecState<F>, rt: RtState<F>)
    requires
        exec.inv(rt),
    ensures
        rt.current matches Some(id) ==> !exec.futures.contains_key(id.0) && id.0 < exec.nextid,
        rt.current is None ==> rt.delivering is None,
        rt.delivering matches Some(token) ==> rt.current == Some(rt.notifiers[token].taskid),
{
}

/// A poll hands the current-task slot from empty to the polled task and
/// back: both ways of beginning a poll set it, both ways of ending one clear
/// it.
pub proof fn lemma_current_task_slot<F>(rt: RtState<F>, id: TaskId, token: u64, res: i32)
    ensures
        rt.admitting(id).current == Some(id),
        rt.admitting(id).parked().current is None,
        rt.completed(token, res).current == Some(rt.notifiers[token].taskid),
        rt.completed(token, res).released().current is None,
{
}

/// The driver blocks on the completion ring only when no spawned task waits
/// for admission and some task is live: while the spawn queue holds a task
/// the decision is never to wait.
pub proof fn lemma_spawn_before_block(draining: bool, queued: nat, live: nat)
    ensures
        decide(draining, queued, live).0 == Step::Wait <==> queued == 0 && live > 0,
        queued > 0 ==> decide(draining, queued, live).0 != Step::Wait,
        decide(draining, queued, live).0 == Step::Done ==> live == 0,
{
}

} // verus!
