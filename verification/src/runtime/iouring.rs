//! The executor and the runtime handle of the completion-ring driver.

use std::collections::HashMap;
use std::collections::VecDeque;
use vstd::prelude::*;

use crate::runtime::Errno;
use crate::runtime::Poll;
use crate::runtime::TaskId;
use crate::runtime::TaskNotify;

verus! {

broadcast use {
    vstd::std_specs::hash::group_hash_axioms,
    vstd::std_specs::vecdeque::group_vec_dequeue_axioms,
};

/// The number of slots of the submission ring and of the completion ring.
pub const RING_ENTRIES: u32 = 1024;

/// The descriptor of an entry in which no operation has been prepared.
pub const NO_FD: i32 = -1;

/// The operation a submission entry asks the kernel to perform.
#[derive(Copy, Clone, Debug, PartialEq, Eq, Structural)]
pub enum Op {
    Nop,
    ReadVectored,
    WriteVectored,
    PollAdd,
}

/// What is written into one slot of the submission ring.
///
/// `user_data` is echoed by the kernel in the completion and names the
/// notifier of the operation.
#[derive(Copy, Clone, Debug, PartialEq, Eq, Structural)]
pub struct Sqe {
    pub op: Op,
    pub fd: i32,
    pub offset: u64,
    pub user_data: u64,
}

impl Sqe {
    /// A reserved slot before any operation has been prepared in it.
    pub open spec fn blank(user_data: u64) -> Sqe {
        Sqe { op: Op::Nop, fd: NO_FD, offset: 0, user_data }
    }

    /// Prepares a vectored read from `fd` at `offset`.
    pub fn prep_read_vectored(&mut self, fd: i32, offset: u64)
        ensures
            *final(self) == (Sqe {
                op: Op::ReadVectored,
                fd,
                offset,
                user_data: old(self).user_data,
            }),
    {
        self.op = Op::ReadVectored;
        self.fd = fd;
        self.offset = offset;
    }

    /// Prepares a vectored write to `fd` at `offset`.
    pub fn prep_write_vectored(&mut self, fd: i32, offset: u64)
        ensures
            *final(self) == (Sqe {
                op: Op::WriteVectored,
                fd,
                offset,
                user_data: old(self).user_data,
            }),
    {
        self.op = Op::WriteVectored;
        self.fd = fd;
        self.offset = offset;
    }

    /// Prepares a one-shot poll for readability of `fd`.
    pub fn prep_poll_add(&mut self, fd: i32)
        ensures
            *final(self) == (Sqe {
                op: Op::PollAdd,
                fd,
                offset: 0,
                user_data: old(self).user_data,
            }),
    {
        self.op = Op::PollAdd;
        self.fd = fd;
        self.offset = 0;
    }
}

/// One entry of the completion ring: the echoed user data and the signed
/// result of the operation.
#[derive(Copy, Clone, Debug, PartialEq, Eq, Structural)]
pub struct Completion {
    pub user_data: u64,
    pub result: i32,
}

/// A notifier together with the task that is resumed when its completion
/// arrives.
#[derive(Copy, Clone, Debug)]
pub struct NotifyInfo {
    pub taskid: TaskId,
    pub task: TaskNotify,
}

/// The mathematical content of a runtime handle.
pub struct RtState<F> {
    /// The task that is being polled right now.
    pub current: Option<TaskId>,
    /// The token of the notifier whose completion is being delivered to the current task.
    pub delivering: Option<u64>,
    /// Tasks that were spawned and not yet admitted, oldest first.
    pub spawn: Seq<F>,
    /// The notifiers of all operations that were reserved and not yet released.
    pub notifiers: Map<u64, NotifyInfo>,
    /// The token the next reserved operation gets.
    pub next_token: nat,
}

impl<F> RtState<F> {
    /// Every live notifier carries a token that was handed out. All of them
    /// await their completion, held by the submission entry and by the leaf
    /// and without a result, but the one under delivery, which belongs to
    /// the current task and holds its result until the task has read it.
    pub open spec fn wf(self) -> bool {
        &&& self.notifiers.dom().finite()
        &&& forall|t: u64| #[trigger]
            self.notifiers.contains_key(t) ==> {
                &&& t < self.next_token
                &&& self.notifiers[t].task.wf()
                &&& self.delivering != Some(t) ==> self.notifiers[t].task == TaskNotify::fresh()
            }
        &&& self.delivering matches Some(t) ==> {
            &&& self.notifiers.contains_key(t)
            &&& self.current == Some(self.notifiers[t].taskid)
        }
    }

    /// The handle after the current task has reserved an operation: a fresh
    /// notifier stamped with the current task stands under the next token.
    pub open spec fn reserved(self) -> RtState<F>
        recommends
            self.current is Some,
    {
        RtState {
            notifiers: self.notifiers.insert(
                self.next_token as u64,
                NotifyInfo { taskid: self.current->Some_0, task: TaskNotify::fresh() },
            ),
            next_token: self.next_token + 1,
            ..self
        }
    }

    /// The handle after the completion `res` has been stored under `token`:
    /// that notifier is under delivery and its owner is the current task.
    pub open spec fn completed(self, token: u64, res: i32) -> RtState<F>
        recommends
            self.notifiers.contains_key(token),
    {
        let info = self.notifiers[token];
        RtState {
            current: Some(info.taskid),
            delivering: Some(token),
            notifiers: self.notifiers.insert(
                token,
                NotifyInfo { taskid: info.taskid, task: info.task.completed(res) },
            ),
            ..self
        }
    }

    /// The handle after the leaf operation that holds `token` has been polled.
    pub open spec fn observed(self, token: u64) -> RtState<F> {
        if self.notifiers.contains_key(token) {
            let info = self.notifiers[token];
            RtState {
                notifiers: self.notifiers.insert(
                    token,
                    NotifyInfo { taskid: info.taskid, task: info.task.observed() },
                ),
                ..self
            }
        } else {
            self
        }
    }

    /// The handle after the poll that a delivery resumed has ended: the
    /// notifier under delivery is freed and no task is current.
    pub open spec fn released(self) -> RtState<F>
        recommends
            self.delivering is Some,
    {
        RtState {
            current: None,
            delivering: None,
            notifiers: self.notifiers.remove(self.delivering->Some_0),
            ..self
        }
    }

    /// Whether a delivery is in progress and its result has been read: the
    /// notifier under delivery is held no more.
    pub open spec fn delivered(self) -> bool {
        &&& self.delivering matches Some(token)
        &&& self.notifiers.contains_key(token)
        &&& self.notifiers[token].task.refcnt == 0
    }

    /// Whether a task that is polled with this handle can leave it as
    /// `left`, having spawned `spawned`. A task does not touch the
    /// current-task slot or the delivery; what it spawns is queued behind
    /// what was queued; and every notifier that it leaves either stood there
    /// before, with the same owner, or is stamped with the task itself.
    pub open spec fn left_as(self, left: RtState<F>, spawned: Seq<F>) -> bool {
        &&& left.wf()
        &&& left.current == self.current
        &&& left.delivering == self.delivering
        &&& left.spawn == self.spawn + spawned
        &&& forall|t: u64| #[trigger]
            left.notifiers.contains_key(t) ==> {
                ||| self.notifiers.contains_key(t) && self.notifiers[t].taskid
                    == left.notifiers[t].taskid
                ||| left.current == Some(left.notifiers[t].taskid)
            }
    }

    /// Whether the task `id` has no operation in flight: no live notifier is
    /// stamped with it.
    pub open spec fn holds_none(self, id: TaskId) -> bool {
        forall|t: u64| #[trigger] self.notifiers.contains_key(t) ==> self.notifiers[t].taskid != id
    }

    /// The result that the notifier under `token` holds for its leaf
    /// operation: none before the completion has been delivered, after the
    /// operation has read it, and for a token that names no live notifier.
    pub open spec fn stored(self, token: u64) -> Option<Result<usize, Errno>> {
        if self.notifiers.contains_key(token) {
            self.notifiers[token].task.result
        } else {
            None
        }
    }

    /// The handle after `fut` has been put at the tail of the spawn queue.
    pub open spec fn enqueued(self, fut: F) -> RtState<F> {
        RtState { spawn: self.spawn.push(fut), ..self }
    }
}

/// The state that tasks reach while they are polled: the current-task slot,
/// the queue of spawned tasks and the table of notifiers.
pub struct RtInfo<F> {
    current: Option<TaskId>,
    delivering: Option<u64>,
    spawn: VecDeque<F>,
    notifiers: HashMap<u64, NotifyInfo>,
    next_token: u64,
}

impl<F> View for RtInfo<F> {
    type V = RtState<F>;

    closed spec fn view(&self) -> RtState<F> {
        RtState {
            current: self.current,
            delivering: self.delivering,
            spawn: self.spawn@,
            notifiers: self.notifiers@,
            next_token: self.next_token as nat,
        }
    }
}

impl<F> RtInfo<F> {
    /// The task that is being polled, if a poll is in progress.
    pub fn current_task(&self) -> (r: Option<TaskId>)
        ensures
            r == self@.current,
    {
        self.current
    }

    /// The token of the notifier whose completion is being delivered, if a
    /// delivery is in progress.
    pub fn delivering(&self) -> (r: Option<u64>)
        ensures
            r == self@.delivering,
    {
        self.delivering
    }

    /// Whether a delivery is in progress and the task has read its result,
    /// so that the notifier under delivery holds no reference any more.
    pub fn delivered(&self) -> (r: bool)
        ensures
            r == self@.delivered(),
    {
        match self.delivering {
            Some(token) => match self.notifiers.get(&token) {
                Some(info) => info.task.refcnt == 0,
                None => false,
            },
            None => false,
        }
    }

    /// The number of spawned tasks that wait for admission.
    pub fn spawn_len(&self) -> (r: usize)
        ensures
            r == self@.spawn.len(),
    {
        self.spawn.len()
    }

    /// The number of notifiers that are reserved and not yet released.
    pub fn notifier_count(&self) -> (r: usize)
        ensures
            r == self@.notifiers.len(),
    {
        self.notifiers.len()
    }

    /// The notifier under `token`, if it is live.
    pub fn notifier(&self, token: u64) -> (r: Option<NotifyInfo>)
        ensures
            r == if self@.notifiers.contains_key(token) {
                Some(self@.notifiers[token])
            } else {
                None
            },
    {
        match self.notifiers.get(&token) {
            Some(info) => Some(*info),
            None => None,
        }
    }

    /// Reserves an operation for the current task.
    ///
    /// `slot_free` tells whether the submission ring had a free slot. On
    /// success the entry to fill and the token of the new notifier are
    /// returned; the entry already carries the token as its user data.
    /// Nothing is reserved without a free slot, outside a poll, or when the
    /// tokens are used up.
    pub fn next_sqe(&mut self, slot_free: bool) -> (r: Option<(Sqe, u64)>)
        requires
            old(self)@.wf(),
        ensures
            final(self)@.wf(),
            r is Some <==> slot_free && old(self)@.current is Some && old(self)@.next_token
                < u64::MAX,
            match r {
                Some((sqe, token)) => {
                    &&& token == old(self)@.next_token
                    &&& !old(self)@.notifiers.contains_key(token)
                    &&& sqe == Sqe::blank(token)
                    &&& final(self)@ == old(self)@.reserved()
                },
                None => final(self)@ == old(self)@,
            },
    {
        let taskid: TaskId = match self.current {
            Some(id) => id,
            None => {
                return None;
            },
        };
        if !slot_free || self.next_token == u64::MAX {
            return None;
        }
        let token: u64 = self.next_token;
        self.notifiers.insert(token, NotifyInfo { taskid, task: TaskNotify::new() });
        self.next_token = token + 1;
        Some((Sqe { op: Op::Nop, fd: NO_FD, offset: 0, user_data: token }, token))
    }

    /// One poll of the leaf operation that holds `token`.
    ///
    /// Once the completion has been stored the result is handed out and the
    /// hold on the notifier is given up; until then, and for a token that
    /// names no live notifier, the operation is pending and nothing changes.
    pub fn poll_notify(&mut self, token: u64) -> (p: Poll<Result<usize, Errno>>)
        requires
            old(self)@.wf(),
        ensures
            final(self)@.wf(),
            final(self)@ == old(self)@.observed(token),
            match old(self)@.stored(token) {
                Some(r) => p == Poll::Ready(r),
                None => p is Pending,
            },
    {
        let found: Option<NotifyInfo> = self.notifier(token);
        match found {
            Some(info) => {
                let mut task: TaskNotify = info.task;
                let p = task.poll();
                self.notifiers.insert(token, NotifyInfo { taskid: info.taskid, task });
                assert(final(self)@.notifiers =~= old(self)@.observed(token).notifiers);
                p
            },
            None => Poll::Pending,
        }
    }

    /// Takes the outcome of one attempt to flush the reserved entries to the
    /// kernel. The number of accepted entries is passed on, an interrupted
    /// attempt is to be repeated and is not seen by the task, and any other
    /// error fails the operation that asked for the submission.
    pub fn submit(&self, outcome: Result<usize, RingError>) -> (s: Submitted)
        ensures
            s == match outcome {
                Ok(accepted) => Submitted::Accepted(accepted),
                Err(RingError::Interrupted) => Submitted::Retry,
                Err(RingError::Other(errno)) => Submitted::Failed(errno),
            },
    {
        match outcome {
            Ok(accepted) => Submitted::Accepted(accepted),
            Err(RingError::Interrupted) => Submitted::Retry,
            Err(RingError::Other(errno)) => Submitted::Failed(errno),
        }
    }

    /// Queues a task for admission.
    pub fn spawn(&mut self, fut: F)
        ensures
            final(self)@ == old(self)@.enqueued(fut),
    {
        self.spawn.push_back(fut);
    }
}

/// What the driver does next.
#[derive(Copy, Clone, Debug, PartialEq, Eq, Structural)]
pub enum Step {
    /// Admit the task at the head of the spawn queue and poll it for the first time.
    Admit,
    /// Block until a completion arrives.
    Wait,
    /// The task table is empty: the run is over.
    Done,
}

/// Why a call into the ring, to submit or to wait, ended without its result.
#[derive(Copy, Clone, Debug, PartialEq, Eq, Structural)]
pub enum RingError {
    /// The call was interrupted before it was done.
    Interrupted,
    /// The ring reported the given error.
    Other(Errno),
}

/// What follows an attempt to submit the reserved entries.
#[derive(Copy, Clone, Debug, PartialEq, Eq, Structural)]
pub enum Submitted {
    /// The kernel has accepted the given number of entries.
    Accepted(usize),
    /// The attempt was interrupted: submit again.
    Retry,
    /// The submission failed; the operation that asked for it fails with this error.
    Failed(Errno),
}

/// The decision at the head of the driver loop.
///
/// A drain that has begun goes on while the spawn queue holds a task. After
/// it the run ends once the task table is empty; else the driver blocks when
/// nothing is queued and begins a new drain when something is. The second
/// component tells whether a drain is under way after the decision.
pub open spec fn decide(draining: bool, queued: nat, live: nat) -> (Step, bool) {
    if draining && queued > 0 {
        (Step::Admit, true)
    } else if live == 0 {
        (Step::Done, false)
    } else if queued == 0 {
        (Step::Wait, false)
    } else {
        (Step::Admit, true)
    }
}

/// The mathematical content of an executor.
pub struct ExecState<F> {
    /// The number of tasks that were admitted, which is also the next task identity.
    pub nextid: nat,
    /// The number of admitted tasks that have reported completion.
    pub finished: nat,
    /// The task table: admitted tasks that have not finished and are not being polled.
    pub futures: Map<usize, F>,
    /// Tasks that were spawned before the run began, oldest first.
    pub spawn: Seq<F>,
    /// Whether a drain of the spawn queue is under way.
    pub draining: bool,
}

impl<F> ExecState<F> {
    /// An executor that has not begun to run.
    pub open spec fn idle(self) -> bool {
        &&& self.nextid == 0
        &&& self.finished == 0
        &&& self.futures == Map::<usize, F>::empty()
        &&& self.draining
    }

    /// The number of tasks that are live: in the task table, or handed out for a poll.
    pub open spec fn live(self, rt: RtState<F>) -> nat {
        self.futures.len() + if rt.current is Some {
            1nat
        } else {
            0nat
        }
    }

    /// What holds of a running executor and its handle between any two steps.
    ///
    /// Every admitted task has either finished or is live; the task that is
    /// being polled is held by the driver and not by the table; and the
    /// queue of the executor itself, which only fills before the run, is
    /// empty: during the run tasks are spawned through the handle.
    pub open spec fn inv(self, rt: RtState<F>) -> bool {
        &&& rt.wf()
        &&& self.futures.dom().finite()
        &&& forall|id: usize| #[trigger] self.futures.contains_key(id) ==> id < self.nextid
        &&& self.live(rt) + self.finished == self.nextid
        &&& self.nextid <= usize::MAX
        &&& rt.current matches Some(id) ==> id.0 < self.nextid && !self.futures.contains_key(id.0)
        &&& self.spawn.len() == 0
    }

    /// Whether the task `id` is live: in the task table, or being polled.
    pub open spec fn is_live(self, rt: RtState<F>, id: TaskId) -> bool {
        self.futures.contains_key(id.0) || rt.current == Some(id)
    }

    /// Whether every live notifier belongs to a live task.
    pub open spec fn owns(self, rt: RtState<F>) -> bool {
        forall|t: u64| #[trigger]
            rt.notifiers.contains_key(t) ==> self.is_live(rt, rt.notifiers[t].taskid)
    }

    /// The executor after it has given the next identity to a task.
    pub open spec fn admitting(self) -> ExecState<F> {
        ExecState { nextid: self.nextid + 1, ..self }
    }

    /// The executor after the task `id` has been polled: a finished task is
    /// counted, an unfinished one stands in the table.
    pub open spec fn polled(self, id: TaskId, fut: F, ready: bool) -> ExecState<F> {
        if ready {
            ExecState { finished: self.finished + 1, ..self }
        } else {
            ExecState { futures: self.futures.insert(id.0, fut), ..self }
        }
    }

    /// The executor after the task `id` has been taken out of the table for a poll.
    pub open spec fn resumed(self, id: TaskId) -> ExecState<F> {
        ExecState { futures: self.futures.remove(id.0), ..self }
    }
}

impl<F> RtState<F> {
    /// The handle after the head of the spawn queue has been taken out and
    /// made the current task under the identity `id`.
    pub open spec fn admitting(self, id: TaskId) -> RtState<F> {
        RtState { current: Some(id), spawn: self.spawn.subrange(1, self.spawn.len() as int), ..self }
    }

    /// The handle after the poll of the current task has ended.
    pub open spec fn parked(self) -> RtState<F> {
        RtState { current: None, ..self }
    }
}

/// The task registry and the decisions of the driver loop.
///
/// The executor never polls a task itself. It hands the task out, the driver
/// polls it with the handle lent to it, and reports back whether it finished.
pub struct Executor<F> {
    nextid: usize,
    finished: usize,
    futures: HashMap<usize, F>,
    spawn: VecDeque<F>,
    draining: bool,
}

impl<F> View for Executor<F> {
    type V = ExecState<F>;

    closed spec fn view(&self) -> ExecState<F> {
        ExecState {
            nextid: self.nextid as nat,
            finished: self.finished as nat,
            futures: self.futures@,
            spawn: self.spawn@,
            draining: self.draining,
        }
    }
}

impl<F> Executor<F> {
    /// An executor with no task.
    pub fn new() -> (e: Executor<F>)
        ensures
            e@.idle(),
            e@.spawn == Seq::<F>::empty(),
    {
        Executor {
            nextid: 0,
            finished: 0,
            futures: HashMap::new(),
            spawn: VecDeque::new(),
            draining: true,
        }
    }

    /// Queues a task for the run to come.
    pub fn spawn_dyn(&mut self, fut: F)
        ensures
            final(self)@ == (ExecState { spawn: old(self)@.spawn.push(fut), ..old(self)@ }),
    {
        self.spawn.push_back(fut);
    }

    /// Queues a task for the run to come.
    pub fn spawn(&mut self, fut: F)
        ensures
            final(self)@ == (ExecState { spawn: old(self)@.spawn.push(fut), ..old(self)@ }),
    {
        self.spawn_dyn(fut)
    }

    /// The number of tasks in the task table.
    pub fn task_count(&self) -> (n: usize)
        ensures
            n == self@.futures.len(),
    {
        self.futures.len()
    }

    /// The number of tasks admitted so far.
    pub fn admitted(&self) -> (n: usize)
        ensures
            n == self@.nextid,
    {
        self.nextid
    }

    /// The number of admitted tasks that have finished.
    pub fn finished(&self) -> (n: usize)
        ensures
            n == self@.finished,
    {
        self.finished
    }

    /// Hands out the next task identity.
    fn next_id(&mut self) -> (id: TaskId)
        requires
            old(self)@.nextid < usize::MAX,
        ensures
            id == TaskId(old(self)@.nextid as usize),
            final(self)@ == old(self)@.admitting(),
    {
        self.nextid = self.nextid + 1;
        TaskId(self.nextid - 1)
    }

    /// Begins the run: the tasks spawned so far move to the spawn queue of a
    /// new, installed handle, in the order in which they were spawned.
    pub fn start(self) -> (r: (Executor<F>, RtInfo<F>))
        requires
            self@.idle(),
        ensures
            r.0@ == (ExecState { spawn: Seq::<F>::empty(), ..self@ }),
            r.1@ == (RtState {
                current: None,
                delivering: None,
                spawn: self@.spawn,
                notifiers: Map::<u64, NotifyInfo>::empty(),
                next_token: 0,
            }),
            r.0@.inv(r.1@),
    {
        let rt = RtInfo {
            current: None,
            delivering: None,
            spawn: self.spawn,
            notifiers: HashMap::new(),
            next_token: 0,
        };
        let exec = Executor {
            nextid: self.nextid,
            finished: self.finished,
            futures: self.futures,
            spawn: VecDeque::new(),
            draining: self.draining,
        };
        (exec, rt)
    }

    /// Decides what the driver does next.
    pub fn next_step(&mut self, rt: &RtInfo<F>) -> (step: Step)
        requires
            old(self)@.inv(rt@),
            rt@.current is None,
        ensures
            final(self)@.inv(rt@),
            (step, final(self)@.draining) == decide(
                old(self)@.draining,
                rt@.spawn.len(),
                old(self)@.futures.len(),
            ),
            final(self)@ == (ExecState { draining: final(self)@.draining, ..old(self)@ }),
            step == Step::Wait ==> rt@.spawn.len() == 0 && final(self)@.futures.len() > 0,
            step == Step::Admit ==> rt@.spawn.len() > 0,
            step == Step::Done ==> final(self)@.futures.len() == 0,
    {
        let queued: usize = rt.spawn.len();
        if self.draining && queued > 0 {
            Step::Admit
        } else if self.futures.is_empty() {
            self.draining = false;
            assert(self@.futures =~= Map::<usize, F>::empty());
            Step::Done
        } else if queued == 0 {
            self.draining = false;
            Step::Wait
        } else {
            self.draining = true;
            Step::Admit
        }
    }

    /// Takes the task at the head of the spawn queue, gives it the next
    /// identity and makes it the current task. The driver polls the task
    /// that is returned and reports the outcome to `polled_new`.
    pub fn poll_new(&mut self, rt: &mut RtInfo<F>) -> (r: Option<(TaskId, F)>)
        requires
            old(self)@.inv(old(rt)@),
            old(rt)@.current is None,
            old(self)@.nextid < usize::MAX,
        ensures
            final(self)@.inv(final(rt)@),
            r is Some <==> old(rt)@.spawn.len() > 0,
            match r {
                Some((id, fut)) => {
                    &&& id == TaskId(old(self)@.nextid as usize)
                    &&& fut == old(rt)@.spawn[0]
                    &&& final(self)@ == old(self)@.admitting()
                    &&& final(rt)@ == old(rt)@.admitting(id)
                },
                None => final(self)@ == old(self)@ && final(rt)@ == old(rt)@,
            },
    {
        match rt.spawn.pop_front() {
            Some(fut) => {
                let id: TaskId = self.next_id();
                rt.current = Some(id);
                Some((id, fut))
            },
            None => None,
        }
    }

    /// Takes back the task `id` after its first poll: a task that has not
    /// finished enters the task table, a finished one is dropped. No task is
    /// current afterwards.
    pub fn polled_new(&mut self, rt: &mut RtInfo<F>, id: TaskId, fut: F, ready: bool)
        requires
            old(self)@.inv(old(rt)@),
            old(rt)@.current == Some(id),
            old(rt)@.delivering is None,
        ensures
            final(self)@.inv(final(rt)@),
            final(self)@ == old(self)@.polled(id, fut, ready),
            final(rt)@ == old(rt)@.parked(),
    {
        if ready {
            self.finished = self.finished + 1;
        } else {
            self.futures.insert(id.0, fut);
        }
        rt.current = None;
    }

    /// Whether the completion can be dispatched: it names a live notifier
    /// whose task is in the task table.
    pub fn can_dispatch(&self, rt: &RtInfo<F>, cqe: Completion) -> (b: bool)
        ensures
            b == dispatchable(self@, rt@, cqe),
    {
        match rt.notifier(cqe.user_data) {
            Some(info) => self.futures.contains_key(&info.taskid.0),
            None => false,
        }
    }

    /// Dispatches one completion: its result is stored in the notifier that
    /// its user data names, the submission entry gives up its hold on it,
    /// and the task that owns the notifier becomes the current task and is
    /// taken out of the table. The driver polls the task that is returned
    /// and reports the outcome to `polled_cqe`.
    pub fn poll_cqe(&mut self, rt: &mut RtInfo<F>, cqe: Completion) -> (r: (TaskId, F))
        requires
            old(self)@.inv(old(rt)@),
            old(rt)@.current is None,
            dispatchable(old(self)@, old(rt)@, cqe),
        ensures
            final(self)@.inv(final(rt)@),
            r.0 == old(rt)@.notifiers[cqe.user_data].taskid,
            r.1 == old(self)@.futures[r.0.0],
            final(self)@ == old(self)@.resumed(r.0),
            final(rt)@ == old(rt)@.completed(cqe.user_data, cqe.result),
    {
        let info: NotifyInfo = rt.notifier(cqe.user_data).unwrap();
        let fut: F = self.futures.remove(&info.taskid.0).unwrap();
        let mut task: TaskNotify = info.task;
        task.complete(cqe.result);
        rt.notifiers.insert(cqe.user_data, NotifyInfo { taskid: info.taskid, task });
        rt.current = Some(info.taskid);
        rt.delivering = Some(cqe.user_data);
        (info.taskid, fut)
    }

    /// Takes the outcome of one wait for a completion. A completion is
    /// dispatched as `poll_cqe` does. An interrupted wait changes nothing and
    /// hands out no task: the driver waits again, and no task learns of it.
    pub fn waited(&mut self, rt: &mut RtInfo<F>, outcome: Result<Completion, RingError>) -> (r:
        Option<(TaskId, F)>)
        requires
            old(self)@.inv(old(rt)@),
            old(rt)@.current is None,
            outcome matches Ok(cqe) ==> dispatchable(old(self)@, old(rt)@, cqe),
            !(outcome matches Err(RingError::Other(_))),
        ensures
            final(self)@.inv(final(rt)@),
            match outcome {
                Ok(cqe) => {
                    &&& r matches Some((id, fut))
                    &&& id == old(rt)@.notifiers[cqe.user_data].taskid
                    &&& fut == old(self)@.futures[id.0]
                    &&& final(self)@ == old(self)@.resumed(id)
                    &&& final(rt)@ == old(rt)@.completed(cqe.user_data, cqe.result)
                },
                Err(_) => {
                    &&& r is None
                    &&& final(self)@ == old(self)@
                    &&& final(rt)@ == old(rt)@
                },
            },
    {
        match outcome {
            Ok(cqe) => Some(self.poll_cqe(rt, cqe)),
            Err(_) => None,
        }
    }

    /// Takes back the task `id` after the poll that a delivery resumed: a
    /// task that has not finished returns to the task table, a finished one
    /// is dropped. The notifier under delivery, which the task has read, is
    /// freed, and no task is current afterwards.
    pub fn polled_cqe(&mut self, rt: &mut RtInfo<F>, id: TaskId, fut: F, ready: bool)
        requires
            old(self)@.inv(old(rt)@),
            old(rt)@.current == Some(id),
            old(rt)@.delivered(),
        ensures
            final(self)@.inv(final(rt)@),
            final(self)@ == old(self)@.polled(id, fut, ready),
            final(rt)@ == old(rt)@.released(),
    {
        if ready {
            self.finished = self.finished + 1;
        } else {
            self.futures.insert(id.0, fut);
        }
        match rt.delivering {
            Some(token) => {
                rt.notifiers.remove(&token);
            },
            None => {},
        }
        rt.delivering = None;
        rt.current = None;
    }
}

/// Whether a completion can be dispatched: it names a live notifier whose
/// task is in the task table.
pub open spec fn dispatchable<F>(exec: ExecState<F>, rt: RtState<F>, cqe: Completion) -> bool {
    &&& rt.notifiers.contains_key(cqe.user_data)
    &&& exec.futures.contains_key(rt.notifiers[cqe.user_data].taskid.0)
}

} // verus!
