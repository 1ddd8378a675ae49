//! Task identity, completion notifiers and the explicit runtime handle.
//!
//! A task reaches the runtime through a `&mut RtInfo` that the driver lends to it
//! for the length of one poll. Leaf operations use the handle to reserve a
//! notifier; `spawn` uses it to queue a new task.

use vstd::prelude::*;

pub mod drain;
pub mod iouring;
pub mod laws;
pub mod run;

pub use self::iouring::Executor;
pub use self::iouring::RtInfo;

verus! {

/// Identity of one task for the lifetime of an executor.
///
/// Identities are handed out in increasing order and never handed out twice.
#[derive(Copy, Clone, Debug, PartialEq, Eq, Structural, Hash)]
pub struct TaskId(pub usize);

/// An operating-system error code: the magnitude of a negative completion result.
#[derive(Copy, Clone, Debug, PartialEq, Eq, Structural)]
pub struct Errno(pub u32);

/// Outcome of polling a leaf operation.
#[derive(Debug)]
pub enum Poll<T> {
    Ready(T),
    Pending,
}

/// Queues `fut` for admission from within the task that is being polled.
///
/// The task table is not touched: the new task gets its identity and its
/// first poll when the driver next drains the spawn queue.
pub fn spawn_dyn<F>(rt: &mut RtInfo<F>, fut: F)
    requires
        old(rt)@.current is Some,
    ensures
        final(rt)@ == old(rt)@.enqueued(fut),
{
    rt.spawn(fut);
}

/// Queues `fut` for admission from within the task that is being polled.
pub fn spawn<F>(rt: &mut RtInfo<F>, fut: F)
    requires
        old(rt)@.current is Some,
    ensures
        final(rt)@ == old(rt)@.enqueued(fut),
{
    spawn_dyn(rt, fut);
}

/// What a signed completion result means: a byte count when it is not
/// negative, otherwise the error code it negates.
pub open spec fn result_of(res: i32) -> Result<usize, Errno> {
    if res >= 0 {
        Ok(res as usize)
    } else {
        Err(Errno((-res) as u32))
    }
}

/// Decodes the signed result word of a completion.
pub fn decode_result(res: i32) -> (r: Result<usize, Errno>)
    ensures
        r == result_of(res),
{
    if res >= 0 {
        Ok(res as usize)
    } else {
        let wide: i64 = res as i64;
        Err(Errno((-wide) as u32))
    }
}

/// The record shared by an in-flight leaf operation and the completion
/// handler.
///
/// `refcnt` counts the live holders: the submission entry until its
/// completion has been stored, and the leaf operation until it has read
/// `result`.
#[derive(Copy, Clone, Debug)]
pub struct TaskNotify {
    pub refcnt: usize,
    pub result: Option<Result<usize, Errno>>,
}

impl TaskNotify {
    /// The three states a notifier passes through: awaiting its completion
    /// (held by the submission entry and by the leaf, no result), completed
    /// (held by the leaf, result present), observed (held by nobody, result
    /// consumed).
    pub open spec fn wf(self) -> bool {
        ||| self.refcnt == 2 && self.result is None
        ||| self.refcnt == 1 && self.result is Some
        ||| self.refcnt == 0 && self.result is None
    }

    /// The notifier of an operation that has just been reserved: the
    /// submission entry and the leaf operation hold it.
    pub open spec fn fresh() -> TaskNotify {
        TaskNotify { refcnt: 2, result: None }
    }

    /// This notifier once its completion has been stored: the submission
    /// entry has given up its hold.
    pub open spec fn completed(self, res: i32) -> TaskNotify
        recommends
            self.refcnt > 0,
    {
        TaskNotify { refcnt: (self.refcnt - 1) as usize, result: Some(result_of(res)) }
    }

    /// This notifier once the leaf operation has been polled: a stored
    /// result is read and the leaf gives up its hold.
    pub open spec fn observed(self) -> TaskNotify {
        if self.result is Some {
            TaskNotify { refcnt: (self.refcnt - 1) as usize, result: None }
        } else {
            self
        }
    }

    /// A notifier for an operation that is about to be submitted.
    pub fn new() -> (n: TaskNotify)
        ensures
            n == TaskNotify::fresh(),
            n.wf(),
    {
        TaskNotify { refcnt: 2, result: None }
    }

    /// Stores the result of the completion that arrived for this notifier
    /// and gives up the hold of the submission entry.
    pub fn complete(&mut self, res: i32)
        requires
            old(self).refcnt > 0,
        ensures
            *final(self) == old(self).completed(res),
            *old(self) == TaskNotify::fresh() ==> final(self).wf(),
    {
        self.refcnt = self.refcnt - 1;
        self.result = Some(decode_result(res));
    }

    /// One poll of the leaf operation that owns this notifier: once the
    /// result is present it is consumed and the hold is given up; before
    /// that the notifier is left alone.
    pub fn poll(&mut self) -> (p: Poll<Result<usize, Errno>>)
        requires
            old(self).wf(),
        ensures
            final(self).wf(),
            *final(self) == old(self).observed(),
            match old(self).result {
                Some(r) => p == Poll::Ready(r),
                None => p is Pending,
            },
    {
        match self.result {
            Some(r) => {
                self.refcnt = self.refcnt - 1;
                self.result = None;
                Poll::Ready(r)
            },
            None => Poll::Pending,
        }
    }
}

} // verus!
