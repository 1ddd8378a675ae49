//! The wake channel: a queue from many senders to one receiving task, whose
//! readiness is signalled through a counting event descriptor.
//!
//! The queue and the count of its ends live in a `Channel`. The driver
//! shares it between the threads of the senders and the runtime, and it
//! performs the writes and reads on the descriptor that the ends ask for.

use std::collections::VecDeque;
use vstd::prelude::*;

use crate::runtime::iouring::Op;
use crate::runtime::iouring::RtInfo;
use crate::runtime::iouring::Sqe;
use crate::runtime::Errno;
use crate::runtime::Poll;

verus! {

broadcast use vstd::std_specs::vecdeque::group_vec_dequeue_axioms;

/// A value that could not be sent because the receiver is gone.
#[derive(Debug)]
pub struct SendError<T>(pub T);

/// Why no value could be taken from the queue.
#[derive(Copy, Clone, Debug, PartialEq, Eq, Structural)]
pub enum TryRecvError {
    /// The queue is empty and a sender is alive.
    Empty,
    /// The queue is empty and every sender is gone.
    Disconnected,
}

/// Why a receive ended without a value.
#[derive(Copy, Clone, Debug, PartialEq, Eq, Structural)]
pub enum RecvError {
    /// The queue is empty and every sender is gone.
    Disconnected,
    /// Waiting for the descriptor failed with the given error.
    Os(Errno),
}

/// The request to add one unit to the counter of the descriptor `fd`.
#[derive(Copy, Clone, Debug, PartialEq, Eq, Structural)]
#[must_use]
pub struct Wake {
    pub fd: i32,
}

/// The mathematical content of a channel.
pub struct ChannelState<T> {
    /// The values that were sent and not yet received, oldest first.
    pub queue: Seq<T>,
    /// The number of senders that are alive.
    pub senders: nat,
    /// Whether the receiver is alive.
    pub receiver: bool,
    /// Every value that was ever accepted from a sender, in the order of acceptance.
    pub sent: Seq<T>,
    /// Every value that was ever handed to the receiver, in the order of receipt.
    pub received: Seq<T>,
    /// Whether the last attempt to receive found the queue empty while a
    /// sender was alive, so that the receiver waits on the descriptor.
    pub starved: bool,
    /// The number of units that were owed to the descriptor since the
    /// receiver last found the queue empty.
    pub wakes: nat,
}

impl<T> ChannelState<T> {
    /// The number of units that a waiting receiver needs to have been owed:
    /// one for each queued value, and one for the departure of the last sender.
    pub open spec fn due(self) -> nat {
        self.queue.len() + if self.senders == 0 {
            1nat
        } else {
            0nat
        }
    }

    /// What was sent is what was received followed by what is queued, and a
    /// receiver that waits has been owed a unit for everything that has
    /// happened since it looked.
    pub open spec fn wf(self) -> bool {
        &&& self.sent == self.received + self.queue
        &&& self.starved ==> self.wakes >= self.due()
    }

    /// The channel after `val` has been accepted from a sender: the value is
    /// queued and one unit is owed to the descriptor.
    pub open spec fn pushed(self, val: T) -> ChannelState<T> {
        ChannelState {
            queue: self.queue.push(val),
            sent: self.sent.push(val),
            wakes: self.wakes + 1,
            ..self
        }
    }

    /// The channel after a sender has gone: one unit is owed to the descriptor.
    pub open spec fn left(self) -> ChannelState<T>
        recommends
            self.senders > 0,
    {
        ChannelState { senders: (self.senders - 1) as nat, wakes: self.wakes + 1, ..self }
    }

    /// The channel after an attempt to receive: a queued value leaves the
    /// queue, an empty queue with a live sender leaves the receiver waiting
    /// with nothing owed yet, and an empty queue without senders leaves
    /// nothing to wait for.
    pub open spec fn tried(self) -> ChannelState<T> {
        match self.head() {
            Ok(_) => self.popped(),
            Err(TryRecvError::Empty) => ChannelState { starved: true, wakes: 0, ..self },
            Err(TryRecvError::Disconnected) => ChannelState { starved: false, ..self },
        }
    }

    /// The channel after the oldest queued value has been handed to the receiver.
    pub open spec fn popped(self) -> ChannelState<T>
        recommends
            self.queue.len() > 0,
    {
        ChannelState {
            queue: self.queue.subrange(1, self.queue.len() as int),
            received: self.received.push(self.queue[0]),
            starved: false,
            ..self
        }
    }

    /// A channel with one sender, its receiver, and no history.
    pub open spec fn fresh() -> ChannelState<T> {
        ChannelState {
            queue: Seq::<T>::empty(),
            senders: 1,
            receiver: true,
            sent: Seq::<T>::empty(),
            received: Seq::<T>::empty(),
            starved: false,
            wakes: 0,
        }
    }

    /// What an attempt to receive finds: the oldest queued value if there is
    /// one, else whether a sender is still alive.
    pub open spec fn head(self) -> Result<T, TryRecvError> {
        if self.queue.len() > 0 {
            Ok(self.queue[0])
        } else if self.senders == 0 {
            Err(TryRecvError::Disconnected)
        } else {
            Err(TryRecvError::Empty)
        }
    }
}

/// The queue of a wake channel and the count of its live ends.
pub struct Channel<T> {
    queue: VecDeque<T>,
    senders: usize,
    receiver: bool,
    sent: Ghost<Seq<T>>,
    received: Ghost<Seq<T>>,
    starved: Ghost<bool>,
    wakes: Ghost<nat>,
}

impl<T> View for Channel<T> {
    type V = ChannelState<T>;

    closed spec fn view(&self) -> ChannelState<T> {
        ChannelState {
            queue: self.queue@,
            senders: self.senders as nat,
            receiver: self.receiver,
            sent: self.sent@,
            received: self.received@,
            starved: self.starved@,
            wakes: self.wakes@,
        }
    }
}

impl<T> Channel<T> {
    /// An empty channel with one sender and its receiver.
    pub fn new() -> (c: Channel<T>)
        ensures
            c@.wf(),
            c@ == ChannelState::<T>::fresh(),
    {
        Channel {
            queue: VecDeque::new(),
            senders: 1,
            receiver: true,
            sent: Ghost(Seq::empty()),
            received: Ghost(Seq::empty()),
            starved: Ghost(false),
            wakes: Ghost(0),
        }
    }

    /// The number of values that are queued.
    pub fn len(&self) -> (n: usize)
        ensures
            n == self@.queue.len(),
    {
        self.queue.len()
    }

    /// The number of senders that are alive.
    pub fn senders(&self) -> (n: usize)
        ensures
            n == self@.senders,
    {
        self.senders
    }

    /// Whether the receiver is alive.
    pub fn has_receiver(&self) -> (b: bool)
        ensures
            b == self@.receiver,
    {
        self.receiver
    }

    /// Puts `val` at the tail of the queue, unless the receiver is gone:
    /// then the value comes back and nothing changes.
    pub fn send(&mut self, val: T) -> (r: Result<(), SendError<T>>)
        requires
            old(self)@.wf(),
        ensures
            final(self)@.wf(),
            match r {
                Ok(_) => old(self)@.receiver && final(self)@ == old(self)@.pushed(val),
                Err(e) => !old(self)@.receiver && e.0 == val && final(self)@ == old(self)@,
            },
    {
        if !self.receiver {
            return Err(SendError(val));
        }
        proof {
            self.sent@ = self.sent@.push(val);
            self.wakes@ = self.wakes@ + 1;
        }
        self.queue.push_back(val);
        assert(self@.sent =~= self@.received + self@.queue);
        Ok(())
    }

    /// Takes the oldest value from the queue. An empty queue is reported
    /// as disconnected once every sender is gone, as empty before.
    pub fn try_recv(&mut self) -> (r: Result<T, TryRecvError>)
        requires
            old(self)@.wf(),
        ensures
            final(self)@.wf(),
            r == old(self)@.head(),
            final(self)@ == old(self)@.tried(),
    {
        match self.queue.pop_front() {
            Some(val) => {
                proof {
                    self.received@ = self.received@.push(val);
                    self.starved@ = false;
                }
                assert(self@.sent =~= self@.received + self@.queue);
                Ok(val)
            },
            None => {
                if self.senders == 0 {
                    proof {
                        self.starved@ = false;
                    }
                    Err(TryRecvError::Disconnected)
                } else {
                    proof {
                        self.starved@ = true;
                        self.wakes@ = 0;
                    }
                    Err(TryRecvError::Empty)
                }
            },
        }
    }

    /// Counts one sender more.
    pub fn add_sender(&mut self)
        requires
            old(self)@.wf(),
            old(self)@.senders < usize::MAX,
        ensures
            final(self)@.wf(),
            final(self)@ == (ChannelState { senders: old(self)@.senders + 1, ..old(self)@ }),
    {
        self.senders = self.senders + 1;
    }

    /// Counts one sender less. One unit is owed to the descriptor.
    pub fn drop_sender(&mut self)
        requires
            old(self)@.wf(),
            old(self)@.senders > 0,
        ensures
            final(self)@.wf(),
            final(self)@ == old(self)@.left(),
    {
        self.senders = self.senders - 1;
        proof {
            self.wakes@ = self.wakes@ + 1;
        }
    }

    /// Records that the receiver is gone.
    pub fn drop_receiver(&mut self)
        requires
            old(self)@.wf(),
        ensures
            final(self)@.wf(),
            final(self)@ == (ChannelState { receiver: false, ..old(self)@ }),
    {
        self.receiver = false;
    }
}

/// The sending end of a wake channel.
#[derive(Debug)]
pub struct Sender {
    fd: i32,
}

impl Sender {
    /// The descriptor that this end signals through.
    pub closed spec fn fd(&self) -> i32 {
        self.fd
    }

    /// The descriptor that this end signals through.
    pub fn as_raw_fd(&self) -> (fd: i32)
        ensures
            fd == self.fd(),
    {
        self.fd
    }

    /// Sends `val`. On success the value is queued and one unit is owed to
    /// the descriptor; when the receiver is gone the value comes back and
    /// nothing is owed.
    pub fn send<T>(&self, chan: &mut Channel<T>, val: T) -> (r: Result<Wake, SendError<T>>)
        requires
            old(chan)@.wf(),
        ensures
            final(chan)@.wf(),
            match r {
                Ok(wake) => {
                    &&& old(chan)@.receiver
                    &&& wake.fd == self.fd()
                    &&& final(chan)@ == old(chan)@.pushed(val)
                },
                Err(e) => !old(chan)@.receiver && e.0 == val && final(chan)@ == old(chan)@,
            },
    {
        match chan.send(val) {
            Ok(_) => Ok(Wake { fd: self.fd }),
            Err(e) => Err(e),
        }
    }

    /// A further sending end of the same channel.
    pub fn clone<T>(&self, chan: &mut Channel<T>) -> (s: Sender)
        requires
            old(chan)@.wf(),
            old(chan)@.senders < usize::MAX,
        ensures
            s.fd() == self.fd(),
            final(chan)@.wf(),
            final(chan)@ == (ChannelState { senders: old(chan)@.senders + 1, ..old(chan)@ }),
    {
        chan.add_sender();
        Sender { fd: self.fd }
    }

    /// Gives up this end. One unit is owed to the descriptor, so that the
    /// receiver wakes and can see that the senders are gone.
    pub fn close<T>(self, chan: &mut Channel<T>) -> (wake: Wake)
        requires
            old(chan)@.wf(),
            old(chan)@.senders > 0,
        ensures
            wake.fd == self.fd(),
            final(chan)@.wf(),
            final(chan)@ == old(chan)@.left(),
    {
        chan.drop_sender();
        Wake { fd: self.fd }
    }
}

/// What a receive asks of its driver after a poll.
#[derive(Debug)]
pub enum RecvStep<T> {
    /// The receive is over.
    Ready(Result<T, RecvError>),
    /// The queue is empty and no wait is in flight: call `submit`.
    Submit,
    /// The wait in flight has not completed.
    Pending,
    /// The descriptor became readable: read one unit from it and poll again.
    Consume,
}

/// The receiving end of a wake channel. It lives in one task.
#[derive(Debug)]
pub struct Receiver {
    fd: i32,
    wait: Option<WaitNotify>,
}

impl Receiver {
    /// The descriptor that this end waits on.
    pub closed spec fn fd(&self) -> i32 {
        self.fd
    }

    /// The token of the wait that is in flight.
    pub closed spec fn waiting(&self) -> Option<u64> {
        match self.wait {
            Some(w) => Some(w.token()),
            None => None,
        }
    }

    /// The descriptor that this end waits on.
    pub fn as_raw_fd(&self) -> (fd: i32)
        ensures
            fd == self.fd(),
    {
        self.fd
    }

    /// One poll of a receive.
    ///
    /// With no wait in flight the queue is tried: its oldest value ends the
    /// receive, an empty queue whose senders are gone ends it with the
    /// disconnection error, and an empty queue with a live sender asks for
    /// a wait on the descriptor. With a wait in flight its notifier is
    /// polled: once the descriptor is readable one unit is to be consumed
    /// before the queue is tried again, and a failed wait ends the receive.
    pub fn recv<T, F>(&mut self, chan: &mut Channel<T>, rt: &mut RtInfo<F>) -> (step: RecvStep<T>)
        requires
            old(chan)@.wf(),
            old(rt)@.wf(),
        ensures
            final(chan)@.wf(),
            final(rt)@.wf(),
            final(self).fd() == old(self).fd(),
            match old(self).waiting() {
                None => {
                    &&& final(rt)@ == old(rt)@
                    &&& final(self).waiting() is None
                    &&& final(chan)@ == old(chan)@.tried()
                    &&& step == match old(chan)@.head() {
                        Ok(val) => RecvStep::Ready(Ok::<T, RecvError>(val)),
                        Err(TryRecvError::Disconnected) => RecvStep::Ready(
                            Err::<T, RecvError>(RecvError::Disconnected),
                        ),
                        Err(TryRecvError::Empty) => RecvStep::<T>::Submit,
                    }
                },
                Some(token) => {
                    &&& final(chan)@ == old(chan)@
                    &&& final(rt)@ == old(rt)@.observed(token)
                    &&& match old(rt)@.stored(token) {
                        None => step == RecvStep::<T>::Pending && final(self).waiting() == Some(
                            token,
                        ),
                        Some(Ok(_)) => step == RecvStep::<T>::Consume && final(self).waiting()
                            is None,
                        Some(Err(errno)) => step == RecvStep::Ready(
                            Err::<T, RecvError>(RecvError::Os(errno)),
                        ) && final(self).waiting() is None,
                    }
                },
            },
    {
        match self.wait {
            None => match chan.try_recv() {
                Ok(val) => RecvStep::Ready(Ok(val)),
                Err(TryRecvError::Disconnected) => RecvStep::Ready(Err(RecvError::Disconnected)),
                Err(TryRecvError::Empty) => RecvStep::Submit,
            },
            Some(wait) => match wait.poll(rt) {
                Poll::Pending => RecvStep::Pending,
                Poll::Ready(Ok(_)) => {
                    self.wait = None;
                    RecvStep::Consume
                },
                Poll::Ready(Err(errno)) => {
                    self.wait = None;
                    RecvStep::Ready(Err(RecvError::Os(errno)))
                },
            },
        }
    }

    /// Starts a wait for the descriptor to become readable, on behalf of
    /// the current task.
    ///
    /// `slot_free` tells whether the submission ring had a free slot. The
    /// entry that is returned asks for a poll of the descriptor.
    pub fn submit<F>(&mut self, rt: &mut RtInfo<F>, slot_free: bool) -> (r: Option<Sqe>)
        requires
            old(self).waiting() is None,
            old(rt)@.wf(),
        ensures
            final(rt)@.wf(),
            final(self).fd() == old(self).fd(),
            r is Some <==> slot_free && old(rt)@.current is Some && old(rt)@.next_token < u64::MAX,
            match r {
                Some(sqe) => {
                    &&& sqe == (Sqe {
                        op: Op::PollAdd,
                        fd: old(self).fd(),
                        offset: 0,
                        user_data: old(rt)@.next_token as u64,
                    })
                    &&& final(self).waiting() == Some(sqe.user_data)
                    &&& final(rt)@ == old(rt)@.reserved()
                },
                None => final(self).waiting() is None && final(rt)@ == old(rt)@,
            },
    {
        match WaitNotify::new(self.fd, rt, slot_free) {
            Some((wait, sqe)) => {
                self.wait = Some(wait);
                Some(sqe)
            },
            None => None,
        }
    }

    /// Gives up this end and hands back the descriptor, which is to be
    /// closed. Later sends fail.
    pub fn close<T>(self, chan: &mut Channel<T>) -> (fd: i32)
        requires
            old(chan)@.wf(),
        ensures
            fd == self.fd(),
            final(chan)@.wf(),
            final(chan)@ == (ChannelState { receiver: false, ..old(chan)@ }),
    {
        chan.drop_receiver();
        self.fd
    }
}

/// Makes a wake channel around the descriptor that the creation of a
/// counting event descriptor returned. A negative `fd` reports that the
/// creation failed, and no channel is made.
pub fn channel<T>(fd: i32) -> (r: Option<(Sender, Receiver, Channel<T>)>)
    ensures
        r is Some <==> fd >= 0,
        r matches Some((tx, rx, chan)) ==> {
            &&& tx.fd() == fd
            &&& rx.fd() == fd
            &&& rx.waiting() is None
            &&& chan@.wf()
            &&& chan@ == ChannelState::<T>::fresh()
        },
{
    if fd < 0 {
        return None;
    }
    Some((Sender { fd }, Receiver { fd, wait: None }, Channel::new()))
}

/// Nothing is lost, doubled or reordered. Accepting a value and handing one
/// out keep the channel well formed; what was received is at all times the
/// beginning of what was sent; and a receiver that is told of the
/// disconnection has received every value that was ever sent, in the order
/// of sending.
pub proof fn lemma_channel_conservation<T>(c: ChannelState<T>, val: T)
    requires
        c.wf(),
    ensures
        c.pushed(val).wf(),
        c.queue.len() > 0 ==> c.popped().wf(),
        c.received == c.sent.take(c.received.len() as int),
        c.head() == Err::<T, TryRecvError>(TryRecvError::Disconnected) ==> c.received == c.sent,
{
    assert(c.pushed(val).sent =~= c.pushed(val).received + c.pushed(val).queue);
    if c.queue.len() > 0 {
        assert(c.popped().sent =~= c.popped().received + c.popped().queue);
    }
    assert(c.received =~= c.sent.take(c.received.len() as int));
    if c.queue.len() == 0 {
        assert(c.received =~= c.sent);
    }
}

/// No wake-up is lost. A receiver that found the queue empty waits on the
/// descriptor. Whatever happens to the channel while it waits keeps the
/// channel well formed, and as soon as a value is queued or the last sender
/// has gone, at least one unit has been owed to the descriptor since the
/// receiver looked: the wait ends.
pub proof fn lemma_no_lost_wake<T>(c: ChannelState<T>, val: T)
    requires
        c.wf(),
    ensures
        c.tried().wf(),
        c.head() == Err::<T, TryRecvError>(TryRecvError::Empty) ==> c.tried().starved
            && c.tried().due() == 0,
        c.pushed(val).wf(),
        c.senders > 0 ==> c.left().wf(),
        c.starved && (c.queue.len() > 0 || c.senders == 0) ==> c.wakes > 0,
{
    assert(c.pushed(val).sent =~= c.pushed(val).received + c.pushed(val).queue);
    if c.queue.len() > 0 {
        assert(c.popped().sent =~= c.popped().received + c.popped().queue);
    }
}

/// With every sender gone and nothing queued, the next attempt to receive
/// reports the disconnection; with a value queued it hands out the oldest
/// one however many senders are left.
pub proof fn lemma_disconnection<T>(c: ChannelState<T>)
    ensures
        c.queue.len() == 0 && c.senders == 0 ==> c.head() == Err::<T, TryRecvError>(
            TryRecvError::Disconnected,
        ),
        c.queue.len() > 0 ==> c.head() == Ok::<T, TryRecvError>(c.queue[0]),
        c.queue.len() == 0 && c.senders > 0 ==> c.head() == Err::<T, TryRecvError>(
            TryRecvError::Empty,
        ),
{
}

/// A wait for the descriptor of a channel to become readable.
#[derive(Copy, Clone, Debug)]
pub struct WaitNotify {
    notify: u64,
}

impl WaitNotify {
    /// The token of the notifier of this operation.
    pub closed spec fn token(&self) -> u64 {
        self.notify
    }

    /// Reserves a notifier for a poll of `fd` for readability and prepares
    /// its submission entry.
    pub fn new<F>(fd: i32, rt: &mut RtInfo<F>, slot_free: bool) -> (r: Option<(WaitNotify, Sqe)>)
        requires
            old(rt)@.wf(),
        ensures
            final(rt)@.wf(),
            r is Some <==> slot_free && old(rt)@.current is Some && old(rt)@.next_token < u64::MAX,
            match r {
                Some((op, sqe)) => {
                    &&& op.token() == old(rt)@.next_token
                    &&& sqe == (Sqe { op: Op::PollAdd, fd, offset: 0, user_data: op.token() })
                    &&& final(rt)@ == old(rt)@.reserved()
                },
                None => final(rt)@ == old(rt)@,
            },
    {
        match rt.next_sqe(slot_free) {
            Some((mut sqe, notify)) => {
                sqe.prep_poll_add(fd);
                Some((WaitNotify { notify }, sqe))
            },
            None => None,
        }
    }

    /// One poll of the wait: the result of its completion once that has
    /// been delivered, pending before.
    pub fn poll<F>(&self, rt: &mut RtInfo<F>) -> (p: Poll<Result<usize, Errno>>)
        requires
            old(rt)@.wf(),
        ensures
            final(rt)@.wf(),
            final(rt)@ == old(rt)@.observed(self.token()),
            match old(rt)@.stored(self.token()) {
                Some(r) => p == Poll::Ready(r),
                None => p is Pending,
            },
    {
        rt.poll_notify(self.notify)
    }
}

} // verus!
