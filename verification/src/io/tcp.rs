//! Vectored reads and writes on a stream socket.
//!
//! A leaf operation reserves a notifier and describes the submission entry
//! that starts it. The driver copies the entry into the ring together with
//! the buffers, and the operation is polled until its completion has been
//! delivered.

use vstd::prelude::*;

use crate::io::vectored::total;
use crate::io::vectored::Progress;
use crate::io::vectored::WriteAll;
use crate::runtime::iouring::Op;
use crate::runtime::iouring::RtInfo;
use crate::runtime::iouring::Sqe;
use crate::runtime::Errno;
use crate::runtime::Poll;

verus! {

/// A stream socket, known by its descriptor.
#[derive(Debug)]
pub struct TcpStream {
    fd: i32,
}

/// A vectored read that is in flight.
#[derive(Copy, Clone, Debug)]
pub struct TcpReadv {
    notify: u64,
}

/// A vectored write that is in flight.
#[derive(Copy, Clone, Debug)]
pub struct TcpWritev {
    notify: u64,
}

impl TcpStream {
    /// The descriptor of the socket.
    pub closed spec fn fd(&self) -> i32 {
        self.fd
    }

    /// Wraps a connected stream socket.
    pub fn from_fd(fd: i32) -> (s: TcpStream)
        ensures
            s.fd() == fd,
    {
        TcpStream { fd }
    }

    /// The descriptor of the socket.
    pub fn as_raw_fd(&self) -> (fd: i32)
        ensures
            fd == self.fd(),
    {
        self.fd
    }

    /// Starts a vectored read on behalf of the current task.
    ///
    /// `slot_free` tells whether the submission ring had a free slot. The
    /// entry that is returned asks for a vectored read of this socket at
    /// offset 0 and names the notifier of the operation.
    pub fn read_vectored<F>(&self, rt: &mut RtInfo<F>, slot_free: bool) -> (r: Option<
        (TcpReadv, Sqe),
    >)
        requires
            old(rt)@.wf(),
        ensures
            final(rt)@.wf(),
            r is Some <==> slot_free && old(rt)@.current is Some && old(rt)@.next_token < u64::MAX,
            match r {
                Some((op, sqe)) => {
                    &&& op.token() == old(rt)@.next_token
                    &&& sqe == (Sqe {
                        op: Op::ReadVectored,
                        fd: self.fd(),
                        offset: 0,
                        user_data: op.token(),
                    })
                    &&& final(rt)@ == old(rt)@.reserved()
                },
                None => final(rt)@ == old(rt)@,
            },
    {
        TcpReadv::new(self, rt, slot_free)
    }

    /// Starts a vectored write on behalf of the current task.
    ///
    /// `slot_free` tells whether the submission ring had a free slot. The
    /// entry that is returned asks for a vectored write to this socket at
    /// offset 0 and names the notifier of the operation.
    pub fn write_vectored<F>(&self, rt: &mut RtInfo<F>, slot_free: bool) -> (r: Option<
        (TcpWritev, Sqe),
    >)
        requires
            old(rt)@.wf(),
        ensures
            final(rt)@.wf(),
            r is Some <==> slot_free && old(rt)@.current is Some && old(rt)@.next_token < u64::MAX,
            match r {
                Some((op, sqe)) => {
                    &&& op.token() == old(rt)@.next_token
                    &&& sqe == (Sqe {
                        op: Op::WriteVectored,
                        fd: self.fd(),
                        offset: 0,
                        user_data: op.token(),
                    })
                    &&& final(rt)@ == old(rt)@.reserved()
                },
                None => final(rt)@ == old(rt)@,
            },
    {
        TcpWritev::new(self, rt, slot_free)
    }

    /// Begins to write buffers of the given lengths in full, if the sum of
    /// the lengths fits the machine's word. Nothing is submitted yet.
    pub fn write_all_vectored(&self, lens: Vec<usize>) -> (r: Option<WriteAllVectored>)
        ensures
            r is Some <==> total(lens@) <= usize::MAX,
            r matches Some(w) ==> {
                &&& w.inv()
                &&& w.fd() == self.fd()
                &&& w.progress() == (Progress { lens: lens@, first: 0, offset: 0 })
                &&& w.in_flight() is None
            },
    {
        match WriteAll::new(lens) {
            Some(cursor) => Some(WriteAllVectored { fd: self.fd, cursor, op: None }),
            None => None,
        }
    }
}

/// Why a write-all operation failed.
#[derive(Copy, Clone, Debug, PartialEq, Eq, Structural)]
pub enum WriteAllError {
    /// A write completed with the given error.
    Os(Errno),
    /// A write reported more bytes than were offered to it.
    Overrun,
}

/// What a write-all operation asks of its driver after a poll.
#[derive(Copy, Clone, Debug)]
pub enum WriteAllStep {
    /// Bytes are left and no write is in flight: call `submit`.
    Submit,
    /// The write in flight has not completed.
    Pending,
    /// The operation is over.
    Ready(Result<(), WriteAllError>),
}

/// A write that is repeated until every buffer is drained.
///
/// At most one vectored write is in flight. Each completion moves the
/// cursor over the bytes that were accepted; the next write offers the rest.
#[derive(Debug)]
pub struct WriteAllVectored {
    fd: i32,
    cursor: WriteAll,
    op: Option<TcpWritev>,
}

impl WriteAllVectored {
    /// The descriptor that is written to.
    pub closed spec fn fd(&self) -> i32 {
        self.fd
    }

    /// How far the buffers are written.
    pub closed spec fn progress(&self) -> Progress {
        self.cursor@
    }

    /// The token of the write that is in flight.
    pub closed spec fn in_flight(&self) -> Option<u64> {
        match self.op {
            Some(w) => Some(w.token()),
            None => None,
        }
    }

    /// The cursor is well formed.
    pub closed spec fn inv(&self) -> bool {
        self.cursor.inv()
    }

    /// The inner invariant makes the progress well formed.
    pub proof fn lemma_inv(&self)
        requires
            self.inv(),
        ensures
            self.progress().wf(),
    {
        self.cursor.lemma_inv();
    }

    /// Where the next write begins: the index of the first buffer to offer
    /// and the number of bytes to skip in it.
    pub fn pending(&self) -> (at: (usize, usize))
        ensures
            at.0 == self.progress().first,
            at.1 == self.progress().offset,
    {
        self.cursor.pending()
    }

    /// The number of bytes that are still to be written.
    pub fn remaining(&self) -> (n: usize)
        requires
            self.inv(),
        ensures
            n == self.progress().remaining(),
    {
        self.cursor.remaining()
    }

    /// One poll of the operation.
    ///
    /// With no write in flight the operation is over when nothing is left
    /// and asks for a submission otherwise. With a write in flight its
    /// notifier is polled: a byte count moves the cursor, an error ends the
    /// operation, and a count beyond what was offered is reported as an
    /// overrun.
    pub fn poll<F>(&mut self, rt: &mut RtInfo<F>) -> (step: WriteAllStep)
        requires
            old(self).inv(),
            old(rt)@.wf(),
        ensures
            final(self).inv(),
            final(rt)@.wf(),
            final(self).fd() == old(self).fd(),
            final(self).progress().lens == old(self).progress().lens,
            match old(self).in_flight() {
                None => {
                    &&& final(rt)@ == old(rt)@
                    &&& final(self).progress() == old(self).progress()
                    &&& final(self).in_flight() is None
                    &&& step == if old(self).progress().remaining() == 0 {
                        WriteAllStep::Ready(Ok(()))
                    } else {
                        WriteAllStep::Submit
                    }
                },
                Some(token) => {
                    &&& final(rt)@ == old(rt)@.observed(token)
                    &&& match old(rt)@.stored(token) {
                        None => {
                            &&& step == WriteAllStep::Pending
                            &&& final(self).progress() == old(self).progress()
                            &&& final(self).in_flight() == Some(token)
                        },
                        Some(Err(errno)) => {
                            &&& step == WriteAllStep::Ready(Err(WriteAllError::Os(errno)))
                            &&& final(self).progress() == old(self).progress()
                            &&& final(self).in_flight() is None
                        },
                        Some(Ok(n)) => if n > old(self).progress().remaining() {
                            &&& step == WriteAllStep::Ready(Err(WriteAllError::Overrun))
                            &&& final(self).progress() == old(self).progress()
                            &&& final(self).in_flight() is None
                        } else {
                            &&& final(self).progress().written() == old(self).progress().written()
                                + n
                            &&& final(self).progress().settled()
                            &&& final(self).in_flight() is None
                            &&& step == if final(self).progress().remaining() == 0 {
                                WriteAllStep::Ready(Ok(()))
                            } else {
                                WriteAllStep::Submit
                            }
                        },
                    }
                },
            },
            step == WriteAllStep::Ready(Ok(())) ==> final(self).progress().written() == total(
                final(self).progress().lens,
            ),
    {
        match self.op {
            None => {
                if self.cursor.is_done() {
                    WriteAllStep::Ready(Ok(()))
                } else {
                    WriteAllStep::Submit
                }
            },
            Some(write) => match write.poll(rt) {
                Poll::Pending => WriteAllStep::Pending,
                Poll::Ready(Err(errno)) => {
                    self.op = None;
                    WriteAllStep::Ready(Err(WriteAllError::Os(errno)))
                },
                Poll::Ready(Ok(n)) => {
                    self.op = None;
                    if n > self.cursor.remaining() {
                        WriteAllStep::Ready(Err(WriteAllError::Overrun))
                    } else {
                        self.cursor.advance(n);
                        if self.cursor.is_done() {
                            WriteAllStep::Ready(Ok(()))
                        } else {
                            WriteAllStep::Submit
                        }
                    }
                },
            },
        }
    }

    /// Starts the next vectored write on behalf of the current task.
    ///
    /// `slot_free` tells whether the submission ring had a free slot. The
    /// entry that is returned asks for a vectored write at offset 0 of the
    /// buffers from `pending()` on.
    pub fn submit<F>(&mut self, rt: &mut RtInfo<F>, slot_free: bool) -> (r: Option<Sqe>)
        requires
            old(self).inv(),
            old(self).in_flight() is None,
            old(rt)@.wf(),
        ensures
            final(self).inv(),
            final(rt)@.wf(),
            final(self).fd() == old(self).fd(),
            final(self).progress() == old(self).progress(),
            r is Some <==> slot_free && old(rt)@.current is Some && old(rt)@.next_token < u64::MAX,
            match r {
                Some(sqe) => {
                    &&& sqe == (Sqe {
                        op: Op::WriteVectored,
                        fd: old(self).fd(),
                        offset: 0,
                        user_data: old(rt)@.next_token as u64,
                    })
                    &&& final(self).in_flight() == Some(sqe.user_data)
                    &&& final(rt)@ == old(rt)@.reserved()
                },
                None => final(self).in_flight() is None && final(rt)@ == old(rt)@,
            },
    {
        let stream = TcpStream { fd: self.fd };
        match TcpWritev::new(&stream, rt, slot_free) {
            Some((write, sqe)) => {
                self.op = Some(write);
                Some(sqe)
            },
            None => None,
        }
    }
}

impl TcpReadv {
    /// The token of the notifier of this operation.
    pub closed spec fn token(&self) -> u64 {
        self.notify
    }

    /// The token of the notifier of this operation.
    pub fn notify(&self) -> (t: u64)
        ensures
            t == self.token(),
    {
        self.notify
    }

    /// Reserves a notifier for a vectored read of `stream` and prepares its
    /// submission entry.
    pub fn new<F>(stream: &TcpStream, rt: &mut RtInfo<F>, slot_free: bool) -> (r: Option<
        (TcpReadv, Sqe),
    >)
        requires
            old(rt)@.wf(),
        ensures
            final(rt)@.wf(),
            r is Some <==> slot_free && old(rt)@.current is Some && old(rt)@.next_token < u64::MAX,
            match r {
                Some((op, sqe)) => {
                    &&& op.token() == old(rt)@.next_token
                    &&& sqe == (Sqe {
                        op: Op::ReadVectored,
                        fd: stream.fd(),
                        offset: 0,
                        user_data: op.token(),
                    })
                    &&& final(rt)@ == old(rt)@.reserved()
                },
                None => final(rt)@ == old(rt)@,
            },
    {
        match rt.next_sqe(slot_free) {
            Some((mut sqe, notify)) => {
                sqe.prep_read_vectored(stream.as_raw_fd(), 0);
                Some((TcpReadv { notify }, sqe))
            },
            None => None,
        }
    }

    /// One poll of the read: the byte count or the error of its completion
    /// once that has been delivered, pending before.
    pub fn poll<F>(&self, rt: &mut RtInfo<F>) -> (p: Poll<Result<usize, Errno>>)
        requires
            old(rt)@.wf(),
        ensures
            final(rt)@.wf(),
            final(rt)@ == old(rt)@.observed(self.token()),
            match old(rt)@.stored(self.token()) {
                Some(r) => p == Poll::Ready(r),
                None => p is Pending,
            },
    {
        rt.poll_notify(self.notify)
    }
}

impl TcpWritev {
    /// The token of the notifier of this operation.
    pub closed spec fn token(&self) -> u64 {
        self.notify
    }

    /// The token of the notifier of this operation.
    pub fn notify(&self) -> (t: u64)
        ensures
            t == self.token(),
    {
        self.notify
    }

    /// Reserves a notifier for a vectored write to `stream` and prepares its
    /// submission entry.
    pub fn new<F>(stream: &TcpStream, rt: &mut RtInfo<F>, slot_free: bool) -> (r: Option<
        (TcpWritev, Sqe),
    >)
        requires
            old(rt)@.wf(),
        ensures
            final(rt)@.wf(),
            r is Some <==> slot_free && old(rt)@.current is Some && old(rt)@.next_token < u64::MAX,
            match r {
                Some((op, sqe)) => {
                    &&& op.token() == old(rt)@.next_token
                    &&& sqe == (Sqe {
                        op: Op::WriteVectored,
                        fd: stream.fd(),
                        offset: 0,
                        user_data: op.token(),
                    })
                    &&& final(rt)@ == old(rt)@.reserved()
                },
                None => final(rt)@ == old(rt)@,
            },
    {
        match rt.next_sqe(slot_free) {
            Some((mut sqe, notify)) => {
                sqe.prep_write_vectored(stream.as_raw_fd(), 0);
                Some((TcpWritev { notify }, sqe))
            },
            None => None,
        }
    }

    /// One poll of the write: the accepted byte count or the error of its
    /// completion once that has been delivered, pending before.
    pub fn poll<F>(&self, rt: &mut RtInfo<F>) -> (p: Poll<Result<usize, Errno>>)
        requires
            old(rt)@.wf(),
        ensures
            final(rt)@.wf(),
            final(rt)@ == old(rt)@.observed(self.token()),
            match old(rt)@.stored(self.token()) {
                Some(r) => p == Poll::Ready(r),
                None => p is Pending,
            },
    {
        rt.poll_notify(self.notify)
    }
}

} // verus!
