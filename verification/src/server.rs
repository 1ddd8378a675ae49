//! The line protocol of the demonstration server: every `PING` line is
//! answered with a `PONG` line, and anything else ends the connection.

use vstd::prelude::*;

use crate::runtime::Errno;

verus! {

/// The number of bytes of a request or a reply line.
pub const FRAME: usize = 6;

/// The number of bytes that the read buffer of a connection holds.
pub const READ_BUFFER: usize = 1024;

/// The request line: `PING`, carriage return, line feed.
pub open spec fn ping() -> Seq<u8> {
    seq![0x50u8, 0x49u8, 0x4eu8, 0x47u8, 0x0du8, 0x0au8]
}

/// The reply line: `PONG`, carriage return, line feed.
pub open spec fn pong() -> Seq<u8> {
    seq![0x50u8, 0x4fu8, 0x4eu8, 0x47u8, 0x0du8, 0x0au8]
}

/// The number of complete lines at the head of `buf`.
pub open spec fn frames(buf: Seq<u8>) -> int {
    buf.len() as int / 6
}

/// Whether the complete line number `k` of `buf` is a request line.
pub open spec fn is_ping(buf: Seq<u8>, k: int) -> bool {
    buf.subrange(6 * k, 6 * k + 6) == ping()
}

/// Whether each of the first `n` lines of `buf` is a request line.
pub open spec fn pings(buf: Seq<u8>, n: int) -> bool {
    forall|k: int| 0 <= k < n ==> #[trigger] is_ping(buf, k)
}

/// `n` reply lines.
pub open spec fn pongs(n: nat) -> Seq<u8>
    decreases n,
{
    if n == 0 {
        Seq::<u8>::empty()
    } else {
        pongs((n - 1) as nat) + pong()
    }
}

/// What the connection does after a read.
#[derive(Debug)]
pub enum Next {
    /// Write the given bytes in full, then read again.
    Respond(Vec<u8>),
    /// Leave the loop: the peer has closed, the read has failed, or a line
    /// was not a request.
    Close,
}

/// What a read makes of the bytes `held` that a connection holds: the
/// reply, if there is one, and the bytes it holds afterwards.
///
/// An empty read is the end of the stream and a failed read ends the
/// connection. Else the bytes read are added to those held. If every
/// complete line is a request, each is answered by one reply line and the
/// incomplete rest is kept; if one is not, the connection ends without a
/// reply.
pub open spec fn served(held: Seq<u8>, read: Result<Seq<u8>, Errno>) -> (Option<Seq<u8>>, Seq<u8>) {
    match read {
        Err(_) => (None, held),
        Ok(data) => if data.len() == 0 {
            (None, held)
        } else {
            let buf = held + data;
            if pings(buf, frames(buf)) {
                (Some(pongs(frames(buf) as nat)), buf.skip(6 * frames(buf)))
            } else {
                (None, buf)
            }
        },
    }
}

/// The outcome of a read with the bytes read taken as a sequence.
pub open spec fn outcome_of(read: Result<Vec<u8>, Errno>) -> Result<Seq<u8>, Errno> {
    match read {
        Ok(data) => Ok(data@),
        Err(errno) => Err(errno),
    }
}

/// One connection of the server: the bytes that were read and do not yet
/// make a complete line.
#[derive(Debug)]
pub struct WorkerDriver {
    rbuf: Vec<u8>,
}

impl View for WorkerDriver {
    type V = Seq<u8>;

    closed spec fn view(&self) -> Seq<u8> {
        self.rbuf@
    }
}

impl WorkerDriver {
    /// A connection that has read nothing.
    pub fn new() -> (w: WorkerDriver)
        ensures
            w@ == Seq::<u8>::empty(),
    {
        WorkerDriver { rbuf: Vec::new() }
    }

    /// The number of bytes that are held: those of the incomplete line.
    pub fn held(&self) -> (n: usize)
        ensures
            n == self@.len(),
    {
        self.rbuf.len()
    }

    /// The number of bytes that the next read may bring: what is free in a
    /// read buffer that holds the incomplete line.
    pub fn room(&self) -> (n: usize)
        ensures
            n == if self@.len() <= READ_BUFFER {
                READ_BUFFER - self@.len()
            } else {
                0
            },
    {
        if self.rbuf.len() <= READ_BUFFER {
            READ_BUFFER - self.rbuf.len()
        } else {
            0
        }
    }

    /// Takes the outcome of a read and decides how the connection goes on.
    pub fn on_read(&mut self, read: Result<Vec<u8>, Errno>) -> (next: Next)
        ensures
            ({
                let outcome = served(old(self)@, outcome_of(read));
                &&& final(self)@ == outcome.1
                &&& match next {
                    Next::Respond(reply) => outcome.0 == Some(reply@),
                    Next::Close => outcome.0 is None,
                }
            }),
            next is Respond ==> final(self)@.len() < FRAME,
    {
        let mut data: Vec<u8> = match read {
            Ok(data) => data,
            Err(_) => {
                return Next::Close;
            },
        };
        if data.len() == 0 {
            return Next::Close;
        }
        let ghost arrived = data@;
        self.rbuf.append(&mut data);
        let ghost buf = self.rbuf@;
        let mut wbuf: Vec<u8> = Vec::new();
        let mut idx: usize = 0;
        while self.rbuf.len() - idx >= FRAME
            invariant
                self.rbuf@ == buf,
                outcome_of(read) == Ok::<Seq<u8>, Errno>(arrived),
                arrived.len() > 0,
                buf == old(self)@ + arrived,
                idx <= buf.len(),
                idx % 6 == 0,
                pings(buf, idx as int / 6),
                wbuf@ == pongs((idx / 6) as nat),
            decreases buf.len() - idx,
        {
            let is_request: bool = self.rbuf[idx] == 0x50 && self.rbuf[idx + 1] == 0x49
                && self.rbuf[idx + 2] == 0x4e && self.rbuf[idx + 3] == 0x47 && self.rbuf[idx + 4]
                == 0x0d && self.rbuf[idx + 5] == 0x0a;
            let ghost k = idx as int / 6;
            proof {
                let line = buf.subrange(6 * k, 6 * k + 6);
                assert(is_request <==> line =~= ping());
                assert(k < frames(buf));
            }
            if !is_request {
                assert(!is_ping(buf, k));
                return Next::Close;
            }
            wbuf.push(0x50);
            wbuf.push(0x4f);
            wbuf.push(0x4e);
            wbuf.push(0x47);
            wbuf.push(0x0d);
            wbuf.push(0x0a);
            idx = idx + FRAME;
            proof {
                assert(wbuf@ =~= pongs(k as nat) + pong());
                assert forall|j: int| 0 <= j < k + 1 implies #[trigger] is_ping(buf, j) by {
                    if j < k {
                        assert(is_ping(buf, j));
                    }
                }
            }
        }
        assert(idx as int / 6 == frames(buf));
        let tail: Vec<u8> = self.rbuf.split_off(idx);
        self.rbuf = tail;
        assert(self.rbuf@ =~= buf.skip(6 * frames(buf)));
        Next::Respond(wbuf)
    }
}

/// Every request is answered once: the reply to `n` request lines counts six
/// bytes for each, and `n + 1` requests get the reply to `n` followed by one
/// reply line more.
pub proof fn lemma_pongs(n: nat)
    ensures
        pongs(n).len() == 6 * n,
        pongs(n + 1) == pongs(n) + pong(),
    decreases n,
{
    if n > 0 {
        lemma_pongs((n - 1) as nat);
    }
}

} // verus!
