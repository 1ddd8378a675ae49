//! Progress of a write that is repeated until every buffer is drained.
//!
//! The kernel may accept fewer bytes than a vectored write offers. The
//! cursor kept here records how far the sequence of buffers has been
//! written, so that the next write offers exactly the bytes that are left.

use vstd::prelude::*;

verus! {

/// The sum of the given buffer lengths.
pub open spec fn total(lens: Seq<usize>) -> nat
    decreases lens.len(),
{
    if lens.len() == 0 {
        0
    } else {
        total(lens.drop_last()) + lens.last() as nat
    }
}

/// The bytes of the given buffers, one buffer after the other.
pub open spec fn concat(bufs: Seq<Seq<u8>>) -> Seq<u8>
    decreases bufs.len(),
{
    if bufs.len() == 0 {
        Seq::<u8>::empty()
    } else {
        concat(bufs.drop_last()) + bufs.last()
    }
}

/// The lengths of the given buffers.
pub open spec fn lens_of(bufs: Seq<Seq<u8>>) -> Seq<usize> {
    Seq::new(bufs.len(), |i: int| bufs[i].len() as usize)
}

/// The mathematical content of a cursor: the lengths of the buffers, the
/// index of the first buffer that is not written in full, and the number of
/// bytes of that buffer that are written.
pub struct Progress {
    pub lens: Seq<usize>,
    pub first: nat,
    pub offset: nat,
}

impl Progress {
    /// The position lies within the buffers and all of them together fit
    /// the machine's word.
    pub open spec fn wf(self) -> bool {
        &&& total(self.lens) <= usize::MAX
        &&& self.first <= self.lens.len()
        &&& self.offset == 0 || (self.first < self.lens.len() && self.offset
            < self.lens[self.first as int])
    }

    /// The number of bytes that lie before the position.
    pub open spec fn written(self) -> nat {
        total(self.lens.take(self.first as int)) + self.offset
    }

    /// The number of bytes that lie behind the position.
    pub open spec fn remaining(self) -> int {
        total(self.lens) - self.written()
    }

    /// The position points at a byte that is not written, or behind the
    /// last buffer: no drained buffer stands at the head of what is left.
    pub open spec fn settled(self) -> bool {
        self.first == self.lens.len() || self.offset < self.lens[self.first as int]
    }

    /// The bytes that the next write offers when the buffers hold `bufs`:
    /// the rest of the first unwritten buffer and all buffers behind it.
    pub open spec fn pending(self, bufs: Seq<Seq<u8>>) -> Seq<u8> {
        if self.first < bufs.len() {
            bufs[self.first as int].skip(self.offset as int) + concat(
                bufs.skip(self.first as int + 1),
            )
        } else {
            Seq::<u8>::empty()
        }
    }
}

/// A prefix of the buffers never holds more bytes than all of them, and
/// taking one buffer more adds its length.
pub proof fn lemma_total_take(lens: Seq<usize>, i: int)
    requires
        0 <= i <= lens.len(),
    ensures
        total(lens.take(i)) <= total(lens),
        total(lens.take(lens.len() as int)) == total(lens),
        i < lens.len() ==> total(lens.take(i + 1)) == total(lens.take(i)) + lens[i],
    decreases lens.len() - i,
{
    assert(lens.take(lens.len() as int) =~= lens);
    if i < lens.len() {
        assert(lens.take(i + 1).drop_last() =~= lens.take(i));
        lemma_total_take(lens, i + 1);
    }
}

/// The cursor of a write-all operation over a sequence of buffers.
#[derive(Debug)]
pub struct WriteAll {
    lens: Vec<usize>,
    first: usize,
    offset: usize,
    total_len: usize,
}

impl View for WriteAll {
    type V = Progress;

    closed spec fn view(&self) -> Progress {
        Progress { lens: self.lens@, first: self.first as nat, offset: self.offset as nat }
    }
}

impl WriteAll {
    /// The cursor is well formed and knows how many bytes are left.
    pub closed spec fn inv(&self) -> bool {
        &&& self@.wf()
        &&& self.total_len == self@.remaining()
    }

    /// A cursor that meets its invariant is well formed.
    pub proof fn lemma_inv(&self)
        requires
            self.inv(),
        ensures
            self@.wf(),
            self@.remaining() >= 0,
    {
    }

    /// A cursor at the start of buffers of the given lengths, if the sum of
    /// the lengths fits the machine's word.
    pub fn new(lens: Vec<usize>) -> (r: Option<WriteAll>)
        ensures
            r is Some <==> total(lens@) <= usize::MAX,
            r matches Some(w) ==> w.inv() && w@ == (Progress { lens: lens@, first: 0, offset: 0 }),
    {
        let mut sum: usize = 0;
        let mut i: usize = 0;
        while i < lens.len()
            invariant
                i <= lens.len(),
                sum == total(lens@.take(i as int)),
            decreases lens.len() - i,
        {
            proof {
                lemma_total_take(lens@, i as int);
                lemma_total_take(lens@, i as int + 1);
            }
            if lens[i] > usize::MAX - sum {
                return None;
            }
            sum = sum + lens[i];
            i = i + 1;
        }
        proof {
            lemma_total_take(lens@, i as int);
            assert(lens@.take(0) =~= Seq::<usize>::empty());
        }
        Some(WriteAll { lens, first: 0, offset: 0, total_len: sum })
    }

    /// The number of bytes that are still to be written.
    pub fn remaining(&self) -> (n: usize)
        requires
            self.inv(),
        ensures
            n == self@.remaining(),
    {
        self.total_len
    }

    /// Whether every byte has been written.
    pub fn is_done(&self) -> (done: bool)
        requires
            self.inv(),
        ensures
            done <==> self@.written() == total(self@.lens),
    {
        self.total_len == 0
    }

    /// Where the next write begins: the index of the first buffer to offer
    /// and the number of bytes to skip in it.
    pub fn pending(&self) -> (at: (usize, usize))
        ensures
            at.0 == self@.first,
            at.1 == self@.offset,
    {
        (self.first, self.offset)
    }

    /// Moves the cursor over the `n` bytes that a write has accepted.
    ///
    /// Buffers that are written in full are left behind, empty ones among
    /// them, and the position comes to rest on the next unwritten byte.
    pub fn advance(&mut self, n: usize)
        requires
            old(self).inv(),
            n <= old(self)@.remaining(),
        ensures
            final(self).inv(),
            final(self)@.lens == old(self)@.lens,
            final(self)@.written() == old(self)@.written() + n,
            final(self)@.remaining() == old(self)@.remaining() - n,
            final(self)@.settled(),
    {
        let mut left: usize = n;
        while self.first < self.lens.len() && left >= self.lens[self.first] - self.offset
            invariant
                self.lens@ == old(self).lens@,
                self.total_len == old(self).total_len,
                self@.wf(),
                self@.written() + left == old(self)@.written() + n,
                old(self)@.written() + n <= total(self.lens@),
            decreases self.lens.len() - self.first,
        {
            proof {
                lemma_total_take(self.lens@, self.first as int);
            }
            left = left - (self.lens[self.first] - self.offset);
            self.first = self.first + 1;
            self.offset = 0;
        }
        proof {
            lemma_total_take(self.lens@, self.first as int);
        }
        if self.first < self.lens.len() {
            self.offset = self.offset + left;
        }
        self.total_len = self.total_len - n;
    }
}

/// A position is fixed by the number of bytes before it: two settled
/// cursors over the same buffers that have written the same number of bytes
/// stand at the same buffer and the same offset.
pub proof fn lemma_position_unique(a: Progress, b: Progress)
    requires
        a.wf(),
        b.wf(),
        a.settled(),
        b.settled(),
        a.lens == b.lens,
        a.written() == b.written(),
    ensures
        a == b,
{
    if a.first < b.first {
        lemma_prefix_grows(a.lens, a.first as int + 1, b.first as int);
        lemma_total_take(a.lens, a.first as int);
    } else if b.first < a.first {
        lemma_prefix_grows(a.lens, b.first as int + 1, a.first as int);
        lemma_total_take(a.lens, b.first as int);
    }
}

/// Whether every buffer is short enough for its length to be a machine word.
pub open spec fn sized(bufs: Seq<Seq<u8>>) -> bool {
    forall|i: int| 0 <= i < bufs.len() ==> (#[trigger] bufs[i]).len() <= usize::MAX
}

/// The bytes of all buffers are as many as the lengths sum up to.
pub proof fn lemma_concat_len(bufs: Seq<Seq<u8>>)
    requires
        sized(bufs),
    ensures
        concat(bufs).len() == total(lens_of(bufs)),
    decreases bufs.len(),
{
    if bufs.len() > 0 {
        lemma_concat_len(bufs.drop_last());
        assert(lens_of(bufs).drop_last() =~= lens_of(bufs.drop_last()));
    }
}

/// The bytes of all buffers are those of the first `i` buffers followed by
/// those of the others.
pub proof fn lemma_concat_split(bufs: Seq<Seq<u8>>, i: int)
    requires
        0 <= i <= bufs.len(),
    ensures
        concat(bufs) == concat(bufs.take(i)) + concat(bufs.skip(i)),
    decreases bufs.len(),
{
    if i == bufs.len() {
        assert(bufs.take(i) =~= bufs);
        assert(concat(bufs.skip(i)) =~= Seq::<u8>::empty());
        assert(concat(bufs) =~= concat(bufs) + Seq::<u8>::empty());
    } else {
        let front = bufs.drop_last();
        lemma_concat_split(front, i);
        assert(front.take(i) =~= bufs.take(i));
        assert(bufs.skip(i).drop_last() =~= front.skip(i));
        assert(bufs.skip(i).last() == bufs.last());
        assert(concat(bufs) =~= concat(bufs.take(i)) + (concat(front.skip(i)) + bufs.last()));
    }
}

/// What a cursor offers to the next write is what lies behind the bytes
/// that are written: the bytes of all buffers without the first
/// `written()` of them.
pub proof fn lemma_pending_is_rest(bufs: Seq<Seq<u8>>, p: Progress)
    requires
        sized(bufs),
        p.lens == lens_of(bufs),
        p.wf(),
    ensures
        p.written() <= concat(bufs).len(),
        p.pending(bufs) == concat(bufs).skip(p.written() as int),
        p.pending(bufs).len() == p.remaining(),
{
    let first = p.first as int;
    lemma_concat_len(bufs);
    lemma_concat_len(bufs.take(first));
    assert(lens_of(bufs.take(first)) =~= p.lens.take(first));
    lemma_concat_split(bufs, first);
    lemma_total_take(p.lens, first);
    if first < bufs.len() {
        let rest = bufs.skip(first);
        lemma_concat_split(rest, 1);
        assert(concat(rest.take(1)) =~= bufs[first]) by {
            reveal_with_fuel(concat, 2);
            assert(rest.take(1).last() == bufs[first]);
        }
        assert(rest.skip(1) =~= bufs.skip(first + 1));
        assert(p.pending(bufs) =~= concat(bufs).skip(p.written() as int));
    } else {
        assert(concat(bufs.skip(first)) =~= Seq::<u8>::empty());
        assert(p.pending(bufs) =~= concat(bufs).skip(p.written() as int));
    }
}

/// One accepted write. When the kernel takes the first `n` of the bytes
/// that the cursor `before` offers and the cursor moves on to `after`, the
/// bytes delivered so far grow by exactly those `n` bytes, and the next
/// write offers what the kernel left. Once nothing is left, the bytes
/// delivered are the bytes of all buffers, in order.
pub proof fn lemma_write_all_delivers(bufs: Seq<Seq<u8>>, before: Progress, after: Progress, n: nat)
    requires
        sized(bufs),
        before.lens == lens_of(bufs),
        after.lens == lens_of(bufs),
        before.wf(),
        after.wf(),
        n <= before.remaining(),
        after.written() == before.written() + n,
    ensures
        concat(bufs).take(after.written() as int) == concat(bufs).take(before.written() as int)
            + before.pending(bufs).take(n as int),
        after.pending(bufs) == before.pending(bufs).skip(n as int),
        after.remaining() == 0 ==> concat(bufs).take(after.written() as int) == concat(bufs),
{
    lemma_pending_is_rest(bufs, before);
    lemma_pending_is_rest(bufs, after);
    lemma_concat_len(bufs);
    let all = concat(bufs);
    let w = before.written() as int;
    assert(all.take(w + n) =~= all.take(w) + all.skip(w).take(n as int));
    assert(all.skip(w + n) =~= all.skip(w).skip(n as int));
    if after.remaining() == 0 {
        assert(all.take(after.written() as int) =~= all);
    }
}

/// A longer prefix of the buffers holds at least as many bytes.
pub proof fn lemma_prefix_grows(lens: Seq<usize>, i: int, j: int)
    requires
        0 <= i <= j <= lens.len(),
    ensures
        total(lens.take(i)) <= total(lens.take(j)),
    decreases j - i,
{
    if i < j {
        lemma_total_take(lens, i);
        lemma_prefix_grows(lens, i + 1, j);
    }
}

} // verus!
