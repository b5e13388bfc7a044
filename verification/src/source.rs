//! The pull-based byte source a decode session draws from.
//!
//! A `ByteSource` is a growable queue of bytes with a read cursor.  The
//! producer appends whatever bytes are currently available with `feed`; the
//! consumer pulls with `read`, which hands back as many bytes as it asked
//! for or as many as remain, whichever is fewer.  A read of zero bytes means
//! "no data right now" and nothing more: the producer may still feed later,
//! so a consumer must treat exhaustion as retryable, never as end of stream.

use vstd::prelude::*;

verus! {

/// A growable byte queue with a read cursor.
pub struct ByteSource {
    /// Every byte ever fed, in order.
    pub data: Vec<u8>,
    /// How many of those bytes have been handed out already.
    pub pos: usize,
}

impl ByteSource {
    /// All bytes fed so far, consumed or not.
    pub open spec fn fed(self) -> Seq<u8> {
        self.data@
    }

    /// The bytes fed but not yet read.
    pub open spec fn pending(self) -> Seq<u8> {
        self.data@.skip(self.pos as int)
    }

    pub open spec fn wf(self) -> bool {
        self.pos <= self.data@.len()
    }

    /// Creates an empty source.
    pub fn new() -> (s: ByteSource)
        ensures
            s.wf(),
            s.fed() == Seq::<u8>::empty(),
            s.pos == 0,
    {
        let s = ByteSource { data: Vec::new(), pos: 0 };
        proof {
            assert(s.fed() =~= Seq::<u8>::empty());
        }
        s
    }

    /// Creates a source already holding `bytes`.
    pub fn with_bytes(bytes: &[u8]) -> (s: ByteSource)
        ensures
            s.wf(),
            s.fed() == bytes@,
            s.pos == 0,
    {
        ByteSource { data: slice_to_vec(bytes), pos: 0 }
    }

    /// Appends newly available bytes at the back of the queue.
    pub fn feed(&mut self, bytes: &[u8])
        requires
            old(self).wf(),
        ensures
            final(self).wf(),
            final(self).fed() == old(self).fed() + bytes@,
            final(self).pending() == old(self).pending() + bytes@,
            final(self).pos == old(self).pos,
    {
        self.data.extend_from_slice(bytes);
        proof {
            assert(final(self).pending() =~= old(self).pending() + bytes@);
        }
    }

    /// How many bytes are available to read right now.
    pub fn available(&self) -> (n: usize)
        requires
            self.wf(),
        ensures
            n == self.pending().len(),
    {
        self.data.len() - self.pos
    }

    /// Pulls every pending byte at once, advancing the cursor to the end.
    pub fn take_pending(&mut self) -> (out: Vec<u8>)
        requires
            old(self).wf(),
        ensures
            final(self).wf(),
            out@ == old(self).pending(),
            final(self).fed() == old(self).fed(),
            final(self).pos == final(self).fed().len(),
    {
        let out = copy_range(&self.data, self.pos, self.data.len());
        self.pos = self.data.len();
        out
    }

    /// Pulls up to `buf.len()` bytes into the front of `buf`, returning how
    /// many were written.  The count is the lesser of the space offered and
    /// the bytes pending; zero therefore means "nothing available right now".
    pub fn read(&mut self, buf: &mut Vec<u8>) -> (n: usize)
        requires
            old(self).wf(),
        ensures
            final(self).wf(),
            n == min_spec(old(buf)@.len() as int, old(self).pending().len() as int),
            final(self).fed() == old(self).fed(),
            final(self).pos == old(self).pos + n,
            final(buf)@.len() == old(buf)@.len(),
            final(buf)@.subrange(0, n as int) == old(self).pending().subrange(0, n as int),
            final(buf)@.skip(n as int) == old(buf)@.skip(n as int),
    {
        let dlen = self.data.len();
        let pending = dlen - self.pos;
        let n = if buf.len() < pending {
            buf.len()
        } else {
            pending
        };
        let mut i: usize = 0;
        while i < n
            invariant
                i <= n,
                n <= buf@.len(),
                self.wf(),
                self.data@.len() == dlen,
                self.pos + n <= dlen,
                self.data@ == old(self).data@,
                self.pos == old(self).pos,
                buf@.len() == old(buf)@.len(),
                forall|j: int| 0 <= j < i ==> buf@[j] == self.pending()[j],
                forall|j: int| i <= j < buf@.len() ==> buf@[j] == old(buf)@[j],
            decreases n - i,
        {
            let b = self.data[self.pos + i];
            buf.set(i, b);
            i += 1;
        }
        self.pos = self.pos + n;
        proof {
            assert(final(buf)@.subrange(0, n as int) =~= old(self).pending().subrange(
                0,
                n as int,
            ));
            assert(final(buf)@.skip(n as int) =~= old(buf)@.skip(n as int));
        }
        n
    }
}

/// The lesser of two integers.
pub open spec fn min_spec(a: int, b: int) -> int {
    if a < b {
        a
    } else {
        b
    }
}

/// Copies `v[from..to]` into a fresh vector.
pub fn copy_range(v: &Vec<u8>, from: usize, to: usize) -> (out: Vec<u8>)
    requires
        from <= to <= v@.len(),
    ensures
        out@ == v@.subrange(from as int, to as int),
{
    let mut out: Vec<u8> = Vec::new();
    let mut i: usize = from;
    while i < to
        invariant
            from <= i <= to <= v@.len(),
            out@ == v@.subrange(from as int, i as int),
        decreases to - i,
    {
        out.push(v[i]);
        proof {
            assert(out@ =~= v@.subrange(from as int, i + 1 as int));
        }
        i += 1;
    }
    out
}

/// `s` with the bytes at `at .. at + sub.len()` replaced by `sub`.
pub open spec fn spec_splice(s: Seq<u8>, at: int, sub: Seq<u8>) -> Seq<u8> {
    s.take(at) + sub + s.skip(at + sub.len())
}

/// Pointwise reading of `spec_splice`.
pub proof fn lemma_splice_index(s: Seq<u8>, at: int, sub: Seq<u8>)
    requires
        0 <= at,
        at + sub.len() <= s.len(),
    ensures
        spec_splice(s, at, sub).len() == s.len(),
        forall|i: int|
            0 <= i < s.len() ==> #[trigger] spec_splice(s, at, sub)[i] == (if at <= i < at
                + sub.len() {
                sub[i - at]
            } else {
                s[i]
            }),
{
}

/// A splice leaves every subrange outside the spliced window unchanged, and
/// the window itself reads back as the spliced bytes.
pub proof fn lemma_splice_subranges(s: Seq<u8>, at: int, sub: Seq<u8>, lo: int, hi: int)
    requires
        0 <= at,
        at + sub.len() <= s.len(),
        0 <= lo <= hi <= s.len(),
        hi <= at || at + sub.len() <= lo,
    ensures
        spec_splice(s, at, sub).subrange(at, at + sub.len()) == sub,
        spec_splice(s, at, sub).subrange(lo, hi) == s.subrange(lo, hi),
{
    lemma_splice_index(s, at, sub);
    assert(spec_splice(s, at, sub).subrange(at, at + sub.len()) =~= sub);
    assert(spec_splice(s, at, sub).subrange(lo, hi) =~= s.subrange(lo, hi));
}

/// Overwrites `buf[at .. at + src.len()]` with `src`.
pub fn splice_at(buf: &mut Vec<u8>, at: usize, src: &Vec<u8>)
    requires
        at + src@.len() <= old(buf)@.len(),
    ensures
        final(buf)@ == spec_splice(old(buf)@, at as int, src@),
        final(buf)@.len() == old(buf)@.len(),
{
    let n = src.len();
    let blen = buf.len();
    let mut i: usize = 0;
    while i < n
        invariant
            i <= n,
            n == src@.len(),
            at + n <= blen,
            buf@.len() == blen,
            buf@.len() == old(buf)@.len(),
            forall|j: int| 0 <= j < i ==> buf@[at + j] == src@[j],
            forall|j: int| 0 <= j < buf@.len() && !(at <= j < at + i) ==> buf@[j] == old(buf)@[j],
        decreases n - i,
    {
        let b = src[i];
        buf.set(at + i, b);
        i += 1;
    }
    proof {
        lemma_splice_index(old(buf)@, at as int, src@);
        assert(final(buf)@ =~= spec_splice(old(buf)@, at as int, src@));
    }
}

/// A vector of `n` zero bytes.
pub fn zero_vec(n: usize) -> (v: Vec<u8>)
    ensures
        v@ == Seq::new(n as nat, |i: int| 0u8),
{
    let mut v: Vec<u8> = Vec::new();
    let mut i: usize = 0;
    while i < n
        invariant
            i <= n,
            v@ == Seq::new(i as nat, |j: int| 0u8),
        decreases n - i,
    {
        v.push(0);
        proof {
            assert(v@ =~= Seq::new((i + 1) as nat, |j: int| 0u8));
        }
        i += 1;
    }
    v
}

/// Copies a whole slice into a fresh vector.
pub fn slice_to_vec(s: &[u8]) -> (out: Vec<u8>)
    ensures
        out@ == s@,
{
    let mut out: Vec<u8> = Vec::new();
    out.extend_from_slice(s);
    proof {
        assert(out@ =~= s@);
    }
    out
}

} // verus!
