//! Incremental line reading over a live byte stream. Chunks arrive with no
//! particular granularity — a line, or even a multi-byte character, may be
//! split across two underlying reads — and complete lines are handed out
//! only once their terminating newline has arrived.

use crate::timecode::{find_from, lemma_find_from_in_range};
use vstd::prelude::*;
use vstd::slice::*;

verus! {

/// Buffers bytes from a stream and yields one complete line at a time.
/// The view is the sequence of bytes received and not yet handed out.
pub struct StreamLineReader {
    buf: Vec<u8>,
}

impl View for StreamLineReader {
    type V = Seq<u8>;

    closed spec fn view(&self) -> Seq<u8> {
        self.buf@
    }
}

impl StreamLineReader {
    /// A reader with nothing buffered yet.
    pub fn new() -> (r: Self)
        ensures
            r@ == Seq::<u8>::empty(),
    {
        StreamLineReader { buf: Vec::new() }
    }

    /// Appends one underlying read's worth of bytes to the buffer. No
    /// assumption is made about where the chunk starts or ends relative to
    /// line boundaries.
    pub fn push_chunk(&mut self, chunk: &[u8])
        ensures
            final(self)@ == old(self)@ + chunk@,
    {
        let n = chunk.len();
        let mut i: usize = 0;
        while i < n
            invariant
                0 <= i <= n,
                n == chunk@.len(),
                self.buf@ == old(self).buf@ + chunk@.take(i as int),
            decreases n - i,
        {
            self.buf.push(*slice_index_get(chunk, i));
            proof {
                assert(chunk@.take(i + 1) =~= chunk@.take(i as int).push(chunk@[i as int]));
            }
            i = i + 1;
        }
        proof {
            assert(chunk@.take(n as int) =~= chunk@);
        }
    }

    /// Hands out the next complete line — the bytes up to, and not
    /// including, the first newline — and removes it, with its newline,
    /// from the buffer. Yields nothing while no full line has arrived yet.
    pub fn next_line(&mut self) -> (r: Option<Vec<u8>>)
        ensures
            ({
                let nl = find_from(old(self)@, 0, 10);
                if nl < old(self)@.len() {
                    r matches Some(v) && v@ == old(self)@.subrange(0, nl) && final(self)@
                        == old(self)@.subrange(nl + 1, old(self)@.len() as int)
                } else {
                    r is None && final(self)@ == old(self)@
                }
            }),
    {
        let n = self.buf.len();
        let mut k: usize = 0;
        while k < n
            invariant
                0 <= k <= n,
                n == self.buf@.len(),
                self.buf@ == old(self).buf@,
                find_from(self.buf@, 0, 10) == find_from(self.buf@, k as int, 10),
            decreases n - k,
        {
            if self.buf[k] == 10 {
                let line = slice_to_vec(slice_subrange(self.buf.as_slice(), 0, k));
                let rest = slice_to_vec(slice_subrange(self.buf.as_slice(), k + 1, n));
                self.buf = rest;
                return Some(line);
            }
            assert(find_from(self.buf@, k as int, 10) == find_from(self.buf@, k + 1, 10));
            k = k + 1;
        }
        None
    }

    /// Hands out whatever is buffered once the stream has ended: the final
    /// line of a stream need not end in a newline. Yields nothing when the
    /// stream ended cleanly with no partial line pending.
    pub fn take_remainder(&mut self) -> (r: Option<Vec<u8>>)
        ensures
            final(self)@ == Seq::<u8>::empty(),
            old(self)@.len() > 0 ==> (r matches Some(v) && v@ == old(self)@),
            old(self)@.len() == 0 ==> r is None,
    {
        if self.buf.len() == 0 {
            return None;
        }
        let rest = slice_to_vec(self.buf.as_slice());
        self.buf = Vec::new();
        Some(rest)
    }
}

/// A line split across two underlying reads is reassembled: when the first
/// chunk holds no newline and the buffered whole does, the line handed out
/// is the entire first chunk followed by the head of the second.
pub proof fn lemma_split_read_reassembles(a: Seq<u8>, b: Seq<u8>)
    requires
        find_from(a, 0, 10) == a.len(),
        find_from(b, 0, 10) < b.len(),
    ensures
        find_from(a + b, 0, 10) == a.len() + find_from(b, 0, 10),
        find_from(a + b, 0, 10) < (a + b).len(),
        (a + b).subrange(0, find_from(a + b, 0, 10)) == a + b.subrange(0, find_from(b, 0, 10)),
{
    lemma_find_from_in_range(b, 0, 10);
    lemma_find_from_concat(a, b, 10, 0);
    assert((a + b).subrange(0, a.len() + find_from(b, 0, 10)) =~= a + b.subrange(
        0,
        find_from(b, 0, 10),
    ));
}

/// Searching a concatenation whose first part is clean of `x` finds the
/// first occurrence in the second part, offset by the first part's length.
proof fn lemma_find_from_concat(a: Seq<u8>, b: Seq<u8>, x: u8, from: int)
    requires
        0 <= from <= a.len(),
        find_from(a, from, x) == a.len(),
    ensures
        find_from(a + b, from, x) == a.len() + find_from(b, 0, x),
    decreases a.len() - from,
{
    if from < a.len() {
        assert((a + b)[from] == a[from]);
        lemma_find_from_concat(a, b, x, from + 1);
    } else {
        lemma_find_from_shift(a, b, x, 0);
    }
}

/// Searching the concatenation from the start of the second part mirrors a
/// search of the second part alone.
proof fn lemma_find_from_shift(a: Seq<u8>, b: Seq<u8>, x: u8, k: int)
    requires
        0 <= k <= b.len(),
    ensures
        find_from(a + b, a.len() + k, x) == a.len() + find_from(b, k, x),
    decreases b.len() - k,
{
    if k < b.len() {
        assert((a + b)[a.len() + k] == b[k]);
        if b[k] != x {
            lemma_find_from_shift(a, b, x, k + 1);
        }
    }
}

} // verus!
