//! Progress-marker extraction: finds an embedded `<key>=<timecode>` token
//! in one line of the external tool's streaming output. A line without the
//! token is reported as "no marker", never as a failure.

use vstd::prelude::*;
use vstd::slice::*;

verus! {

/// Index of the first occurrence of `p` as a contiguous subsequence of `l`
/// at or after `from`, or `l.len()` when there is none.
pub open spec fn find_sub_from(l: Seq<u8>, p: Seq<u8>, from: int) -> int
    recommends
        0 <= from,
    decreases l.len() - from,
{
    if from < 0 || from >= l.len() || from + p.len() > l.len() {
        l.len() as int
    } else if l.subrange(from, from + p.len()) == p {
        from
    } else {
        find_sub_from(l, p, from + 1)
    }
}

/// What extraction yields on one line: the bytes after the first
/// `<key>=` occurrence, to the end of the line, or nothing when the line
/// carries no such token.
pub open spec fn spec_extract_marker(line: Seq<u8>, key: Seq<u8>) -> Option<Seq<u8>> {
    let needle = key.push(61);
    let i = find_sub_from(line, needle, 0);
    if i < line.len() {
        Some(line.subrange(i + needle.len(), line.len() as int))
    } else {
        None
    }
}

/// A found occurrence lies wholly inside `l` and matches `p` there.
pub proof fn lemma_find_sub_found(l: Seq<u8>, p: Seq<u8>, from: int)
    requires
        0 <= from,
        find_sub_from(l, p, from) < l.len(),
    ensures
        from <= find_sub_from(l, p, from),
        find_sub_from(l, p, from) + p.len() <= l.len(),
        l.subrange(find_sub_from(l, p, from), find_sub_from(l, p, from) + p.len()) == p,
    decreases l.len() - from,
{
    if from >= l.len() || from + p.len() > l.len() {
    } else if l.subrange(from, from + p.len()) == p {
    } else {
        lemma_find_sub_found(l, p, from + 1);
    }
}

/// Whether `p` occurs as a contiguous subsequence of `l` starting at `i`.
fn match_at(l: &[u8], p: &[u8], i: usize) -> (r: bool)
    requires
        i + p@.len() <= l@.len(),
    ensures
        r == (l@.subrange(i as int, i + p@.len()) == p@),
{
    let n = l.len();
    let m = p.len();
    let mut k: usize = 0;
    while k < m
        invariant
            0 <= k <= m,
            m == p@.len(),
            n == l@.len(),
            i + m <= n,
            forall|j: int| 0 <= j < k ==> l@[i + j] == p@[j],
        decreases m - k,
    {
        if *slice_index_get(l, i + k) != *slice_index_get(p, k) {
            proof {
                assert(l@.subrange(i as int, i + p@.len())[k as int] == l@[i + k]);
            }
            return false;
        }
        k = k + 1;
    }
    proof {
        assert(l@.subrange(i as int, i + p@.len()) =~= p@);
    }
    true
}

/// Index of the first occurrence of `p` inside `l`, or `l.len()` when `p`
/// does not occur.
fn find_sub(l: &[u8], p: &[u8]) -> (r: usize)
    requires
        p@.len() >= 1,
    ensures
        r == find_sub_from(l@, p@, 0),
        r <= l@.len(),
{
    let n = l.len();
    let m = p.len();
    if m > n {
        return n;
    }
    let mut i: usize = 0;
    while i <= n - m
        invariant
            0 <= i <= n - m + 1,
            1 <= m <= n,
            n == l@.len(),
            m == p@.len(),
            find_sub_from(l@, p@, 0) == find_sub_from(l@, p@, i as int),
        decreases n - i,
    {
        if match_at(l, p, i) {
            return i;
        }
        assert(find_sub_from(l@, p@, i as int) == find_sub_from(l@, p@, i + 1));
        i = i + 1;
    }
    n
}

/// Searches one line for a `<key>=` token and hands back the captured
/// timecode text: everything after the first such token, to the end of the
/// line. A line without the token yields `None`, which a caller treats as
/// "no marker on this line", not as an error.
pub fn extract_marker(line: &[u8], key: &[u8]) -> (r: Option<Vec<u8>>)
    ensures
        r is Some <==> spec_extract_marker(line@, key@) is Some,
        r matches Some(v) ==> spec_extract_marker(line@, key@) == Some(v@),
{
    let mut needle: Vec<u8> = slice_to_vec(key);
    needle.push(61);
    proof {
        assert(needle@ =~= key@.push(61));
    }
    let i = find_sub(line, needle.as_slice());
    if i < line.len() {
        let m = needle.len();
        proof {
            lemma_find_sub_found(line@, needle@, 0);
        }
        let rest = slice_subrange(line, i + m, line.len());
        Some(slice_to_vec(rest))
    } else {
        None
    }
}

} // verus!
