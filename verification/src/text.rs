//! Small text-building helpers: decimal rendering of integers and the two
//! `String` operations the library needs from std that vstd does not
//! specify.

use vstd::prelude::*;

verus! {

/// Decimal digit bytes of `n`, most significant first, no leading zeros.
pub open spec fn dec_bytes(n: nat) -> Seq<u8>
    decreases n,
{
    if n < 10 {
        seq![(48 + n) as u8]
    } else {
        dec_bytes(n / 10).push((48 + n % 10) as u8)
    }
}

/// Decimal digit characters of `n`, most significant first.
pub open spec fn dec_chars(n: nat) -> Seq<char>
    decreases n,
{
    if n < 10 {
        seq![((48 + n) as u8) as char]
    } else {
        dec_chars(n / 10).push(((48 + n % 10) as u8) as char)
    }
}

/// The character rendering is the byte rendering, digit for digit.
pub proof fn lemma_dec_chars_bytes(n: nat)
    ensures
        dec_chars(n).len() == dec_bytes(n).len(),
        forall|i: int|
            0 <= i < dec_bytes(n).len() ==> dec_chars(n)[i] == (#[trigger] dec_bytes(n)[i]) as char,
        forall|i: int| 0 <= i < dec_bytes(n).len() ==> #[trigger] dec_bytes(n)[i] < 128,
    decreases n,
{
    if n >= 10 {
        lemma_dec_chars_bytes(n / 10);
    }
}

/// Decimal digit bytes of `n`, most significant first.
pub fn u32_dec_bytes(n: u32) -> (r: Vec<u8>)
    ensures
        r@ == dec_bytes(n as nat),
    decreases n,
{
    if n < 10 {
        let mut v: Vec<u8> = Vec::new();
        v.push((n + 48) as u8);
        v
    } else {
        let mut v = u32_dec_bytes(n / 10);
        v.push((n % 10 + 48) as u8);
        v
    }
}

/// Relies on std's `String::push_str`: appends the string slice onto the
/// end of the string, leaving everything before it in place.
#[verifier::external_body]
pub(crate) fn append_str(s: &mut String, t: &str)
    ensures
        final(s)@ == old(s)@ + t@,
{
    s.push_str(t)
}

/// Relies on std's `String::from_utf8`: bytes below 128 are ASCII, which
/// UTF-8 encodes one byte per character as the same code point, so decoding
/// succeeds and yields exactly those characters.
#[verifier::external_body]
pub(crate) fn ascii_to_string(bytes: Vec<u8>) -> (r: String)
    requires
        forall|i: int| 0 <= i < bytes@.len() ==> bytes@[i] < 128,
    ensures
        r@.len() == bytes@.len(),
        forall|i: int| 0 <= i < bytes@.len() ==> r@[i] == (#[trigger] bytes@[i]) as char,
{
    match String::from_utf8(bytes) {
        Ok(s) => s,
        Err(_) => String::new(),
    }
}

/// Relies on std's `str::from_utf8`: it succeeds exactly on byte slices
/// that are valid UTF-8, the validity that `vstd::utf8::valid_utf8`
/// defines. The original streaming code gates every line on this same
/// call before looking for a marker.
#[verifier::external_body]
pub(crate) fn utf8_valid(bytes: &[u8]) -> (r: bool)
    ensures
        r == vstd::utf8::valid_utf8(bytes@),
{
    std::str::from_utf8(bytes).is_ok()
}

/// Renders `n` in decimal as a `String`.
pub fn u32_to_string(n: u32) -> (r: String)
    ensures
        r@ == dec_chars(n as nat),
{
    let bytes = u32_dec_bytes(n);
    proof {
        lemma_dec_chars_bytes(n as nat);
    }
    let ghost bv = bytes@;
    let s = ascii_to_string(bytes);
    proof {
        assert forall|i: int| 0 <= i < s@.len() implies s@[i] == dec_chars(n as nat)[i] by {
            assert(s@[i] == bv[i] as char);
            assert(dec_chars(n as nat)[i] == (dec_bytes(n as nat)[i]) as char);
        }
        assert(s@ =~= dec_chars(n as nat));
    }
    s
}

} // verus!
