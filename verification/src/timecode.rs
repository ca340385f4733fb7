//! Timecode conversion: textual `hours:minutes:seconds[.fraction]` into an
//! integer number of microseconds. Malformed timecodes are reported as
//! unparseable, never as a panic, so a bad progress line can be skipped.

use vstd::arithmetic::overflow::CheckedU64;
use vstd::prelude::*;
use vstd::slice::*;

verus! {

/// True for ASCII decimal digit bytes.
pub open spec fn is_digit(b: u8) -> bool {
    48 <= b <= 57
}

/// True when every byte of `s` is an ASCII decimal digit.
pub open spec fn all_digits(s: Seq<u8>) -> bool {
    forall|k: int| 0 <= k < s.len() ==> is_digit(#[trigger] s[k])
}

/// Numeric value of a string of decimal digit bytes, most significant first.
pub open spec fn digits_val(s: Seq<u8>) -> nat
    recommends
        all_digits(s),
    decreases s.len(),
{
    if s.len() == 0 {
        0
    } else {
        digits_val(s.drop_last()) * 10 + (s.last() - 48) as nat
    }
}

/// Index of the first occurrence of `b` in `s` at or after `from`, or
/// `s.len()` when there is none.
pub open spec fn find_from(s: Seq<u8>, from: int, b: u8) -> int
    recommends
        0 <= from <= s.len(),
    decreases s.len() - from,
{
    if from < 0 || from >= s.len() {
        s.len() as int
    } else if s[from] == b {
        from
    } else {
        find_from(s, from + 1, b)
    }
}

/// Ten to the power `n`.
pub open spec fn pow10(n: nat) -> nat
    decreases n,
{
    if n == 0 {
        1
    } else {
        10 * pow10((n - 1) as nat)
    }
}

/// Microseconds contributed by a fractional-seconds digit string: the first
/// six digits, right-padded with zeros to six places. Digits beyond the
/// sixth are below microsecond resolution and are dropped.
pub open spec fn frac_micros(f: Seq<u8>) -> nat
    recommends
        all_digits(f),
{
    if f.len() >= 6 {
        digits_val(f.take(6))
    } else {
        digits_val(f) * pow10((6 - f.len()) as nat)
    }
}

/// A valid hours or minutes component: one or more decimal digits.
pub open spec fn spec_hm_valid(p: Seq<u8>) -> bool {
    p.len() > 0 && all_digits(p)
}

/// A valid seconds component: either digits alone, or digits with exactly
/// one decimal point and at least one digit on one side of it.
pub open spec fn spec_sec_valid(p: Seq<u8>) -> bool {
    let d = find_from(p, 0, 46);
    if d == p.len() {
        p.len() > 0 && all_digits(p)
    } else {
        all_digits(p.subrange(0, d)) && all_digits(p.subrange(d + 1, p.len() as int)) && p.len()
            >= 2
    }
}

/// Microseconds of a valid seconds component.
pub open spec fn spec_sec_micros(p: Seq<u8>) -> nat
    recommends
        spec_sec_valid(p),
{
    let d = find_from(p, 0, 46);
    if d == p.len() {
        digits_val(p) * 1_000_000
    } else {
        digits_val(p.subrange(0, d)) * 1_000_000 + frac_micros(p.subrange(d + 1, p.len() as int))
    }
}

/// A well-formed timecode: `H:M:S[.F]` with exactly two colons, digit-only
/// hours and minutes, and a valid seconds component.
pub open spec fn spec_timecode_valid(s: Seq<u8>) -> bool {
    let i = find_from(s, 0, 58);
    let j = find_from(s, i + 1, 58);
    i < s.len() && j < s.len() && spec_hm_valid(s.subrange(0, i)) && spec_hm_valid(
        s.subrange(i + 1, j),
    ) && spec_sec_valid(s.subrange(j + 1, s.len() as int))
}

/// Value of a well-formed timecode in microseconds:
/// `hours * 3600s + minutes * 60s + seconds`.
pub open spec fn spec_timecode_micros(s: Seq<u8>) -> nat
    recommends
        spec_timecode_valid(s),
{
    let i = find_from(s, 0, 58);
    let j = find_from(s, i + 1, 58);
    digits_val(s.subrange(0, i)) * 3_600_000_000 + digits_val(s.subrange(i + 1, j)) * 60_000_000
        + spec_sec_micros(s.subrange(j + 1, s.len() as int))
}

/// A found index lies between the search start and the end of the string,
/// and carries the byte searched for.
pub proof fn lemma_find_from_in_range(s: Seq<u8>, from: int, b: u8)
    requires
        0 <= from <= s.len(),
    ensures
        from <= find_from(s, from, b) <= s.len(),
        find_from(s, from, b) < s.len() ==> s[find_from(s, from, b)] == b,
    decreases s.len() - from,
{
    if from < s.len() && s[from] != b {
        lemma_find_from_in_range(s, from + 1, b);
    }
}

/// The value of a digit string is below ten to the number of its digits.
proof fn lemma_digits_val_bound(s: Seq<u8>)
    requires
        all_digits(s),
    ensures
        digits_val(s) < pow10(s.len()),
    decreases s.len(),
{
    if s.len() > 0 {
        assert(all_digits(s.drop_last())) by {
            assert(forall|k: int|
                0 <= k < s.len() - 1 ==> #[trigger] s.drop_last()[k] == s[k]);
        }
        lemma_digits_val_bound(s.drop_last());
        assert(is_digit(s.last()));
    }
}

/// Ten to any power is at least one.
proof fn lemma_pow10_pos(n: nat)
    ensures
        pow10(n) >= 1,
    decreases n,
{
    if n > 0 {
        lemma_pow10_pos((n - 1) as nat);
    }
}

/// Ten to a power does not shrink as the power grows.
proof fn lemma_pow10_mono(a: nat, b: nat)
    requires
        a <= b,
    ensures
        pow10(a) <= pow10(b),
    decreases b,
{
    if a < b {
        lemma_pow10_mono(a, (b - 1) as nat);
        lemma_pow10_pos((b - 1) as nat);
    }
}

/// The concrete powers of ten up to one million.
proof fn lemma_pow10_values()
    ensures
        pow10(0) == 1,
        pow10(1) == 10,
        pow10(2) == 100,
        pow10(3) == 1_000,
        pow10(4) == 10_000,
        pow10(5) == 100_000,
        pow10(6) == 1_000_000,
{
    assert(pow10(0) == 1);
    assert(pow10(1) == 10);
    assert(pow10(2) == 100);
    assert(pow10(3) == 1_000);
    assert(pow10(4) == 10_000);
    assert(pow10(5) == 100_000);
    assert(pow10(6) == 1_000_000);
}

/// Index of the first occurrence of `b` in `s` at or after `from`, or
/// `s.len()` when `b` does not occur there.
fn find_byte(s: &[u8], from: usize, b: u8) -> (r: usize)
    requires
        from <= s@.len(),
    ensures
        r == find_from(s@, from as int, b),
        from <= r <= s@.len(),
        r < s@.len() ==> s@[r as int] == b,
{
    let n = s.len();
    let mut i = from;
    while i < n
        invariant
            from <= i <= n,
            n == s@.len(),
            find_from(s@, from as int, b) == find_from(s@, i as int, b),
        decreases n - i,
    {
        if *slice_index_get(s, i) == b {
            return i;
        }
        assert(find_from(s@, i as int, b) == find_from(s@, i + 1, b));
        i = i + 1;
    }
    i
}

/// Parses a whole slice of decimal digits into its numeric value, with the
/// true unbounded value tracked through `CheckedU64`. Returns `None` when a
/// non-digit byte occurs; an empty slice parses to zero.
fn parse_digits(part: &[u8]) -> (r: Option<CheckedU64>)
    ensures
        r is Some <==> all_digits(part@),
        r matches Some(c) ==> c@ == digits_val(part@),
{
    let n = part.len();
    let mut acc = CheckedU64::new(0);
    let mut i: usize = 0;
    while i < n
        invariant
            0 <= i <= n,
            n == part@.len(),
            all_digits(part@.take(i as int)),
            acc@ == digits_val(part@.take(i as int)),
        decreases n - i,
    {
        let b = *slice_index_get(part, i);
        if b < 48 || b > 57 {
            assert(!is_digit(part@[i as int]));
            return None;
        }
        acc = acc.mul_value(10).add_value((b - 48) as u64);
        proof {
            assert(part@.take(i + 1).drop_last() =~= part@.take(i as int));
            assert(part@.take(i + 1).last() == part@[i as int]);
        }
        i = i + 1;
    }
    proof {
        assert(part@.take(n as int) =~= part@);
    }
    Some(acc)
}

/// Every prefix of a digit string is a digit string.
proof fn lemma_all_digits_prefix(s: Seq<u8>, k: int)
    requires
        all_digits(s),
        0 <= k <= s.len(),
    ensures
        all_digits(s.take(k)),
{
    assert(forall|j: int| 0 <= j < k ==> #[trigger] s.take(k)[j] == s[j]);
}

/// Microseconds of a fractional-seconds digit string: the first six digits,
/// scaled so that one digit is a tenth of a second. Returns `None` when a
/// non-digit byte occurs.
fn parse_frac(fp: &[u8]) -> (r: Option<u64>)
    ensures
        r is Some <==> all_digits(fp@),
        r matches Some(v) ==> v == frac_micros(fp@) && v < 1_000_000,
{
    let n = fp.len();
    let mut i: usize = 0;
    while i < n
        invariant
            0 <= i <= n,
            n == fp@.len(),
            all_digits(fp@.take(i as int)),
        decreases n - i,
    {
        let b = *slice_index_get(fp, i);
        if b < 48 || b > 57 {
            assert(!is_digit(fp@[i as int]));
            return None;
        }
        proof {
            assert(forall|k: int| 0 <= k < i ==> fp@.take(i + 1)[k] == #[trigger] fp@.take(
                i as int,
            )[k]);
            assert(fp@.take(i + 1)[i as int] == fp@[i as int]);
        }
        i = i + 1;
    }
    proof {
        assert(fp@.take(n as int) =~= fp@);
    }
    let keep: usize = if n >= 6 {
        6
    } else {
        n
    };
    let mut acc: u64 = 0;
    let mut k: usize = 0;
    while k < keep
        invariant
            0 <= k <= keep <= 6,
            keep <= n == fp@.len(),
            all_digits(fp@),
            acc == digits_val(fp@.take(k as int)),
            acc < 1_000_000,
        decreases keep - k,
    {
        let b = *slice_index_get(fp, k);
        proof {
            assert(is_digit(fp@[k as int]));
            assert(fp@.take(k + 1).drop_last() =~= fp@.take(k as int));
            assert(fp@.take(k + 1).last() == fp@[k as int]);
            lemma_all_digits_prefix(fp@, k + 1);
            lemma_digits_val_bound(fp@.take(k + 1));
            lemma_pow10_mono((k + 1) as nat, 6);
            lemma_pow10_values();
        }
        acc = acc * 10 + ((b - 48) as u64);
        k = k + 1;
    }
    let scale: u64 = if keep == 0 {
        1_000_000
    } else if keep == 1 {
        100_000
    } else if keep == 2 {
        10_000
    } else if keep == 3 {
        1_000
    } else if keep == 4 {
        100
    } else if keep == 5 {
        10
    } else {
        1
    };
    proof {
        lemma_pow10_values();
        lemma_all_digits_prefix(fp@, keep as int);
        lemma_digits_val_bound(fp@.take(keep as int));
        assert(scale == pow10((6 - keep) as nat));
        assert(pow10(keep as nat) * pow10((6 - keep) as nat) == 1_000_000);
        assert(acc * scale < 1_000_000 && acc * scale == digits_val(fp@.take(keep as int))
            * pow10((6 - keep) as nat)) by (nonlinear_arith)
            requires
                acc == digits_val(fp@.take(keep as int)),
                acc < pow10(keep as nat),
                scale == pow10((6 - keep) as nat),
                pow10(keep as nat) * pow10((6 - keep) as nat) == 1_000_000,
                scale >= 1,
        ;
        if n >= 6 {
            assert(frac_micros(fp@) == digits_val(fp@.take(6)));
            assert(scale == 1);
        } else {
            assert(fp@.take(n as int) =~= fp@);
            assert(frac_micros(fp@) == digits_val(fp@) * pow10((6 - n) as nat));
        }
    }
    Some(acc * scale)
}

/// Seconds component in microseconds: digits, optionally with one decimal
/// point carrying a fractional part. Returns `None` on any other shape.
fn parse_seconds(part: &[u8]) -> (r: Option<CheckedU64>)
    ensures
        r is Some <==> spec_sec_valid(part@),
        r matches Some(c) ==> c@ == spec_sec_micros(part@),
{
    let n = part.len();
    let d = find_byte(part, 0, 46);
    if d == n {
        if n == 0 {
            return None;
        }
        match parse_digits(part) {
            None => None,
            Some(c) => Some(c.mul_value(1_000_000)),
        }
    } else {
        if n < 2 {
            return None;
        }
        let ip = slice_subrange(part, 0, d);
        let fp = slice_subrange(part, d + 1, n);
        match parse_digits(ip) {
            None => None,
            Some(c) => match parse_frac(fp) {
                None => None,
                Some(v) => Some(c.mul_value(1_000_000).add_value(v)),
            },
        }
    }
}

/// Converts a timecode `hours:minutes:seconds[.fraction]` into whole
/// microseconds. Returns `None` exactly when the string does not have that
/// shape — not three colon-separated components, or a component that is not
/// numeric — or when the value does not fit in a `u64` of microseconds.
/// Malformed input is never a panic: a caller skips the update instead.
pub fn parse_time_to_seconds(time: &[u8]) -> (r: Option<u64>)
    ensures
        r is Some <==> spec_timecode_valid(time@) && spec_timecode_micros(time@) <= u64::MAX,
        r matches Some(v) ==> v == spec_timecode_micros(time@),
{
    let n = time.len();
    let i = find_byte(time, 0, 58);
    if i == n {
        return None;
    }
    let j = find_byte(time, i + 1, 58);
    if j == n {
        return None;
    }
    if i == 0 || j == i + 1 {
        return None;
    }
    let hp = slice_subrange(time, 0, i);
    let mp = slice_subrange(time, i + 1, j);
    let sp = slice_subrange(time, j + 1, n);
    let hc = match parse_digits(hp) {
        None => {
            return None;
        },
        Some(c) => c,
    };
    let mc = match parse_digits(mp) {
        None => {
            return None;
        },
        Some(c) => c,
    };
    let sc = match parse_seconds(sp) {
        None => {
            return None;
        },
        Some(c) => c,
    };
    let total = hc.mul_value(3_600_000_000).add_checked(&mc.mul_value(60_000_000)).add_checked(
        &sc,
    );
    total.to_option()
}

} // verus!
