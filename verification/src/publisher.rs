//! Progress publication: percentage computation from elapsed and total
//! time, two-decimal formatting, and the structured update value handed to
//! the external event sink.

use crate::text::{ascii_to_string, dec_bytes, dec_chars, lemma_dec_chars_bytes, u32_dec_bytes};
use vstd::prelude::*;

verus! {

/// One progress report. `progress` is carried in hundredths of a percent —
/// 10_000 is exactly 100.00% — so that two-decimal rounding is exact.
/// `task` discriminates concurrent operations for the sink; extraction
/// leaves it empty and slicing tags its updates.
pub struct ProgressUpdate {
    pub progress: u32,
    pub message: String,
    pub task: Option<String>,
}

/// Percentage (in hundredths of a percent) of `elapsed` over `total`,
/// rounded to the nearest hundredth (ties up) and clamped to
/// `[0, 10_000]`. Both times are in microseconds.
pub open spec fn spec_percent_hundredths(elapsed: nat, total: nat) -> nat
    recommends
        total > 0,
{
    let rounded = (20_000 * elapsed + total) / (2 * total);
    if rounded > 10_000 {
        10_000nat
    } else {
        rounded
    }
}

/// Computes the published progress percentage from elapsed and total
/// microseconds: `clamp(elapsed/total * 100, 0, 100)` rounded to two
/// decimals, expressed in hundredths of a percent.
pub fn percent_hundredths(elapsed: u64, total: u64) -> (r: u32)
    requires
        total > 0,
    ensures
        r == spec_percent_hundredths(elapsed as nat, total as nat),
        r <= 10_000,
{
    let e: u128 = elapsed as u128;
    let t: u128 = total as u128;
    let rounded: u128 = (20_000 * e + t) / (2 * t);
    proof {
        assert(20_000 * e + t <= u128::MAX) by (nonlinear_arith)
            requires
                e <= u64::MAX as u128,
                t <= u64::MAX as u128,
        ;
        assert((20_000 * (elapsed as nat) + total as nat) / (2 * (total as nat)) == (20_000 * e
            + t) as nat / (2 * t) as nat);
    }
    if rounded > 10_000 {
        10_000
    } else {
        rounded as u32
    }
}

/// An elapsed time of zero publishes exactly 0.00%.
pub proof fn lemma_percent_zero(total: nat)
    requires
        total > 0,
    ensures
        spec_percent_hundredths(0, total) == 0,
{
    assert((20_000 * 0 + total) / (2 * total) == 0) by (nonlinear_arith)
        requires
            total > 0,
    ;
}

/// An elapsed time at or past the total publishes exactly 100.00%, never
/// more: the percentage is clamped.
pub proof fn lemma_percent_full(elapsed: nat, total: nat)
    requires
        0 < total <= elapsed,
    ensures
        spec_percent_hundredths(elapsed, total) == 10_000,
{
    assert((20_000 * elapsed + total) / (2 * total) >= 10_000) by (nonlinear_arith)
        requires
            0 < total <= elapsed,
    ;
}

/// No published percentage exceeds 100.00%.
pub proof fn lemma_percent_clamped(elapsed: nat, total: nat)
    ensures
        spec_percent_hundredths(elapsed, total) <= 10_000,
{
}

/// The two-decimal rendering of a percentage in hundredths: the whole part
/// in decimal, a point, and exactly two fractional digits.
pub open spec fn spec_format_percent(h: nat) -> Seq<char> {
    dec_chars(h / 100) + seq![
        '.',
        ((48 + (h % 100) / 10) as u8) as char,
        ((48 + h % 10) as u8) as char,
    ]
}

/// Renders a percentage in hundredths as its two-decimal text, such as the
/// text `50.00` for 5_000.
pub fn format_percent(h: u32) -> (r: String)
    ensures
        r@ == spec_format_percent(h as nat),
{
    let mut bytes = u32_dec_bytes(h / 100);
    proof {
        lemma_dec_chars_bytes((h / 100) as nat);
    }
    let ghost ip = bytes@;
    bytes.push(46);
    bytes.push((48 + (h % 100) / 10) as u8);
    bytes.push((48 + h % 10) as u8);
    let ghost bv = bytes@;
    let s = ascii_to_string(bytes);
    proof {
        assert(bv =~= dec_bytes((h / 100) as nat) + seq![
            46u8,
            (48 + (h % 100) / 10) as u8,
            (48 + h % 10) as u8,
        ]);
        assert forall|i: int| 0 <= i < s@.len() implies s@[i] == spec_format_percent(h as nat)[i]
        by {
            assert(s@[i] == bv[i] as char);
            if i < ip.len() {
                assert(dec_chars((h / 100) as nat)[i] == (dec_bytes((h / 100) as nat)[i]) as char);
            }
        }
        assert(s@.len() == spec_format_percent(h as nat).len());
        assert(s@ =~= spec_format_percent(h as nat));
    }
    s
}

/// Builds an extraction update: extraction updates carry no task
/// discriminator, which is how the sink tells them apart from a
/// concurrent slicing task's updates.
pub fn extract_progress_update(percent: u32, message: String) -> (r: ProgressUpdate)
    ensures
        r.progress == percent,
        r.message == message,
        r.task is None,
{
    ProgressUpdate { progress: percent, message, task: None }
}

/// Builds a slicing update: every slicing update carries the `slice`
/// task discriminator, so the sink can demultiplex it from a concurrent
/// extraction's untagged updates.
pub fn slice_progress_update(percent: u32, message: String) -> (r: ProgressUpdate)
    ensures
        r.progress == percent,
        r.message == message,
        r.task matches Some(t) && t@ == "slice"@,
{
    ProgressUpdate { progress: percent, message, task: Some("slice".to_owned()) }
}


} // verus!
