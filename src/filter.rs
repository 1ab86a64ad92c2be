use vstd::prelude::*;
use vstd::arithmetic::div_mod::{lemma_div_is_ordered, lemma_hoist_over_denominator, lemma_div_by_multiple};

verus! {

/// Denominator of the filter factor: a factor of `FILTER_SCALE` means 1.0,
/// so the factor is given in millionths.
pub const FILTER_SCALE: u32 = 1_000_000;

/// Single-pole exponential moving average, rounded down:
/// `raw * factor + prev * (1 - factor)`, with `factor` in millionths.
pub open spec fn filter_spec(raw: int, prev: int, factor: int) -> int {
    (raw * factor + prev * (FILTER_SCALE - factor)) / (FILTER_SCALE as int)
}

/// Moving `low` up by the weighted share of a non-negative `diff` equals the
/// weighted average taken over the whole, and the share does not exceed `diff`.
proof fn lemma_filter_shift(low: int, diff: int, weight: int)
    requires
        0 <= diff,
        0 <= weight <= FILTER_SCALE,
    ensures
        0 <= (diff * weight) / (FILTER_SCALE as int) <= diff,
        (low * (FILTER_SCALE as int) + diff * weight) / (FILTER_SCALE as int)
            == low + (diff * weight) / (FILTER_SCALE as int),
{
    let s = FILTER_SCALE as int;
    assert(0 <= diff * weight <= diff * s) by (nonlinear_arith)
        requires 0 <= diff, 0 <= weight <= s;
    lemma_div_is_ordered(0, diff * weight, s);
    lemma_div_is_ordered(diff * weight, diff * s, s);
    lemma_div_by_multiple(diff, s);
    lemma_hoist_over_denominator(diff * weight, low, s as nat);
}

/// Smooths the raw reading `raw` (millidegrees) against the previous smoothed
/// value `prev`, with `factor` in millionths.
pub fn filter(raw: i32, prev: i32, factor: u32) -> (r: i32)
    requires
        factor <= FILTER_SCALE,
    ensures
        r == filter_spec(raw as int, prev as int, factor as int),
{
    let ghost s = FILTER_SCALE as int;
    if raw >= prev {
        let diff: u64 = (raw as i64 - prev as i64) as u64;
        assert(diff * (factor as u64) <= diff * 1_000_000u64) by (nonlinear_arith)
            requires factor <= 1_000_000u32, diff <= 0xffff_ffffu64;
        let step: u64 = diff * (factor as u64) / (FILTER_SCALE as u64);
        proof {
            lemma_filter_shift(prev as int, diff as int, factor as int);
            assert(raw * factor + prev * (s - factor) == prev * s + diff * factor) by (nonlinear_arith)
                requires diff == raw - prev;
        }
        (prev as i64 + step as i64) as i32
    } else {
        let diff: u64 = (prev as i64 - raw as i64) as u64;
        let weight: u32 = FILTER_SCALE - factor;
        assert(diff * (weight as u64) <= diff * 1_000_000u64) by (nonlinear_arith)
            requires weight <= 1_000_000u32, diff <= 0xffff_ffffu64;
        let step: u64 = diff * (weight as u64) / (FILTER_SCALE as u64);
        proof {
            lemma_filter_shift(raw as int, diff as int, weight as int);
            assert(raw * factor + prev * (s - factor) == raw * s + diff * weight) by (nonlinear_arith)
                requires diff == prev - raw, weight == s - factor;
        }
        (raw as i64 + step as i64) as i32
    }
}

/// With a factor of zero the smoothed value never moves, and with a factor of
/// one it is exactly the latest raw reading.
pub proof fn lemma_filter_extremes(raw: int, prev: int)
    ensures
        filter_spec(raw, prev, 0) == prev,
        filter_spec(raw, prev, FILTER_SCALE as int) == raw,
{
    let s = FILTER_SCALE as int;
    assert(raw * 0 + prev * (s - 0) == prev * s) by (nonlinear_arith);
    assert(raw * s + prev * (s - s) == raw * s) by (nonlinear_arith);
    vstd::arithmetic::div_mod::lemma_div_multiples_vanish(prev, s);
    vstd::arithmetic::div_mod::lemma_div_multiples_vanish(raw, s);
}

} // verus!
