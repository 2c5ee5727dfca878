use vstd::prelude::*;

verus! {

/// Milliseconds in a day.
pub const DAY_MS: u64 = 86_400_000;

/// The length of a look-back window of `lookback_days` days, in milliseconds.
pub fn lookback_ms(lookback_days: u32) -> (r: u64)
    ensures
        r == lookback_days * DAY_MS,
{
    assert(lookback_days * DAY_MS <= 0xffff_ffffu64 * DAY_MS) by (nonlinear_arith)
        requires lookback_days <= 0xffff_ffffu64;
    (lookback_days as u64) * DAY_MS
}

/// The earliest timestamp a search admits: `now_ms` minus the look-back
/// window, or zero where the window reaches back past the epoch.
pub fn min_timestamp(now_ms: u64, lookback_days: u32) -> (r: u64)
    ensures
        now_ms >= lookback_days * DAY_MS ==> r == now_ms - lookback_days * DAY_MS,
        now_ms < lookback_days * DAY_MS ==> r == 0,
{
    let window = lookback_ms(lookback_days);
    if now_ms >= window {
        now_ms - window
    } else {
        0
    }
}

/// The retrieval gate: the matches themselves when there are at least
/// `min_matches` of them, else none.
pub fn gate_matches<T>(matches: Vec<T>, min_matches: usize) -> (r: Vec<T>)
    ensures
        matches@.len() >= min_matches ==> r@ == matches@,
        matches@.len() < min_matches ==> r@.len() == 0,
{
    if matches.len() < min_matches {
        Vec::new()
    } else {
        matches
    }
}

} // verus!
