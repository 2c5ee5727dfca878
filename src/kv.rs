use vstd::prelude::*;
use vstd::string::*;
use crate::decimal::{push_signed_decimal, signed_decimal};

verus! {

/// Spacing of the 3-minute series, in milliseconds.
pub const INTERVAL_3M_MS: i64 = 180_000;

/// Spacing of the 4-hour series, in milliseconds.
pub const INTERVAL_4H_MS: i64 = 14_400_000;

/// Points in each series of a snapshot.
pub const SERIES_LEN: usize = 10;

/// The four tables of the historical key-value store.
#[derive(PartialEq, Eq, Structural, Debug, Clone, Copy)]
pub enum KvTable {
    Candles3m,
    Candles4h,
    Indicators3m,
    Indicators4h,
}

/// The name under which each table is stored.
pub open spec fn table_name_of(t: KvTable) -> Seq<char> {
    match t {
        KvTable::Candles3m => "candles_3m"@,
        KvTable::Candles4h => "candles_4h"@,
        KvTable::Indicators3m => "indicators_3m"@,
        KvTable::Indicators4h => "indicators_4h"@,
    }
}

impl KvTable {
    /// The name under which this table is stored.
    pub fn name(&self) -> (r: &'static str)
        ensures
            r@ == table_name_of(*self),
    {
        match self {
            KvTable::Candles3m => "candles_3m",
            KvTable::Candles4h => "candles_4h",
            KvTable::Indicators3m => "indicators_3m",
            KvTable::Indicators4h => "indicators_4h",
        }
    }
}

/// The key of a record: `{symbol}:{timestamp_ms}`.
pub open spec fn key_of(symbol: Seq<char>, timestamp_ms: int) -> Seq<char> {
    symbol + seq![':'] + signed_decimal(timestamp_ms)
}

/// The key under which the record of `symbol` at `timestamp_ms` is stored.
pub fn make_key(symbol: &str, timestamp_ms: i64) -> (r: String)
    ensures
        r@ == key_of(symbol@, timestamp_ms as int),
{
    let mut s = String::from_str(symbol);
    proof { reveal_strlit(":"); }
    s.append(":");
    push_signed_decimal(&mut s, timestamp_ms);
    assert(s@ =~= key_of(symbol@, timestamp_ms as int));
    s
}

proof fn scaled_between(j: int, c: int, iv: int)
    requires
        0 <= j <= c,
    ensures
        iv >= 0 ==> 0 <= j * iv <= c * iv,
        iv < 0 ==> c * iv <= j * iv <= 0,
{
    assert(iv >= 0 ==> 0 <= j * iv <= c * iv) by (nonlinear_arith)
        requires 0 <= j <= c;
    assert(iv < 0 ==> c * iv <= j * iv <= 0) by (nonlinear_arith)
        requires 0 <= j <= c;
}

/// The timestamps of a series of `count` points spaced `interval_ms` apart
/// and ending at `end_ms`, oldest first.
pub fn series_timestamps(end_ms: i64, interval_ms: i64, count: usize) -> (r: Vec<i64>)
    requires
        count == 0 || i64::MIN <= end_ms - (count - 1) * interval_ms <= i64::MAX,
    ensures
        r@.len() == count,
        forall|k: int| 0 <= k < count ==> r@[k] == end_ms - (count - 1 - k) * interval_ms,
{
    let mut out: Vec<i64> = Vec::new();
    let mut k: usize = 0;
    while k < count
        invariant
            k <= count,
            count == 0 || i64::MIN <= end_ms - (count - 1) * interval_ms <= i64::MAX,
            out@.len() == k,
            forall|j: int| 0 <= j < k ==> out@[j] == end_ms - (count - 1 - j) * interval_ms,
        decreases count - k,
    {
        let back: usize = count - 1 - k;
        proof {
            scaled_between(back as int, count - 1, interval_ms as int);
        }
        let b: i128 = back as i128;
        let iv: i128 = interval_ms as i128;
        assert(-0x8000_0000_0000_0000_0000_0000_0000_0000i128 < b * iv < 0x7fff_ffff_ffff_ffff_ffff_ffff_ffff_ffffi128)
            by (nonlinear_arith)
            requires 0 <= b <= 0xffff_ffff_ffff_ffffi128, -0x8000_0000_0000_0000i128 <= iv <= 0x7fff_ffff_ffff_ffffi128;
        let t: i128 = (end_ms as i128) - b * iv;
        out.push(t as i64);
        k = k + 1;
    }
    out
}

/// The timestamps `start_ms, start_ms + interval_ms, ...` up to `end_ms`
/// inclusive: the candidate ticks of a range scan.
pub open spec fn is_inclusive_sweep(ticks: Seq<i64>, start_ms: i64, end_ms: i64, interval_ms: i64) -> bool {
    &&& forall|i: int| 0 <= i < ticks.len() ==> ticks[i] == start_ms + i * interval_ms
    &&& forall|i: int| 0 <= i < ticks.len() ==> ticks[i] <= end_ms
    &&& start_ms + ticks.len() * interval_ms > end_ms
}

/// The candidate ticks of a range scan from `start_ms` to `end_ms` inclusive.
pub fn range_ticks(start_ms: i64, end_ms: i64, interval_ms: i64) -> (r: Vec<i64>)
    requires
        interval_ms > 0,
    ensures
        is_inclusive_sweep(r@, start_ms, end_ms, interval_ms),
{
    let mut ticks: Vec<i64> = Vec::new();
    let mut current: i64 = start_ms;
    let mut more: bool = start_ms <= end_ms;
    while more
        invariant
            interval_ms > 0,
            more ==> current == start_ms + ticks@.len() * interval_ms,
            more ==> current <= end_ms,
            !more ==> start_ms + ticks@.len() * interval_ms > end_ms,
            forall|i: int| 0 <= i < ticks@.len() ==> ticks@[i] == start_ms + i * interval_ms,
            forall|i: int| 0 <= i < ticks@.len() ==> ticks@[i] <= end_ms,
        decreases (if more { end_ms - current + 1 } else { 0 }),
    {
        let ghost len = ticks@.len();
        ticks.push(current);
        proof {
            assert(start_ms + (len + 1) * interval_ms == start_ms + len * interval_ms + interval_ms)
                by (nonlinear_arith);
        }
        if current > i64::MAX - interval_ms {
            more = false;
        } else {
            current = current + interval_ms;
            more = current <= end_ms;
        }
    }
    ticks
}

/// The elements of `ts` among the first `n` whose flag in `present` is set, in order.
pub open spec fn kept(ts: Seq<i64>, present: Seq<bool>, n: int) -> Seq<i64>
    decreases n,
{
    if n <= 0 {
        seq![]
    } else if present[n - 1] {
        kept(ts, present, n - 1).push(ts[n - 1])
    } else {
        kept(ts, present, n - 1)
    }
}

/// The timestamps whose record was found, in their order.
pub fn keep_present(timestamps: &Vec<i64>, present: &Vec<bool>) -> (r: Vec<i64>)
    requires
        timestamps@.len() == present@.len(),
    ensures
        r@ == kept(timestamps@, present@, timestamps@.len() as int),
{
    let mut out: Vec<i64> = Vec::new();
    let mut i: usize = 0;
    while i < timestamps.len()
        invariant
            timestamps@.len() == present@.len(),
            i <= timestamps@.len(),
            out@ == kept(timestamps@, present@, i as int),
        decreases timestamps@.len() - i,
    {
        if present[i] {
            out.push(timestamps[i]);
        }
        i = i + 1;
    }
    out
}

} // verus!
