use vstd::prelude::*;
use vstd::string::*;
use crate::strings::str_eq;
use crate::retrieval::DAY_MS;

verus! {

/// Log verbosity chosen on the command line.
#[derive(PartialEq, Eq, Structural, Debug, Clone, Copy)]
pub enum LogLevel {
    Trace,
    Debug,
    Info,
    Warn,
    Error,
}

/// The lower-case form of a text, as std's Unicode case mapping gives it.
pub uninterp spec fn lower_of(s: Seq<char>) -> Seq<char>;

/// Relies on str::to_lowercase: the result depends on the characters alone.
#[verifier::external_body]
fn lowercase(s: &str) -> (r: String)
    ensures
        r@ == lower_of(s@),
{
    s.to_lowercase()
}

/// The level a lower-case name stands for; an unknown name means `Info`.
pub open spec fn level_of(name: Seq<char>) -> LogLevel {
    if name == "trace"@ {
        LogLevel::Trace
    } else if name == "debug"@ {
        LogLevel::Debug
    } else if name == "info"@ {
        LogLevel::Info
    } else if name == "warn"@ {
        LogLevel::Warn
    } else if name == "error"@ {
        LogLevel::Error
    } else {
        LogLevel::Info
    }
}

/// The level named by an already lower-case name.
pub fn level_from_lowercase(name: &str) -> (r: LogLevel)
    ensures
        r == level_of(name@),
{
    if str_eq(name, "trace") {
        LogLevel::Trace
    } else if str_eq(name, "debug") {
        LogLevel::Debug
    } else if str_eq(name, "info") {
        LogLevel::Info
    } else if str_eq(name, "warn") {
        LogLevel::Warn
    } else if str_eq(name, "error") {
        LogLevel::Error
    } else {
        LogLevel::Info
    }
}

/// The level named on the command line, read case-insensitively.
pub fn parse_log_level(log_level: &str) -> (r: LogLevel)
    ensures
        r == level_of(lower_of(log_level@)),
{
    let lower = lowercase(log_level);
    level_from_lowercase(lower.as_str())
}

pub open spec fn is_digit(c: char) -> bool {
    '0' <= c <= '9'
}

pub open spec fn digit_value(c: char) -> nat {
    (c as u32 - '0' as u32) as nat
}

/// The number that a run of decimal digits spells.
pub open spec fn digits_value(s: Seq<char>) -> nat
    decreases s.len(),
{
    if s.len() == 0 {
        0
    } else {
        digits_value(s.drop_last()) * 10 + digit_value(s.last())
    }
}

pub open spec fn all_digits(s: Seq<char>) -> bool {
    forall|i: int| 0 <= i < s.len() ==> is_digit(#[trigger] s[i])
}

/// The digits of an unsigned number, after an optional `+`.
pub open spec fn unsigned_body(s: Seq<char>) -> Seq<char> {
    if s.len() > 0 && s[0] == '+' {
        s.drop_first()
    } else {
        s
    }
}

/// The `u64` a text spells in decimal, if it spells one.
pub open spec fn u64_of(s: Seq<char>) -> Option<u64> {
    let d = unsigned_body(s);
    if d.len() > 0 && all_digits(d) && digits_value(d) <= u64::MAX {
        Some(digits_value(d) as u64)
    } else {
        None
    }
}

proof fn digits_value_grows(s: Seq<char>, k: int)
    requires
        0 <= k <= s.len(),
    ensures
        digits_value(s.subrange(0, k)) <= digits_value(s),
    decreases s.len(),
{
    if k < s.len() {
        assert(s.drop_last().subrange(0, k) =~= s.subrange(0, k));
        digits_value_grows(s.drop_last(), k);
    } else {
        assert(s.subrange(0, k) =~= s);
    }
}

/// Reads a decimal `u64`, with an optional leading `+`.
pub fn parse_u64(s: &str) -> (r: Option<u64>)
    ensures
        r == u64_of(s@),
{
    let n = s.unicode_len();
    let mut i: usize = 0;
    if n > 0 && s.get_char(0) == '+' {
        i = 1;
    }
    let first = i;
    let ghost d = unsigned_body(s@);
    assert(d =~= s@.subrange(first as int, n as int));
    if first == n {
        return None;
    }
    let mut value: u64 = 0;
    while i < n
        invariant
            n == s@.len(),
            first <= i <= n,
            first < n,
            d == s@.subrange(first as int, n as int),
            d == unsigned_body(s@),
            all_digits(d.subrange(0, i - first)),
            value == digits_value(d.subrange(0, i - first)),
        decreases n - i,
    {
        let c = s.get_char(i);
        let ghost k = i - first;
        assert(d[k] == c);
        if c < '0' || c > '9' {
            assert(!all_digits(d));
            return None;
        }
        let dv: u64 = (c as u32 - '0' as u32) as u64;
        assert(d.subrange(0, k + 1).drop_last() =~= d.subrange(0, k));
        if value > (u64::MAX - dv) / 10 {
            proof {
                assert(value * 10 + dv > u64::MAX) by (nonlinear_arith)
                    requires value > (u64::MAX - dv) / 10, dv <= 9;
                digits_value_grows(d, k + 1);
            }
            return None;
        }
        value = value * 10 + dv;
        i = i + 1;
    }
    assert(d.subrange(0, n - first) =~= d);
    Some(value)
}

/// Why a time argument was refused.
#[derive(PartialEq, Eq, Structural, Debug, Clone, Copy)]
pub enum TimeArgError {
    /// Neither a day count nor an RFC 3339 date.
    InvalidDate,
    /// The time lies before the Unix epoch.
    BeforeEpoch,
}

/// The epoch milliseconds of an RFC 3339 date-time, as chrono reads it.
pub uninterp spec fn rfc3339_millis_of(s: Seq<char>) -> Option<i64>;

/// Relies on chrono's DateTime::parse_from_rfc3339 and timestamp_millis: the
/// instant an RFC 3339 text names, or nothing where it names none.
#[verifier::external_body]
fn rfc3339_to_millis(s: &str) -> (r: Option<i64>)
    ensures
        r == rfc3339_millis_of(s@),
{
    chrono::DateTime::parse_from_rfc3339(s).ok().map(|dt| dt.timestamp_millis())
}

/// What a parsed date gives as an unsigned epoch time.
pub open spec fn epoch_of(parsed: Option<i64>) -> Result<u64, TimeArgError> {
    match parsed {
        Some(ms) => if ms >= 0 { Ok(ms as u64) } else { Err(TimeArgError::BeforeEpoch) },
        None => Err(TimeArgError::InvalidDate),
    }
}

/// The unsigned epoch time of a parsed date, refusing one before the epoch.
pub fn epoch_from_parsed(parsed: Option<i64>) -> (r: Result<u64, TimeArgError>)
    ensures
        r == epoch_of(parsed),
{
    match parsed {
        Some(ms) => if ms >= 0 { Ok(ms as u64) } else { Err(TimeArgError::BeforeEpoch) },
        None => Err(TimeArgError::InvalidDate),
    }
}

/// The start of an ingestion range: a number of days before `now_ms`, or an
/// RFC 3339 date.
pub fn parse_start_timestamp(start: &str, now_ms: u64) -> (r: Result<u64, TimeArgError>)
    ensures
        u64_of(start@) matches Some(days) ==> r == (if days * DAY_MS <= now_ms {
            Ok::<u64, TimeArgError>((now_ms - days * DAY_MS) as u64)
        } else {
            Err(TimeArgError::BeforeEpoch)
        }),
        u64_of(start@) is None ==> r == epoch_of(rfc3339_millis_of(start@)),
{
    match parse_u64(start) {
        Some(days) => {
            if days > now_ms / DAY_MS {
                assert(days * DAY_MS > now_ms) by (nonlinear_arith)
                    requires days > now_ms / DAY_MS;
                Err(TimeArgError::BeforeEpoch)
            } else {
                assert(days * DAY_MS <= now_ms) by (nonlinear_arith)
                    requires days <= now_ms / DAY_MS;
                Ok(now_ms - days * DAY_MS)
            }
        },
        None => epoch_from_parsed(rfc3339_to_millis(start)),
    }
}

/// The end of an ingestion range: `now` for `now_ms`, or an RFC 3339 date.
pub fn parse_end_timestamp(end: &str, now_ms: u64) -> (r: Result<u64, TimeArgError>)
    ensures
        end@ == "now"@ ==> r == Ok::<u64, TimeArgError>(now_ms),
        end@ != "now"@ ==> r == epoch_of(rfc3339_millis_of(end@)),
{
    if str_eq(end, "now") {
        Ok(now_ms)
    } else {
        epoch_from_parsed(rfc3339_to_millis(end))
    }
}

} // verus!
