use vstd::prelude::*;
use vstd::string::*;

verus! {

/// Dimensions of an embedding vector.
pub const EMBEDDING_DIM: u64 = 384;

/// The RFC 3339 text of an epoch time in milliseconds, as chrono renders it in
/// UTC, where chrono can represent that time.
pub uninterp spec fn rfc3339_text_of(ms: i64) -> Option<Seq<char>>;

/// Relies on chrono's DateTime::from_timestamp_millis and to_rfc3339: the UTC
/// date-time of an epoch time, or nothing out of chrono's range.
#[verifier::external_body]
fn millis_to_rfc3339(ms: i64) -> (r: Option<String>)
    ensures
        match r {
            Some(s) => rfc3339_text_of(ms) == Some(s@),
            None => rfc3339_text_of(ms) is None,
        },
{
    chrono::DateTime::from_timestamp_millis(ms).map(|dt| dt.to_rfc3339())
}

/// The `date` of a point: the RFC 3339 text of its timestamp, or `unknown`
/// where the timestamp has none.
pub open spec fn date_of(timestamp_ms: u64) -> Seq<char> {
    if timestamp_ms <= i64::MAX {
        match rfc3339_text_of(timestamp_ms as i64) {
            Some(s) => s,
            None => "unknown"@,
        }
    } else {
        "unknown"@
    }
}

/// The `date` field of the point stored for a snapshot taken at `timestamp_ms`.
pub fn payload_date(timestamp_ms: u64) -> (r: String)
    ensures
        r@ == date_of(timestamp_ms),
{
    if timestamp_ms > i64::MAX as u64 {
        return String::from_str("unknown");
    }
    match millis_to_rfc3339(timestamp_ms as i64) {
        Some(s) => s,
        None => String::from_str("unknown"),
    }
}

} // verus!
