use vstd::prelude::*;
use vstd::string::*;
use crate::error::RpcError;

verus! {

/// Names of the filters that a query applies, in order.
pub open spec fn filters_of(include_regime_filters: bool) -> Seq<Seq<char>> {
    if include_regime_filters {
        seq!["symbol"@, "timerange"@, "oi_delta"@, "funding_sign"@]
    } else {
        seq!["symbol"@, "timerange"@]
    }
}

/// The views of a list of strings.
pub open spec fn views_of(v: Seq<String>) -> Seq<Seq<char>> {
    v.map_values(|s: String| s@)
}

/// Query metadata returned with a successful response.
pub struct Metadata {
    pub query_duration_ms: u64,
    pub embedding_duration_ms: u64,
    pub retrieval_duration_ms: u64,
    pub filters_applied: Vec<String>,
    pub schema_version: u32,
    pub feature_version: String,
    pub embedding_model: String,
}

/// The version tag of the feature set behind the embeddings.
pub open spec fn feature_version() -> Seq<char> {
    "v1_nofx_3m4h"@
}

/// The embedding model that produced the vectors.
pub open spec fn embedding_model() -> Seq<char> {
    "bge-small-en-v1.5"@
}

/// The filters a query applies: symbol and time range always, the regime
/// filters when asked for.
pub fn get_filters_applied(include_regime_filters: bool) -> (r: Vec<String>)
    ensures
        views_of(r@) == filters_of(include_regime_filters),
{
    let mut filters: Vec<String> = Vec::new();
    filters.push(String::from_str("symbol"));
    filters.push(String::from_str("timerange"));
    if include_regime_filters {
        filters.push(String::from_str("oi_delta"));
        filters.push(String::from_str("funding_sign"));
    }
    assert(views_of(filters@) =~= filters_of(include_regime_filters));
    filters
}

impl Metadata {
    /// Metadata for a query that took the given times.
    pub fn new(
        query_duration_ms: u64,
        embedding_duration_ms: u64,
        retrieval_duration_ms: u64,
        include_regime_filters: bool,
    ) -> (r: Metadata)
        ensures
            r.query_duration_ms == query_duration_ms,
            r.embedding_duration_ms == embedding_duration_ms,
            r.retrieval_duration_ms == retrieval_duration_ms,
            views_of(r.filters_applied@) == filters_of(include_regime_filters),
            r.schema_version == 1,
            r.feature_version@ == feature_version(),
            r.embedding_model@ == embedding_model(),
    {
        Metadata {
            query_duration_ms,
            embedding_duration_ms,
            retrieval_duration_ms,
            filters_applied: get_filters_applied(include_regime_filters),
            schema_version: 1,
            feature_version: String::from_str("v1_nofx_3m4h"),
            embedding_model: String::from_str("bge-small-en-v1.5"),
        }
    }
}

/// What the quality gate makes of `found` matches when `min_matches` are required.
pub open spec fn gate_of(found: usize, min_matches: usize) -> Result<(), RpcError> {
    if found < min_matches {
        Err(RpcError::InsufficientMatches { found, required: min_matches })
    } else {
        Ok(())
    }
}

/// The quality gate: fewer than `min_matches` matches is an error.
pub fn check_match_count(found: usize, min_matches: usize) -> (r: Result<(), RpcError>)
    ensures
        r == gate_of(found, min_matches),
{
    if found < min_matches {
        Err(RpcError::InsufficientMatches { found, required: min_matches })
    } else {
        Ok(())
    }
}

/// The error for a query call that carries no parameters.
pub fn missing_params() -> (r: RpcError)
    ensures
        r matches RpcError::InvalidParams(m) && m@ == "Missing params"@,
{
    RpcError::InvalidParams(String::from_str("Missing params"))
}

/// The error for a query call whose parameters do not have the expected shape.
pub fn invalid_params(detail: &str) -> (r: RpcError)
    ensures
        r matches RpcError::InvalidParams(m) && m@ == "Invalid params: "@ + detail@,
{
    let mut m = String::from_str("Invalid params: ");
    m.append(detail);
    RpcError::InvalidParams(m)
}

/// A search that found nothing, with at least one match required, ends in an
/// insufficient-matches error that reports zero found and the required count.
pub proof fn empty_index_is_insufficient(min_matches: usize)
    requires
        min_matches >= 1,
    ensures
        gate_of(0, min_matches) == Err::<(), RpcError>(
            RpcError::InsufficientMatches { found: 0, required: min_matches },
        ),
{
}

} // verus!
