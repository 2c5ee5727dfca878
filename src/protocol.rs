use vstd::prelude::*;
use vstd::string::*;
use crate::strings::str_eq;
use crate::error::RpcError;

verus! {

/// The name of the only method the server answers.
pub open spec fn query_patterns_method() -> Seq<char> {
    "rag.query_patterns"@
}

/// Server configuration.
pub struct ServerConfig {
    pub host: String,
    pub port: u16,
    pub qdrant_url: String,
    pub collection_name: String,
    pub min_matches: usize,
}

impl Default for ServerConfig {
    fn default() -> (r: ServerConfig)
        ensures
            r.host@ == "0.0.0.0"@,
            r.port == 7879,
            r.qdrant_url@ == "http://localhost:6333"@,
            r.collection_name@ == "trading_patterns"@,
            r.min_matches == 3,
    {
        ServerConfig {
            host: String::from_str("0.0.0.0"),
            port: 7879,
            qdrant_url: String::from_str("http://localhost:6333"),
            collection_name: String::from_str("trading_patterns"),
            min_matches: 3,
        }
    }
}

/// Default number of days a query looks back.
pub fn default_lookback_days() -> (r: u32)
    ensures
        r == 90,
{
    90
}

/// Default number of matches a query asks for.
pub fn default_top_k() -> (r: usize)
    ensures
        r == 5,
{
    5
}

/// By default a query adds the regime filters.
pub fn default_include_regime_filters() -> (r: bool)
    ensures
        r,
{
    true
}

/// The methods that a request may name.
#[derive(PartialEq, Eq, Structural, Debug, Clone, Copy)]
pub enum Method {
    QueryPatterns,
}

/// Checks the protocol version of a request and picks the method it calls.
pub fn route_request(jsonrpc: &str, method: &str) -> (r: Result<Method, RpcError>)
    ensures
        jsonrpc@ != "2.0"@ ==> (r matches Err(RpcError::InvalidRequest(m))
            && m@ == "JSON-RPC version must be 2.0"@),
        jsonrpc@ == "2.0"@ && method@ == query_patterns_method() ==> r == Ok::<Method, RpcError>(Method::QueryPatterns),
        jsonrpc@ == "2.0"@ && method@ != query_patterns_method() ==> (r matches Err(RpcError::MethodNotFound(m))
            && m@ == method@),
{
    proof {
        reveal_strlit("2.0");
        reveal_strlit("rag.query_patterns");
    }
    if !str_eq(jsonrpc, "2.0") {
        return Err(RpcError::InvalidRequest(String::from_str("JSON-RPC version must be 2.0")));
    }
    if str_eq(method, "rag.query_patterns") {
        Ok(Method::QueryPatterns)
    } else {
        Err(RpcError::MethodNotFound(String::from_str(method)))
    }
}

} // verus!
