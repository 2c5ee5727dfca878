use vstd::prelude::*;
use vstd::string::*;
use crate::decimal::{decimal, push_decimal};

verus! {

/// Kinds of failure a request can end in, each with its JSON-RPC code.
pub enum RpcError {
    ParseError(String),
    InvalidRequest(String),
    MethodNotFound(String),
    InvalidParams(String),
    InternalError(String),
    InsufficientMatches { found: usize, required: usize },
    SymbolNotFound(String),
    QdrantError(String),
    EmbeddingError(String),
}

pub const PARSE_ERROR: i32 = -32700;
pub const INVALID_REQUEST: i32 = -32600;
pub const METHOD_NOT_FOUND: i32 = -32601;
pub const INVALID_PARAMS: i32 = -32602;
pub const INTERNAL_ERROR: i32 = -32603;
pub const INSUFFICIENT_MATCHES: i32 = -32001;
pub const SYMBOL_NOT_FOUND: i32 = -32002;
pub const QDRANT_ERROR: i32 = -32003;
pub const EMBEDDING_ERROR: i32 = -32004;

/// The JSON-RPC code that belongs to each kind of error.
pub open spec fn code_of(e: RpcError) -> i32 {
    match e {
        RpcError::ParseError(_) => PARSE_ERROR,
        RpcError::InvalidRequest(_) => INVALID_REQUEST,
        RpcError::MethodNotFound(_) => METHOD_NOT_FOUND,
        RpcError::InvalidParams(_) => INVALID_PARAMS,
        RpcError::InternalError(_) => INTERNAL_ERROR,
        RpcError::InsufficientMatches { .. } => INSUFFICIENT_MATCHES,
        RpcError::SymbolNotFound(_) => SYMBOL_NOT_FOUND,
        RpcError::QdrantError(_) => QDRANT_ERROR,
        RpcError::EmbeddingError(_) => EMBEDDING_ERROR,
    }
}

/// The text that names each kind of error, followed by its detail.
pub open spec fn message_of(e: RpcError) -> Seq<char> {
    match e {
        RpcError::ParseError(m) => "Parse error: "@ + m@,
        RpcError::InvalidRequest(m) => "Invalid request: "@ + m@,
        RpcError::MethodNotFound(m) => "Method not found: "@ + m@,
        RpcError::InvalidParams(m) => "Invalid params: "@ + m@,
        RpcError::InternalError(m) => "Internal error: "@ + m@,
        RpcError::InsufficientMatches { found, required } =>
            "Insufficient matches: found "@ + decimal(found as nat) + ", required "@
                + decimal(required as nat),
        RpcError::SymbolNotFound(m) => "Symbol not found: "@ + m@,
        RpcError::QdrantError(m) => "Qdrant error: "@ + m@,
        RpcError::EmbeddingError(m) => "Embedding error: "@ + m@,
    }
}

/// The advice carried by an insufficient-matches error.
pub open spec fn suggestion_text() -> Seq<char> {
    "Try increasing lookback_days or reducing min_similarity"@
}

/// Structured detail of an insufficient-matches error.
pub struct InsufficientData {
    pub matches_found: usize,
    pub min_required: usize,
    pub suggestion: String,
}

/// The error member of a JSON-RPC error response.
pub struct ErrorObject {
    pub code: i32,
    pub message: String,
    pub data: Option<InsufficientData>,
}

fn prefixed(prefix: &str, detail: &String) -> (r: String)
    ensures
        r@ == prefix@ + detail@,
{
    let mut s = String::from_str(prefix);
    s.append(detail.as_str());
    s
}

impl RpcError {
    /// The JSON-RPC error code for this error.
    pub fn code(&self) -> (r: i32)
        ensures
            r == code_of(*self),
    {
        match self {
            RpcError::ParseError(_) => PARSE_ERROR,
            RpcError::InvalidRequest(_) => INVALID_REQUEST,
            RpcError::MethodNotFound(_) => METHOD_NOT_FOUND,
            RpcError::InvalidParams(_) => INVALID_PARAMS,
            RpcError::InternalError(_) => INTERNAL_ERROR,
            RpcError::InsufficientMatches { .. } => INSUFFICIENT_MATCHES,
            RpcError::SymbolNotFound(_) => SYMBOL_NOT_FOUND,
            RpcError::QdrantError(_) => QDRANT_ERROR,
            RpcError::EmbeddingError(_) => EMBEDDING_ERROR,
        }
    }

    /// The human-readable message of this error.
    pub fn message(&self) -> (r: String)
        ensures
            r@ == message_of(*self),
    {
        match self {
            RpcError::ParseError(m) => prefixed("Parse error: ", m),
            RpcError::InvalidRequest(m) => prefixed("Invalid request: ", m),
            RpcError::MethodNotFound(m) => prefixed("Method not found: ", m),
            RpcError::InvalidParams(m) => prefixed("Invalid params: ", m),
            RpcError::InternalError(m) => prefixed("Internal error: ", m),
            RpcError::InsufficientMatches { found, required } => {
                let mut s = String::from_str("Insufficient matches: found ");
                push_decimal(&mut s, *found as u64);
                s.append(", required ");
                push_decimal(&mut s, *required as u64);
                s
            },
            RpcError::SymbolNotFound(m) => prefixed("Symbol not found: ", m),
            RpcError::QdrantError(m) => prefixed("Qdrant error: ", m),
            RpcError::EmbeddingError(m) => prefixed("Embedding error: ", m),
        }
    }

    /// Additional structured detail: present only for insufficient matches.
    pub fn data(&self) -> (r: Option<InsufficientData>)
        ensures
            match *self {
                RpcError::InsufficientMatches { found, required } => r is Some
                    && r->0.matches_found == found && r->0.min_required == required
                    && r->0.suggestion@ == suggestion_text(),
                _ => r is None,
            },
    {
        match self {
            RpcError::InsufficientMatches { found, required } => Some(InsufficientData {
                matches_found: *found,
                min_required: *required,
                suggestion: String::from_str(
                    "Try increasing lookback_days or reducing min_similarity",
                ),
            }),
            _ => None,
        }
    }

    /// The error object that a response carries for this error.
    pub fn to_error_object(&self) -> (r: ErrorObject)
        ensures
            r.code == code_of(*self),
            r.message@ == message_of(*self),
            match *self {
                RpcError::InsufficientMatches { found, required } => r.data is Some
                    && r.data->0.matches_found == found && r.data->0.min_required == required
                    && r.data->0.suggestion@ == suggestion_text(),
                _ => r.data is None,
            },
    {
        ErrorObject { code: self.code(), message: self.message(), data: self.data() }
    }
}

} // verus!
