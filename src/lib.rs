use vstd::prelude::*;

pub mod cli;
pub mod decimal;
pub mod embedding_text;
pub mod error;
pub mod formatter;
pub mod handler;
pub mod ingest;
pub mod kv;
pub mod payload;
pub mod protocol;
pub mod retrieval;
pub mod signal;
pub mod stats;
pub mod strings;
pub mod timer;

verus! {

} // verus!
