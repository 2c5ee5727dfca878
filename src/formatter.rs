use vstd::prelude::*;

verus! {

/// Renders a market snapshot as the text that is embedded. The rendering is
/// the one contract shared by ingestion and retrieval: equal snapshots must
/// give byte-identical text.
pub trait SnapshotFormatter {
    /// The descriptive form, one sentence per fact, used for embeddings.
    fn to_embedding_text(&self) -> String;

    /// The numeric form, one line of named values, for diagnostics.
    fn to_embedding_text_simple(&self) -> String;
}

} // verus!
