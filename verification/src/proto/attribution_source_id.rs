//! Protocol types of `attribution_source_id`.
use vstd::prelude::*;

verus! {

/// Identifier for a part within a `GroundingPassage`.
#[derive(Clone, Debug, PartialEq, Eq)]
pub struct GroundingPassageId {
    /// ID of the passage matching the `GenerateAnswerRequest`'s `GroundingPassage.id`.
    pub passage_id: String,
    /// Index of the part within the `GenerateAnswerRequest`'s `GroundingPassage.content`.
    pub part_index: i32,
}

/// Identifier for a `Chunk` retrieved via Semantic Retriever.
#[derive(Clone, Debug, PartialEq, Eq)]
pub struct SemanticRetrieverChunk {
    /// Name of the source matching the request's `SemanticRetrieverConfig.source`.
    pub source: String,
    /// Name of the `Chunk` containing the attributed text.
    pub chunk: String,
}

/// Where an attribution comes from.
#[derive(Clone, Debug, PartialEq, Eq)]
pub enum Source {
    /// Identifier for an inline passage.
    GroundingPassage(GroundingPassageId),
    /// Identifier for a `Chunk` fetched via Semantic Retriever.
    SemanticRetrieverChunk(SemanticRetrieverChunk),
}

} // verus!
