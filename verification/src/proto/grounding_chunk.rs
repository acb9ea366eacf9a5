//! Protocol types of `grounding_chunk`.
use vstd::prelude::*;

verus! {

/// Chunk from the web.
#[derive(Clone, Debug, PartialEq, Eq)]
pub struct Web {
    /// URI reference of the chunk.
    pub uri: Option<String>,
    /// Title of the chunk.
    pub title: Option<String>,
}

/// Chunk type.
#[derive(Clone, Debug, PartialEq, Eq)]
pub enum ChunkType {
    /// Grounding chunk from the web.
    Web(Web),
}

} // verus!
