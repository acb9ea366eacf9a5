//! Protocol types of `chunk_data`.
use vstd::prelude::*;

verus! {

/// Extracted data that represents the `Chunk` content.
#[derive(Clone, Debug, PartialEq, Eq)]
pub enum Data {
    /// The `Chunk` content as a string.
    StringValue(String),
}

} // verus!
