//! Protocol types of `dataset`.
use vstd::prelude::*;
use crate::proto::TuningExamples;
verus! {

/// Inline data or a reference to the data.
#[derive(Clone, Debug, PartialEq, Eq)]
pub enum Dataset {
    /// Inline examples with simple input/output text.
    Examples(TuningExamples),
}

} // verus!
