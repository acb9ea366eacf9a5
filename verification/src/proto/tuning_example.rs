//! Protocol types of `tuning_example`.
use vstd::prelude::*;

verus! {

/// The input to the model for this example.
#[derive(Clone, Debug, PartialEq, Eq)]
pub enum ModelInput {
    /// Optional. Text model input.
    TextInput(String),
}

} // verus!
