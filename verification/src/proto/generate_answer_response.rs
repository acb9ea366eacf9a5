//! Protocol types of `generate_answer_response`.
use vstd::prelude::*;
use crate::text::str_eq;
use crate::proto::SafetyRating;
verus! {

/// Feedback related to the input data used to answer the question.
#[derive(Clone, Debug, PartialEq, Eq)]
pub struct InputFeedback {
    /// If set, the input was blocked and no candidates are returned.
    pub block_reason: Option<i32>,
    /// Ratings for safety of the input.
    pub safety_ratings: Vec<SafetyRating>,
}

/// Specifies what was the reason why input was blocked.
#[derive(Clone, Copy, Debug, PartialEq, Eq, Structural, Hash)]
pub enum BlockReason {
    /// Default value. This value is unused.
    Unspecified,
    /// Input was blocked due to safety reasons. Inspect
    /// `safety_ratings` to understand which safety category blocked it.
    Safety,
    /// Input was blocked due to other reasons.
    Other,
}

impl BlockReason {
    /// The field name of this value in the protocol definition.
    pub open spec fn name_spec(self) -> Seq<char> {
        match self {
            BlockReason::Unspecified => "BLOCK_REASON_UNSPECIFIED"@,
            BlockReason::Safety => "SAFETY"@,
            BlockReason::Other => "OTHER"@,
        }
    }

    /// The number of this value on the wire.
    pub open spec fn number(self) -> i32 {
        match self {
            BlockReason::Unspecified => 0,
            BlockReason::Safety => 1,
            BlockReason::Other => 2,
        }
    }

    /// String value of the enum field names used in the ProtoBuf definition.
    pub fn as_str_name(&self) -> (r: &'static str)
        ensures
            r@ == self.name_spec(),
    {
        match self {
            BlockReason::Unspecified => "BLOCK_REASON_UNSPECIFIED",
            BlockReason::Safety => "SAFETY",
            BlockReason::Other => "OTHER",
        }
    }

    /// Creates an enum from field names used in the ProtoBuf definition.
    pub fn from_str_name(value: &str) -> (r: Option<Self>)
        ensures
            r matches Some(e) ==> e.name_spec() == value@,
            r is None ==> forall|e: Self| #[trigger] e.name_spec() != value@,
    {
        if str_eq(value, "BLOCK_REASON_UNSPECIFIED") {
            Some(BlockReason::Unspecified)
        } else if str_eq(value, "SAFETY") {
            Some(BlockReason::Safety)
        } else if str_eq(value, "OTHER") {
            Some(BlockReason::Other)
        } else {
            None
        }
    }

    /// The number of this value on the wire.
    pub fn value(self) -> (r: i32)
        ensures
            r == self.number(),
    {
        match self {
            BlockReason::Unspecified => 0,
            BlockReason::Safety => 1,
            BlockReason::Other => 2,
        }
    }

    /// The value with the given wire number, if there is one.
    pub fn from_i32(v: i32) -> (r: Option<Self>)
        ensures
            r matches Some(e) ==> e.number() == v,
            r is None ==> forall|e: Self| #[trigger] e.number() != v,
    {
        match v {
            0 => Some(BlockReason::Unspecified),
            1 => Some(BlockReason::Safety),
            2 => Some(BlockReason::Other),
            _ => None,
        }
    }
}

} // verus!
