//! Protocol types of `generate_content_response`.
use vstd::prelude::*;
use crate::text::str_eq;
use crate::proto::SafetyRating;
verus! {

/// A set of the feedback metadata the prompt specified in `GenerateContentRequest.content`.
#[derive(Clone, Debug, PartialEq, Eq)]
pub struct PromptFeedback {
    /// If set, the prompt was blocked and no candidates are returned.
    pub block_reason: i32,
    /// Ratings for safety of the prompt.
    pub safety_ratings: Vec<SafetyRating>,
}

/// Metadata on the generation request's token usage.
#[derive(Clone, Copy, Debug, PartialEq, Eq)]
pub struct UsageMetadata {
    /// Number of tokens in the prompt.
    pub prompt_token_count: i32,
    /// Number of tokens in the cached part of the prompt.
    pub cached_content_token_count: i32,
    /// Total number of tokens across all the generated response candidates.
    pub candidates_token_count: i32,
    /// Total token count for the generation request (prompt + response candidates).
    pub total_token_count: i32,
}

/// Specifies the reason why the prompt was blocked.
#[derive(Clone, Copy, Debug, PartialEq, Eq, Structural, Hash)]
pub enum BlockReason {
    /// Default value. This value is unused.
    Unspecified,
    /// Prompt was blocked due to safety reasons. Inspect `safety_ratings`
    /// to understand which safety category blocked it.
    Safety,
    /// Prompt was blocked due to unknown reasons.
    Other,
    /// Prompt was blocked due to the terms which are included from the
    /// terminology blocklist.
    Blocklist,
    /// Prompt was blocked due to prohibited content.
    ProhibitedContent,
    /// Candidates blocked due to unsafe image generation content.
    ImageSafety,
}

impl BlockReason {
    /// The field name of this value in the protocol definition.
    pub open spec fn name_spec(self) -> Seq<char> {
        match self {
            BlockReason::Unspecified => "BLOCK_REASON_UNSPECIFIED"@,
            BlockReason::Safety => "SAFETY"@,
            BlockReason::Other => "OTHER"@,
            BlockReason::Blocklist => "BLOCKLIST"@,
            BlockReason::ProhibitedContent => "PROHIBITED_CONTENT"@,
            BlockReason::ImageSafety => "IMAGE_SAFETY"@,
        }
    }

    /// The number of this value on the wire.
    pub open spec fn number(self) -> i32 {
        match self {
            BlockReason::Unspecified => 0,
            BlockReason::Safety => 1,
            BlockReason::Other => 2,
            BlockReason::Blocklist => 3,
            BlockReason::ProhibitedContent => 4,
            BlockReason::ImageSafety => 5,
        }
    }

    /// String value of the enum field names used in the ProtoBuf definition.
    pub fn as_str_name(&self) -> (r: &'static str)
        ensures
            r@ == self.name_spec(),
    {
        match self {
            BlockReason::Unspecified => "BLOCK_REASON_UNSPECIFIED",
            BlockReason::Safety => "SAFETY",
            BlockReason::Other => "OTHER",
            BlockReason::Blocklist => "BLOCKLIST",
            BlockReason::ProhibitedContent => "PROHIBITED_CONTENT",
            BlockReason::ImageSafety => "IMAGE_SAFETY",
        }
    }

    /// Creates an enum from field names used in the ProtoBuf definition.
    pub fn from_str_name(value: &str) -> (r: Option<Self>)
        ensures
            r matches Some(e) ==> e.name_spec() == value@,
            r is None ==> forall|e: Self| #[trigger] e.name_spec() != value@,
    {
        if str_eq(value, "BLOCK_REASON_UNSPECIFIED") {
            Some(BlockReason::Unspecified)
        } else if str_eq(value, "SAFETY") {
            Some(BlockReason::Safety)
        } else if str_eq(value, "OTHER") {
            Some(BlockReason::Other)
        } else if str_eq(value, "BLOCKLIST") {
            Some(BlockReason::Blocklist)
        } else if str_eq(value, "PROHIBITED_CONTENT") {
            Some(BlockReason::ProhibitedContent)
        } else if str_eq(value, "IMAGE_SAFETY") {
            Some(BlockReason::ImageSafety)
        } else {
            None
        }
    }

    /// The number of this value on the wire.
    pub fn value(self) -> (r: i32)
        ensures
            r == self.number(),
    {
        match self {
            BlockReason::Unspecified => 0,
            BlockReason::Safety => 1,
            BlockReason::Other => 2,
            BlockReason::Blocklist => 3,
            BlockReason::ProhibitedContent => 4,
            BlockReason::ImageSafety => 5,
        }
    }

    /// The value with the given wire number, if there is one.
    pub fn from_i32(v: i32) -> (r: Option<Self>)
        ensures
            r matches Some(e) ==> e.number() == v,
            r is None ==> forall|e: Self| #[trigger] e.number() != v,
    {
        match v {
            0 => Some(BlockReason::Unspecified),
            1 => Some(BlockReason::Safety),
            2 => Some(BlockReason::Other),
            3 => Some(BlockReason::Blocklist),
            4 => Some(BlockReason::ProhibitedContent),
            5 => Some(BlockReason::ImageSafety),
            _ => None,
        }
    }
}

} // verus!
