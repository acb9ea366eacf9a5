//! Protocol types of `content_filter`.
use vstd::prelude::*;
use crate::text::str_eq;

verus! {

/// A list of reasons why content may have been blocked.
#[derive(Clone, Copy, Debug, PartialEq, Eq, Structural, Hash)]
pub enum BlockedReason {
    /// A blocked reason was not specified.
    Unspecified,
    /// Content was blocked by safety settings.
    Safety,
    /// Content was blocked, but the reason is uncategorized.
    Other,
}

impl BlockedReason {
    /// The field name of this value in the protocol definition.
    pub open spec fn name_spec(self) -> Seq<char> {
        match self {
            BlockedReason::Unspecified => "BLOCKED_REASON_UNSPECIFIED"@,
            BlockedReason::Safety => "SAFETY"@,
            BlockedReason::Other => "OTHER"@,
        }
    }

    /// The number of this value on the wire.
    pub open spec fn number(self) -> i32 {
        match self {
            BlockedReason::Unspecified => 0,
            BlockedReason::Safety => 1,
            BlockedReason::Other => 2,
        }
    }

    /// String value of the enum field names used in the ProtoBuf definition.
    pub fn as_str_name(&self) -> (r: &'static str)
        ensures
            r@ == self.name_spec(),
    {
        match self {
            BlockedReason::Unspecified => "BLOCKED_REASON_UNSPECIFIED",
            BlockedReason::Safety => "SAFETY",
            BlockedReason::Other => "OTHER",
        }
    }

    /// Creates an enum from field names used in the ProtoBuf definition.
    pub fn from_str_name(value: &str) -> (r: Option<Self>)
        ensures
            r matches Some(e) ==> e.name_spec() == value@,
            r is None ==> forall|e: Self| #[trigger] e.name_spec() != value@,
    {
        if str_eq(value, "BLOCKED_REASON_UNSPECIFIED") {
            Some(BlockedReason::Unspecified)
        } else if str_eq(value, "SAFETY") {
            Some(BlockedReason::Safety)
        } else if str_eq(value, "OTHER") {
            Some(BlockedReason::Other)
        } else {
            None
        }
    }

    /// The number of this value on the wire.
    pub fn value(self) -> (r: i32)
        ensures
            r == self.number(),
    {
        match self {
            BlockedReason::Unspecified => 0,
            BlockedReason::Safety => 1,
            BlockedReason::Other => 2,
        }
    }

    /// The value with the given wire number, if there is one.
    pub fn from_i32(v: i32) -> (r: Option<Self>)
        ensures
            r matches Some(e) ==> e.number() == v,
            r is None ==> forall|e: Self| #[trigger] e.number() != v,
    {
        match v {
            0 => Some(BlockedReason::Unspecified),
            1 => Some(BlockedReason::Safety),
            2 => Some(BlockedReason::Other),
            _ => None,
        }
    }
}

} // verus!
