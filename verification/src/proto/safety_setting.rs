//! Protocol types of `safety_setting`.
use vstd::prelude::*;
use crate::text::str_eq;

verus! {

/// Block at and beyond a specified harm probability.
#[derive(Clone, Copy, Debug, PartialEq, Eq, Structural, Hash)]
pub enum HarmBlockThreshold {
    /// Threshold is unspecified.
    Unspecified,
    /// Content with NEGLIGIBLE will be allowed.
    BlockLowAndAbove,
    /// Content with NEGLIGIBLE and LOW will be allowed.
    BlockMediumAndAbove,
    /// Content with NEGLIGIBLE, LOW, and MEDIUM will be allowed.
    BlockOnlyHigh,
    /// All content will be allowed.
    BlockNone,
    /// Turn off the safety filter.
    Off,
}

impl HarmBlockThreshold {
    /// The field name of this value in the protocol definition.
    pub open spec fn name_spec(self) -> Seq<char> {
        match self {
            HarmBlockThreshold::Unspecified => "HARM_BLOCK_THRESHOLD_UNSPECIFIED"@,
            HarmBlockThreshold::BlockLowAndAbove => "BLOCK_LOW_AND_ABOVE"@,
            HarmBlockThreshold::BlockMediumAndAbove => "BLOCK_MEDIUM_AND_ABOVE"@,
            HarmBlockThreshold::BlockOnlyHigh => "BLOCK_ONLY_HIGH"@,
            HarmBlockThreshold::BlockNone => "BLOCK_NONE"@,
            HarmBlockThreshold::Off => "OFF"@,
        }
    }

    /// The number of this value on the wire.
    pub open spec fn number(self) -> i32 {
        match self {
            HarmBlockThreshold::Unspecified => 0,
            HarmBlockThreshold::BlockLowAndAbove => 1,
            HarmBlockThreshold::BlockMediumAndAbove => 2,
            HarmBlockThreshold::BlockOnlyHigh => 3,
            HarmBlockThreshold::BlockNone => 4,
            HarmBlockThreshold::Off => 5,
        }
    }

    /// String value of the enum field names used in the ProtoBuf definition.
    pub fn as_str_name(&self) -> (r: &'static str)
        ensures
            r@ == self.name_spec(),
    {
        match self {
            HarmBlockThreshold::Unspecified => "HARM_BLOCK_THRESHOLD_UNSPECIFIED",
            HarmBlockThreshold::BlockLowAndAbove => "BLOCK_LOW_AND_ABOVE",
            HarmBlockThreshold::BlockMediumAndAbove => "BLOCK_MEDIUM_AND_ABOVE",
            HarmBlockThreshold::BlockOnlyHigh => "BLOCK_ONLY_HIGH",
            HarmBlockThreshold::BlockNone => "BLOCK_NONE",
            HarmBlockThreshold::Off => "OFF",
        }
    }

    /// Creates an enum from field names used in the ProtoBuf definition.
    pub fn from_str_name(value: &str) -> (r: Option<Self>)
        ensures
            r matches Some(e) ==> e.name_spec() == value@,
            r is None ==> forall|e: Self| #[trigger] e.name_spec() != value@,
    {
        if str_eq(value, "HARM_BLOCK_THRESHOLD_UNSPECIFIED") {
            Some(HarmBlockThreshold::Unspecified)
        } else if str_eq(value, "BLOCK_LOW_AND_ABOVE") {
            Some(HarmBlockThreshold::BlockLowAndAbove)
        } else if str_eq(value, "BLOCK_MEDIUM_AND_ABOVE") {
            Some(HarmBlockThreshold::BlockMediumAndAbove)
        } else if str_eq(value, "BLOCK_ONLY_HIGH") {
            Some(HarmBlockThreshold::BlockOnlyHigh)
        } else if str_eq(value, "BLOCK_NONE") {
            Some(HarmBlockThreshold::BlockNone)
        } else if str_eq(value, "OFF") {
            Some(HarmBlockThreshold::Off)
        } else {
            None
        }
    }

    /// The number of this value on the wire.
    pub fn value(self) -> (r: i32)
        ensures
            r == self.number(),
    {
        match self {
            HarmBlockThreshold::Unspecified => 0,
            HarmBlockThreshold::BlockLowAndAbove => 1,
            HarmBlockThreshold::BlockMediumAndAbove => 2,
            HarmBlockThreshold::BlockOnlyHigh => 3,
            HarmBlockThreshold::BlockNone => 4,
            HarmBlockThreshold::Off => 5,
        }
    }

    /// The value with the given wire number, if there is one.
    pub fn from_i32(v: i32) -> (r: Option<Self>)
        ensures
            r matches Some(e) ==> e.number() == v,
            r is None ==> forall|e: Self| #[trigger] e.number() != v,
    {
        match v {
            0 => Some(HarmBlockThreshold::Unspecified),
            1 => Some(HarmBlockThreshold::BlockLowAndAbove),
            2 => Some(HarmBlockThreshold::BlockMediumAndAbove),
            3 => Some(HarmBlockThreshold::BlockOnlyHigh),
            4 => Some(HarmBlockThreshold::BlockNone),
            5 => Some(HarmBlockThreshold::Off),
            _ => None,
        }
    }
}

} // verus!
