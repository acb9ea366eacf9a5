//! Protocol types of `safety_rating`.
use vstd::prelude::*;
use crate::text::str_eq;

verus! {

/// The probability that a piece of content is harmful.
///
/// The classification system gives the probability of the content being
/// unsafe. This does not indicate the severity of harm for a piece of content.
#[derive(Clone, Copy, Debug, PartialEq, Eq, Structural, Hash)]
pub enum HarmProbability {
    /// Probability is unspecified.
    Unspecified,
    /// Content has a negligible chance of being unsafe.
    Negligible,
    /// Content has a low chance of being unsafe.
    Low,
    /// Content has a medium chance of being unsafe.
    Medium,
    /// Content has a high chance of being unsafe.
    High,
}

impl HarmProbability {
    /// The field name of this value in the protocol definition.
    pub open spec fn name_spec(self) -> Seq<char> {
        match self {
            HarmProbability::Unspecified => "HARM_PROBABILITY_UNSPECIFIED"@,
            HarmProbability::Negligible => "NEGLIGIBLE"@,
            HarmProbability::Low => "LOW"@,
            HarmProbability::Medium => "MEDIUM"@,
            HarmProbability::High => "HIGH"@,
        }
    }

    /// The number of this value on the wire.
    pub open spec fn number(self) -> i32 {
        match self {
            HarmProbability::Unspecified => 0,
            HarmProbability::Negligible => 1,
            HarmProbability::Low => 2,
            HarmProbability::Medium => 3,
            HarmProbability::High => 4,
        }
    }

    /// String value of the enum field names used in the ProtoBuf definition.
    pub fn as_str_name(&self) -> (r: &'static str)
        ensures
            r@ == self.name_spec(),
    {
        match self {
            HarmProbability::Unspecified => "HARM_PROBABILITY_UNSPECIFIED",
            HarmProbability::Negligible => "NEGLIGIBLE",
            HarmProbability::Low => "LOW",
            HarmProbability::Medium => "MEDIUM",
            HarmProbability::High => "HIGH",
        }
    }

    /// Creates an enum from field names used in the ProtoBuf definition.
    pub fn from_str_name(value: &str) -> (r: Option<Self>)
        ensures
            r matches Some(e) ==> e.name_spec() == value@,
            r is None ==> forall|e: Self| #[trigger] e.name_spec() != value@,
    {
        if str_eq(value, "HARM_PROBABILITY_UNSPECIFIED") {
            Some(HarmProbability::Unspecified)
        } else if str_eq(value, "NEGLIGIBLE") {
            Some(HarmProbability::Negligible)
        } else if str_eq(value, "LOW") {
            Some(HarmProbability::Low)
        } else if str_eq(value, "MEDIUM") {
            Some(HarmProbability::Medium)
        } else if str_eq(value, "HIGH") {
            Some(HarmProbability::High)
        } else {
            None
        }
    }

    /// The number of this value on the wire.
    pub fn value(self) -> (r: i32)
        ensures
            r == self.number(),
    {
        match self {
            HarmProbability::Unspecified => 0,
            HarmProbability::Negligible => 1,
            HarmProbability::Low => 2,
            HarmProbability::Medium => 3,
            HarmProbability::High => 4,
        }
    }

    /// The value with the given wire number, if there is one.
    pub fn from_i32(v: i32) -> (r: Option<Self>)
        ensures
            r matches Some(e) ==> e.number() == v,
            r is None ==> forall|e: Self| #[trigger] e.number() != v,
    {
        match v {
            0 => Some(HarmProbability::Unspecified),
            1 => Some(HarmProbability::Negligible),
            2 => Some(HarmProbability::Low),
            3 => Some(HarmProbability::Medium),
            4 => Some(HarmProbability::High),
            _ => None,
        }
    }
}

} // verus!
