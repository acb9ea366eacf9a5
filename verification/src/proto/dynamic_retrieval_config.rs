//! Protocol types of `dynamic_retrieval_config`.
use vstd::prelude::*;
use crate::text::str_eq;

verus! {

/// The mode of the predictor to be used in dynamic retrieval.
#[derive(Clone, Copy, Debug, PartialEq, Eq, Structural, Hash)]
pub enum Mode {
    /// Always trigger retrieval.
    Unspecified,
    /// Run retrieval only when system decides it is necessary.
    Dynamic,
}

impl Mode {
    /// The field name of this value in the protocol definition.
    pub open spec fn name_spec(self) -> Seq<char> {
        match self {
            Mode::Unspecified => "MODE_UNSPECIFIED"@,
            Mode::Dynamic => "MODE_DYNAMIC"@,
        }
    }

    /// The number of this value on the wire.
    pub open spec fn number(self) -> i32 {
        match self {
            Mode::Unspecified => 0,
            Mode::Dynamic => 1,
        }
    }

    /// String value of the enum field names used in the ProtoBuf definition.
    pub fn as_str_name(&self) -> (r: &'static str)
        ensures
            r@ == self.name_spec(),
    {
        match self {
            Mode::Unspecified => "MODE_UNSPECIFIED",
            Mode::Dynamic => "MODE_DYNAMIC",
        }
    }

    /// Creates an enum from field names used in the ProtoBuf definition.
    pub fn from_str_name(value: &str) -> (r: Option<Self>)
        ensures
            r matches Some(e) ==> e.name_spec() == value@,
            r is None ==> forall|e: Self| #[trigger] e.name_spec() != value@,
    {
        if str_eq(value, "MODE_UNSPECIFIED") {
            Some(Mode::Unspecified)
        } else if str_eq(value, "MODE_DYNAMIC") {
            Some(Mode::Dynamic)
        } else {
            None
        }
    }

    /// The number of this value on the wire.
    pub fn value(self) -> (r: i32)
        ensures
            r == self.number(),
    {
        match self {
            Mode::Unspecified => 0,
            Mode::Dynamic => 1,
        }
    }

    /// The value with the given wire number, if there is one.
    pub fn from_i32(v: i32) -> (r: Option<Self>)
        ensures
            r matches Some(e) ==> e.number() == v,
            r is None ==> forall|e: Self| #[trigger] e.number() != v,
    {
        match v {
            0 => Some(Mode::Unspecified),
            1 => Some(Mode::Dynamic),
            _ => None,
        }
    }
}

} // verus!
