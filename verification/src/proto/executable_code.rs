//! Protocol types of `executable_code`.
use vstd::prelude::*;
use crate::text::str_eq;

verus! {

/// Supported programming languages for the generated code.
#[derive(Clone, Copy, Debug, PartialEq, Eq, Structural, Hash)]
pub enum Language {
    /// Unspecified language. This value should not be used.
    Unspecified,
    /// Python >= 3.10, with numpy and simpy available.
    Python,
}

impl Language {
    /// The field name of this value in the protocol definition.
    pub open spec fn name_spec(self) -> Seq<char> {
        match self {
            Language::Unspecified => "LANGUAGE_UNSPECIFIED"@,
            Language::Python => "PYTHON"@,
        }
    }

    /// The number of this value on the wire.
    pub open spec fn number(self) -> i32 {
        match self {
            Language::Unspecified => 0,
            Language::Python => 1,
        }
    }

    /// String value of the enum field names used in the ProtoBuf definition.
    pub fn as_str_name(&self) -> (r: &'static str)
        ensures
            r@ == self.name_spec(),
    {
        match self {
            Language::Unspecified => "LANGUAGE_UNSPECIFIED",
            Language::Python => "PYTHON",
        }
    }

    /// Creates an enum from field names used in the ProtoBuf definition.
    pub fn from_str_name(value: &str) -> (r: Option<Self>)
        ensures
            r matches Some(e) ==> e.name_spec() == value@,
            r is None ==> forall|e: Self| #[trigger] e.name_spec() != value@,
    {
        if str_eq(value, "LANGUAGE_UNSPECIFIED") {
            Some(Language::Unspecified)
        } else if str_eq(value, "PYTHON") {
            Some(Language::Python)
        } else {
            None
        }
    }

    /// The number of this value on the wire.
    pub fn value(self) -> (r: i32)
        ensures
            r == self.number(),
    {
        match self {
            Language::Unspecified => 0,
            Language::Python => 1,
        }
    }

    /// The value with the given wire number, if there is one.
    pub fn from_i32(v: i32) -> (r: Option<Self>)
        ensures
            r matches Some(e) ==> e.number() == v,
            r is None ==> forall|e: Self| #[trigger] e.number() != v,
    {
        match v {
            0 => Some(Language::Unspecified),
            1 => Some(Language::Python),
            _ => None,
        }
    }
}

} // verus!
