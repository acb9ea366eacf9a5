//! Protocol types of `condition`.
use vstd::prelude::*;
use crate::text::str_eq;

verus! {

/// Defines the valid operators that can be applied to a key-value pair.
#[derive(Clone, Copy, Debug, PartialEq, Eq, Structural, Hash)]
pub enum Operator {
    /// The default value. This value is unused.
    Unspecified,
    /// Supported by numeric.
    Less,
    /// Supported by numeric.
    LessEqual,
    /// Supported by numeric & string.
    Equal,
    /// Supported by numeric.
    GreaterEqual,
    /// Supported by numeric.
    Greater,
    /// Supported by numeric & string.
    NotEqual,
    /// Supported by string only when `CustomMetadata` value type for the given
    /// key has a `string_list_value`.
    Includes,
    /// Supported by string only when `CustomMetadata` value type for the given
    /// key has a `string_list_value`.
    Excludes,
}

impl Operator {
    /// The field name of this value in the protocol definition.
    pub open spec fn name_spec(self) -> Seq<char> {
        match self {
            Operator::Unspecified => "OPERATOR_UNSPECIFIED"@,
            Operator::Less => "LESS"@,
            Operator::LessEqual => "LESS_EQUAL"@,
            Operator::Equal => "EQUAL"@,
            Operator::GreaterEqual => "GREATER_EQUAL"@,
            Operator::Greater => "GREATER"@,
            Operator::NotEqual => "NOT_EQUAL"@,
            Operator::Includes => "INCLUDES"@,
            Operator::Excludes => "EXCLUDES"@,
        }
    }

    /// The number of this value on the wire.
    pub open spec fn number(self) -> i32 {
        match self {
            Operator::Unspecified => 0,
            Operator::Less => 1,
            Operator::LessEqual => 2,
            Operator::Equal => 3,
            Operator::GreaterEqual => 4,
            Operator::Greater => 5,
            Operator::NotEqual => 6,
            Operator::Includes => 7,
            Operator::Excludes => 8,
        }
    }

    /// String value of the enum field names used in the ProtoBuf definition.
    pub fn as_str_name(&self) -> (r: &'static str)
        ensures
            r@ == self.name_spec(),
    {
        match self {
            Operator::Unspecified => "OPERATOR_UNSPECIFIED",
            Operator::Less => "LESS",
            Operator::LessEqual => "LESS_EQUAL",
            Operator::Equal => "EQUAL",
            Operator::GreaterEqual => "GREATER_EQUAL",
            Operator::Greater => "GREATER",
            Operator::NotEqual => "NOT_EQUAL",
            Operator::Includes => "INCLUDES",
            Operator::Excludes => "EXCLUDES",
        }
    }

    /// Creates an enum from field names used in the ProtoBuf definition.
    pub fn from_str_name(value: &str) -> (r: Option<Self>)
        ensures
            r matches Some(e) ==> e.name_spec() == value@,
            r is None ==> forall|e: Self| #[trigger] e.name_spec() != value@,
    {
        if str_eq(value, "OPERATOR_UNSPECIFIED") {
            Some(Operator::Unspecified)
        } else if str_eq(value, "LESS") {
            Some(Operator::Less)
        } else if str_eq(value, "LESS_EQUAL") {
            Some(Operator::LessEqual)
        } else if str_eq(value, "EQUAL") {
            Some(Operator::Equal)
        } else if str_eq(value, "GREATER_EQUAL") {
            Some(Operator::GreaterEqual)
        } else if str_eq(value, "GREATER") {
            Some(Operator::Greater)
        } else if str_eq(value, "NOT_EQUAL") {
            Some(Operator::NotEqual)
        } else if str_eq(value, "INCLUDES") {
            Some(Operator::Includes)
        } else if str_eq(value, "EXCLUDES") {
            Some(Operator::Excludes)
        } else {
            None
        }
    }

    /// The number of this value on the wire.
    pub fn value(self) -> (r: i32)
        ensures
            r == self.number(),
    {
        match self {
            Operator::Unspecified => 0,
            Operator::Less => 1,
            Operator::LessEqual => 2,
            Operator::Equal => 3,
            Operator::GreaterEqual => 4,
            Operator::Greater => 5,
            Operator::NotEqual => 6,
            Operator::Includes => 7,
            Operator::Excludes => 8,
        }
    }

    /// The value with the given wire number, if there is one.
    pub fn from_i32(v: i32) -> (r: Option<Self>)
        ensures
            r matches Some(e) ==> e.number() == v,
            r is None ==> forall|e: Self| #[trigger] e.number() != v,
    {
        match v {
            0 => Some(Operator::Unspecified),
            1 => Some(Operator::Less),
            2 => Some(Operator::LessEqual),
            3 => Some(Operator::Equal),
            4 => Some(Operator::GreaterEqual),
            5 => Some(Operator::Greater),
            6 => Some(Operator::NotEqual),
            7 => Some(Operator::Includes),
            8 => Some(Operator::Excludes),
            _ => None,
        }
    }
}

} // verus!
