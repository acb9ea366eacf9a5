//! Protocol types of `function_calling_config`.
use vstd::prelude::*;
use crate::text::str_eq;

verus! {

/// Defines the execution behavior for function calling by defining the
/// execution mode.
#[derive(Clone, Copy, Debug, PartialEq, Eq, Structural, Hash)]
pub enum Mode {
    /// Unspecified function calling mode. This value should not be used.
    Unspecified,
    /// Default model behavior, model decides to predict either a function call
    /// or a natural language response.
    Auto,
    /// Model is constrained to always predicting a function call only.
    /// If "allowed_function_names" are set, the predicted function call will be
    /// limited to any one of "allowed_function_names", else the predicted
    /// function call will be any one of the provided "function_declarations".
    Any,
    /// Model will not predict any function call. Model behavior is same as when
    /// not passing any function declarations.
    ModeNone,
}

impl Mode {
    /// The field name of this value in the protocol definition.
    pub open spec fn name_spec(self) -> Seq<char> {
        match self {
            Mode::Unspecified => "MODE_UNSPECIFIED"@,
            Mode::Auto => "AUTO"@,
            Mode::Any => "ANY"@,
            Mode::ModeNone => "NONE"@,
        }
    }

    /// The number of this value on the wire.
    pub open spec fn number(self) -> i32 {
        match self {
            Mode::Unspecified => 0,
            Mode::Auto => 1,
            Mode::Any => 2,
            Mode::ModeNone => 3,
        }
    }

    /// String value of the enum field names used in the ProtoBuf definition.
    pub fn as_str_name(&self) -> (r: &'static str)
        ensures
            r@ == self.name_spec(),
    {
        match self {
            Mode::Unspecified => "MODE_UNSPECIFIED",
            Mode::Auto => "AUTO",
            Mode::Any => "ANY",
            Mode::ModeNone => "NONE",
        }
    }

    /// Creates an enum from field names used in the ProtoBuf definition.
    pub fn from_str_name(value: &str) -> (r: Option<Self>)
        ensures
            r matches Some(e) ==> e.name_spec() == value@,
            r is None ==> forall|e: Self| #[trigger] e.name_spec() != value@,
    {
        if str_eq(value, "MODE_UNSPECIFIED") {
            Some(Mode::Unspecified)
        } else if str_eq(value, "AUTO") {
            Some(Mode::Auto)
        } else if str_eq(value, "ANY") {
            Some(Mode::Any)
        } else if str_eq(value, "NONE") {
            Some(Mode::ModeNone)
        } else {
            None
        }
    }

    /// The number of this value on the wire.
    pub fn value(self) -> (r: i32)
        ensures
            r == self.number(),
    {
        match self {
            Mode::Unspecified => 0,
            Mode::Auto => 1,
            Mode::Any => 2,
            Mode::ModeNone => 3,
        }
    }

    /// The value with the given wire number, if there is one.
    pub fn from_i32(v: i32) -> (r: Option<Self>)
        ensures
            r matches Some(e) ==> e.number() == v,
            r is None ==> forall|e: Self| #[trigger] e.number() != v,
    {
        match v {
            0 => Some(Mode::Unspecified),
            1 => Some(Mode::Auto),
            2 => Some(Mode::Any),
            3 => Some(Mode::ModeNone),
            _ => None,
        }
    }
}

} // verus!
