//! Protocol types of `code_execution_result`.
use vstd::prelude::*;
use crate::text::str_eq;

verus! {

/// Enumeration of possible outcomes of the code execution.
#[derive(Clone, Copy, Debug, PartialEq, Eq, Structural, Hash)]
pub enum Outcome {
    /// Unspecified status. This value should not be used.
    Unspecified,
    /// Code execution completed successfully.
    OutcomeOk,
    /// Code execution finished but with a failure. `stderr` should contain the
    /// reason.
    Failed,
    /// Code execution ran for too long, and was cancelled. There may or may not
    /// be a partial output present.
    DeadlineExceeded,
}

impl Outcome {
    /// The field name of this value in the protocol definition.
    pub open spec fn name_spec(self) -> Seq<char> {
        match self {
            Outcome::Unspecified => "OUTCOME_UNSPECIFIED"@,
            Outcome::OutcomeOk => "OUTCOME_OK"@,
            Outcome::Failed => "OUTCOME_FAILED"@,
            Outcome::DeadlineExceeded => "OUTCOME_DEADLINE_EXCEEDED"@,
        }
    }

    /// The number of this value on the wire.
    pub open spec fn number(self) -> i32 {
        match self {
            Outcome::Unspecified => 0,
            Outcome::OutcomeOk => 1,
            Outcome::Failed => 2,
            Outcome::DeadlineExceeded => 3,
        }
    }

    /// String value of the enum field names used in the ProtoBuf definition.
    pub fn as_str_name(&self) -> (r: &'static str)
        ensures
            r@ == self.name_spec(),
    {
        match self {
            Outcome::Unspecified => "OUTCOME_UNSPECIFIED",
            Outcome::OutcomeOk => "OUTCOME_OK",
            Outcome::Failed => "OUTCOME_FAILED",
            Outcome::DeadlineExceeded => "OUTCOME_DEADLINE_EXCEEDED",
        }
    }

    /// Creates an enum from field names used in the ProtoBuf definition.
    pub fn from_str_name(value: &str) -> (r: Option<Self>)
        ensures
            r matches Some(e) ==> e.name_spec() == value@,
            r is None ==> forall|e: Self| #[trigger] e.name_spec() != value@,
    {
        if str_eq(value, "OUTCOME_UNSPECIFIED") {
            Some(Outcome::Unspecified)
        } else if str_eq(value, "OUTCOME_OK") {
            Some(Outcome::OutcomeOk)
        } else if str_eq(value, "OUTCOME_FAILED") {
            Some(Outcome::Failed)
        } else if str_eq(value, "OUTCOME_DEADLINE_EXCEEDED") {
            Some(Outcome::DeadlineExceeded)
        } else {
            None
        }
    }

    /// The number of this value on the wire.
    pub fn value(self) -> (r: i32)
        ensures
            r == self.number(),
    {
        match self {
            Outcome::Unspecified => 0,
            Outcome::OutcomeOk => 1,
            Outcome::Failed => 2,
            Outcome::DeadlineExceeded => 3,
        }
    }

    /// The value with the given wire number, if there is one.
    pub fn from_i32(v: i32) -> (r: Option<Self>)
        ensures
            r matches Some(e) ==> e.number() == v,
            r is None ==> forall|e: Self| #[trigger] e.number() != v,
    {
        match v {
            0 => Some(Outcome::Unspecified),
            1 => Some(Outcome::OutcomeOk),
            2 => Some(Outcome::Failed),
            3 => Some(Outcome::DeadlineExceeded),
            _ => None,
        }
    }
}

} // verus!
