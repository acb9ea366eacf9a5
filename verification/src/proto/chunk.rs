//! Protocol types of `chunk`.
use vstd::prelude::*;
use crate::text::str_eq;

verus! {

/// States for the lifecycle of a `Chunk`.
#[derive(Clone, Copy, Debug, PartialEq, Eq, Structural, Hash)]
pub enum State {
    /// The default value. This value is used if the state is omitted.
    Unspecified,
    /// `Chunk` is being processed (embedding and vector storage).
    PendingProcessing,
    /// `Chunk` is processed and available for querying.
    Active,
    /// `Chunk` failed processing.
    Failed,
}

impl State {
    /// The field name of this value in the protocol definition.
    pub open spec fn name_spec(self) -> Seq<char> {
        match self {
            State::Unspecified => "STATE_UNSPECIFIED"@,
            State::PendingProcessing => "STATE_PENDING_PROCESSING"@,
            State::Active => "STATE_ACTIVE"@,
            State::Failed => "STATE_FAILED"@,
        }
    }

    /// The number of this value on the wire.
    pub open spec fn number(self) -> i32 {
        match self {
            State::Unspecified => 0,
            State::PendingProcessing => 1,
            State::Active => 2,
            State::Failed => 10,
        }
    }

    /// String value of the enum field names used in the ProtoBuf definition.
    pub fn as_str_name(&self) -> (r: &'static str)
        ensures
            r@ == self.name_spec(),
    {
        match self {
            State::Unspecified => "STATE_UNSPECIFIED",
            State::PendingProcessing => "STATE_PENDING_PROCESSING",
            State::Active => "STATE_ACTIVE",
            State::Failed => "STATE_FAILED",
        }
    }

    /// Creates an enum from field names used in the ProtoBuf definition.
    pub fn from_str_name(value: &str) -> (r: Option<Self>)
        ensures
            r matches Some(e) ==> e.name_spec() == value@,
            r is None ==> forall|e: Self| #[trigger] e.name_spec() != value@,
    {
        if str_eq(value, "STATE_UNSPECIFIED") {
            Some(State::Unspecified)
        } else if str_eq(value, "STATE_PENDING_PROCESSING") {
            Some(State::PendingProcessing)
        } else if str_eq(value, "STATE_ACTIVE") {
            Some(State::Active)
        } else if str_eq(value, "STATE_FAILED") {
            Some(State::Failed)
        } else {
            None
        }
    }

    /// The number of this value on the wire.
    pub fn value(self) -> (r: i32)
        ensures
            r == self.number(),
    {
        match self {
            State::Unspecified => 0,
            State::PendingProcessing => 1,
            State::Active => 2,
            State::Failed => 10,
        }
    }

    /// The value with the given wire number, if there is one.
    pub fn from_i32(v: i32) -> (r: Option<Self>)
        ensures
            r matches Some(e) ==> e.number() == v,
            r is None ==> forall|e: Self| #[trigger] e.number() != v,
    {
        match v {
            0 => Some(State::Unspecified),
            1 => Some(State::PendingProcessing),
            2 => Some(State::Active),
            10 => Some(State::Failed),
            _ => None,
        }
    }
}

} // verus!
