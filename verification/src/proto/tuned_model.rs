//! Protocol types of `tuned_model`.
use vstd::prelude::*;
use crate::text::str_eq;
use crate::proto::TunedModelSource;
verus! {

/// The model used as the starting point for tuning.
#[derive(Clone, Debug, PartialEq, Eq)]
pub enum SourceModel {
    /// A tuned model used as the starting point for training the new model.
    TunedModelSource(TunedModelSource),
    /// The name of the `Model` to tune.
    BaseModel(String),
}

/// The state of the tuned model.
#[derive(Clone, Copy, Debug, PartialEq, Eq, Structural, Hash)]
pub enum State {
    /// The default value. This value is unused.
    Unspecified,
    /// The model is being created.
    Creating,
    /// The model is ready to be used.
    Active,
    /// The model failed to be created.
    Failed,
}

impl State {
    /// The field name of this value in the protocol definition.
    pub open spec fn name_spec(self) -> Seq<char> {
        match self {
            State::Unspecified => "STATE_UNSPECIFIED"@,
            State::Creating => "CREATING"@,
            State::Active => "ACTIVE"@,
            State::Failed => "FAILED"@,
        }
    }

    /// The number of this value on the wire.
    pub open spec fn number(self) -> i32 {
        match self {
            State::Unspecified => 0,
            State::Creating => 1,
            State::Active => 2,
            State::Failed => 3,
        }
    }

    /// String value of the enum field names used in the ProtoBuf definition.
    pub fn as_str_name(&self) -> (r: &'static str)
        ensures
            r@ == self.name_spec(),
    {
        match self {
            State::Unspecified => "STATE_UNSPECIFIED",
            State::Creating => "CREATING",
            State::Active => "ACTIVE",
            State::Failed => "FAILED",
        }
    }

    /// Creates an enum from field names used in the ProtoBuf definition.
    pub fn from_str_name(value: &str) -> (r: Option<Self>)
        ensures
            r matches Some(e) ==> e.name_spec() == value@,
            r is None ==> forall|e: Self| #[trigger] e.name_spec() != value@,
    {
        if str_eq(value, "STATE_UNSPECIFIED") {
            Some(State::Unspecified)
        } else if str_eq(value, "CREATING") {
            Some(State::Creating)
        } else if str_eq(value, "ACTIVE") {
            Some(State::Active)
        } else if str_eq(value, "FAILED") {
            Some(State::Failed)
        } else {
            None
        }
    }

    /// The number of this value on the wire.
    pub fn value(self) -> (r: i32)
        ensures
            r == self.number(),
    {
        match self {
            State::Unspecified => 0,
            State::Creating => 1,
            State::Active => 2,
            State::Failed => 3,
        }
    }

    /// The value with the given wire number, if there is one.
    pub fn from_i32(v: i32) -> (r: Option<Self>)
        ensures
            r matches Some(e) ==> e.number() == v,
            r is None ==> forall|e: Self| #[trigger] e.number() != v,
    {
        match v {
            0 => Some(State::Unspecified),
            1 => Some(State::Creating),
            2 => Some(State::Active),
            3 => Some(State::Failed),
            _ => None,
        }
    }
}

} // verus!
