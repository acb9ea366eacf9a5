//! Protocol types of `generate_answer_request`.
use vstd::prelude::*;
use crate::text::str_eq;

verus! {

/// Style for grounded answers.
#[derive(Clone, Copy, Debug, PartialEq, Eq, Structural, Hash)]
pub enum AnswerStyle {
    /// Unspecified answer style.
    Unspecified,
    /// Succint but abstract style.
    Abstractive,
    /// Very brief and extractive style.
    Extractive,
    /// Verbose style including extra details. The response may be formatted as a
    /// sentence, paragraph, multiple paragraphs, or bullet points, etc.
    Verbose,
}

impl AnswerStyle {
    /// The field name of this value in the protocol definition.
    pub open spec fn name_spec(self) -> Seq<char> {
        match self {
            AnswerStyle::Unspecified => "ANSWER_STYLE_UNSPECIFIED"@,
            AnswerStyle::Abstractive => "ABSTRACTIVE"@,
            AnswerStyle::Extractive => "EXTRACTIVE"@,
            AnswerStyle::Verbose => "VERBOSE"@,
        }
    }

    /// The number of this value on the wire.
    pub open spec fn number(self) -> i32 {
        match self {
            AnswerStyle::Unspecified => 0,
            AnswerStyle::Abstractive => 1,
            AnswerStyle::Extractive => 2,
            AnswerStyle::Verbose => 3,
        }
    }

    /// String value of the enum field names used in the ProtoBuf definition.
    pub fn as_str_name(&self) -> (r: &'static str)
        ensures
            r@ == self.name_spec(),
    {
        match self {
            AnswerStyle::Unspecified => "ANSWER_STYLE_UNSPECIFIED",
            AnswerStyle::Abstractive => "ABSTRACTIVE",
            AnswerStyle::Extractive => "EXTRACTIVE",
            AnswerStyle::Verbose => "VERBOSE",
        }
    }

    /// Creates an enum from field names used in the ProtoBuf definition.
    pub fn from_str_name(value: &str) -> (r: Option<Self>)
        ensures
            r matches Some(e) ==> e.name_spec() == value@,
            r is None ==> forall|e: Self| #[trigger] e.name_spec() != value@,
    {
        if str_eq(value, "ANSWER_STYLE_UNSPECIFIED") {
            Some(AnswerStyle::Unspecified)
        } else if str_eq(value, "ABSTRACTIVE") {
            Some(AnswerStyle::Abstractive)
        } else if str_eq(value, "EXTRACTIVE") {
            Some(AnswerStyle::Extractive)
        } else if str_eq(value, "VERBOSE") {
            Some(AnswerStyle::Verbose)
        } else {
            None
        }
    }

    /// The number of this value on the wire.
    pub fn value(self) -> (r: i32)
        ensures
            r == self.number(),
    {
        match self {
            AnswerStyle::Unspecified => 0,
            AnswerStyle::Abstractive => 1,
            AnswerStyle::Extractive => 2,
            AnswerStyle::Verbose => 3,
        }
    }

    /// The value with the given wire number, if there is one.
    pub fn from_i32(v: i32) -> (r: Option<Self>)
        ensures
            r matches Some(e) ==> e.number() == v,
            r is None ==> forall|e: Self| #[trigger] e.number() != v,
    {
        match v {
            0 => Some(AnswerStyle::Unspecified),
            1 => Some(AnswerStyle::Abstractive),
            2 => Some(AnswerStyle::Extractive),
            3 => Some(AnswerStyle::Verbose),
            _ => None,
        }
    }
}

} // verus!
