//! Protocol types of `generation_config`.
use vstd::prelude::*;
use crate::text::str_eq;

verus! {

/// Supported modalities of the response.
#[derive(Clone, Copy, Debug, PartialEq, Eq, Structural, Hash)]
pub enum Modality {
    /// Default value.
    Unspecified,
    /// Indicates the model should return text.
    Text,
    /// Indicates the model should return images.
    Image,
    /// Indicates the model should return audio.
    Audio,
}

impl Modality {
    /// The field name of this value in the protocol definition.
    pub open spec fn name_spec(self) -> Seq<char> {
        match self {
            Modality::Unspecified => "MODALITY_UNSPECIFIED"@,
            Modality::Text => "TEXT"@,
            Modality::Image => "IMAGE"@,
            Modality::Audio => "AUDIO"@,
        }
    }

    /// The number of this value on the wire.
    pub open spec fn number(self) -> i32 {
        match self {
            Modality::Unspecified => 0,
            Modality::Text => 1,
            Modality::Image => 2,
            Modality::Audio => 3,
        }
    }

    /// String value of the enum field names used in the ProtoBuf definition.
    pub fn as_str_name(&self) -> (r: &'static str)
        ensures
            r@ == self.name_spec(),
    {
        match self {
            Modality::Unspecified => "MODALITY_UNSPECIFIED",
            Modality::Text => "TEXT",
            Modality::Image => "IMAGE",
            Modality::Audio => "AUDIO",
        }
    }

    /// Creates an enum from field names used in the ProtoBuf definition.
    pub fn from_str_name(value: &str) -> (r: Option<Self>)
        ensures
            r matches Some(e) ==> e.name_spec() == value@,
            r is None ==> forall|e: Self| #[trigger] e.name_spec() != value@,
    {
        if str_eq(value, "MODALITY_UNSPECIFIED") {
            Some(Modality::Unspecified)
        } else if str_eq(value, "TEXT") {
            Some(Modality::Text)
        } else if str_eq(value, "IMAGE") {
            Some(Modality::Image)
        } else if str_eq(value, "AUDIO") {
            Some(Modality::Audio)
        } else {
            None
        }
    }

    /// The number of this value on the wire.
    pub fn value(self) -> (r: i32)
        ensures
            r == self.number(),
    {
        match self {
            Modality::Unspecified => 0,
            Modality::Text => 1,
            Modality::Image => 2,
            Modality::Audio => 3,
        }
    }

    /// The value with the given wire number, if there is one.
    pub fn from_i32(v: i32) -> (r: Option<Self>)
        ensures
            r matches Some(e) ==> e.number() == v,
            r is None ==> forall|e: Self| #[trigger] e.number() != v,
    {
        match v {
            0 => Some(Modality::Unspecified),
            1 => Some(Modality::Text),
            2 => Some(Modality::Image),
            3 => Some(Modality::Audio),
            _ => None,
        }
    }
}

} // verus!
