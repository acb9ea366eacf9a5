//! Protocol types of `voice_config`.
use vstd::prelude::*;
use crate::proto::PrebuiltVoiceConfig;
verus! {

/// The configuration for the speaker to use.
#[derive(Clone, Debug, PartialEq, Eq)]
pub enum VoiceConfig {
    /// The configuration for the prebuilt voice to use.
    PrebuiltVoiceConfig(PrebuiltVoiceConfig),
}

} // verus!
