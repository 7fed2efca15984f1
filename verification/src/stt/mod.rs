//! Speech-to-text providers: session settings and the sessions of the providers.
use vstd::prelude::*;

pub mod mimo_asr;
pub mod noop;

verus! {

/// The settings of a speech-to-text session that the providers read.
#[derive(Clone, Debug)]
pub struct SttConfig {
    pub api_key: String,
    /// Sample rate of the 16-bit mono PCM audio, in Hz.
    pub sample_rate: u32,
    /// Language code; `None` or `multi` lets the service detect it.
    pub language: Option<String>,
}

/// A piece of transcript produced while audio streams in.
#[derive(Clone, Debug)]
pub struct TranscriptEvent {
    pub text: String,
    pub is_final: bool,
}

impl SttConfig {
    /// A copy of the settings.
    pub fn duplicate(&self) -> (c: SttConfig)
        ensures
            c == *self,
    {
        SttConfig {
            api_key: self.api_key.clone(),
            sample_rate: self.sample_rate,
            language: match &self.language {
                Some(l) => Some(l.clone()),
                None => None,
            },
        }
    }
}

} // verus!
