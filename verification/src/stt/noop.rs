//! A speech-to-text provider that does nothing; used in multimodal mode, where the audio
//! goes to the language model directly.
use vstd::prelude::*;

use crate::error::AppError;
use crate::stt::{SttConfig, TranscriptEvent};

verus! {

/// A no-op STT provider: it accepts and discards audio and never produces a transcript.
pub struct NoopSttProvider;

impl NoopSttProvider {
    /// The provider.
    pub fn new() -> Self {
        Self
    }

    /// Starting a session always succeeds; the settings are not used.
    pub fn connect(&mut self, _config: &SttConfig) -> (r: Result<(), AppError>)
        ensures
            r is Ok,
    {
        Ok(())
    }

    /// Audio is accepted and discarded.
    pub fn send_audio(&mut self, _chunk: &[u8]) -> (r: Result<(), AppError>)
        ensures
            r is Ok,
    {
        Ok(())
    }

    /// No transcript is ever produced.
    pub fn recv_transcript(&mut self) -> (r: Result<Option<TranscriptEvent>, AppError>)
        ensures
            r matches Ok(t) && t is None,
    {
        Ok(None)
    }

    /// Ending a session yields no transcript.
    pub fn disconnect(&mut self) -> (r: Result<Option<String>, AppError>)
        ensures
            r matches Ok(t) && t is None,
    {
        Ok(None)
    }

    /// The provider's name.
    pub fn name(&self) -> (n: &'static str)
        ensures
            n@ == "noop"@,
    {
        "noop"
    }
}

} // verus!
