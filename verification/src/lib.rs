//! Speech-to-text and multimodal request logic of a voice dictation backend: WAV framing,
//! prompt construction, request planning, response parsing, retry policy and error mapping.
use vstd::prelude::*;

pub mod text;
pub mod bytes;
pub mod commands;
pub mod encoding;
pub mod error;
pub mod http;
pub mod json;
pub mod llm;
pub mod multimodal;
pub mod stt;
