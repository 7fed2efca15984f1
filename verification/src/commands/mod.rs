//! Decisions behind the frontend commands.
pub mod stt;
