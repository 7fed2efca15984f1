//! Settings shared with the text-polishing model: the kind of application being dictated
//! into, and the endpoint settings of an OpenAI-compatible chat API.
use vstd::prelude::*;

verus! {

/// The kind of application the dictated text is destined for; it selects the tone addon.
#[derive(Clone, Copy, Debug, PartialEq, Eq, Structural)]
pub enum AppType {
    Email,
    Chat,
    Code,
    General,
    Document,
}

/// Endpoint settings of an OpenAI-compatible chat-completions API. The sampling
/// temperature is a float and stays with the caller that serialises the request.
#[derive(Clone, Debug)]
pub struct LlmConfig {
    pub base_url: String,
    pub api_key: String,
    pub model: String,
    pub max_tokens: u32,
    /// `""` leaves the field out, `"off"` asks for the lowest effort, anything else is sent as is.
    pub reasoning_effort: String,
}

} // verus!
