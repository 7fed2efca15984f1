//! Connection tests of speech-to-text providers: which request checks a provider's
//! credentials, and what the outcome means.
use vstd::prelude::*;

use crate::error::owned;
use crate::json::{plan_field, subscription_plan};
use crate::multimodal::{build_wav, wav_file};
use crate::text::{chars_eq, push_str, str_chars};

verus! {

broadcast use vstd::string::group_string_axioms;

/// The account endpoint that tells the subscription status, below the API base URL.
pub const SUBSCRIPTION_STATUS_PATH: &'static str = "/api/subscription/status";

/// The Deepgram endpoint used to check a key.
pub const DEEPGRAM_PROJECTS_URL: &'static str = "https://api.deepgram.com/v1/projects";

/// The AssemblyAI endpoint used to check a key.
pub const ASSEMBLYAI_CHECK_URL: &'static str = "https://api.assemblyai.com/v2/transcript?limit=1";

/// The settings of a Whisper-compatible transcription endpoint.
#[derive(Clone, Debug)]
pub struct WhisperEndpoint {
    pub endpoint: String,
    pub model: String,
    /// Further form fields sent with every request.
    pub extra_fields: Vec<(String, String)>,
}

/// The request that checks a provider's credentials.
#[derive(Clone, Debug)]
pub enum SttTestRequest {
    /// A GET request with an `Authorization` header.
    Get { url: String, authorization: String, timeout_secs: u64 },
    /// A multipart POST of a short silent WAV file (`file`, named `test.wav`, type
    /// `audio/wav`) with the `model` field and the endpoint's extra fields.
    Upload {
        url: String,
        authorization: String,
        model: String,
        extra_fields: Vec<(String, String)>,
        wav: Vec<u8>,
        timeout_secs: u64,
    },
}

/// 0.1 s of silence: 3200 zero bytes of 16-bit PCM at 16 kHz.
pub open spec fn silent_test_pcm() -> Seq<u8> {
    Seq::new(3200, |i: int| 0u8)
}

/// The silent test recording as a WAV file.
pub fn silent_test_wav() -> (wav: Vec<u8>)
    ensures
        wav@ == wav_file(silent_test_pcm(), 16000),
{
    let mut pcm: Vec<u8> = Vec::new();
    let mut k: usize = 0;
    while k < 3200
        invariant
            k <= 3200,
            pcm@ == Seq::new(k as nat, |i: int| 0u8),
        decreases 3200 - k,
    {
        pcm.push(0u8);
        assert(pcm@ =~= Seq::new(k as nat + 1, |i: int| 0u8));
        k = k + 1;
    }
    build_wav(pcm.as_slice(), 16000)
}

/// The request that checks `provider`'s credentials. The cloud provider is checked with
/// the session token (an empty token means not signed in); Deepgram and AssemblyAI with
/// their account endpoints; any other provider is a Whisper-compatible endpoint, looked up
/// by the caller into `whisper`, and is checked by transcribing silence.
pub fn plan_stt_test_request(
    provider: &str,
    api_key: &str,
    session_token: &str,
    api_base: &str,
    whisper: Option<WhisperEndpoint>,
) -> (r: Result<SttTestRequest, String>)
    ensures
        provider@ == "cloud"@ ==> if session_token@.len() == 0 {
            r matches Err(e) && e@ == "Not signed in"@
        } else {
            r matches Ok(SttTestRequest::Get { url, authorization, timeout_secs }) && url@
                == api_base@ + SUBSCRIPTION_STATUS_PATH@ && authorization@ == "Bearer "@
                + session_token@ && timeout_secs == 10
        },
        provider@ == "deepgram"@ ==> (r matches Ok(
            SttTestRequest::Get { url, authorization, timeout_secs },
        ) && url@ == DEEPGRAM_PROJECTS_URL@ && authorization@ == "Token "@ + api_key@
            && timeout_secs == 10),
        provider@ == "assemblyai"@ ==> (r matches Ok(
            SttTestRequest::Get { url, authorization, timeout_secs },
        ) && url@ == ASSEMBLYAI_CHECK_URL@ && authorization@ == api_key@ && timeout_secs == 10),
        provider@ != "cloud"@ && provider@ != "deepgram"@ && provider@ != "assemblyai"@ ==> match whisper {
            None => r matches Err(e) && e@ == "Unknown STT provider: "@ + provider@,
            Some(w) => r matches Ok(
                SttTestRequest::Upload {
                    url,
                    authorization,
                    model,
                    extra_fields,
                    wav,
                    timeout_secs,
                },
            ) && url@ == w.endpoint@ && authorization@ == "Bearer "@ + api_key@ && model@
                == w.model@ && extra_fields == w.extra_fields && wav@ == wav_file(
                silent_test_pcm(),
                16000,
            ) && timeout_secs == 15,
        },
{
    proof {
        reveal_strlit("cloud");
        reveal_strlit("deepgram");
        reveal_strlit("assemblyai");
        assert("cloud"@.len() == 5 && "deepgram"@.len() == 8 && "assemblyai"@.len() == 10);
    }
    let p = str_chars(provider);
    if chars_eq(&p, &str_chars("cloud")) {
        if session_token.is_empty() {
            return Err(owned("Not signed in"));
        }
        let mut url = owned(api_base);
        push_str(&mut url, SUBSCRIPTION_STATUS_PATH);
        let mut authorization = owned("Bearer ");
        push_str(&mut authorization, session_token);
        Ok(SttTestRequest::Get { url, authorization, timeout_secs: 10 })
    } else if chars_eq(&p, &str_chars("deepgram")) {
        let mut authorization = owned("Token ");
        push_str(&mut authorization, api_key);
        Ok(SttTestRequest::Get {
            url: owned(DEEPGRAM_PROJECTS_URL),
            authorization,
            timeout_secs: 10,
        })
    } else if chars_eq(&p, &str_chars("assemblyai")) {
        Ok(SttTestRequest::Get {
            url: owned(ASSEMBLYAI_CHECK_URL),
            authorization: owned(api_key),
            timeout_secs: 10,
        })
    } else {
        match whisper {
            None => {
                let mut e = owned("Unknown STT provider: ");
                push_str(&mut e, provider);
                Err(e)
            },
            Some(w) => {
                let mut authorization = owned("Bearer ");
                push_str(&mut authorization, api_key);
                Ok(SttTestRequest::Upload {
                    url: w.endpoint,
                    authorization,
                    model: w.model,
                    extra_fields: w.extra_fields,
                    wav: silent_test_wav(),
                    timeout_secs: 15,
                })
            },
        }
    }
}

/// How a connection test proceeds.
#[derive(Clone, Copy, Debug, PartialEq, Eq, Structural)]
pub enum ConnectionRoute {
    /// Not configured: the test reports "not connected" without a request.
    Skip,
    /// The cloud provider: the subscription must be active and on the pro plan.
    Cloud,
    /// A provider checked with its API key.
    Direct,
}

/// The route of a connection test: no provider, or no key for a provider other than the
/// cloud, is not connected.
pub open spec fn test_route(provider: Seq<char>, api_key: Seq<char>) -> ConnectionRoute {
    if provider.len() == 0 {
        ConnectionRoute::Skip
    } else if provider == "cloud"@ {
        ConnectionRoute::Cloud
    } else if api_key.len() == 0 {
        ConnectionRoute::Skip
    } else {
        ConnectionRoute::Direct
    }
}

/// Decides how a connection test of `provider` proceeds.
pub fn test_connection_route(provider: &str, api_key: &str) -> (r: ConnectionRoute)
    ensures
        r == test_route(provider@, api_key@),
{
    if provider.is_empty() {
        ConnectionRoute::Skip
    } else if chars_eq(&str_chars(provider), &str_chars("cloud")) {
        ConnectionRoute::Cloud
    } else if api_key.is_empty() {
        ConnectionRoute::Skip
    } else {
        ConnectionRoute::Direct
    }
}

/// Decides how a latency benchmark of `provider` proceeds; a missing provider or key is an
/// error.
pub fn bench_connection_route(provider: &str, api_key: &str) -> (r: Result<ConnectionRoute, String>)
    ensures
        provider@.len() == 0 ==> (r matches Err(e) && e@ == "No provider specified"@),
        test_route(provider@, api_key@) == ConnectionRoute::Skip && provider@.len() > 0 ==> (r
            matches Err(e) && e@ == "API key is empty"@),
        test_route(provider@, api_key@) != ConnectionRoute::Skip ==> r == Ok::<
            ConnectionRoute,
            String,
        >(test_route(provider@, api_key@)),
{
    if provider.is_empty() {
        return Err(owned("No provider specified"));
    }
    match test_connection_route(provider, api_key) {
        ConnectionRoute::Skip => Err(owned("API key is empty")),
        route => Ok(route),
    }
}

/// Whether the subscription status reports the pro plan.
pub fn is_pro_plan(plan: Option<&str>) -> (b: bool)
    ensures
        b == (plan matches Some(p) && p@ == "pro"@),
{
    match plan {
        Some(p) => chars_eq(&str_chars(p), &str_chars("pro")),
        None => false,
    }
}

/// The outcome of a cloud latency benchmark once the status reply is known: a failed
/// request, or a plan other than pro, is an error.
pub fn cloud_bench_outcome(success: bool, plan: Option<&str>) -> (r: Result<(), String>)
    ensures
        !success ==> (r matches Err(e) && e@ == "Request failed"@),
        success && !(plan matches Some(p) && p@ == "pro"@) ==> (r matches Err(e) && e@
            == "Pro plan required"@),
        success && (plan matches Some(p) && p@ == "pro"@) ==> r is Ok,
{
    if !success {
        return Err(owned("Request failed"));
    }
    if !is_pro_plan(plan) {
        return Err(owned("Pro plan required"));
    }
    Ok(())
}

/// What came of the subscription-status request of a cloud connection test.
pub enum StatusReply {
    /// The request could not be sent (for example, not signed in).
    NotSent,
    /// A reply came with a status other than 2xx.
    Refused,
    /// A 2xx reply came; its body decoded as JSON, or the decoding error's message.
    Body(Result<serde_json::Value, String>),
}

/// The outcome of a cloud connection test: connected exactly when the status reply is
/// 2xx and reports the pro plan; a 2xx body that is not JSON is an error.
pub fn cloud_test_outcome(reply: StatusReply) -> (r: Result<bool, String>)
    ensures
        match reply {
            StatusReply::NotSent => r == Ok::<bool, String>(false),
            StatusReply::Refused => r == Ok::<bool, String>(false),
            StatusReply::Body(Err(m)) => r matches Err(e) && e@ == m@,
            StatusReply::Body(Ok(v)) => r == Ok::<bool, String>(plan_field(v) == Some("pro"@)),
        },
{
    match reply {
        StatusReply::NotSent => Ok(false),
        StatusReply::Refused => Ok(false),
        StatusReply::Body(Err(m)) => Err(m),
        StatusReply::Body(Ok(v)) => {
            let plan = subscription_plan(&v);
            let pro = match &plan {
                Some(p) => chars_eq(&str_chars(p.as_str()), &str_chars("pro")),
                None => false,
            };
            Ok(pro)
        },
    }
}

/// The outcome of a latency benchmark of a provider checked with its API key: a request
/// that could not be sent passes its error on; a reply with a status other than 2xx is
/// the error `HTTP ` followed by the status as `StatusCode` displays it
/// (`status_text`); a 2xx reply gives the time the request took, in milliseconds.
pub fn direct_bench_outcome(sent: Result<bool, String>, status_text: &str, elapsed_ms: u32) -> (r:
    Result<u32, String>)
    ensures
        match sent {
            Err(m) => r matches Err(e) && e@ == m@,
            Ok(false) => r matches Err(e) && e@ == "HTTP "@ + status_text@,
            Ok(true) => r == Ok::<u32, String>(elapsed_ms),
        },
{
    match sent {
        Err(m) => Err(m),
        Ok(false) => {
            let mut e = owned("HTTP ");
            push_str(&mut e, status_text);
            Err(e)
        },
        Ok(true) => Ok(elapsed_ms),
    }
}

} // verus!
