//! The MiMo ASR provider: audio is buffered during the session and transcribed in one
//! chat-completions request when the session ends.
use vstd::prelude::*;
use vstd::string::StringSliceAdditionalSpecFns;
use vstd::utf8::encode_utf8;

use crate::encoding::{base64_encode, base64_standard};
use crate::error::{backoff_delay_ms, backoff_ms, owned, AppError};
use crate::http::{is_success_status, new_http_client};
use crate::json::{message_content, opt_view, read_message_content};
use crate::multimodal::openai::{piece_text, RETRY_LIMIT};
use crate::multimodal::{build_wav, wav_file};
use crate::stt::{SttConfig, TranscriptEvent};
use crate::text::{
    ceil_boundary, chars_eq, chars_to_string, find_char, find_char_index, lemma_find_char, lemma_trim_idempotent,
    push_str, skip_chars, str_chars, trim, trim_chars, truncate_to_char_end,
};

verus! {

broadcast use vstd::string::group_string_axioms;

/// Most audio buffered in one session: 24 MiB of PCM, about 12.5 minutes at 16 kHz
/// 16-bit mono.
pub const MAX_AUDIO_BYTES: usize = 24 * 1024 * 1024;

/// The chat-completions endpoint of the MiMo API.
pub const MIMO_ENDPOINT: &'static str = "https://api.xiaomimimo.com/v1/chat/completions";

/// The transcription model.
pub const MIMO_MODEL: &'static str = "mimo-v2.5-asr";

/// The error message for an empty API key.
pub const EMPTY_KEY_MESSAGE: &'static str = "MiMo ASR API key is empty";

/// The error message for audio beyond `MAX_AUDIO_BYTES`.
pub const TOO_LONG_MESSAGE: &'static str = "MiMo ASR: audio exceeds maximum length (~12 min)";

/// The error body reported for a 429 reply.
pub const RATE_LIMIT_MESSAGE: &'static str =
    "Rate limit exceeded. Please check your API quota or try again later.";

/// MiMo ASR provider using the OpenAI-compatible chat-completions endpoint.
pub struct MimoAsrProvider {
    stt_config: Option<SttConfig>,
    audio_buffer: Vec<u8>,
    client: reqwest::Client,
}

/// The request that transcribes a session's audio.
#[derive(Clone, Debug)]
pub struct MimoRequest {
    /// The endpoint, `MIMO_ENDPOINT`.
    pub url: String,
    /// The `Authorization` header: `Bearer ` and the API key.
    pub authorization: String,
    /// The model, `MIMO_MODEL`.
    pub model: String,
    /// Whether the reply is streamed: never.
    pub stream: bool,
    /// `data:audio/wav;base64,` followed by the WAV file in standard Base64.
    pub audio_data_url: String,
    /// The `asr_options.language` field.
    pub language: String,
}

/// The language option sent: the configured language, or `auto` when there is none or
/// it is `multi`.
pub open spec fn asr_language(language: Option<String>) -> Seq<char> {
    match language {
        Some(l) => if l@ != "multi"@ {
            l@
        } else {
            "auto"@
        },
        None => "auto"@,
    }
}

/// The audio field of the request: a data URL of the WAV file.
pub open spec fn audio_data_url(wav: Seq<u8>) -> Seq<char> {
    "data:audio/wav;base64,"@ + base64_standard(wav)
}

/// The buffer after a chunk arrives: the chunk is appended unless the buffer would then
/// exceed `MAX_AUDIO_BYTES`, in which case it is refused.
pub open spec fn after_chunk(buffer: Seq<u8>, chunk: Seq<u8>) -> Seq<u8> {
    if buffer.len() + chunk.len() > MAX_AUDIO_BYTES {
        buffer
    } else {
        buffer + chunk
    }
}

/// The audio a session holds after receiving `chunks` in order, from an empty buffer.
pub open spec fn accepted_audio(chunks: Seq<Seq<u8>>) -> Seq<u8>
    decreases chunks.len(),
{
    if chunks.len() == 0 {
        Seq::empty()
    } else {
        after_chunk(accepted_audio(chunks.drop_last()), chunks.last())
    }
}

/// All the chunks, one after the other.
pub open spec fn joined_chunks(chunks: Seq<Seq<u8>>) -> Seq<u8>
    decreases chunks.len(),
{
    if chunks.len() == 0 {
        Seq::empty()
    } else {
        joined_chunks(chunks.drop_last()) + chunks.last()
    }
}

/// A session never holds more than `MAX_AUDIO_BYTES` of audio.
pub proof fn lemma_accepted_audio_bounded(chunks: Seq<Seq<u8>>)
    ensures
        accepted_audio(chunks).len() <= MAX_AUDIO_BYTES,
    decreases chunks.len(),
{
    if chunks.len() > 0 {
        lemma_accepted_audio_bounded(chunks.drop_last());
    }
}

/// No audio is lost while the session stays within the limit: when all chunks together fit
/// in `MAX_AUDIO_BYTES`, the session holds exactly all of them, in the order received.
pub proof fn lemma_audio_kept_in_order(chunks: Seq<Seq<u8>>)
    requires
        joined_chunks(chunks).len() <= MAX_AUDIO_BYTES,
    ensures
        accepted_audio(chunks) == joined_chunks(chunks),
    decreases chunks.len(),
{
    if chunks.len() > 0 {
        lemma_audio_kept_in_order(chunks.drop_last());
    }
}

/// What taking a session's audio for transcription does, from `before` to `after`,
/// returning `r`: the settings and client stay; with no settings or no audio nothing
/// changes and nothing is returned; otherwise the request carries the endpoint, the
/// bearer key, the model, no streaming, the WAV of the buffered audio at the session's
/// sample rate and the language option, and the buffer is emptied. A connected session
/// has an empty buffer afterwards.
pub open spec fn transcription_taken(
    before: MimoAsrProvider,
    after: MimoAsrProvider,
    r: Option<MimoRequest>,
) -> bool {
    &&& after.wf()
    &&& after.http_client() == before.http_client()
    &&& after.session_config() == before.session_config()
    &&& before.session_config() is Some ==> after.buffered_audio() == Seq::<u8>::empty()
    &&& match before.session_config() {
        None => r is None && after.buffered_audio() == before.buffered_audio(),
        Some(c) => if before.buffered_audio().len() == 0 {
            r is None && after.buffered_audio() == before.buffered_audio()
        } else {
            &&& r matches Some(q) && {
                &&& q.url@ == MIMO_ENDPOINT@
                &&& q.authorization@ == "Bearer "@ + c.api_key@
                &&& q.model@ == MIMO_MODEL@
                &&& !q.stream
                &&& q.audio_data_url@ == audio_data_url(
                    wav_file(before.buffered_audio(), c.sample_rate as nat),
                )
                &&& q.language@ == asr_language(c.language)
            }
            &&& after.buffered_audio() == Seq::<u8>::empty()
        },
    }
}

/// Buffered audio is never sent twice: after audio has been taken from a connected
/// session, taking again right after returns nothing.
pub proof fn lemma_audio_sent_once(
    p0: MimoAsrProvider,
    p1: MimoAsrProvider,
    p2: MimoAsrProvider,
    r1: Option<MimoRequest>,
    r2: Option<MimoRequest>,
)
    requires
        p0.session_config() is Some,
        transcription_taken(p0, p1, r1),
        transcription_taken(p1, p2, r2),
    ensures
        r2 is None,
        p2.buffered_audio() == Seq::<u8>::empty(),
        p2.session_config() == p0.session_config(),
{
}

impl MimoAsrProvider {
    /// The session settings, once connected.
    pub closed spec fn session_config(&self) -> Option<SttConfig> {
        self.stt_config
    }

    /// The audio buffered since the session started.
    pub closed spec fn buffered_audio(&self) -> Seq<u8> {
        self.audio_buffer@
    }

    /// The client that requests go through.
    pub closed spec fn http_client(&self) -> reqwest::Client {
        self.client
    }

    /// The buffer never holds more than `MAX_AUDIO_BYTES`.
    pub open spec fn wf(&self) -> bool {
        self.buffered_audio().len() <= MAX_AUDIO_BYTES
    }

    /// A provider with a fresh default HTTP client, not connected.
    pub fn new() -> (p: Self)
        ensures
            p.wf(),
            p.session_config() is None,
            p.buffered_audio() == Seq::<u8>::empty(),
    {
        Self { stt_config: None, audio_buffer: Vec::new(), client: new_http_client() }
    }

    /// A provider that sends its requests through `client`, not connected.
    pub fn with_client(client: reqwest::Client) -> (p: Self)
        ensures
            p.wf(),
            p.session_config() is None,
            p.buffered_audio() == Seq::<u8>::empty(),
            p.http_client() == client,
    {
        Self { stt_config: None, audio_buffer: Vec::new(), client }
    }

    /// The client that requests go through.
    pub fn client(&self) -> (c: &reqwest::Client)
        ensures
            *c == self.http_client(),
    {
        &self.client
    }

    /// The provider's name.
    pub fn name(&self) -> (n: &'static str)
        ensures
            n@ == "mimo-asr"@,
    {
        "mimo-asr"
    }

    /// The sample rate of the session, once connected.
    pub fn sample_rate(&self) -> (r: Option<u32>)
        ensures
            match self.session_config() {
                Some(c) => r == Some(c.sample_rate),
                None => r is None,
            },
    {
        match &self.stt_config {
            Some(c) => Some(c.sample_rate),
            None => None,
        }
    }

    /// The number of bytes of audio buffered.
    pub fn buffered_len(&self) -> (n: usize)
        ensures
            n == self.buffered_audio().len(),
    {
        self.audio_buffer.len()
    }

    /// Transcripts come only from the request made when the recording ends, so none is
    /// ever waiting; nothing changes.
    pub fn recv_transcript(&mut self) -> (r: Result<Option<TranscriptEvent>, AppError>)
        ensures
            r matches Ok(t) && t is None,
            *final(self) == *old(self),
    {
        Ok(None)
    }

    /// Starts a session: an empty API key is refused and nothing changes; otherwise the
    /// settings are kept and the buffer is emptied.
    pub fn connect(&mut self, config: &SttConfig) -> (r: Result<(), AppError>)
        requires
            old(self).wf(),
        ensures
            final(self).wf(),
            final(self).http_client() == old(self).http_client(),
            config.api_key@.len() == 0 ==> {
                &&& r matches Err(AppError::Auth(m)) && m@ == EMPTY_KEY_MESSAGE@
                &&& final(self).session_config() == old(self).session_config()
                &&& final(self).buffered_audio() == old(self).buffered_audio()
            },
            config.api_key@.len() > 0 ==> {
                &&& r is Ok
                &&& final(self).session_config() == Some(*config)
                &&& final(self).buffered_audio() == Seq::<u8>::empty()
            },
    {
        if config.api_key.as_str().is_empty() {
            return Err(AppError::Auth(owned(EMPTY_KEY_MESSAGE)));
        }
        self.stt_config = Some(config.duplicate());
        self.audio_buffer.clear();
        Ok(())
    }

    /// Buffers a chunk of PCM audio, unless the buffer would exceed `MAX_AUDIO_BYTES`;
    /// then the chunk is refused and the buffer is unchanged.
    pub fn send_audio(&mut self, chunk: &[u8]) -> (r: Result<(), AppError>)
        requires
            old(self).wf(),
            old(self).buffered_audio().len() + chunk@.len() <= usize::MAX,
        ensures
            final(self).wf(),
            final(self).http_client() == old(self).http_client(),
            final(self).session_config() == old(self).session_config(),
            old(self).buffered_audio().len() + chunk@.len() > MAX_AUDIO_BYTES ==> {
                &&& r matches Err(AppError::Config(m)) && m@ == TOO_LONG_MESSAGE@
                &&& final(self).buffered_audio() == old(self).buffered_audio()
            },
            old(self).buffered_audio().len() + chunk@.len() <= MAX_AUDIO_BYTES ==> {
                &&& r is Ok
                &&& final(self).buffered_audio() == old(self).buffered_audio() + chunk@
            },
            final(self).buffered_audio() == after_chunk(old(self).buffered_audio(), chunk@),
    {
        if self.audio_buffer.len() + chunk.len() > MAX_AUDIO_BYTES {
            return Err(AppError::Config(owned(TOO_LONG_MESSAGE)));
        }
        crate::bytes::push_bytes(&mut self.audio_buffer, chunk);
        Ok(())
    }

    /// Ends the session's recording: with no settings or no audio there is nothing to
    /// transcribe and nothing changes; otherwise the buffered audio is framed as WAV at the
    /// session's sample rate, the buffer is emptied, and the transcription request is
    /// returned for the caller to send.
    pub fn begin_transcription(&mut self) -> (r: Option<MimoRequest>)
        requires
            old(self).wf(),
            old(self).buffered_audio().len() > 0 ==> (old(self).session_config() matches Some(c)
                ==> c.sample_rate * 16 <= u32::MAX),
        ensures
            transcription_taken(*old(self), *final(self), r),
    {
        let config = match &self.stt_config {
            Some(c) => c.duplicate(),
            None => return None,
        };
        if self.audio_buffer.len() == 0 {
            assert(self.audio_buffer@ =~= Seq::<u8>::empty());
            return None;
        }
        let wav_data = build_wav(self.audio_buffer.as_slice(), config.sample_rate);
        self.audio_buffer.clear();
        let mut audio_data_url = owned("data:audio/wav;base64,");
        let encoded = base64_encode(wav_data.as_slice());
        push_str(&mut audio_data_url, encoded.as_str());
        let language = match &config.language {
            Some(lang) => {
                if chars_eq(&str_chars(lang.as_str()), &str_chars("multi")) {
                    owned("auto")
                } else {
                    lang.clone()
                }
            },
            None => owned("auto"),
        };
        let mut authorization = owned("Bearer ");
        push_str(&mut authorization, config.api_key.as_str());
        Some(
            MimoRequest {
                url: owned(MIMO_ENDPOINT),
                authorization,
                model: owned(MIMO_MODEL),
                stream: false,
                audio_data_url,
                language,
            },
        )
    }
}

// ---------------------------------------------------------------------------
// Reading the reply
// ---------------------------------------------------------------------------

/// The transcript without a leading language tag such as `<chinese>`.
pub open spec fn strip_language_tag(t: Seq<char>) -> Seq<char> {
    if t.len() > 0 && t[0] == '<' {
        match find_char(t, '>') {
            Some(e) => trim(t.skip(e + 1)),
            None => t,
        }
    } else {
        t
    }
}

/// The transcript in a reply's content: trimmed, without a language tag; none when empty.
pub open spec fn transcript_of(content: Option<Seq<char>>) -> Option<Seq<char>> {
    let t = strip_language_tag(trim(piece_text(content)));
    if t.len() == 0 {
        None
    } else {
        Some(t)
    }
}

/// A transcript has no whitespace at either end: trimming it changes nothing.
pub proof fn lemma_transcript_trimmed(content: Option<Seq<char>>)
    ensures
        transcript_of(content) matches Some(t) ==> trim(t) == t,
{
    let x = trim(piece_text(content));
    lemma_trim_idempotent(piece_text(content));
    if x.len() > 0 && x[0] == '<' {
        match find_char(x, '>') {
            Some(e) => {
                lemma_trim_idempotent(x.skip(e + 1));
            },
            None => {},
        }
    }
}

/// What a reply to a transcription request leads to.
#[derive(Debug)]
pub enum MimoReply {
    /// The transcript (none for silence).
    Transcript(Option<String>),
    /// Wait this many milliseconds, then send again.
    Retry { delay_ms: u64 },
    /// The request failed.
    Failed(AppError),
}

/// The transcript of a content string.
pub fn clean_transcript(content: Option<String>) -> (r: Option<String>)
    ensures
        opt_view(r) == transcript_of(opt_view(content)),
{
    let raw = match content {
        Some(c) => str_chars(c.as_str()),
        None => Vec::new(),
    };
    let t = trim_chars(&raw);
    let stripped = if t.len() > 0 && t[0] == '<' {
        match find_char_index(&t, '>') {
            Some(e) => {
                proof {
                    lemma_find_char(t@, '>');
                }
                let rest = skip_chars(&t, e + 1);
                trim_chars(&rest)
            },
            None => t,
        }
    } else {
        t
    };
    if stripped.len() == 0 {
        None
    } else {
        Some(chars_to_string(&stripped))
    }
}

/// Decides what a reply with `status` and `body_text` to attempt number `attempt` (from 0)
/// leads to: a 2xx reply is read (a body that is not JSON is a configuration error); a
/// 5xx reply is retried while fewer than `RETRY_LIMIT` retries were made; a 429 reply is a
/// rate-limit error; any other reply is an API error with the body cut at the end of the
/// character that holds byte index 199 (the whole body when it is shorter than 200 bytes).
pub fn interpret_reply(attempt: u32, status: u16, body_text: &str) -> (r: MimoReply)
    ensures
        is_success_status(status) ==> match message_content(body_text@) {
            Err(m) => r matches MimoReply::Failed(AppError::Config(g)) && g@ == m,
            Ok(c) => r matches MimoReply::Transcript(t) && opt_view(t) == transcript_of(c),
        },
        !is_success_status(status) && status >= 500 && attempt < RETRY_LIMIT ==> (r
            matches MimoReply::Retry { delay_ms } && delay_ms == backoff_ms(attempt as nat)),
        !is_success_status(status) && !(status >= 500 && attempt < RETRY_LIMIT) && status == 429
            ==> (r matches MimoReply::Failed(AppError::Api { status: s, body }) && s == 429
            && body@ == RATE_LIMIT_MESSAGE@),
        !is_success_status(status) && !(status >= 500 && attempt < RETRY_LIMIT) && status != 429
            ==> (r matches MimoReply::Failed(AppError::Api { status: s, body }) && s == status
            && encode_utf8(body@) == body_text.spec_bytes().take(
            ceil_boundary(body_text.spec_bytes(), 200),
        )),
{
    if 200 <= status && status <= 299 {
        match read_message_content(body_text) {
            Err(m) => MimoReply::Failed(AppError::Config(m)),
            Ok(content) => MimoReply::Transcript(clean_transcript(content)),
        }
    } else if status >= 500 && attempt < RETRY_LIMIT {
        assert(backoff_ms(0) == 1000);
        assert(backoff_ms(1) == 2000);
        MimoReply::Retry { delay_ms: backoff_delay_ms(attempt) }
    } else if status == 429 {
        MimoReply::Failed(AppError::Api { status: 429, body: owned(RATE_LIMIT_MESSAGE) })
    } else {
        let sanitized = truncate_to_char_end(body_text, 200);
        MimoReply::Failed(AppError::Api { status, body: sanitized.to_string() })
    }
}

} // verus!
