//! The multimodal provider for OpenAI-compatible chat-completions APIs that accept audio
//! input: request planning, retry decisions, and the reading of streamed and plain replies.
use vstd::prelude::*;
use vstd::string::StringSliceAdditionalSpecFns;
use vstd::utf8::encode_utf8;

use crate::encoding::{base64_encode, base64_standard};
use crate::error::{backoff_delay_ms, backoff_ms, owned, AppError};
use crate::http::{is_success_status, new_http_client};
use crate::llm::LlmConfig;
use crate::multimodal::{MultimodalRequest, MultimodalResponse};
use crate::json::{delta_fields, message_content, opt_view, read_delta_fields, read_message_content};
use crate::text::{
    chars_eq, chars_to_string, contains_chars, contains_seq, decode_utf8_lossy, find_char,
    find_char_index, has_prefix, lemma_find_char, lemma_find_char_at, push_chars, push_str,
    skip_chars, starts_with_chars, str_chars, string_views, take_chars, trim, trim_chars,
    trim_end_char, trim_end_char_chars, truncate_str, truncated_len, utf8_lossy,
};

verus! {

broadcast use vstd::string::group_string_axioms;

/// Number of attempts after which a failing request is not retried any more.
pub const RETRY_LIMIT: u32 = 2;

/// Sends multimodal requests to an OpenAI-compatible chat-completions endpoint.
pub struct OpenAiMultimodalProvider {
    client: reqwest::Client,
}

impl OpenAiMultimodalProvider {
    /// The client that requests go through.
    pub closed spec fn http_client(&self) -> reqwest::Client {
        self.client
    }

    /// A provider with a fresh default HTTP client.
    pub fn new() -> Self {
        Self { client: new_http_client() }
    }

    /// A provider that sends its requests through `client`.
    pub fn with_client(client: reqwest::Client) -> (p: Self)
        ensures
            p.http_client() == client,
    {
        Self { client }
    }

    /// The client that requests go through.
    pub fn client(&self) -> (c: &reqwest::Client)
        ensures
            *c == self.http_client(),
    {
        &self.client
    }

    /// The provider's display name.
    pub fn name(&self) -> (n: &'static str)
        ensures
            n@ == "OpenAI Multimodal"@,
    {
        "OpenAI Multimodal"
    }
}

impl Default for OpenAiMultimodalProvider {
    /// A provider with a fresh default HTTP client.
    fn default() -> Self {
        Self::new()
    }
}

// ---------------------------------------------------------------------------
// Request planning
// ---------------------------------------------------------------------------

/// Everything of a chat-completions request that is decided from the configuration and the
/// request; the caller serialises it (adding the sampling temperature) and sends it.
#[derive(Clone, Debug)]
pub struct ChatRequestPlan {
    pub url: String,
    pub authorization: String,
    pub model: String,
    pub max_tokens: u32,
    pub stream: bool,
    pub system_prompt: String,
    /// The user message that carries the selected text, sent before the audio.
    pub selected_text_message: Option<String>,
    /// The WAV audio in standard Base64, sent as `input_audio` of format `wav`.
    pub audio_base64: String,
    /// The `reasoning_effort` field, if it is sent.
    pub reasoning_effort: Option<String>,
    /// Whether thinking mode is switched on (then temperature 1.0 and top_p 0.95 are sent).
    pub enable_thinking: bool,
}

/// The endpoint: the base URL without trailing slashes, then `/chat/completions`.
pub open spec fn chat_url(base_url: Seq<char>) -> Seq<char> {
    trim_end_char(base_url, '/') + "/chat/completions"@
}

/// The value of the `Authorization` header for an API key.
pub open spec fn bearer(api_key: Seq<char>) -> Seq<char> {
    "Bearer "@ + api_key
}

/// The `reasoning_effort` sent: none for an empty setting; for `off`, `none` on OpenRouter
/// and `low` elsewhere; otherwise the setting itself.
pub open spec fn effort_field(effort: Seq<char>, base_url: Seq<char>) -> Option<Seq<char>> {
    if effort.len() == 0 {
        None
    } else if effort == "off"@ {
        if contains_seq(base_url, "openrouter"@) {
            Some("none"@)
        } else {
            Some("low"@)
        }
    } else {
        Some(effort)
    }
}

/// GLM models get thinking mode unless the effort is `off` or `low`.
pub open spec fn thinking_enabled(model: Seq<char>, effort: Seq<char>) -> bool {
    has_prefix(model, "glm-"@) && effort != "off"@ && effort != "low"@
}

/// The user message that carries selected text.
pub open spec fn selected_text_message(text: Seq<char>) -> Seq<char> {
    "<selected_text>"@ + text + "</selected_text>"@
}

/// The plan of the request for `config` and `req`; `stream` is whether a chunk callback
/// is present.
pub open spec fn chat_plan_matches(
    p: ChatRequestPlan,
    config: LlmConfig,
    req: MultimodalRequest,
    stream: bool,
) -> bool {
    &&& p.url@ == chat_url(config.base_url@)
    &&& p.authorization@ == bearer(config.api_key@)
    &&& p.model@ == config.model@
    &&& p.max_tokens == config.max_tokens
    &&& p.stream == stream
    &&& p.system_prompt@ == req.system_prompt@
    &&& match req.selected_text {
        Some(t) => p.selected_text_message matches Some(m) && m@ == selected_text_message(t@),
        None => p.selected_text_message is None,
    }
    &&& p.audio_base64@ == base64_standard(req.audio_wav@)
    &&& match effort_field(config.reasoning_effort@, config.base_url@) {
        Some(e) => p.reasoning_effort matches Some(r) && r@ == e,
        None => p.reasoning_effort is None,
    }
    &&& p.enable_thinking == thinking_enabled(config.model@, config.reasoning_effort@)
}

/// Plans the chat-completions request for `req`.
pub fn plan_chat_request(config: &LlmConfig, req: &MultimodalRequest, stream: bool) -> (p:
    ChatRequestPlan)
    ensures
        chat_plan_matches(p, *config, *req, stream),
{
    let base = str_chars(config.base_url.as_str());
    let mut url = String::new();
    let trimmed = trim_end_char_chars(&base, '/');
    push_chars(&mut url, &trimmed);
    push_str(&mut url, "/chat/completions");

    let mut authorization = owned("Bearer ");
    push_str(&mut authorization, config.api_key.as_str());

    let selected_text_message = match &req.selected_text {
        Some(t) => {
            let mut m = owned("<selected_text>");
            push_str(&mut m, t.as_str());
            push_str(&mut m, "</selected_text>");
            Some(m)
        },
        None => None,
    };

    let effort = str_chars(config.reasoning_effort.as_str());
    let is_off = chars_eq(&effort, &str_chars("off"));
    let is_low = chars_eq(&effort, &str_chars("low"));
    let reasoning_effort = if effort.len() == 0 {
        None
    } else if is_off {
        if contains_chars(&base, &str_chars("openrouter")) {
            Some(owned("none"))
        } else {
            Some(owned("low"))
        }
    } else {
        Some(config.reasoning_effort.clone())
    };

    let model = str_chars(config.model.as_str());
    let enable_thinking = starts_with_chars(&model, &str_chars("glm-")) && !is_off && !is_low;

    ChatRequestPlan {
        url,
        authorization,
        model: config.model.clone(),
        max_tokens: config.max_tokens,
        stream,
        system_prompt: req.system_prompt.clone(),
        selected_text_message,
        audio_base64: base64_encode(req.audio_wav.as_slice()),
        reasoning_effort,
        enable_thinking,
    }
}

// ---------------------------------------------------------------------------
// Attempts and retries
// ---------------------------------------------------------------------------

/// What to do after one attempt to send the request.
#[derive(Clone, Copy, Debug, PartialEq, Eq, Structural)]
pub enum AttemptStep {
    /// The reply is good: read it.
    Proceed,
    /// Wait this many milliseconds, then send again.
    Retry { delay_ms: u64 },
    /// Stop and report the failure.
    Stop,
}

/// After a reply with `status` to attempt `attempt` (from 0): read a 2xx reply, retry a
/// 5xx reply while fewer than `RETRY_LIMIT` retries were made, otherwise stop.
pub open spec fn status_step(attempt: nat, status: u16) -> AttemptStep {
    if is_success_status(status) {
        AttemptStep::Proceed
    } else if status >= 500 && attempt < RETRY_LIMIT {
        AttemptStep::Retry { delay_ms: backoff_ms(attempt) as u64 }
    } else {
        AttemptStep::Stop
    }
}

/// After attempt `attempt` failed without a reply: retry a timeout while fewer than
/// `RETRY_LIMIT` retries were made, otherwise stop.
pub open spec fn send_error_step(attempt: nat, timed_out: bool) -> AttemptStep {
    if timed_out && attempt < RETRY_LIMIT {
        AttemptStep::Retry { delay_ms: backoff_ms(attempt) as u64 }
    } else {
        AttemptStep::Stop
    }
}

/// Decides what follows a reply with `status` to attempt number `attempt`.
pub fn step_after_status(attempt: u32, status: u16) -> (s: AttemptStep)
    ensures
        s == status_step(attempt as nat, status),
{
    if 200 <= status && status <= 299 {
        AttemptStep::Proceed
    } else if status >= 500 && attempt < RETRY_LIMIT {
        assert(backoff_ms(0) == 1000);
        assert(backoff_ms(1) == 2000);
        AttemptStep::Retry { delay_ms: backoff_delay_ms(attempt) }
    } else {
        AttemptStep::Stop
    }
}

/// Decides what follows attempt number `attempt` when it failed without a reply.
pub fn step_after_send_error(attempt: u32, timed_out: bool) -> (s: AttemptStep)
    ensures
        s == send_error_step(attempt as nat, timed_out),
{
    if timed_out && attempt < RETRY_LIMIT {
        assert(backoff_ms(0) == 1000);
        assert(backoff_ms(1) == 2000);
        AttemptStep::Retry { delay_ms: backoff_delay_ms(attempt) }
    } else {
        AttemptStep::Stop
    }
}

/// The error reported for a rejected reply: its status and at most 200 bytes of its body,
/// cut on a character boundary.
pub fn rejection_error(status: u16, body_text: &str) -> (e: AppError)
    ensures
        e matches AppError::Api { status: s, body } && s == status && encode_utf8(body@)
            == body_text.spec_bytes().take(truncated_len(body_text.spec_bytes(), 200)),
{
    let truncated = truncate_str(body_text, 200);
    AppError::Api { status, body: truncated.to_string() }
}

/// No request is sent more than `RETRY_LIMIT + 1` times: from attempt `RETRY_LIMIT` on,
/// neither a reply nor a failure leads to a retry.
pub proof fn lemma_attempts_bounded(attempt: nat, status: u16, timed_out: bool)
    requires
        attempt >= RETRY_LIMIT,
    ensures
        !(status_step(attempt, status) is Retry),
        !(send_error_step(attempt, timed_out) is Retry),
{
}

/// Client errors (4xx) are never retried.
pub proof fn lemma_client_errors_not_retried(attempt: nat, status: u16)
    requires
        400 <= status < 500,
    ensures
        status_step(attempt, status) == AttemptStep::Stop,
{
}

// ---------------------------------------------------------------------------
// Reading the reply
// ---------------------------------------------------------------------------

/// The message of the error for a reply without text.
pub const EMPTY_RESPONSE: &'static str = "Multimodal API returned empty response";

/// The text of a reply: the content if there is any, else the reasoning.
pub open spec fn reply_text(content: Seq<char>, reasoning: Seq<char>) -> Seq<char> {
    if content.len() == 0 && reasoning.len() > 0 {
        reasoning
    } else {
        content
    }
}

/// The outcome for a reply text: an error when it is empty.
pub open spec fn reply_outcome(text: Seq<char>, r: Result<MultimodalResponse, AppError>) -> bool {
    if text.len() == 0 {
        r matches Err(AppError::Config(m)) && m@ == EMPTY_RESPONSE@
    } else {
        r matches Ok(resp) && resp.text@ == text
    }
}

/// The reply text of a complete (non-streamed) reply body; `Err` carries the message of
/// the error the body gives.
pub open spec fn completion_text(body: Seq<char>) -> Result<Seq<char>, Seq<char>> {
    match message_content(body) {
        Err(m) => Err(m),
        Ok(Some(c)) => Ok(c),
        Ok(None) => Ok(Seq::empty()),
    }
}

/// Reads the reply body of a non-streamed request: a body that is not JSON is a
/// configuration error with the parser's message; an absent or empty
/// `choices[0].message.content` is a configuration error; otherwise its text.
pub fn parse_completion(body: &str) -> (r: Result<MultimodalResponse, AppError>)
    ensures
        match completion_text(body@) {
            Err(m) => r matches Err(AppError::Config(got)) && got@ == m,
            Ok(t) => reply_outcome(t, r),
        },
{
    match read_message_content(body) {
        Err(m) => Err(AppError::Config(m)),
        Ok(content) => {
            let text = match content {
                Some(t) => t,
                None => String::new(),
            };
            if text.as_str().is_empty() {
                Err(AppError::Config(owned(EMPTY_RESPONSE)))
            } else {
                Ok(MultimodalResponse { text })
            }
        },
    }
}

/// The complete lines of `s` (split at line feeds, without them) and the unfinished rest.
pub open spec fn split_lines(s: Seq<char>) -> (Seq<Seq<char>>, Seq<char>)
    decreases s.len(),
{
    match find_char(s, '\n') {
        None => (Seq::empty(), s),
        Some(i) => {
            proof {
                lemma_find_char(s, '\n');
            }
            let (lines, rest) = split_lines(s.skip(i + 1));
            (seq![s.take(i)] + lines, rest)
        },
    }
}

/// The payload of a server-sent event line: the trimmed text after `data:` in a trimmed
/// line, unless it is `[DONE]`.
pub open spec fn sse_data(line: Seq<char>) -> Option<Seq<char>> {
    let l = trim(line);
    if l.len() == 0 || !has_prefix(l, "data:"@) {
        None
    } else {
        let d = trim(l.skip("data:"@.len() as int));
        if d == "[DONE]"@ {
            None
        } else {
            Some(d)
        }
    }
}

/// The content and reasoning pieces that one event line carries.
pub open spec fn line_delta(line: Seq<char>) -> (Option<Seq<char>>, Option<Seq<char>>) {
    match sse_data(line) {
        None => (None, None),
        Some(d) => match delta_fields(d) {
            Some(p) => p,
            None => (None, None),
        },
    }
}

/// An optional piece as a list of at most one piece.
pub open spec fn piece_list(p: Option<Seq<char>>) -> Seq<Seq<char>> {
    match p {
        Some(c) => seq![c],
        None => Seq::empty(),
    }
}

/// An optional piece as text.
pub open spec fn piece_text(p: Option<Seq<char>>) -> Seq<char> {
    match p {
        Some(c) => c,
        None => Seq::empty(),
    }
}

/// The content pieces of a list of event lines, in order.
pub open spec fn contents_of(lines: Seq<Seq<char>>) -> Seq<Seq<char>>
    decreases lines.len(),
{
    if lines.len() == 0 {
        Seq::empty()
    } else {
        contents_of(lines.drop_last()) + piece_list(line_delta(lines.last()).0)
    }
}

/// The reasoning text of a list of event lines.
pub open spec fn reasoning_of(lines: Seq<Seq<char>>) -> Seq<char>
    decreases lines.len(),
{
    if lines.len() == 0 {
        Seq::empty()
    } else {
        reasoning_of(lines.drop_last()) + piece_text(line_delta(lines.last()).1)
    }
}

/// The concatenation of a list of pieces.
pub open spec fn concat_all(pieces: Seq<Seq<char>>) -> Seq<char>
    decreases pieces.len(),
{
    if pieces.len() == 0 {
        Seq::empty()
    } else {
        concat_all(pieces.drop_last()) + pieces.last()
    }
}

/// The content and reasoning pieces of one event line.
fn read_event_line(line: &[char]) -> (r: (Option<String>, Option<String>))
    ensures
        opt_view(r.0) == line_delta(line@).0,
        opt_view(r.1) == line_delta(line@).1,
{
    let l = trim_chars(line);
    if l.len() == 0 {
        return (None, None);
    }
    let prefix = str_chars("data:");
    if !starts_with_chars(&l, &prefix) {
        return (None, None);
    }
    let rest = skip_chars(&l, prefix.len());
    let d = trim_chars(&rest);
    if chars_eq(&d, &str_chars("[DONE]")) {
        return (None, None);
    }
    let data = chars_to_string(&d);
    match read_delta_fields(data.as_str()) {
        Some((c, r)) => (c, r),
        None => (None, None),
    }
}

/// The state of reading a streamed (server-sent events) reply: the unfinished line, and
/// the content and reasoning text read so far.
pub struct StreamAccumulator {
    pending: Vec<char>,
    text: String,
    reasoning: String,
}

impl StreamAccumulator {
    /// The text received after the last complete line.
    pub closed spec fn pending_text(&self) -> Seq<char> {
        self.pending@
    }

    /// The content read so far.
    pub closed spec fn content_so_far(&self) -> Seq<char> {
        self.text@
    }

    /// The reasoning read so far.
    pub closed spec fn reasoning_so_far(&self) -> Seq<char> {
        self.reasoning@
    }

    /// A reader that has received nothing.
    pub fn new() -> (a: Self)
        ensures
            a.pending_text() == Seq::<char>::empty(),
            a.content_so_far() == Seq::<char>::empty(),
            a.reasoning_so_far() == Seq::<char>::empty(),
    {
        StreamAccumulator { pending: Vec::new(), text: String::new(), reasoning: String::new() }
    }

    /// Takes in the next piece of received text. Every line completed by it is read; the
    /// content pieces are returned in order (for the chunk callback) and added to the
    /// content, the reasoning pieces to the reasoning.
    pub fn feed_text(&mut self, text: &str) -> (pieces: Vec<String>)
        ensures
            ({
                let (lines, rest) = split_lines(old(self).pending_text() + text@);
                &&& final(self).pending_text() == rest
                &&& string_views(pieces@) == contents_of(lines)
                &&& final(self).content_so_far() == old(self).content_so_far() + concat_all(
                    contents_of(lines),
                )
                &&& final(self).reasoning_so_far() == old(self).reasoning_so_far()
                    + reasoning_of(lines)
            }),
    {
        let incoming = str_chars(text);
        let mut buf: Vec<char> = Vec::new();
        std::mem::swap(&mut buf, &mut self.pending);
        let mut k: usize = 0;
        while k < incoming.len()
            invariant
                k <= incoming@.len(),
                buf@ == old(self).pending_text() + incoming@.take(k as int),
            decreases incoming@.len() - k,
        {
            buf.push(incoming[k]);
            assert(incoming@.take(k as int + 1) =~= incoming@.take(k as int).push(
                incoming@[k as int],
            ));
            k = k + 1;
        }
        assert(incoming@.take(incoming@.len() as int) =~= incoming@);
        let ghost all = buf@;
        let ghost done: Seq<Seq<char>> = Seq::empty();
        let ghost text0 = self.text@;
        let ghost reasoning0 = self.reasoning@;
        let mut pieces: Vec<String> = Vec::new();
        assert(split_lines(all) == (done + split_lines(buf@).0, split_lines(buf@).1));
        loop
            invariant
                all == old(self).pending_text() + text@,
                text0 == old(self).content_so_far(),
                reasoning0 == old(self).reasoning_so_far(),
                split_lines(all) == (done + split_lines(buf@).0, split_lines(buf@).1),
                string_views(pieces@) == contents_of(done),
                self.text@ == text0 + concat_all(contents_of(done)),
                self.reasoning@ == reasoning0 + reasoning_of(done),
            ensures
                split_lines(all) == (done, buf@),
                string_views(pieces@) == contents_of(done),
                self.text@ == text0 + concat_all(contents_of(done)),
                self.reasoning@ == reasoning0 + reasoning_of(done),
            decreases buf@.len(),
        {
            match find_char_index(&buf, '\n') {
                None => {
                    assert(done + Seq::<Seq<char>>::empty() =~= done);
                    break;
                },
                Some(i) => {
                    proof {
                        lemma_find_char(buf@, '\n');
                    }
                    let blen = buf.len();
                    assert(i < blen);
                    let line = take_chars(&buf, i);
                    let rest = skip_chars(&buf, i + 1);
                    let ghost tail = split_lines(rest@);
                    assert(split_lines(buf@) == (seq![line@] + tail.0, tail.1));
                    let (content, reasoning) = read_event_line(&line);
                    let ghost new_done = done.push(line@);
                    assert(new_done.drop_last() =~= done);
                    assert(done + (seq![line@] + tail.0) =~= new_done + tail.0);
                    match content {
                        Some(c) => {
                            push_str(&mut self.text, c.as_str());
                            pieces.push(c);
                            assert(string_views(pieces@) =~= contents_of(done) + seq![c@]);
                        },
                        None => {
                            assert(contents_of(done) + Seq::<Seq<char>>::empty() =~= contents_of(
                                done,
                            ));
                        },
                    }
                    match reasoning {
                        Some(r) => {
                            push_str(&mut self.reasoning, r.as_str());
                        },
                        None => {
                            assert(self.reasoning@ + Seq::<char>::empty() =~= self.reasoning@);
                        },
                    }
                    proof {
                        let cs = contents_of(new_done);
                        assert(cs == contents_of(done) + piece_list(line_delta(line@).0));
                        if line_delta(line@).0 is Some {
                            assert(cs.drop_last() =~= contents_of(done));
                        } else {
                            assert(cs =~= contents_of(done));
                        }
                        vstd::seq_lib::lemma_concat_associative(
                            text0,
                            concat_all(contents_of(done)),
                            piece_text(line_delta(line@).0),
                        );
                        vstd::seq_lib::lemma_concat_associative(
                            reasoning0,
                            reasoning_of(done),
                            piece_text(line_delta(line@).1),
                        );
                        done = new_done;
                    }
                    buf = rest;
                },
            }
        }
        self.pending = buf;
        pieces
    }

    /// Takes in the next chunk of received bytes, decoded as `String::from_utf8_lossy` does.
    pub fn feed_bytes(&mut self, chunk: &[u8]) -> (pieces: Vec<String>)
        ensures
            ({
                let (lines, rest) = split_lines(old(self).pending_text() + utf8_lossy(chunk@));
                &&& final(self).pending_text() == rest
                &&& string_views(pieces@) == contents_of(lines)
                &&& final(self).content_so_far() == old(self).content_so_far() + concat_all(
                    contents_of(lines),
                )
                &&& final(self).reasoning_so_far() == old(self).reasoning_so_far()
                    + reasoning_of(lines)
            }),
    {
        let text = decode_utf8_lossy(chunk);
        self.feed_text(text.as_str())
    }

    /// The reply once the stream has ended: the content, or the reasoning when there is no
    /// content; an error when both are empty. An unfinished last line is not read.
    pub fn finish(self) -> (r: Result<MultimodalResponse, AppError>)
        ensures
            reply_outcome(reply_text(self.content_so_far(), self.reasoning_so_far()), r),
    {
        let text = if self.text.as_str().is_empty() && !self.reasoning.as_str().is_empty() {
            self.reasoning
        } else {
            self.text
        };
        if text.as_str().is_empty() {
            Err(AppError::Config(owned(EMPTY_RESPONSE)))
        } else {
            Ok(MultimodalResponse { text })
        }
    }
}

// ---------------------------------------------------------------------------
// Laws of the stream reader
// ---------------------------------------------------------------------------

/// The first occurrence of `c` in `s1` is the first in `s1 + s2`.
proof fn lemma_find_char_prefix(s1: Seq<char>, s2: Seq<char>, c: char, i: int)
    requires
        find_char(s1, c) == Some(i),
    ensures
        find_char(s1 + s2, c) == Some(i),
{
    lemma_find_char(s1, c);
    assert forall|j: int| 0 <= j < i implies (s1 + s2)[j] != c by {
        assert((s1 + s2)[j] == s1[j]);
    }
    lemma_find_char_at(s1 + s2, c, i);
}

/// Splitting `s1 + s2` into lines: the lines of `s1`, then the lines of its unfinished
/// rest followed by `s2`.
pub proof fn lemma_split_lines_concat(s1: Seq<char>, s2: Seq<char>)
    ensures
        ({
            let (l1, r1) = split_lines(s1);
            let (l2, r2) = split_lines(r1 + s2);
            split_lines(s1 + s2) == (l1 + l2, r2)
        }),
    decreases s1.len(),
{
    lemma_find_char(s1, '\n');
    match find_char(s1, '\n') {
        None => {
            assert(split_lines(s1) == (Seq::<Seq<char>>::empty(), s1));
            let (l2, r2) = split_lines(s1 + s2);
            assert(Seq::<Seq<char>>::empty() + l2 =~= l2);
        },
        Some(i) => {
            lemma_find_char_prefix(s1, s2, '\n', i);
            let t1 = s1.skip(i + 1);
            lemma_split_lines_concat(t1, s2);
            assert((s1 + s2).skip(i + 1) =~= t1 + s2);
            assert((s1 + s2).take(i) =~= s1.take(i));
            let (l1, r1) = split_lines(t1);
            let (l2, r2) = split_lines(r1 + s2);
            assert(split_lines(s1) == (seq![s1.take(i)] + l1, r1));
            assert(split_lines(s1 + s2) == (seq![s1.take(i)] + (l1 + l2), r2));
            assert(seq![s1.take(i)] + (l1 + l2) =~= (seq![s1.take(i)] + l1) + l2);
        },
    }
}

/// The content pieces of two lists of lines, one after the other.
pub proof fn lemma_contents_concat(l1: Seq<Seq<char>>, l2: Seq<Seq<char>>)
    ensures
        contents_of(l1 + l2) == contents_of(l1) + contents_of(l2),
        reasoning_of(l1 + l2) == reasoning_of(l1) + reasoning_of(l2),
    decreases l2.len(),
{
    if l2.len() == 0 {
        assert(l1 + l2 =~= l1);
        assert(contents_of(l1) + contents_of(l2) =~= contents_of(l1));
        assert(reasoning_of(l1) + reasoning_of(l2) =~= reasoning_of(l1));
    } else {
        lemma_contents_concat(l1, l2.drop_last());
        assert((l1 + l2).drop_last() =~= l1 + l2.drop_last());
        assert((l1 + l2).last() == l2.last());
        vstd::seq_lib::lemma_concat_associative(
            contents_of(l1),
            contents_of(l2.drop_last()),
            piece_list(line_delta(l2.last()).0),
        );
        vstd::seq_lib::lemma_concat_associative(
            reasoning_of(l1),
            reasoning_of(l2.drop_last()),
            piece_text(line_delta(l2.last()).1),
        );
    }
}

/// The text of two lists of pieces, one after the other.
pub proof fn lemma_concat_all_concat(p1: Seq<Seq<char>>, p2: Seq<Seq<char>>)
    ensures
        concat_all(p1 + p2) == concat_all(p1) + concat_all(p2),
    decreases p2.len(),
{
    if p2.len() == 0 {
        assert(p1 + p2 =~= p1);
        assert(concat_all(p1) + concat_all(p2) =~= concat_all(p1));
    } else {
        lemma_concat_all_concat(p1, p2.drop_last());
        assert((p1 + p2).drop_last() =~= p1 + p2.drop_last());
        vstd::seq_lib::lemma_concat_associative(
            concat_all(p1),
            concat_all(p2.drop_last()),
            p2.last(),
        );
    }
}

/// How the received text is cut into chunks does not matter: taking in `a` and then `b`
/// yields the same content pieces, the same content and reasoning, and leaves the same
/// unfinished line, as taking in `a + b` at once.
pub proof fn lemma_chunking_does_not_matter(pending: Seq<char>, a: Seq<char>, b: Seq<char>)
    ensures
        ({
            let (l1, r1) = split_lines(pending + a);
            let (l2, r2) = split_lines(r1 + b);
            let (l, r) = split_lines(pending + (a + b));
            &&& r == r2
            &&& contents_of(l) == contents_of(l1) + contents_of(l2)
            &&& concat_all(contents_of(l)) == concat_all(contents_of(l1)) + concat_all(
                contents_of(l2),
            )
            &&& reasoning_of(l) == reasoning_of(l1) + reasoning_of(l2)
        }),
{
    assert(pending + (a + b) =~= (pending + a) + b);
    lemma_split_lines_concat(pending + a, b);
    let (l1, r1) = split_lines(pending + a);
    let (l2, r2) = split_lines(r1 + b);
    lemma_contents_concat(l1, l2);
    lemma_concat_all_concat(contents_of(l1), contents_of(l2));
}

/// The dictated text is the streamed content whenever there is any, whatever reasoning
/// was streamed; the reasoning is used only when the content is empty.
pub proof fn lemma_content_before_reasoning(content: Seq<char>, reasoning: Seq<char>)
    ensures
        content.len() > 0 ==> reply_text(content, reasoning) == content,
        content.len() == 0 ==> reply_text(content, reasoning) == reasoning,
{
}

/// A finished stream with content answers with exactly the joined content pieces, and
/// fails only when neither content nor reasoning came.
pub proof fn lemma_finish_outcome(
    content: Seq<char>,
    reasoning: Seq<char>,
    r: Result<MultimodalResponse, AppError>,
)
    requires
        reply_outcome(reply_text(content, reasoning), r),
    ensures
        content.len() > 0 ==> (r matches Ok(resp) && resp.text@ == content),
        content.len() == 0 && reasoning.len() > 0 ==> (r matches Ok(resp) && resp.text@
            == reasoning),
        r is Err <==> content.len() == 0 && reasoning.len() == 0,
{
}

/// The `reasoning_effort` sent: nothing for an empty setting; any setting other than
/// `off` exactly as configured, whatever the endpoint; `off` becomes `none` on OpenRouter
/// and `low` elsewhere.
pub proof fn lemma_effort_setting_sent(effort: Seq<char>, base_url: Seq<char>)
    ensures
        effort.len() == 0 ==> effort_field(effort, base_url) is None,
        effort.len() > 0 && effort != "off"@ ==> effort_field(effort, base_url) == Some(effort),
        effort == "off"@ && contains_seq(base_url, "openrouter"@) ==> effort_field(
            effort,
            base_url,
        ) == Some("none"@),
        effort == "off"@ && !contains_seq(base_url, "openrouter"@) ==> effort_field(
            effort,
            base_url,
        ) == Some("low"@),
{
    reveal_strlit("off");
    assert("off"@.len() == 3);
}

} // verus!
