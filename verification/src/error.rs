//! Errors of the backend, the structured error shown to the user, and the retry policy.
use core::time::Duration;
use vstd::prelude::*;

use crate::text::{decimal, digit_char, push_decimal, push_str};

verus! {

/// Structured error sent to the frontend. The frontend uses `code` to look up a
/// translated message.
#[derive(Clone, Debug)]
pub struct UserError {
    pub code: String,
    pub details: Option<String>,
    pub retry_count: u32,
}

/// Internal error type used throughout the backend.
#[derive(Debug)]
pub enum AppError {
    Network(String),
    Timeout(Duration),
    Api { status: u16, body: String },
    Auth(String),
    Output(String),
    Config(String),
}

/// Whether an operation that failed with `e` may succeed when tried again: network
/// failures, timeouts and server-side (5xx) API errors.
pub open spec fn retryable(e: AppError) -> bool {
    match e {
        AppError::Network(_) => true,
        AppError::Timeout(_) => true,
        AppError::Api { status, .. } => status >= 500,
        AppError::Auth(_) => false,
        AppError::Output(_) => false,
        AppError::Config(_) => false,
    }
}

/// The status codes that mean the credentials were refused.
pub open spec fn is_auth_status(status: u16) -> bool {
    status == 401 || status == 403
}

/// The message code the frontend shows for `e`.
pub open spec fn user_code(e: AppError) -> Seq<char> {
    match e {
        AppError::Network(_) => "stt_timeout"@,
        AppError::Timeout(_) => "stt_timeout"@,
        AppError::Api { status, .. } => if is_auth_status(status) {
            "stt_invalid_key"@
        } else {
            "stt_failed"@
        },
        AppError::Auth(_) => "stt_invalid_key"@,
        AppError::Output(_) => "output_fallback_clipboard"@,
        AppError::Config(_) => "stt_failed"@,
    }
}

/// The details shown next to the message for `e`.
pub open spec fn user_details(e: AppError) -> Option<Seq<char>> {
    match e {
        AppError::Network(msg) => Some(msg@),
        AppError::Timeout(_) => None,
        AppError::Api { status, .. } => if is_auth_status(status) {
            None
        } else {
            Some("HTTP "@ + decimal(status as nat))
        },
        AppError::Auth(msg) => Some(msg@),
        AppError::Output(msg) => Some(msg@),
        AppError::Config(msg) => Some(msg@),
    }
}

/// The one-line description of `e`; `timeout_seconds` is the duration of a timeout
/// written with one decimal.
pub open spec fn error_text(e: AppError, timeout_seconds: Seq<char>) -> Seq<char> {
    match e {
        AppError::Network(msg) => "Network error: "@ + msg@,
        AppError::Timeout(_) => "Timeout after "@ + timeout_seconds + "s"@,
        AppError::Api { status, body } => "API error "@ + decimal(status as nat) + ": "@ + body@,
        AppError::Auth(msg) => "Auth error: "@ + msg@,
        AppError::Output(msg) => "Output error: "@ + msg@,
        AppError::Config(msg) => "Config error: "@ + msg@,
    }
}

/// What the HTTP client reports of a failed request: whether it timed out, the response
/// status if one came back, and its message.
#[derive(Clone, Debug)]
pub struct HttpFailure {
    pub timed_out: bool,
    pub status: Option<u16>,
    pub message: String,
}

/// The duration of `secs` whole seconds, as `Duration::from_secs` builds it.
pub uninterp spec fn duration_of_secs(secs: u64) -> Duration;

/// Calls `Duration::from_secs`, a pure constructor; the value is named `duration_of_secs`.
#[verifier::external_body]
pub(crate) fn duration_from_secs(secs: u64) -> (d: Duration)
    ensures
        d == duration_of_secs(secs),
{
    Duration::from_secs(secs)
}

/// The error that a failed HTTP request becomes: a 30 s timeout, an API error carrying
/// the status, or a network error.
pub open spec fn http_failure_error(f: HttpFailure) -> AppError {
    if f.timed_out {
        AppError::Timeout(duration_of_secs(30))
    } else if f.status is Some {
        AppError::Api { status: f.status->0, body: f.message }
    } else {
        AppError::Network(f.message)
    }
}

/// A string holding the literal `s`.
pub(crate) fn owned(s: &str) -> (r: String)
    ensures
        r@ == s@,
{
    let mut r = String::new();
    push_str(&mut r, s);
    r
}

impl AppError {
    /// Whether the failed operation may be tried again.
    pub fn is_retryable(&self) -> (b: bool)
        ensures
            b == retryable(*self),
    {
        match self {
            AppError::Network(_) => true,
            AppError::Timeout(_) => true,
            AppError::Api { status, .. } => *status >= 500,
            AppError::Auth(_) => false,
            AppError::Output(_) => false,
            AppError::Config(_) => false,
        }
    }

    /// The error as shown to the user, before any retry.
    pub fn to_user_error(&self) -> (u: UserError)
        ensures
            u.code@ == user_code(*self),
            u.details.deep_view() == user_details(*self),
            u.retry_count == 0,
    {
        let (code, details) = match self {
            AppError::Network(msg) => (owned("stt_timeout"), Some(msg.clone())),
            AppError::Timeout(_) => (owned("stt_timeout"), None),
            AppError::Api { status, .. } => {
                if *status == 401 || *status == 403 {
                    (owned("stt_invalid_key"), None)
                } else {
                    let mut d = owned("HTTP ");
                    push_decimal(&mut d, *status as u32);
                    (owned("stt_failed"), Some(d))
                }
            },
            AppError::Auth(msg) => (owned("stt_invalid_key"), Some(msg.clone())),
            AppError::Output(msg) => (owned("output_fallback_clipboard"), Some(msg.clone())),
            AppError::Config(msg) => (owned("stt_failed"), Some(msg.clone())),
        };
        UserError { code, details, retry_count: 0 }
    }

    /// The error as shown to the user after `count` retries.
    pub fn with_retry_count(self, count: u32) -> (u: UserError)
        ensures
            u.code@ == user_code(self),
            u.details.deep_view() == user_details(self),
            u.retry_count == count,
    {
        let mut ue = self.to_user_error();
        ue.retry_count = count;
        ue
    }

    /// The one-line description of the error; `timeout_seconds` is the timeout's duration
    /// in seconds with one decimal, which the caller renders.
    pub fn describe(&self, timeout_seconds: &str) -> (s: String)
        ensures
            s@ == error_text(*self, timeout_seconds@),
    {
        match self {
            AppError::Network(msg) => {
                let mut s = owned("Network error: ");
                push_str(&mut s, msg.as_str());
                s
            },
            AppError::Timeout(_) => {
                let mut s = owned("Timeout after ");
                push_str(&mut s, timeout_seconds);
                push_str(&mut s, "s");
                s
            },
            AppError::Api { status, body } => {
                let mut s = owned("API error ");
                push_decimal(&mut s, *status as u32);
                push_str(&mut s, ": ");
                push_str(&mut s, body.as_str());
                s
            },
            AppError::Auth(msg) => {
                let mut s = owned("Auth error: ");
                push_str(&mut s, msg.as_str());
                s
            },
            AppError::Output(msg) => {
                let mut s = owned("Output error: ");
                push_str(&mut s, msg.as_str());
                s
            },
            AppError::Config(msg) => {
                let mut s = owned("Config error: ");
                push_str(&mut s, msg.as_str());
                s
            },
        }
    }

    /// The error that a failed HTTP request becomes.
    pub fn from_http_failure(f: HttpFailure) -> (e: AppError)
        ensures
            e == http_failure_error(f),
    {
        if f.timed_out {
            AppError::Timeout(duration_from_secs(30))
        } else {
            match f.status {
                Some(status) => AppError::Api { status, body: f.message },
                None => AppError::Network(f.message),
            }
        }
    }
}

/// The HTTP client's error type.
#[verifier::external_type_specification]
#[verifier::external_body]
pub struct ExReqwestError(reqwest::Error);

/// Whether `reqwest::Error::is_timeout` reports a timeout for `e`: it walks the error's
/// source chain for a timeout, which depends on the error value alone.
pub uninterp spec fn timed_out_of(e: reqwest::Error) -> bool;

/// The status code that `reqwest::Error::status` reports for `e`, read as a number; it is
/// stored in the error value.
pub uninterp spec fn status_of(e: reqwest::Error) -> Option<u16>;

/// The text that the `Display` impl of `reqwest::Error` writes for `e`; it is made from
/// the error value's kind, URL and source.
pub uninterp spec fn text_of(e: reqwest::Error) -> Seq<char>;

/// Calls `reqwest::Error::is_timeout`; the answer is named `timed_out_of`.
#[verifier::external_body]
fn reqwest_error_is_timeout(e: &reqwest::Error) -> (b: bool)
    ensures
        b == timed_out_of(*e),
{
    e.is_timeout()
}

/// Calls `reqwest::Error::status` and reads the code with `StatusCode::as_u16`; the answer
/// is named `status_of`.
#[verifier::external_body]
fn reqwest_error_status(e: &reqwest::Error) -> (s: Option<u16>)
    ensures
        s == status_of(*e),
{
    e.status().map(|s| s.as_u16())
}

/// Renders the error with its `Display` impl; the text is named `text_of`.
#[verifier::external_body]
fn reqwest_error_text(e: &reqwest::Error) -> (t: String)
    ensures
        t@ == text_of(*e),
{
    e.to_string()
}

impl AppError {
    /// The error that a failed `reqwest` call becomes: a 30 s timeout when the client
    /// reports a timeout; otherwise an API error with the reported status and the error's
    /// text; otherwise a network error with the error's text.
    pub fn from_reqwest_error(e: &reqwest::Error) -> (r: AppError)
        ensures
            timed_out_of(*e) ==> r == AppError::Timeout(duration_of_secs(30)),
            !timed_out_of(*e) && status_of(*e) is Some ==> (r matches AppError::Api {
                status,
                body,
            } && status == status_of(*e)->0 && body@ == text_of(*e)),
            !timed_out_of(*e) && status_of(*e) is None ==> (r matches AppError::Network(m)
                && m@ == text_of(*e)),
    {
        let f = HttpFailure {
            timed_out: reqwest_error_is_timeout(e),
            status: reqwest_error_status(e),
            message: reqwest_error_text(e),
        };
        AppError::from_http_failure(f)
    }
}

// ---------------------------------------------------------------------------
// Retry policy
// ---------------------------------------------------------------------------

/// The pause before retry number `attempt + 1`: one second, doubled for every attempt
/// already retried (1000 * 2^attempt milliseconds).
pub open spec fn backoff_ms(attempt: nat) -> nat
    decreases attempt,
{
    if attempt == 0 {
        1000
    } else {
        2 * backoff_ms((attempt - 1) as nat)
    }
}

/// What to do after attempt number `attempt` (counted from 0) failed.
#[derive(Clone, Copy, Debug, PartialEq, Eq, Structural)]
pub enum RetryStep {
    /// Wait this many milliseconds, then try again.
    Retry { delay_ms: u64 },
    /// Return the error to the caller.
    GiveUp,
}

/// The backoff grows with the attempt number.
pub proof fn lemma_backoff_monotonic(a: nat, b: nat)
    requires
        a <= b,
    ensures
        backoff_ms(a) <= backoff_ms(b),
    decreases b,
{
    if a < b {
        lemma_backoff_monotonic(a, (b - 1) as nat);
    }
}

/// `1000 * 2^attempt`, computed without overflow.
pub fn backoff_delay_ms(attempt: u32) -> (d: u64)
    requires
        backoff_ms(attempt as nat) <= u64::MAX,
    ensures
        d == backoff_ms(attempt as nat),
{
    let mut d: u64 = 1000;
    let mut i: u32 = 0;
    while i < attempt
        invariant
            i <= attempt,
            d == backoff_ms(i as nat),
            backoff_ms(attempt as nat) <= u64::MAX,
        decreases attempt - i,
    {
        proof {
            lemma_backoff_monotonic(i as nat + 1, attempt as nat);
        }
        d = d * 2;
        i = i + 1;
    }
    d
}

/// The retry decision of a loop that makes at most `max_retries + 1` attempts: a failure
/// is retried when it is retryable and attempts remain, after `1000 * 2^attempt` ms.
pub open spec fn retry_step_spec(attempt: nat, max_retries: nat, error: AppError) -> RetryStep {
    if retryable(error) && attempt < max_retries {
        RetryStep::Retry { delay_ms: backoff_ms(attempt) as u64 }
    } else {
        RetryStep::GiveUp
    }
}

/// Decides whether attempt number `attempt` (counted from 0), which failed with `error`,
/// is retried and after how long. The loop around it (which awaits the operation, reports
/// the retry and sleeps) belongs to the caller.
pub fn retry_step(attempt: u32, max_retries: u32, error: &AppError) -> (s: RetryStep)
    requires
        retryable(*error) && attempt < max_retries ==> backoff_ms(attempt as nat) <= u64::MAX,
    ensures
        s == retry_step_spec(attempt as nat, max_retries as nat, *error),
{
    if error.is_retryable() && attempt < max_retries {
        RetryStep::Retry { delay_ms: backoff_delay_ms(attempt) }
    } else {
        RetryStep::GiveUp
    }
}

/// Retries stop at the last allowed attempt: attempt number `max_retries` is never retried,
/// so at most `max_retries + 1` attempts are made.
pub proof fn lemma_retries_bounded(max_retries: nat, error: AppError)
    ensures
        retry_step_spec(max_retries, max_retries, error) == RetryStep::GiveUp,
{
}

/// Errors that are not retryable (authentication, configuration, output, 4xx API) are
/// never retried.
pub proof fn lemma_permanent_errors_not_retried(attempt: nat, max_retries: nat, error: AppError)
    requires
        !retryable(error),
    ensures
        retry_step_spec(attempt, max_retries, error) == RetryStep::GiveUp,
{
}

/// Each retry waits twice as long as the one before.
pub proof fn lemma_backoff_doubles(attempt: nat)
    ensures
        backoff_ms(attempt + 1) == 2 * backoff_ms(attempt),
{
}

/// A retryable error is shown to the user as a timeout or a failure, never as a
/// credentials problem.
pub proof fn lemma_retryable_shown_as_transient(e: AppError)
    requires
        retryable(e),
    ensures
        user_code(e) == "stt_timeout"@ || user_code(e) == "stt_failed"@,
{
}

/// Which errors are retried: network failures and timeouts always; an API error exactly
/// when its status is a server error (500 or above); authentication, output and
/// configuration errors never.
pub proof fn lemma_retryable_classes(e: AppError)
    ensures
        e is Network ==> retryable(e),
        e is Timeout ==> retryable(e),
        e is Auth ==> !retryable(e),
        e is Output ==> !retryable(e),
        e is Config ==> !retryable(e),
        forall|status: u16, body: String|
            retryable(AppError::Api { status, body }) <==> status >= 500,
{
}

/// How an API error is shown: as an invalid key, without details, exactly for 401 and
/// 403; every other status is a failure whose details are `HTTP ` and the status.
pub proof fn lemma_api_error_display(status: u16, body: String)
    ensures
        user_code(AppError::Api { status, body }) == "stt_invalid_key"@ <==> (status == 401
            || status == 403),
        !(status == 401 || status == 403) ==> user_code(AppError::Api { status, body })
            == "stt_failed"@ && user_details(AppError::Api { status, body }) == Some(
            "HTTP "@ + decimal(status as nat),
        ),
        (status == 401 || status == 403) ==> user_details(AppError::Api { status, body })
            is None,
{
    reveal_strlit("stt_invalid_key");
    reveal_strlit("stt_failed");
    assert("stt_invalid_key"@.len() != "stt_failed"@.len());
}

/// The number that a decimal numeral denotes.
pub open spec fn numeral_value(s: Seq<char>) -> nat
    decreases s.len(),
{
    if s.len() == 0 {
        0
    } else {
        10 * numeral_value(s.drop_last()) + digit_value(s.last())
    }
}

/// The value of an ASCII digit.
pub open spec fn digit_value(c: char) -> nat {
    if '0' <= c <= '9' {
        (c as u32 - '0' as u32) as nat
    } else {
        0
    }
}

/// An ASCII digit denotes its value.
proof fn lemma_digit(k: nat)
    requires
        k < 10,
    ensures
        '0' <= digit_char(k) <= '9',
        digit_value(digit_char(k)) == k,
{
}

/// The status in the details is written correctly: every character is a digit, and the
/// numeral denotes the status.
pub proof fn lemma_decimal_denotes(n: nat)
    ensures
        decimal(n).len() > 0,
        forall|i: int| 0 <= i < decimal(n).len() ==> '0' <= #[trigger] decimal(n)[i] <= '9',
        numeral_value(decimal(n)) == n,
    decreases n,
{
    lemma_digit(n % 10);
    if n < 10 {
        assert(decimal(n).drop_last() =~= Seq::<char>::empty());
        assert(numeral_value(Seq::<char>::empty()) == 0);
        assert(decimal(n).last() == digit_char(n));
    } else {
        lemma_decimal_denotes(n / 10);
        let d = decimal(n);
        assert(d.drop_last() =~= decimal(n / 10));
        assert(d.last() == digit_char(n % 10));
        assert(numeral_value(d) == 10 * numeral_value(decimal(n / 10)) + digit_value(
            digit_char(n % 10),
        ));
        assert(n == 10 * (n / 10) + n % 10);
        assert forall|i: int| 0 <= i < d.len() implies '0' <= #[trigger] d[i] <= '9' by {
            if i < d.len() - 1 {
                assert(d[i] == decimal(n / 10)[i]);
            }
        }
    }
}

} // verus!
