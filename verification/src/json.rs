//! Reading the fields that the chat-completions API returns. `serde_json` parses and
//! indexes; which fields are read is decided here.
use vstd::prelude::*;


verus! {

/// A parsed JSON value of `serde_json`.
#[verifier::external_type_specification]
#[verifier::external_body]
pub struct ExJsonValue(serde_json::Value);

/// What `serde_json::from_str::<Value>` makes of `text`: the value, or the message of the
/// parse error.
pub uninterp spec fn json_parse(text: Seq<char>) -> Result<serde_json::Value, Seq<char>>;

/// The member `key` of `v`, as indexing a `Value` by a string gives it (`Null` when `v` is
/// not an object or has no such member).
pub uninterp spec fn json_member(v: serde_json::Value, key: Seq<char>) -> serde_json::Value;

/// The element at `index` of `v`, as indexing a `Value` by a number gives it (`Null` when
/// `v` is not an array or is too short).
pub uninterp spec fn json_element(v: serde_json::Value, index: usize) -> serde_json::Value;

/// The string that `Value::as_str` reads from `v`, if `v` is a string.
pub uninterp spec fn json_text(v: serde_json::Value) -> Option<Seq<char>>;

/// The views of an optional string.
pub open spec fn opt_view(o: Option<String>) -> Option<Seq<char>> {
    match o {
        Some(s) => Some(s@),
        None => None,
    }
}

/// Calls `serde_json::from_str::<Value>`, rendering a parse error with its `Display`
/// impl; the outcome is named `json_parse`.
#[verifier::external_body]
fn parse_json(text: &str) -> (r: Result<serde_json::Value, String>)
    ensures
        match (r, json_parse(text@)) {
            (Ok(v), Ok(w)) => v == w,
            (Err(m), Err(w)) => m@ == w,
            _ => false,
        },
{
    serde_json::from_str::<serde_json::Value>(text).map_err(|e| e.to_string())
}

/// Indexes a `Value` by a string key (`Index<&str>`, which never panics); the result is
/// named `json_member`.
#[verifier::external_body]
fn member<'a>(v: &'a serde_json::Value, key: &str) -> (r: &'a serde_json::Value)
    ensures
        *r == json_member(*v, key@),
{
    &v[key]
}

/// Indexes a `Value` by a position (`Index<usize>`, which never panics); the result is
/// named `json_element`.
#[verifier::external_body]
fn element<'a>(v: &'a serde_json::Value, index: usize) -> (r: &'a serde_json::Value)
    ensures
        *r == json_element(*v, index),
{
    &v[index]
}

/// Calls `Value::as_str` and copies the string out; the result is named `json_text`.
#[verifier::external_body]
fn text_of_value(v: &serde_json::Value) -> (r: Option<String>)
    ensures
        opt_view(r) == json_text(*v),
{
    v.as_str().map(|s| s.to_string())
}

/// A completion body read at `choices[0].message.content`: `Err` with the parser's
/// message when the body is not JSON, else the string there if there is one.
pub open spec fn message_content(body: Seq<char>) -> Result<Option<Seq<char>>, Seq<char>> {
    match json_parse(body) {
        Err(m) => Err(m),
        Ok(v) => Ok(
            json_text(
                json_member(
                    json_member(json_element(json_member(v, "choices"@), 0), "message"@),
                    "content"@,
                ),
            ),
        ),
    }
}

/// The payload of a streamed event read at `choices[0].delta.content` and
/// `choices[0].delta.reasoning_content`: `None` when it is not JSON.
pub open spec fn delta_fields(data: Seq<char>) -> Option<(Option<Seq<char>>, Option<Seq<char>>)> {
    match json_parse(data) {
        Err(_) => None,
        Ok(v) => {
            let delta = json_member(json_element(json_member(v, "choices"@), 0), "delta"@);
            Some((json_text(json_member(delta, "content"@)), json_text(json_member(delta, "reasoning_content"@))))
        },
    }
}

/// The `plan` member of a subscription-status reply, when it is a string.
pub open spec fn plan_field(v: serde_json::Value) -> Option<Seq<char>> {
    json_text(json_member(v, "plan"@))
}

/// Reads `choices[0].message.content` of a completion body.
pub fn read_message_content(body: &str) -> (r: Result<Option<String>, String>)
    ensures
        match (r, message_content(body@)) {
            (Ok(got), Ok(want)) => opt_view(got) == want,
            (Err(got), Err(want)) => got@ == want,
            _ => false,
        },
{
    match parse_json(body) {
        Err(m) => Err(m),
        Ok(v) => {
            let choices = member(&v, "choices");
            let first = element(choices, 0);
            let message = member(first, "message");
            let content = member(message, "content");
            Ok(text_of_value(content))
        },
    }
}

/// Reads `choices[0].delta.content` and `choices[0].delta.reasoning_content` of an event
/// payload.
pub fn read_delta_fields(data: &str) -> (r: Option<(Option<String>, Option<String>)>)
    ensures
        match (r, delta_fields(data@)) {
            (Some((c, rc)), Some((want_c, want_rc))) => opt_view(c) == want_c && opt_view(rc)
                == want_rc,
            (None, None) => true,
            _ => false,
        },
{
    match parse_json(data) {
        Err(_) => None,
        Ok(v) => {
            let choices = member(&v, "choices");
            let first = element(choices, 0);
            let delta = member(first, "delta");
            let content = text_of_value(member(delta, "content"));
            let reasoning = text_of_value(member(delta, "reasoning_content"));
            Some((content, reasoning))
        },
    }
}

/// Reads the `plan` member of a subscription-status reply.
pub fn subscription_plan(v: &serde_json::Value) -> (r: Option<String>)
    ensures
        opt_view(r) == plan_field(*v),
{
    text_of_value(member(v, "plan"))
}

} // verus!
