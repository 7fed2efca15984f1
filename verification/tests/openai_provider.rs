use voice_pipeline::error::AppError;
use voice_pipeline::llm::{AppType, LlmConfig};
use voice_pipeline::multimodal::openai::{
    parse_completion, plan_chat_request, rejection_error, step_after_send_error,
    step_after_status, AttemptStep, OpenAiMultimodalProvider, StreamAccumulator,
};
use voice_pipeline::multimodal::MultimodalRequest;

fn config(base_url: &str, model: &str, effort: &str) -> LlmConfig {
    LlmConfig {
        base_url: base_url.to_string(),
        api_key: "sk-test".to_string(),
        model: model.to_string(),
        max_tokens: 1024,
        reasoning_effort: effort.to_string(),
    }
}

fn request(selected: Option<&str>) -> MultimodalRequest {
    MultimodalRequest {
        audio_wav: b"Man".to_vec(),
        system_prompt: "prompt".to_string(),
        app_type: AppType::General,
        dictionary: vec![],
        translate_enabled: false,
        target_lang: String::new(),
        selected_text: selected.map(|s| s.to_string()),
    }
}

#[test]
fn provider_name() {
    let p = OpenAiMultimodalProvider::with_client(reqwest::Client::new());
    assert_eq!(p.name(), "OpenAI Multimodal");
}

#[test]
fn plan_basic_fields() {
    let p = plan_chat_request(&config("https://api.example.com/v1///", "gpt-4o", ""), &request(None), false);
    assert_eq!(p.url, "https://api.example.com/v1/chat/completions");
    assert_eq!(p.authorization, "Bearer sk-test");
    assert_eq!(p.model, "gpt-4o");
    assert_eq!(p.max_tokens, 1024);
    assert!(!p.stream);
    assert_eq!(p.system_prompt, "prompt");
    assert_eq!(p.selected_text_message, None);
    assert_eq!(p.audio_base64, "TWFu");
    assert_eq!(p.reasoning_effort, None);
    assert!(!p.enable_thinking);
}

#[test]
fn plan_selected_text_and_stream() {
    let p = plan_chat_request(&config("http://x", "m", ""), &request(Some("abc")), true);
    assert!(p.stream);
    assert_eq!(p.selected_text_message.as_deref(), Some("<selected_text>abc</selected_text>"));
}

#[test]
fn plan_base64_padding() {
    let mut r = request(None);
    r.audio_wav = b"Ma".to_vec();
    assert_eq!(plan_chat_request(&config("h", "m", ""), &r, false).audio_base64, "TWE=");
    r.audio_wav = b"M".to_vec();
    assert_eq!(plan_chat_request(&config("h", "m", ""), &r, false).audio_base64, "TQ==");
    r.audio_wav = vec![0xfb, 0xff, 0xbf];
    assert_eq!(plan_chat_request(&config("h", "m", ""), &r, false).audio_base64, "+/+/");
}

#[test]
fn plan_reasoning_effort() {
    let off_router = plan_chat_request(&config("https://openrouter.ai/api/v1", "m", "off"), &request(None), false);
    assert_eq!(off_router.reasoning_effort.as_deref(), Some("none"));
    let off = plan_chat_request(&config("https://api.openai.com/v1", "m", "off"), &request(None), false);
    assert_eq!(off.reasoning_effort.as_deref(), Some("low"));
    let high = plan_chat_request(&config("https://api.openai.com/v1", "m", "high"), &request(None), false);
    assert_eq!(high.reasoning_effort.as_deref(), Some("high"));
}

#[test]
fn plan_glm_thinking() {
    assert!(plan_chat_request(&config("h", "glm-4.5", ""), &request(None), false).enable_thinking);
    assert!(plan_chat_request(&config("h", "glm-4.5", "high"), &request(None), false).enable_thinking);
    assert!(!plan_chat_request(&config("h", "glm-4.5", "off"), &request(None), false).enable_thinking);
    assert!(!plan_chat_request(&config("h", "glm-4.5", "low"), &request(None), false).enable_thinking);
    assert!(!plan_chat_request(&config("h", "gpt-glm-", ""), &request(None), false).enable_thinking);
}

#[test]
fn attempt_steps() {
    assert_eq!(step_after_status(0, 200), AttemptStep::Proceed);
    assert_eq!(step_after_status(2, 204), AttemptStep::Proceed);
    assert_eq!(step_after_status(0, 500), AttemptStep::Retry { delay_ms: 1000 });
    assert_eq!(step_after_status(1, 503), AttemptStep::Retry { delay_ms: 2000 });
    assert_eq!(step_after_status(2, 503), AttemptStep::Stop);
    assert_eq!(step_after_status(0, 404), AttemptStep::Stop);
    assert_eq!(step_after_send_error(0, true), AttemptStep::Retry { delay_ms: 1000 });
    assert_eq!(step_after_send_error(2, true), AttemptStep::Stop);
    assert_eq!(step_after_send_error(0, false), AttemptStep::Stop);
}

#[test]
fn rejection_body_is_truncated() {
    let body = "é".repeat(150); // 300 bytes
    match rejection_error(400, &body) {
        AppError::Api { status, body } => {
            assert_eq!(status, 400);
            assert_eq!(body.len(), 200);
        }
        other => panic!("{:?}", other),
    }
    let odd = "a".to_string() + &"é".repeat(150);
    match rejection_error(400, &odd) {
        AppError::Api { body, .. } => assert_eq!(body.len(), 199),
        other => panic!("{:?}", other),
    }
}

#[test]
fn non_streaming_replies() {
    let ok = parse_completion(r#"{"choices":[{"message":{"content":"hello"}}]}"#).unwrap();
    assert_eq!(ok.text, "hello");
    match parse_completion(r#"{"choices":[{"message":{"content":""}}]}"#) {
        Err(AppError::Config(m)) => assert_eq!(m, "Multimodal API returned empty response"),
        other => panic!("{:?}", other),
    }
    match parse_completion(r#"{"choices":[]}"#) {
        Err(AppError::Config(m)) => assert_eq!(m, "Multimodal API returned empty response"),
        other => panic!("{:?}", other),
    }
    match parse_completion("not json") {
        Err(AppError::Config(m)) => assert!(!m.is_empty()),
        other => panic!("{:?}", other),
    }
}

fn event(content: &str) -> String {
    format!("data: {{\"choices\":[{{\"delta\":{{\"content\":\"{}\"}}}}]}}\n", content)
}

#[test]
fn stream_collects_content() {
    let mut acc = StreamAccumulator::new();
    let mut pieces = acc.feed_text(&event("Hel"));
    pieces.extend(acc.feed_text(&(event("lo") + ": comment\n\ndata: [DONE]\n")));
    assert_eq!(pieces, vec!["Hel".to_string(), "lo".to_string()]);
    assert_eq!(acc.finish().unwrap().text, "Hello");
}

#[test]
fn stream_lines_split_across_chunks() {
    let whole = event("abc") + &event("def");
    let mut one = StreamAccumulator::new();
    let p1 = one.feed_text(&whole);
    let mut two = StreamAccumulator::new();
    let (a, b) = whole.split_at(17);
    let mut p2 = two.feed_text(a);
    assert!(p2.is_empty());
    p2.extend(two.feed_text(b));
    assert_eq!(p1, p2);
    assert_eq!(one.finish().unwrap().text, two.finish().unwrap().text);
}

#[test]
fn stream_falls_back_to_reasoning() {
    let mut acc = StreamAccumulator::new();
    let pieces = acc.feed_bytes(
        b"data: {\"choices\":[{\"delta\":{\"reasoning_content\":\"thinking\"}}]}\n",
    );
    assert!(pieces.is_empty());
    assert_eq!(acc.finish().unwrap().text, "thinking");
}

#[test]
fn stream_without_text_is_an_error() {
    let mut acc = StreamAccumulator::new();
    acc.feed_text("data: not json\n");
    // an unfinished line is not read
    acc.feed_text(&event("late").trim_end().to_string());
    match acc.finish() {
        Err(AppError::Config(m)) => assert_eq!(m, "Multimodal API returned empty response"),
        other => panic!("{:?}", other),
    }
}

#[test]
fn stream_replaces_invalid_utf8() {
    let mut acc = StreamAccumulator::new();
    let mut bytes = b"data: {\"choices\":[{\"delta\":{\"content\":\"a".to_vec();
    bytes.push(0xff);
    bytes.extend_from_slice(b"b\"}}]}\n");
    let pieces = acc.feed_bytes(&bytes);
    assert_eq!(pieces, vec!["a\u{fffd}b".to_string()]);
}
