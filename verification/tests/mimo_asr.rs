use voice_pipeline::error::AppError;
use voice_pipeline::stt::mimo_asr::{clean_transcript, interpret_reply, MimoAsrProvider, MimoReply};
use voice_pipeline::stt::noop::NoopSttProvider;
use voice_pipeline::stt::SttConfig;

fn cfg(key: &str, language: Option<&str>) -> SttConfig {
    SttConfig {
        api_key: key.to_string(),
        sample_rate: 16000,
        language: language.map(|s| s.to_string()),
    }
}

#[test]
fn noop_provider_name() {
    assert_eq!(NoopSttProvider::new().name(), "noop");
}

#[test]
fn empty_key_is_refused() {
    let mut p = MimoAsrProvider::with_client(reqwest::Client::new());
    assert_eq!(p.name(), "mimo-asr");
    match p.connect(&cfg("", None)) {
        Err(AppError::Auth(m)) => assert_eq!(m, "MiMo ASR API key is empty"),
        other => panic!("{:?}", other),
    }
    assert!(p.begin_transcription().is_none());
}

#[test]
fn session_transcribes_buffered_audio() {
    let mut p = MimoAsrProvider::with_client(reqwest::Client::new());
    p.connect(&cfg("k", Some("zh"))).unwrap();
    assert!(p.begin_transcription().is_none());
    p.send_audio(&[1, 2]).unwrap();
    p.send_audio(&[3]).unwrap();
    let req = p.begin_transcription().unwrap();
    assert_eq!(req.url, "https://api.xiaomimimo.com/v1/chat/completions");
    assert_eq!(req.authorization, "Bearer k");
    assert_eq!(req.model, "mimo-v2.5-asr");
    assert!(!req.stream);
    assert_eq!(req.language, "zh");
    assert!(req.audio_data_url.starts_with("data:audio/wav;base64,UklG"));
    // 47 bytes of WAV become 64 Base64 characters.
    assert_eq!(req.audio_data_url.len(), "data:audio/wav;base64,".len() + 64);
    // the buffer was emptied
    assert!(p.begin_transcription().is_none());
}

#[test]
fn language_defaults_to_auto() {
    for lang in [None, Some("multi")] {
        let mut p = MimoAsrProvider::with_client(reqwest::Client::new());
        p.connect(&cfg("k", lang)).unwrap();
        p.send_audio(&[0, 0]).unwrap();
        assert_eq!(p.begin_transcription().unwrap().language, "auto");
    }
}

#[test]
fn audio_limit() {
    let mut p = MimoAsrProvider::with_client(reqwest::Client::new());
    p.connect(&cfg("k", None)).unwrap();
    let big = vec![0u8; 24 * 1024 * 1024];
    p.send_audio(&big).unwrap();
    match p.send_audio(&[0]) {
        Err(AppError::Config(m)) => assert_eq!(m, "MiMo ASR: audio exceeds maximum length (~12 min)"),
        other => panic!("{:?}", other),
    }
}

#[test]
fn reply_with_language_tag() {
    let body = r#"{"choices":[{"message":{"content":"  <chinese> 你好 "}}]}"#;
    match interpret_reply(0, 200, body) {
        MimoReply::Transcript(t) => assert_eq!(t.as_deref(), Some("你好")),
        other => panic!("{:?}", other),
    }
    let empty = r#"{"choices":[{"message":{"content":"   "}}]}"#;
    match interpret_reply(0, 200, empty) {
        MimoReply::Transcript(t) => assert_eq!(t, None),
        other => panic!("{:?}", other),
    }
    let untagged = r#"{"choices":[{"message":{"content":"<b hello"}}]}"#;
    match interpret_reply(0, 200, untagged) {
        MimoReply::Transcript(t) => assert_eq!(t.as_deref(), Some("<b hello")),
        other => panic!("{:?}", other),
    }
}

#[test]
fn reply_errors_and_retries() {
    match interpret_reply(0, 200, "{") {
        MimoReply::Failed(AppError::Config(_)) => {}
        other => panic!("{:?}", other),
    }
    match interpret_reply(1, 502, "oops") {
        MimoReply::Retry { delay_ms } => assert_eq!(delay_ms, 2000),
        other => panic!("{:?}", other),
    }
    match interpret_reply(2, 502, "oops") {
        MimoReply::Failed(AppError::Api { status, body }) => {
            assert_eq!(status, 502);
            assert_eq!(body, "oops");
        }
        other => panic!("{:?}", other),
    }
    match interpret_reply(0, 429, "slow down") {
        MimoReply::Failed(AppError::Api { status, body }) => {
            assert_eq!(status, 429);
            assert_eq!(
                body,
                "Rate limit exceeded. Please check your API quota or try again later."
            );
        }
        other => panic!("{:?}", other),
    }
    let long = "y".repeat(199) + "日本";
    match interpret_reply(0, 400, &long) {
        MimoReply::Failed(AppError::Api { body, .. }) => {
            assert_eq!(body, "y".repeat(199) + "日")
        }
        other => panic!("{:?}", other),
    }
}

#[test]
fn noop_provider_session() {
    let mut p = NoopSttProvider::new();
    assert!(p.connect(&cfg("", None)).is_ok());
    assert!(p.send_audio(&[1, 2, 3]).is_ok());
    assert_eq!(p.disconnect().unwrap(), None);
}

#[test]
fn transcript_cleaning() {
    assert_eq!(clean_transcript(Some(" <english> hello world ".to_string())).as_deref(), Some("hello world"));
    assert_eq!(clean_transcript(Some("\u{3000}text\n".to_string())).as_deref(), Some("text"));
    assert_eq!(clean_transcript(Some("<tag>".to_string())), None);
    assert_eq!(clean_transcript(None), None);
}

#[test]
fn recv_transcript_is_always_empty() {
    let mut p = MimoAsrProvider::with_client(reqwest::Client::new());
    assert!(p.recv_transcript().unwrap().is_none());
    let mut n = NoopSttProvider::new();
    assert!(n.recv_transcript().unwrap().is_none());
}
