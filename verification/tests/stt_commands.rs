use voice_pipeline::commands::stt::{
    bench_connection_route, cloud_bench_outcome, cloud_test_outcome, direct_bench_outcome,
    is_pro_plan, plan_stt_test_request, silent_test_wav, test_connection_route, ConnectionRoute,
    StatusReply, SttTestRequest, WhisperEndpoint,
};
use voice_pipeline::json::subscription_plan;
use voice_pipeline::multimodal::build_wav;

#[test]
fn test_build_whisper_test_wav() {
    // The WAV builder used for the connection test produces valid headers.
    let silent_pcm = vec![0u8; 3200]; // 0.1s at 16kHz 16-bit mono
    let wav = build_wav(&silent_pcm, 16000);

    assert_eq!(wav.len(), 3244); // 44 header + 3200 data
    assert_eq!(&wav[0..4], b"RIFF");
    assert_eq!(&wav[8..12], b"WAVE");
}

#[test]
fn test_send_stt_test_request_unknown_provider_errors() {
    // An unknown provider has no Whisper-compatible settings, and the request fails.
    let result = plan_stt_test_request("nonexistent", "key", "", "https://example.invalid", None);
    assert!(result.is_err());
    assert_eq!(result.unwrap_err(), "Unknown STT provider: nonexistent");
}

#[test]
fn silent_test_wav_matches_build_wav() {
    assert_eq!(silent_test_wav(), build_wav(&vec![0u8; 3200], 16000));
}

#[test]
fn cloud_needs_a_session_token() {
    let r = plan_stt_test_request("cloud", "", "", "https://api.example.com", None);
    assert_eq!(r.unwrap_err(), "Not signed in");
    match plan_stt_test_request("cloud", "", "tok", "https://api.example.com", None).unwrap() {
        SttTestRequest::Get { url, authorization, timeout_secs } => {
            assert_eq!(url, "https://api.example.com/api/subscription/status");
            assert_eq!(authorization, "Bearer tok");
            assert_eq!(timeout_secs, 10);
        }
        other => panic!("unexpected plan {:?}", other),
    }
}

#[test]
fn deepgram_and_assemblyai_checks() {
    match plan_stt_test_request("deepgram", "dg", "", "", None).unwrap() {
        SttTestRequest::Get { url, authorization, timeout_secs } => {
            assert_eq!(url, "https://api.deepgram.com/v1/projects");
            assert_eq!(authorization, "Token dg");
            assert_eq!(timeout_secs, 10);
        }
        other => panic!("unexpected plan {:?}", other),
    }
    match plan_stt_test_request("assemblyai", "aa", "", "", None).unwrap() {
        SttTestRequest::Get { url, authorization, timeout_secs } => {
            assert_eq!(url, "https://api.assemblyai.com/v2/transcript?limit=1");
            assert_eq!(authorization, "aa");
            assert_eq!(timeout_secs, 10);
        }
        other => panic!("unexpected plan {:?}", other),
    }
}

#[test]
fn whisper_compatible_upload() {
    let w = WhisperEndpoint {
        endpoint: "https://stt.example.com/v1/audio/transcriptions".to_string(),
        model: "whisper-1".to_string(),
        extra_fields: vec![("language".to_string(), "en".to_string())],
    };
    match plan_stt_test_request("other", "k", "", "", Some(w)).unwrap() {
        SttTestRequest::Upload { url, authorization, model, extra_fields, wav, timeout_secs } => {
            assert_eq!(url, "https://stt.example.com/v1/audio/transcriptions");
            assert_eq!(authorization, "Bearer k");
            assert_eq!(model, "whisper-1");
            assert_eq!(extra_fields, vec![("language".to_string(), "en".to_string())]);
            assert_eq!(wav.len(), 3244);
            assert_eq!(timeout_secs, 15);
        }
        other => panic!("unexpected plan {:?}", other),
    }
}

#[test]
fn connection_routes() {
    assert_eq!(test_connection_route("", "k"), ConnectionRoute::Skip);
    assert_eq!(test_connection_route("cloud", ""), ConnectionRoute::Cloud);
    assert_eq!(test_connection_route("deepgram", ""), ConnectionRoute::Skip);
    assert_eq!(test_connection_route("deepgram", "k"), ConnectionRoute::Direct);
    assert_eq!(bench_connection_route("", "k").unwrap_err(), "No provider specified");
    assert_eq!(bench_connection_route("groq", "").unwrap_err(), "API key is empty");
    assert_eq!(bench_connection_route("cloud", "").unwrap(), ConnectionRoute::Cloud);
    assert_eq!(bench_connection_route("groq", "k").unwrap(), ConnectionRoute::Direct);
}

#[test]
fn pro_plan_checks() {
    assert!(is_pro_plan(Some("pro")));
    assert!(!is_pro_plan(Some("free")));
    assert!(!is_pro_plan(None));
    assert_eq!(cloud_bench_outcome(false, Some("pro")).unwrap_err(), "Request failed");
    assert_eq!(cloud_bench_outcome(true, Some("free")).unwrap_err(), "Pro plan required");
    assert!(cloud_bench_outcome(true, Some("pro")).is_ok());
}

fn json(text: &str) -> serde_json::Value {
    serde_json::from_str(text).unwrap()
}

#[test]
fn cloud_test_outcomes() {
    assert_eq!(cloud_test_outcome(StatusReply::NotSent), Ok(false));
    assert_eq!(cloud_test_outcome(StatusReply::Refused), Ok(false));
    assert_eq!(
        cloud_test_outcome(StatusReply::Body(Err("error decoding response body".to_string()))),
        Err("error decoding response body".to_string())
    );
    assert_eq!(cloud_test_outcome(StatusReply::Body(Ok(json(r#"{"plan":"pro"}"#)))), Ok(true));
    assert_eq!(cloud_test_outcome(StatusReply::Body(Ok(json(r#"{"plan":"free"}"#)))), Ok(false));
    assert_eq!(cloud_test_outcome(StatusReply::Body(Ok(json(r#"{"plan":1}"#)))), Ok(false));
}

#[test]
fn direct_bench_outcomes() {
    assert_eq!(direct_bench_outcome(Err("timeout".to_string()), "", 5), Err("timeout".to_string()));
    assert_eq!(
        direct_bench_outcome(Ok(false), "404 Not Found", 5),
        Err("HTTP 404 Not Found".to_string())
    );
    assert_eq!(direct_bench_outcome(Ok(true), "200 OK", 42), Ok(42));
}

#[test]
fn subscription_plan_field() {
    assert_eq!(subscription_plan(&json(r#"{"plan":"pro"}"#)).as_deref(), Some("pro"));
    assert_eq!(subscription_plan(&json(r#"[1,2]"#)), None);
}
