use std::time::Duration;
use voice_pipeline::error::{backoff_delay_ms, retry_step, AppError, HttpFailure, RetryStep};

fn all_errors() -> Vec<AppError> {
    vec![
        AppError::Network("net down".to_string()),
        AppError::Timeout(Duration::from_secs(30)),
        AppError::Api { status: 503, body: "busy".to_string() },
        AppError::Api { status: 404, body: "missing".to_string() },
        AppError::Api { status: 401, body: "no".to_string() },
        AppError::Api { status: 403, body: "no".to_string() },
        AppError::Auth("bad key".to_string()),
        AppError::Output("paste failed".to_string()),
        AppError::Config("bad config".to_string()),
    ]
}

#[test]
fn retryable_errors() {
    let expected = [true, true, true, false, false, false, false, false, false];
    for (e, want) in all_errors().iter().zip(expected.iter()) {
        assert_eq!(e.is_retryable(), *want, "{:?}", e);
    }
    assert!(AppError::Api { status: 500, body: String::new() }.is_retryable());
    assert!(!AppError::Api { status: 499, body: String::new() }.is_retryable());
}

#[test]
fn user_error_codes_and_details() {
    let expected: Vec<(&str, Option<&str>)> = vec![
        ("stt_timeout", Some("net down")),
        ("stt_timeout", None),
        ("stt_failed", Some("HTTP 503")),
        ("stt_failed", Some("HTTP 404")),
        ("stt_invalid_key", None),
        ("stt_invalid_key", None),
        ("stt_invalid_key", Some("bad key")),
        ("output_fallback_clipboard", Some("paste failed")),
        ("stt_failed", Some("bad config")),
    ];
    for (e, (code, details)) in all_errors().iter().zip(expected.into_iter()) {
        let u = e.to_user_error();
        assert_eq!(u.code, code);
        assert_eq!(u.details.as_deref(), details);
        assert_eq!(u.retry_count, 0);
    }
}

#[test]
fn status_rendered_in_decimal() {
    let u = AppError::Api { status: 0, body: String::new() }.to_user_error();
    assert_eq!(u.details.as_deref(), Some("HTTP 0"));
    let u = AppError::Api { status: 65535, body: String::new() }.to_user_error();
    assert_eq!(u.details.as_deref(), Some("HTTP 65535"));
}

#[test]
fn retry_count_is_recorded() {
    let u = AppError::Network("x".to_string()).with_retry_count(3);
    assert_eq!(u.code, "stt_timeout");
    assert_eq!(u.details.as_deref(), Some("x"));
    assert_eq!(u.retry_count, 3);
}

#[test]
fn descriptions() {
    assert_eq!(AppError::Network("n".to_string()).describe("0.0"), "Network error: n");
    assert_eq!(
        AppError::Timeout(Duration::from_secs(30)).describe("30.0"),
        "Timeout after 30.0s"
    );
    assert_eq!(
        AppError::Api { status: 502, body: "bad gateway".to_string() }.describe(""),
        "API error 502: bad gateway"
    );
    assert_eq!(AppError::Auth("a".to_string()).describe(""), "Auth error: a");
    assert_eq!(AppError::Output("o".to_string()).describe(""), "Output error: o");
    assert_eq!(AppError::Config("c".to_string()).describe(""), "Config error: c");
}

#[test]
fn http_failures() {
    let t = AppError::from_http_failure(HttpFailure {
        timed_out: true,
        status: Some(500),
        message: "m".to_string(),
    });
    match t {
        AppError::Timeout(d) => assert_eq!(d, Duration::from_secs(30)),
        other => panic!("{:?}", other),
    }
    let a = AppError::from_http_failure(HttpFailure {
        timed_out: false,
        status: Some(418),
        message: "teapot".to_string(),
    });
    match a {
        AppError::Api { status, body } => {
            assert_eq!(status, 418);
            assert_eq!(body, "teapot");
        }
        other => panic!("{:?}", other),
    }
    let n = AppError::from_http_failure(HttpFailure {
        timed_out: false,
        status: None,
        message: "refused".to_string(),
    });
    match n {
        AppError::Network(m) => assert_eq!(m, "refused"),
        other => panic!("{:?}", other),
    }
}

#[test]
fn backoff_values() {
    assert_eq!(backoff_delay_ms(0), 1000);
    assert_eq!(backoff_delay_ms(1), 2000);
    assert_eq!(backoff_delay_ms(5), 32000);
    assert_eq!(backoff_delay_ms(54), 1000u64 << 54);
}

#[test]
fn retry_steps() {
    let net = AppError::Network("x".to_string());
    assert_eq!(retry_step(0, 3, &net), RetryStep::Retry { delay_ms: 1000 });
    assert_eq!(retry_step(2, 3, &net), RetryStep::Retry { delay_ms: 4000 });
    assert_eq!(retry_step(3, 3, &net), RetryStep::GiveUp);
    assert_eq!(retry_step(0, 0, &net), RetryStep::GiveUp);
    let auth = AppError::Auth("x".to_string());
    assert_eq!(retry_step(0, 3, &auth), RetryStep::GiveUp);
}

#[test]
fn reqwest_builder_error_is_a_network_error() {
    let err = reqwest::Client::new().get("not a url").build().unwrap_err();
    match AppError::from_reqwest_error(&err) {
        AppError::Network(m) => assert!(m.contains("builder error"), "{}", m),
        other => panic!("{:?}", other),
    }
}
