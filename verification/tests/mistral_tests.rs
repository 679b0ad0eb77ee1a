use handy::mistral::{
    finish_success, prepare_transcription_request, status_text, AttemptOutcome, AttemptVerdict,
    RetrySchedule, MAX_RETRY_ATTEMPTS,
};

#[test]
fn request_requires_api_key() {
    let r = prepare_transcription_request("https://api.mistral.ai/v1", "  \t", "m", None);
    assert_eq!(r.err().unwrap(), "Mistral API key is required.");
}

#[test]
fn request_requires_base_url() {
    let r = prepare_transcription_request(" /// ", "key", "m", None);
    assert_eq!(r.err().unwrap(), "Mistral base URL is required.");
}

#[test]
fn request_rejects_invalid_header_value() {
    let r = prepare_transcription_request("https://x", "bad\u{7f}key", "m", None);
    assert_eq!(
        r.err().unwrap(),
        "Invalid authorization header value: failed to parse header value"
    );
}

#[test]
fn request_is_built_from_trimmed_values() {
    let r = prepare_transcription_request(
        "  https://api.mistral.ai/v1//  ",
        " sk-123\n",
        "voxtral-mini-latest",
        Some("fr"),
    )
    .ok()
    .unwrap();
    assert_eq!(r.url, "https://api.mistral.ai/v1/audio/transcriptions");
    assert_eq!(r.authorization, "Bearer sk-123");
    assert_eq!(r.model, "voxtral-mini-latest");
    assert_eq!(r.language.as_deref(), Some("fr"));
    assert_eq!(r.file_name, "recording.wav");
    assert_eq!(r.mime_type, "audio/wav");
    assert_eq!(r.user_agent, "Handy/1.0 (+https://github.com/ShrootBuck/Handy)");
}

#[test]
fn unicode_whitespace_is_trimmed() {
    let r = prepare_transcription_request("\u{3000}https://x/\u{a0}", "\u{2003}k", "m", Some(" \u{3000}"))
        .ok()
        .unwrap();
    assert_eq!(r.url, "https://x/audio/transcriptions");
    assert_eq!(r.authorization, "Bearer k");
    assert!(r.language.is_none());
}

#[test]
fn status_lines() {
    assert_eq!(status_text(429), "429 Too Many Requests");
    assert_eq!(status_text(503), "503 Service Unavailable");
    assert_eq!(status_text(599), "599 <unknown status code>");
}

#[test]
fn success_answer_is_parsed_and_trimmed() {
    let mut s = RetrySchedule::new();
    let v = s.record(AttemptOutcome::Answered { status: 200, body: "{}".to_string() });
    assert!(matches!(v, AttemptVerdict::ParseBody));
    assert_eq!(finish_success(Ok("  hello world \n".to_string()), "{}"), Ok("hello world".to_string()));
    assert_eq!(
        finish_success(Err("expected value".to_string()), "oops"),
        Err("Failed to parse response: expected value - body: oops".to_string())
    );
}

#[test]
fn rate_limit_is_retried_with_doubling_waits() {
    let mut s = RetrySchedule::new();
    assert_eq!(s.delay_before_attempt(), 0);
    let mut delays = Vec::new();
    loop {
        match s.record(AttemptOutcome::Answered { status: 429, body: "slow down".to_string() }) {
            AttemptVerdict::Retry => delays.push(s.delay_before_attempt()),
            AttemptVerdict::Fail(e) => {
                assert!(e.starts_with("Mistral rate limit exceeded."));
                assert!(e.ends_with("\n\nAPI Error: slow down"));
                break;
            }
            AttemptVerdict::ParseBody => panic!("not a success"),
        }
    }
    assert_eq!(delays, vec![1000, 2000, 4000, 8000]);
    assert_eq!(s.current_attempt(), MAX_RETRY_ATTEMPTS - 1);
    assert!(s.last_error_text().ends_with("API Error: slow down"));
}

#[test]
fn client_error_fails_at_once() {
    let mut s = RetrySchedule::new();
    match s.record(AttemptOutcome::Answered { status: 401, body: "bad key".to_string() }) {
        AttemptVerdict::Fail(e) => {
            assert_eq!(e, "Mistral API request failed with status 401 Unauthorized: bad key")
        }
        _ => panic!("401 is not retried"),
    }
    assert_eq!(s.current_attempt(), 0);
}

#[test]
fn timeouts_and_server_errors_are_retried() {
    let mut s = RetrySchedule::new();
    assert!(matches!(
        s.record(AttemptOutcome::Answered { status: 408, body: String::new() }),
        AttemptVerdict::Retry
    ));
    assert!(matches!(
        s.record(AttemptOutcome::Answered { status: 502, body: "x".to_string() }),
        AttemptVerdict::Retry
    ));
    assert_eq!(s.last_error_text(), "Mistral API request failed with status 502 Bad Gateway: x");
    assert!(matches!(
        s.record(AttemptOutcome::TransportFailed("connection reset".to_string())),
        AttemptVerdict::Retry
    ));
    assert_eq!(s.last_error_text(), "HTTP request failed: connection reset");
    assert!(matches!(
        s.record(AttemptOutcome::TransportFailed("again".to_string())),
        AttemptVerdict::Retry
    ));
    match s.record(AttemptOutcome::TransportFailed("last".to_string())) {
        AttemptVerdict::Fail(e) => assert_eq!(e, "HTTP request failed: last"),
        _ => panic!("the fifth failure ends the transcription"),
    }
}

#[test]
fn upload_failure_is_not_retried() {
    let mut s = RetrySchedule::new();
    match s.record(AttemptOutcome::UploadFailed("bad mime".to_string())) {
        AttemptVerdict::Fail(e) => assert_eq!(e, "Failed to build audio upload: bad mime"),
        _ => panic!("upload failures end the transcription"),
    }
}
