use tts_starter::speech::{
    call_failed_text, classify_failure, generation_failure, prepare_speech_request,
    read_failed_text, resolve_model, speak_url, speech_reply, token_authorization,
    upstream_result, SpeechReply,
};

fn rejected(text: Option<&str>) -> (u16, String, String) {
    match prepare_speech_request(text.map(|t| t.to_string()), None) {
        Ok(_) => panic!("expected a rejection"),
        Err(e) => (e.status, e.body.error.code, e.body.error.message),
    }
}

#[test]
fn default_model_when_none_given() {
    assert_eq!(resolve_model(None), "aura-2-thalia-en");
    assert_eq!(resolve_model(Some("aura-2-theia-en".to_string())), "aura-2-theia-en");
}

#[test]
fn missing_text_is_rejected() {
    assert_eq!(rejected(None), (400, "EMPTY_TEXT".to_string(), "Text parameter is required".to_string()));
    assert_eq!(rejected(Some("")), (400, "EMPTY_TEXT".to_string(), "Text parameter is required".to_string()));
}

#[test]
fn blank_text_is_rejected() {
    for t in [" ", "\t\n \r", "\u{3000}\u{00A0}", "\u{2028}"] {
        assert_eq!(
            rejected(Some(t)),
            (400, "EMPTY_TEXT".to_string(), "Text must be a non-empty string".to_string())
        );
    }
}

#[test]
fn good_request_keeps_text_and_model() {
    let r = prepare_speech_request(Some("  Hello world ".to_string()), Some("m1".to_string())).ok().unwrap();
    assert_eq!(r.text, "  Hello world ");
    assert_eq!(r.model, "m1");
    let r = prepare_speech_request(Some("x".to_string()), None).ok().unwrap();
    assert_eq!(r.model, "aura-2-thalia-en");
}

#[test]
fn upstream_parameters() {
    assert_eq!(speak_url("aura-2-thalia-en"), "https://api.deepgram.com/v1/speak?model=aura-2-thalia-en");
    assert_eq!(token_authorization("k123"), "Token k123");
    assert_eq!(speak_url("a&b"), "https://api.deepgram.com/v1/speak?model=a%26b");
    assert_eq!(speak_url("a#b"), "https://api.deepgram.com/v1/speak?model=a%23b");
    assert_eq!(speak_url("é x"), "https://api.deepgram.com/v1/speak?model=%C3%A9%20x");
    assert_eq!(speak_url("a+b=c~_.-"), "https://api.deepgram.com/v1/speak?model=a%2Bb%3Dc~_.-");
    assert_eq!(speak_url(""), "https://api.deepgram.com/v1/speak?model=");
    assert_eq!(call_failed_text("timeout"), "failed to call Deepgram API: timeout");
    assert_eq!(read_failed_text("eof"), "failed to read response: eof");
}

#[test]
fn upstream_success_passes_audio_through() {
    assert_eq!(upstream_result(200, vec![1, 2, 3]), Ok(vec![1, 2, 3]));
    assert_eq!(upstream_result(299, vec![]), Ok(vec![]));
}

#[test]
fn upstream_failure_reports_status_and_body() {
    assert_eq!(
        upstream_result(404, b"model not found".to_vec()),
        Err("Deepgram API error (status 404): model not found".to_string())
    );
    assert_eq!(
        upstream_result(300, vec![b'a', 0xff, b'b']),
        Err("Deepgram API error (status 300): a\u{FFFD}b".to_string())
    );
    assert_eq!(upstream_result(199, vec![]), Err("Deepgram API error (status 199): ".to_string()));
}

#[test]
fn failures_are_classified() {
    assert_eq!(classify_failure("Unknown MODEL"), (400, Some("MODEL_NOT_FOUND")));
    assert_eq!(classify_failure("resource Not Found"), (400, Some("MODEL_NOT_FOUND")));
    assert_eq!(classify_failure("text too long"), (400, Some("TEXT_TOO_LONG")));
    assert_eq!(classify_failure("bad length"), (400, Some("TEXT_TOO_LONG")));
    assert_eq!(classify_failure("rate limit"), (400, Some("TEXT_TOO_LONG")));
    assert_eq!(classify_failure("exceeded quota"), (400, Some("TEXT_TOO_LONG")));
    assert_eq!(classify_failure("Invalid input"), (400, Some("INVALID_TEXT")));
    assert_eq!(classify_failure("malformed json"), (400, Some("INVALID_TEXT")));
    assert_eq!(classify_failure("failed to call Deepgram API: timeout"), (500, None));
}

#[test]
fn generation_failure_builds_the_answer() {
    let r = generation_failure("failed to call Deepgram API: timeout");
    assert_eq!(r.status, 500);
    assert_eq!(r.body.error.error_type, "GenerationError");
    assert_eq!(r.body.error.code, "INVALID_TEXT");
    assert_eq!(r.body.error.message, "failed to call Deepgram API: timeout");
    let r = generation_failure("Deepgram API error (status 400): unknown model");
    assert_eq!(r.status, 400);
    assert_eq!(r.body.error.error_type, "ValidationError");
    assert_eq!(r.body.error.code, "MODEL_NOT_FOUND");
}

#[test]
fn speech_reply_follows_outcome() {
    match speech_reply(Ok(vec![9, 8])) {
        SpeechReply::Audio(a) => assert_eq!(a, vec![9, 8]),
        SpeechReply::Failed(_) => panic!("expected audio"),
    }
    match speech_reply(Err("text exceeds limit".to_string())) {
        SpeechReply::Failed(f) => {
            assert_eq!(f.status, 400);
            assert_eq!(f.body.error.code, "TEXT_TOO_LONG");
        }
        SpeechReply::Audio(_) => panic!("expected a failure"),
    }
}
