use tts_starter::errors::{authentication_error, format_error_response, ErrorResponse};

fn parts(r: &ErrorResponse) -> (&str, &str, &str) {
    (r.error.error_type.as_str(), r.error.code.as_str(), r.error.message.as_str())
}

#[test]
fn explicit_code_is_kept() {
    let r = format_error_response("Text parameter is required", 400, Some("EMPTY_TEXT"));
    assert_eq!(parts(&r), ("ValidationError", "EMPTY_TEXT", "Text parameter is required"));
    assert_eq!(
        r.error.details,
        vec![("originalError".to_string(), "Text parameter is required".to_string())]
    );
}

#[test]
fn explicit_code_wins_over_message() {
    let r = format_error_response("model is empty", 500, Some("CUSTOM"));
    assert_eq!(parts(&r), ("GenerationError", "CUSTOM", "model is empty"));
}

#[test]
fn detects_empty_text() {
    let r = format_error_response("The text is EMPTY", 400, None);
    assert_eq!(r.error.code, "EMPTY_TEXT");
}

#[test]
fn detects_unknown_model() {
    let r = format_error_response("No such Model", 400, None);
    assert_eq!(r.error.code, "MODEL_NOT_FOUND");
}

#[test]
fn empty_is_checked_before_model() {
    let r = format_error_response("model name empty", 400, None);
    assert_eq!(r.error.code, "EMPTY_TEXT");
}

#[test]
fn detects_too_long_text() {
    for m in ["Text too LONG", "over the limit", "exceeds maximum"] {
        assert_eq!(format_error_response(m, 400, None).error.code, "TEXT_TOO_LONG");
    }
}

#[test]
fn other_validation_messages_are_invalid_text() {
    let r = format_error_response("bad characters", 400, None);
    assert_eq!(parts(&r), ("ValidationError", "INVALID_TEXT", "bad characters"));
}

#[test]
fn non_400_is_generation_error_with_invalid_text() {
    let r = format_error_response("text is empty and too long", 500, None);
    assert_eq!(parts(&r), ("GenerationError", "INVALID_TEXT", "text is empty and too long"));
    assert_eq!(r.error.details.len(), 1);
}

#[test]
fn authentication_error_has_no_details() {
    let r = authentication_error("MISSING_TOKEN", "no token");
    assert_eq!(parts(&r), ("AuthenticationError", "MISSING_TOKEN", "no token"));
    assert!(r.error.details.is_empty());
}

#[test]
fn detection_lowercases_unicode_too() {
    assert_eq!(format_error_response("ÉMPTY? no: EMPTY", 400, None).error.code, "EMPTY_TEXT");
    assert_eq!(format_error_response("MODÈLE", 400, None).error.code, "INVALID_TEXT");
}
