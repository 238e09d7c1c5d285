use tts_starter::metadata::{handle_metadata, metadata_error, metadata_result, metadata_status, MetadataFailure};

fn json(text: &str) -> serde_json::Value {
    serde_json::from_str(text).unwrap()
}

#[test]
fn meta_section_is_returned() {
    let content = "[meta]\nuseCase = \"text-to-speech\"\nframework = \"Axum\"\nlanguage = \"Rust\"\n\n[build]\ncommand = \"cargo run\"\n";
    let meta = handle_metadata(Some(content.to_string())).ok().unwrap();
    assert_eq!(
        json(&meta),
        json("{\"useCase\":\"text-to-speech\",\"framework\":\"Axum\",\"language\":\"Rust\"}")
    );
}

#[test]
fn meta_with_arrays_and_tables() {
    let content = "[meta]\ntags = [\"a\", \"b\"]\nn = 2\nok = true\n[meta.inner]\nx = 1\n";
    let meta = handle_metadata(Some(content.to_string())).ok().unwrap();
    assert_eq!(json(&meta), json("{\"tags\":[\"a\",\"b\"],\"n\":2,\"ok\":true,\"inner\":{\"x\":1}}"));
}

#[test]
fn unreadable_file() {
    assert!(matches!(handle_metadata(None), Err(MetadataFailure::Unreadable)));
}

#[test]
fn invalid_toml() {
    assert!(matches!(handle_metadata(Some("[[[ nope".to_string())), Err(MetadataFailure::Unparsable)));
    assert!(matches!(handle_metadata(Some("a = ".to_string())), Err(MetadataFailure::Unparsable)));
}

#[test]
fn missing_meta_section() {
    assert!(matches!(handle_metadata(Some("title = 1\n".to_string())), Err(MetadataFailure::MissingMeta)));
    assert!(matches!(handle_metadata(Some(String::new())), Err(MetadataFailure::MissingMeta)));
}

#[test]
fn meta_need_not_be_a_table() {
    assert_eq!(handle_metadata(Some("meta = 3\n".to_string())).ok().unwrap(), "3");
}

#[test]
fn metadata_failures() {
    assert_eq!(metadata_status(), 500);
    let e = metadata_error(MetadataFailure::Unreadable);
    assert_eq!(e.error, "INTERNAL_SERVER_ERROR");
    assert_eq!(e.message, "Failed to read metadata from deepgram.toml");
    assert_eq!(metadata_error(MetadataFailure::Unparsable).message, "Failed to read metadata from deepgram.toml");
    assert_eq!(metadata_error(MetadataFailure::MissingMeta).message, "Missing [meta] section in deepgram.toml");
}

#[test]
fn parse_outcome_decides_the_answer() {
    assert!(matches!(metadata_result(None), Err(MetadataFailure::Unparsable)));
    assert!(matches!(metadata_result(Some(None)), Err(MetadataFailure::MissingMeta)));
    assert_eq!(metadata_result(Some(Some("{\"a\":1}".to_string()))).ok().unwrap(), "{\"a\":1}");
}
