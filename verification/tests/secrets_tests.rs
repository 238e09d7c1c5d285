use tts_starter::secrets::{generate_random_hex, init_session_secret, load_api_key};

fn is_lower_hex(s: &str) -> bool {
    s.chars().all(|c| c.is_ascii_digit() || ('a'..='f').contains(&c))
}

#[test]
fn random_hex_has_two_digits_per_byte() {
    let s = generate_random_hex(16);
    assert_eq!(s.len(), 32);
    assert!(is_lower_hex(&s));
    assert_eq!(generate_random_hex(0), "");
}

#[test]
fn random_hex_is_random() {
    assert_ne!(generate_random_hex(32), generate_random_hex(32));
}

#[test]
fn configured_secret_is_used() {
    assert_eq!(init_session_secret(Some("my-secret".to_string())), "my-secret");
}

#[test]
fn missing_or_empty_secret_is_generated() {
    for configured in [None, Some(String::new())] {
        let s = init_session_secret(configured);
        assert_eq!(s.len(), 64);
        assert!(is_lower_hex(&s));
    }
}

#[test]
fn api_key_must_be_set_and_not_empty() {
    assert_eq!(load_api_key(Some("key".to_string())), Some("key".to_string()));
    assert_eq!(load_api_key(Some(String::new())), None);
    assert_eq!(load_api_key(None), None);
}
