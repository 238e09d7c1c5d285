use tts_starter::jwt::verify_jwt;
use tts_starter::routes::{
    bind_address, handle_health, handle_session, listen_host, listen_port, SessionReply,
};

#[test]
fn session_issues_a_verifiable_token() {
    match handle_session("sess") {
        SessionReply::Token(t) => assert_eq!(verify_jwt(&t, "sess"), Ok(())),
        SessionReply::Failed { .. } => panic!("expected a token"),
    }
}

#[test]
fn health_is_ok() {
    assert_eq!(handle_health().status, "ok");
}

#[test]
fn listen_defaults() {
    assert_eq!(listen_port(None), "8081");
    assert_eq!(listen_port(Some("9000".to_string())), "9000");
    assert_eq!(listen_host(None), "0.0.0.0");
    assert_eq!(listen_host(Some("127.0.0.1".to_string())), "127.0.0.1");
    assert_eq!(bind_address("0.0.0.0", "8081"), "0.0.0.0:8081");
}
