//! The session and health routes, and the server's address.
use vstd::prelude::*;
use vstd::string::StringSliceAdditionalSpecFns;

use crate::jwt::{create_jwt, hs256_token, session_claims_text, MAX_CLOCK_SECS};
use crate::speech::opt_string;
use crate::text::joined;

verus! {

/// How `GET /api/session` is answered.
pub enum SessionReply {
    /// 200 with `{"token": ...}`.
    Token(String),
    /// `INTERNAL_SERVER_ERROR` with `{"error": error}`; `cause` is the signing error's text.
    Failed { error: String, cause: String },
}

/// The body of `GET /health`.
pub struct HealthResponse {
    pub status: String,
}

/// Issues a session token signed with `secret`. Signing cannot fail, so the
/// answer is always a token: the one for the clock reading, some time in
/// `0..MAX_CLOCK_SECS`.
pub fn handle_session(secret: &str) -> (r: SessionReply)
    ensures
        r matches SessionReply::Token(t) && exists|now: int|
            0 <= now < MAX_CLOCK_SECS && hs256_token(
                #[trigger] session_claims_text(now),
                secret.spec_bytes(),
            ) == Some(t@),
{
    match create_jwt(secret) {
        Ok(token) => SessionReply::Token(token),
        Err(cause) => SessionReply::Failed { error: "Failed to create session".to_owned(), cause },
    }
}

/// The body of `GET /health`: `{"status": "ok"}`.
pub fn handle_health() -> (r: HealthResponse)
    ensures
        r.status@ == "ok"@,
{
    HealthResponse { status: "ok".to_owned() }
}

/// The port to listen on: the configured one, else `8081`.
pub fn listen_port(configured: Option<String>) -> (r: String)
    ensures
        r@ == match opt_string(configured) {
            Some(p) => p,
            None => "8081"@,
        },
{
    match configured {
        Some(p) => p,
        None => "8081".to_owned(),
    }
}

/// The host to listen on: the configured one, else `0.0.0.0`.
pub fn listen_host(configured: Option<String>) -> (r: String)
    ensures
        r@ == match opt_string(configured) {
            Some(h) => h,
            None => "0.0.0.0"@,
        },
{
    match configured {
        Some(h) => h,
        None => "0.0.0.0".to_owned(),
    }
}

/// The address to bind: `<host>:<port>`.
pub fn bind_address(host: &str, port: &str) -> (r: String)
    ensures
        r@ == host@ + ":"@ + port@,
{
    let a = joined(host, ":");
    joined(a.as_str(), port)
}

} // verus!
