//! Bearer-token authentication of the protected routes.
use vstd::prelude::*;

use crate::errors::{auth_error_body, authentication_error, opt_text, ErrorBody, ErrorResponse};
use crate::jwt::{has_integer_claims, failure_text, invalid_claims_text, session_claims_text, JWT_EXPIRY_SECS, MAX_CLOCK_SECS, check_outcome, claims_json_text, has_jwt_shape, hs256_signed, hs256_token, issued_token, kind_text_agrees, verify_jwt, JwtErrorKind};
use vstd::string::StringSliceAdditionalSpecFns;
use crate::text::{ascii_lower, contains_seq, drop_chars, has_prefix, has_substring, is_ascii_text, lowercase, lowercase_of, occurs_at, starts_with};

verus! {

/// The status of every rejected request: 401 Unauthorized.
pub const UNAUTHORIZED: u16 = 401;

/// How a request to a protected route is answered.
pub enum AuthDecision {
    /// The request goes on to its handler.
    Allow,
    /// The request is answered with `UNAUTHORIZED` and this error body.
    Reject(ErrorResponse),
}

/// The token of an `Authorization` header of the form `Bearer <token>`.
pub open spec fn bearer_token_of(header: Option<Seq<char>>) -> Option<Seq<char>> {
    match header {
        Some(h) => if has_prefix(h, "Bearer "@) {
            Some(h.skip(7))
        } else {
            None
        },
        None => None,
    }
}

/// The message for a token whose lowercased error text is `lowered`.
pub open spec fn message_for_lowered(lowered: Seq<char>) -> Seq<char> {
    if contains_seq(lowered, "expired"@) {
        "Session expired, please refresh the page"@
    } else {
        "Invalid session token"@
    }
}

/// The message for a token that failed verification with error text `err`.
pub open spec fn invalid_token_message(err: Seq<char>) -> Seq<char> {
    message_for_lowered(lowercase_of(err))
}

/// The body of a request that carries no bearer token.
pub open spec fn missing_token_body() -> ErrorBody {
    auth_error_body("MISSING_TOKEN"@, "Authorization header with Bearer token is required"@)
}

/// The body of a request whose token failed verification with error text `err`.
pub open spec fn invalid_token_body(err: Seq<char>) -> ErrorBody {
    auth_error_body("INVALID_TOKEN"@, invalid_token_message(err))
}

/// A header built as `Bearer ` followed by a token gives back that token.
pub proof fn lemma_bearer_round_trip(token: Seq<char>)
    ensures
        bearer_token_of(Some("Bearer "@ + token)) == Some(token),
{
    reveal_strlit("Bearer ");
    let h = "Bearer "@ + token;
    assert(h.subrange(0, 7) =~= "Bearer "@);
    assert(h.skip(7) =~= token);
}

/// Every token failure is answered as an `AuthenticationError` with code
/// `INVALID_TOKEN`, no details, and one of two messages.
pub proof fn lemma_invalid_token_shape(err: Seq<char>)
    ensures
        invalid_token_body(err).error_type == "AuthenticationError"@,
        invalid_token_body(err).code == "INVALID_TOKEN"@,
        invalid_token_body(err).details.len() == 0,
        invalid_token_body(err).detail_keys_distinct(),
        invalid_token_body(err).message == "Session expired, please refresh the page"@
            || invalid_token_body(err).message == "Invalid session token"@,
{
}

/// The token of a `Bearer <token>` header, if the header has that form.
pub fn bearer_token(header: Option<&str>) -> (r: Option<String>)
    ensures
        match r {
            Some(t) => bearer_token_of(opt_text(header)) == Some(t@),
            None => bearer_token_of(opt_text(header)) is None,
        },
{
    proof {
        reveal_strlit("Bearer ");
    }
    match header {
        Some(h) => {
            if starts_with(h, "Bearer ") {
                Some(drop_chars(h, 7))
            } else {
                None
            }
        },
        None => None,
    }
}

/// The message for a token whose lowercased error text is `lowered`.
pub fn message_for_lowered_text(lowered: &str) -> (r: String)
    ensures
        r@ == message_for_lowered(lowered@),
{
    if has_substring(lowered, "expired") {
        "Session expired, please refresh the page".to_owned()
    } else {
        "Invalid session token".to_owned()
    }
}

/// The message for a token that failed verification with error text `err`.
pub fn token_failure_message(err: &str) -> (r: String)
    ensures
        r@ == invalid_token_message(err@),
{
    let lowered = lowercase(err);
    message_for_lowered_text(lowered.as_str())
}

/// The answer to a request whose token verification gave `verified`.
pub fn auth_decision(verified: Result<(), String>) -> (r: AuthDecision)
    ensures
        match verified {
            Ok(()) => r is Allow,
            Err(e) => r matches AuthDecision::Reject(b) && b@ == invalid_token_body(e@),
        },
{
    match verified {
        Ok(()) => AuthDecision::Allow,
        Err(e) => {
            let message = token_failure_message(e.as_str());
            AuthDecision::Reject(authentication_error("INVALID_TOKEN", message.as_str()))
        },
    }
}

/// What a request carrying bearer token `token` is answered, given the token
/// check under `secret` at clock `now`: let through exactly when the check
/// accepts; otherwise refused with the check's error text.
pub open spec fn token_answer(token: Seq<char>, secret: Seq<u8>, now: int, r: AuthDecision) -> bool {
    match r {
        AuthDecision::Allow => check_outcome(token, secret, now, None),
        AuthDecision::Reject(b) => exists|kind: JwtErrorKind, m: Seq<char>|
            #![trigger check_outcome(token, secret, now, Some(kind)), invalid_token_body(m)]
            check_outcome(token, secret, now, Some(kind)) && failure_text(token, secret, now, kind, m)
                && b@ == invalid_token_body(m),
    }
}

/// The error texts the token check names lead to their messages:
/// `ExpiredSignature` to the refresh request, `InvalidToken` and the text for
/// claims that are not integers to the plain refusal.
pub proof fn lemma_named_failure_messages()
    ensures
        invalid_token_message("ExpiredSignature"@) == "Session expired, please refresh the page"@,
        invalid_token_message("InvalidToken"@) == "Invalid session token"@,
        invalid_token_message(invalid_claims_text()) == "Invalid session token"@,
{
    reveal_strlit("JSON error: integer iat and exp claims are required");
    let c = invalid_claims_text();
    assert(is_ascii_text(c));
    let lc = ascii_lower(c);
    assert forall|i: int| !occurs_at(lc, "expired"@, i) by {
        reveal_strlit("expired");
        if 0 <= i && i + 7 <= lc.len() {
            assert(lc.subrange(i, i + 7)[0] == lc[i]);
            assert(lc.subrange(i, i + 7)[1] == lc[i + 1]);
            assert(lc.subrange(i, i + 7)[3] == lc[i + 3]);
            assert(lc[i] != 'e' || lc[i + 1] != 'x' || lc[i + 3] != 'i');
        }
    }
    reveal_strlit("ExpiredSignature");
    reveal_strlit("InvalidToken");
    reveal_strlit("expired");
    let e = "ExpiredSignature"@;
    assert(is_ascii_text(e));
    let le = ascii_lower(e);
    assert(le.subrange(0, 7) =~= "expired"@);
    assert(occurs_at(le, "expired"@, 0));
    let v = "InvalidToken"@;
    assert(is_ascii_text(v));
    let lv = ascii_lower(v);
    assert forall|i: int| !occurs_at(lv, "expired"@, i) by {
        if 0 <= i && i + 7 <= lv.len() {
            assert(lv.subrange(i, i + 7)[0] == lv[i]);
            assert(lv[i] != 'e');
        }
    }
}

/// A bearer token without the `header.payload.signature` form is refused as
/// an invalid session token, whatever the clock.
pub proof fn lemma_malformed_token_refused(token: Seq<char>, secret: Seq<u8>, now: int, r: AuthDecision)
    requires
        token_answer(token, secret, now, r),
        !has_jwt_shape(token),
    ensures
        r matches AuthDecision::Reject(b) && b@ == invalid_token_body("InvalidToken"@),
        r matches AuthDecision::Reject(b) && b@.message == "Invalid session token"@,
{
    lemma_named_failure_messages();
    reveal_strlit("InvalidToken");
    if let AuthDecision::Reject(b) = r {
        let (kind, m) = choose|kind: JwtErrorKind, m: Seq<char>|
            #![trigger check_outcome(token, secret, now, Some(kind)), invalid_token_body(m)]
            check_outcome(token, secret, now, Some(kind)) && failure_text(token, secret, now, kind, m)
                && b@ == invalid_token_body(m);
        assert(m == "InvalidToken"@);
    }
}

/// A token whose signature checks out but whose `iat` or `exp` claim is not an
/// integer is refused as an invalid session token, whatever the clock.
pub proof fn lemma_claimless_token_refused(token: Seq<char>, secret: Seq<u8>, now: int, r: AuthDecision)
    requires
        token_answer(token, secret, now, r),
        hs256_signed(token, secret),
        !has_integer_claims(token),
    ensures
        r matches AuthDecision::Reject(b) && b@ == invalid_token_body(invalid_claims_text()),
        r matches AuthDecision::Reject(b) && b@.message == "Invalid session token"@,
{
    lemma_named_failure_messages();
    if let AuthDecision::Reject(b) = r {
        let (kind, m) = choose|kind: JwtErrorKind, m: Seq<char>|
            #![trigger check_outcome(token, secret, now, Some(kind)), invalid_token_body(m)]
            check_outcome(token, secret, now, Some(kind)) && failure_text(token, secret, now, kind, m)
                && b@ == invalid_token_body(m);
        assert(m == invalid_claims_text());
    }
}

/// A token this library issued with the session secret, carrying expiry `exp`,
/// is let through while the clock reads at most `exp + 60`, and refused with the
/// refresh request after that (for clock readings of at least 60 s).
pub proof fn lemma_issued_token_answer(
    token: Seq<char>,
    secret: Seq<u8>,
    now: int,
    r: AuthDecision,
    iat: int,
    exp: int,
)
    requires
        token_answer(token, secret, now, r),
        issued_token(token, secret, iat, exp),
        60 <= now,
    ensures
        now <= exp + 60 ==> r is Allow,
        now > exp + 60 ==> (r matches AuthDecision::Reject(b) && b@ == invalid_token_body(
            "ExpiredSignature"@,
        ) && b@.message == "Session expired, please refresh the page"@),
{
    lemma_named_failure_messages();
    reveal_strlit("ExpiredSignature");
    assert(hs256_token(claims_json_text(iat, exp), secret) == Some(token));
    if let AuthDecision::Reject(b) = r {
        let (kind, m) = choose|kind: JwtErrorKind, m: Seq<char>|
            #![trigger check_outcome(token, secret, now, Some(kind)), invalid_token_body(m)]
            check_outcome(token, secret, now, Some(kind)) && failure_text(token, secret, now, kind, m)
                && b@ == invalid_token_body(m);
        if now > exp + 60 {
            assert(m == "ExpiredSignature"@);
        }
    } else {
        assert(check_outcome(token, secret, now, None));
    }
}

/// A session token issued at `issued` (as `create_jwt` issues them) is let
/// through for its hour and the 60 s leeway, and refused with the refresh
/// request after that.
pub proof fn lemma_session_token_lifetime(
    token: Seq<char>,
    secret: Seq<u8>,
    issued: int,
    now: int,
    r: AuthDecision,
)
    requires
        0 <= issued < MAX_CLOCK_SECS,
        hs256_token(session_claims_text(issued), secret) == Some(token),
        token_answer(token, secret, now, r),
        60 <= now,
    ensures
        now <= issued + JWT_EXPIRY_SECS + 60 ==> r is Allow,
        now > issued + JWT_EXPIRY_SECS + 60 ==> (r matches AuthDecision::Reject(b)
            && b@.message == "Session expired, please refresh the page"@),
{
    assert(issued_token(token, secret, issued, issued + JWT_EXPIRY_SECS));
    lemma_issued_token_answer(token, secret, now, r, issued, issued + JWT_EXPIRY_SECS);
}

/// Checks the `Authorization` header of a request to a protected route
/// (`None` where it is absent or not visible ASCII) against the session secret.
/// Without a bearer token the request is refused with `MISSING_TOKEN`; with
/// one, it is let through exactly when the token check accepts it, at the
/// clock reading the check used.
pub fn require_auth(header: Option<&str>, secret: &str) -> (r: AuthDecision)
    ensures
        match bearer_token_of(opt_text(header)) {
            None => r matches AuthDecision::Reject(b) && b@ == missing_token_body(),
            Some(t) => exists|now: int| 0 <= now && #[trigger] token_answer(t, secret.spec_bytes(), now, r),
        },
{
    match bearer_token(header) {
        None => {
            let b = authentication_error(
                "MISSING_TOKEN",
                "Authorization header with Bearer token is required",
            );
            assert(b@ == missing_token_body());
            AuthDecision::Reject(b)
        },
        Some(token) => {
            let verified = verify_jwt(token.as_str(), secret);
            let ghost g = verified;
            let r = auth_decision(verified);
            proof {
                let t = token@;
                let sb = secret.spec_bytes();
                match g {
                    Ok(()) => {
                        let now = choose|now: int| 0 <= now && #[trigger] check_outcome(t, sb, now, None);
                        assert(token_answer(t, sb, now, r));
                    },
                    Err(m) => {
                        let (now, kind) = choose|now: int, kind: JwtErrorKind|
                            0 <= now && #[trigger] check_outcome(t, sb, now, Some(kind))
                                && failure_text(t, sb, now, kind, m@);
                        assert(check_outcome(t, sb, now, Some(kind)) && failure_text(t, sb, now, kind, m@)
                            && invalid_token_body(m@) == invalid_token_body(m@));
                        assert(token_answer(t, sb, now, r));
                    },
                }
                assert(bearer_token_of(opt_text(header)) == Some(t));
                let now0 = choose|now: int| 0 <= now && #[trigger] token_answer(t, sb, now, r);
                let bt = bearer_token_of(opt_text(header))->0;
                assert(bt == t);
                assert(token_answer(bt, sb, now0, r));
            }
            r
        },
    }
}

} // verus!
