//! Session tokens: HS256-signed JWTs carrying an issue and an expiry time.
use vstd::prelude::*;
use vstd::string::StringSliceAdditionalSpecFns;

use crate::text::{joined, i64_text, int_text};

verus! {

/// How long a session token stays valid, in seconds.
pub const JWT_EXPIRY_SECS: i64 = 3600;

/// The largest timestamp, exclusive, that `Utc::now` can give: chrono's
/// dates end before year 262144, which is under 2^43 seconds after 1970.
pub const MAX_CLOCK_SECS: i64 = 8_796_093_022_208;

#[verifier::external_type_specification]
#[verifier::external_body]
pub struct ExJwtError(jsonwebtoken::errors::Error);

/// The claims of a session token: when it was issued and when it expires.
pub struct Claims {
    pub iat: i64,
    pub exp: i64,
}

/// `token` has the form `header.payload.signature`: it holds at least two `.`.
pub open spec fn has_jwt_shape(token: Seq<char>) -> bool {
    exists|i: int, j: int|
        0 <= i < j < token.len() && #[trigger] token[i] == '.' && #[trigger] token[j] == '.'
}

/// The kind of a failed token check.
pub enum JwtErrorKind {
    /// The token is not of the form `header.payload.signature`.
    InvalidToken,
    /// The token's `exp` lies more than the leeway in the past.
    ExpiredSignature,
    /// The signature checks out, but the `iat` or `exp` claim is missing or not an
    /// `i64` integer, as session claims must be.
    InvalidClaims,
    /// Any other failure (signature, algorithm, encoding, claims).
    Other,
}

/// A failed token check: its kind and its text.
pub struct JwtError {
    pub kind: JwtErrorKind,
    pub text: String,
}

/// Whether `jsonwebtoken::decode` (HS256, default validation, claims as any
/// JSON value) accepts `token` under HMAC secret `secret` when the clock reads
/// `now` seconds after 1970.
pub uninterp spec fn hs256_accepts(token: Seq<char>, secret: Seq<u8>, now: int) -> bool;

/// The `Display` text of the error `jsonwebtoken::decode` refuses `token` with,
/// under HMAC secret `secret`, when the clock reads `now`.
pub uninterp spec fn hs256_failure_text(token: Seq<char>, secret: Seq<u8>, now: int) -> Seq<char>;

/// Whether `jsonwebtoken::decode` accepts `token` under HMAC secret `secret`
/// when it checks only the form, the HS256 signature and that the payload is a
/// JSON object (no claim required, none checked against the clock).
pub uninterp spec fn hs256_signed(token: Seq<char>, secret: Seq<u8>) -> bool;

/// The `Display` text of the error that signature-only decoding refuses
/// `token` with under HMAC secret `secret`.
pub uninterp spec fn hs256_signed_failure_text(token: Seq<char>, secret: Seq<u8>) -> Seq<char>;

/// The `iat` and `exp` claims of a token's payload, each read as an `i64`
/// (`None` where the claim is absent or not an integer that fits).
pub uninterp spec fn token_int_claims(token: Seq<char>) -> (Option<i64>, Option<i64>);

/// The token's payload has integer `iat` and `exp` claims.
pub open spec fn has_integer_claims(token: Seq<char>) -> bool {
    token_int_claims(token).0 is Some && token_int_claims(token).1 is Some
}

/// The text of a refusal for want of integer `iat` and `exp` claims.
pub open spec fn invalid_claims_text() -> Seq<char> {
    "JSON error: integer iat and exp claims are required"@
}

/// `token` is the one this library issues for claims `iat`, `exp` under `secret`.
pub open spec fn issued_token(token: Seq<char>, secret: Seq<u8>, iat: int, exp: int) -> bool {
    &&& i64::MIN <= iat <= i64::MAX
    &&& 0 <= exp <= i64::MAX
    &&& hs256_token(claims_json_text(iat, exp), secret) == Some(token)
}

/// What the source shows of fully decoding `token` under `secret` at clock
/// `now`: `kind` is `None` where decoding accepts, else the kind of the
/// refusal. A token this library issued is accepted up to 60 s after its `exp`
/// and refused as expired after that (for clock readings of at least 60 s).
pub open spec fn decode_facts(token: Seq<char>, secret: Seq<u8>, now: int, kind: Option<JwtErrorKind>) -> bool {
    forall|iat: int, exp: int|
        #![trigger hs256_token(claims_json_text(iat, exp), secret)]
        issued_token(token, secret, iat, exp) && 60 <= now ==> {
            &&& (kind is None <==> now <= exp + 60)
            &&& (now > exp + 60 ==> kind == Some(JwtErrorKind::ExpiredSignature))
        }
}

/// What checking a session token gives at clock `now`: `kind` is `None` where
/// it is accepted (its signature checks out, its `iat` and `exp` are integers,
/// and full decoding accepts it), else the kind of the refusal. The signature
/// and the claims are looked at before the clock.
pub open spec fn check_outcome(token: Seq<char>, secret: Seq<u8>, now: int, kind: Option<JwtErrorKind>) -> bool {
    &&& (kind is None <==> hs256_signed(token, secret) && has_integer_claims(token) && hs256_accepts(
        token,
        secret,
        now,
    ))
    &&& (hs256_signed(token, secret) && !has_integer_claims(token) ==> kind == Some(
        JwtErrorKind::InvalidClaims,
    ))
    &&& (!has_jwt_shape(token) ==> kind == Some(JwtErrorKind::InvalidToken))
    &&& forall|iat: int, exp: int|
        #![trigger hs256_token(claims_json_text(iat, exp), secret)]
        issued_token(token, secret, iat, exp) && 60 <= now ==> {
            &&& (kind is None <==> now <= exp + 60)
            &&& (now > exp + 60 ==> kind == Some(JwtErrorKind::ExpiredSignature))
        }
}

/// The text of a refusal of `kind`: the fixed text for claims that are not
/// integers, else the text of the decoding that refused (signature-only
/// decoding where that failed, else full decoding at `now`).
pub open spec fn failure_text(token: Seq<char>, secret: Seq<u8>, now: int, kind: JwtErrorKind, text: Seq<char>) -> bool {
    &&& kind_text_agrees(kind, text)
    &&& (kind is InvalidClaims ==> text == invalid_claims_text())
    &&& (!(kind is InvalidClaims) && !hs256_signed(token, secret) ==> text
        == hs256_signed_failure_text(token, secret))
    &&& (!(kind is InvalidClaims) && hs256_signed(token, secret) ==> text == hs256_failure_text(
        token,
        secret,
        now,
    ))
}

/// A token this library issued under `secret` with expiry `exp` passes the
/// check up to 60 s after `exp` and is refused as expired after that; a token
/// without the `header.payload.signature` form is refused as invalid.
pub proof fn lemma_check_outcome_cases(
    token: Seq<char>,
    secret: Seq<u8>,
    now: int,
    kind: Option<JwtErrorKind>,
    iat: int,
    exp: int,
)
    requires
        check_outcome(token, secret, now, kind),
    ensures
        issued_token(token, secret, iat, exp) && 60 <= now && now <= exp + 60 ==> kind is None,
        issued_token(token, secret, iat, exp) && 60 <= now && now > exp + 60 ==> kind == Some(
            JwtErrorKind::ExpiredSignature,
        ),
        !has_jwt_shape(token) ==> kind == Some(JwtErrorKind::InvalidToken),
{
    if issued_token(token, secret, iat, exp) {
        assert(hs256_token(claims_json_text(iat, exp), secret) == Some(token));
    }
}

/// The text that goes with each kind this library tells apart.
pub open spec fn kind_text_agrees(kind: JwtErrorKind, text: Seq<char>) -> bool {
    match kind {
        JwtErrorKind::InvalidToken => text == "InvalidToken"@,
        JwtErrorKind::ExpiredSignature => text == "ExpiredSignature"@,
        JwtErrorKind::InvalidClaims => text == invalid_claims_text(),
        JwtErrorKind::Other => true,
    }
}

/// The JSON text of claims issued at `iat` and expiring at `exp`, fields in that order.
pub open spec fn claims_json_text(iat: int, exp: int) -> Seq<char> {
    "{\"iat\":"@ + int_text(iat) + ",\"exp\":"@ + int_text(exp) + "}"@
}

/// The JSON text of the claims of a token issued at `now`.
pub open spec fn session_claims_text(now: int) -> Seq<char> {
    claims_json_text(now, now + JWT_EXPIRY_SECS)
}

/// A session token issued at `now` carries `iat = now` and expires one hour
/// (3600 s) later.
pub proof fn lemma_session_claims_one_hour(now: int)
    ensures
        session_claims_text(now) == claims_json_text(now, now + 3600),
{
}

/// What `jsonwebtoken::encode` gives for these claims (as JSON text, kept
/// byte for byte) under the default header (HS256) and this HMAC secret:
/// `Some` token, or `None` where it fails.
pub uninterp spec fn hs256_token(claims_json: Seq<char>, secret: Seq<u8>) -> Option<Seq<char>>;

/// Calls `jsonwebtoken::encode` with `Header::default()` and
/// `EncodingKey::from_secret(secret)`, the claims handed over as raw JSON text
/// (`serde_json::value::RawValue`). The token is named, not spelled out:
/// base64url and HMAC-SHA256 are not restated here. Its source fails only
/// where the text is not JSON (`RawValue::from_string`): the header always
/// serialises and HS256 signing has no failure path, so claims written as
/// `{"iat":<i64>,"exp":<i64>}` always encode.
#[verifier::external_body]
fn encode_hs256(claims_json: &str, secret: &[u8]) -> (r: Result<String, jsonwebtoken::errors::Error>)
    ensures
        match r {
            Ok(t) => hs256_token(claims_json@, secret@) == Some(t@),
            Err(_) => hs256_token(claims_json@, secret@) is None,
        },
        (exists|iat: int, exp: int|
            i64::MIN <= iat <= i64::MAX && i64::MIN <= exp <= i64::MAX && #[trigger] claims_json_text(
                iat,
                exp,
            ) == claims_json@) ==> r is Ok,
{
    let claims = serde_json::value::RawValue::from_string(claims_json.to_string())?;
    jsonwebtoken::encode(
        &jsonwebtoken::Header::default(),
        &claims,
        &jsonwebtoken::EncodingKey::from_secret(secret),
    )
}

/// Hands back a `jsonwebtoken` error as its kind (`ErrorKind::InvalidToken`
/// and `ErrorKind::ExpiredSignature` told apart, all others as `Other`) and its
/// `Display` text, which for those two kinds is the kind's name.
#[verifier::external_body]
fn jwt_error_of(e: jsonwebtoken::errors::Error) -> (r: JwtError)
    ensures
        kind_text_agrees(r.kind, r.text@),
        !(r.kind is InvalidClaims),
{
    let kind = match e.kind() {
        jsonwebtoken::errors::ErrorKind::InvalidToken => JwtErrorKind::InvalidToken,
        jsonwebtoken::errors::ErrorKind::ExpiredSignature => JwtErrorKind::ExpiredSignature,
        _ => JwtErrorKind::Other,
    };
    JwtError { kind, text: e.to_string() }
}

/// Calls `jsonwebtoken::decode` with `DecodingKey::from_secret(secret)` and the
/// default validation less its clock and claim checks (`validate_exp` and
/// `validate_aud` off, no required claims): the form, HS256 and the signature
/// are checked, and the payload must be a JSON object. The claims are read as a
/// `serde_json::Value`, and their `iat` and `exp` handed back as `i64`
/// (`Value::as_i64`). Nothing here reads the clock. What its source shows: a
/// token without two `.` is refused as `InvalidToken` before anything else;
/// a token this library issued with the same secret is accepted, with its
/// `iat` and `exp`.
#[verifier::external_body]
fn decode_hs256_signed(token: &str, secret: &[u8]) -> (r: Result<(Option<i64>, Option<i64>), JwtError>)
    ensures
        match r {
            Ok(c) => {
                &&& hs256_signed(token@, secret@)
                &&& has_jwt_shape(token@)
                &&& c == token_int_claims(token@)
                &&& forall|iat: int, exp: int|
                    #![trigger hs256_token(claims_json_text(iat, exp), secret@)]
                    issued_token(token@, secret@, iat, exp) ==> c.0 == Some(iat as i64) && c.1 == Some(
                        exp as i64,
                    )
            },
            Err(e) => {
                &&& !hs256_signed(token@, secret@)
                &&& e.text@ == hs256_signed_failure_text(token@, secret@)
                &&& kind_text_agrees(e.kind, e.text@)
                &&& !(e.kind is InvalidClaims)
                &&& (!has_jwt_shape(token@) ==> e.kind == JwtErrorKind::InvalidToken)
                &&& forall|iat: int, exp: int|
                    #![trigger hs256_token(claims_json_text(iat, exp), secret@)]
                    !issued_token(token@, secret@, iat, exp)
            },
        },
{
    let mut validation = jsonwebtoken::Validation::default();
    validation.validate_exp = false;
    validation.validate_aud = false;
    validation.required_spec_claims.clear();
    let key = jsonwebtoken::DecodingKey::from_secret(secret);
    match jsonwebtoken::decode::<serde_json::Value>(token, &key, &validation) {
        Ok(data) => Ok((data.claims["iat"].as_i64(), data.claims["exp"].as_i64())),
        Err(e) => Err(jwt_error_of(e)),
    }
}

/// Calls `jsonwebtoken::decode` with `DecodingKey::from_secret(secret)` and
/// `Validation::default()` (HS256 only, `exp` required and checked against the
/// clock with 60 s leeway, no `aud` allowed), the claims read as a
/// `serde_json::Value`. Of the clock reading `now` that decoding used, what its
/// source shows: acceptance is `hs256_accepts` at `now`, a refusal's text is
/// `hs256_failure_text` at `now`; a token this library issued with the same
/// secret is accepted exactly up to 60 s after its `exp` and refused as
/// `ExpiredSignature` after that (stated for `now >= 60`, where the source does
/// not subtract below zero).
#[verifier::external_body]
fn decode_hs256(token: &str, secret: &[u8]) -> (r: Result<(), JwtError>)
    ensures
        match r {
            Ok(()) => exists|now: int|
                0 <= now && #[trigger] hs256_accepts(token@, secret@, now) && decode_facts(
                    token@,
                    secret@,
                    now,
                    None,
                ),
            Err(e) => exists|now: int|
                0 <= now && !(#[trigger] hs256_accepts(token@, secret@, now)) && e.text@
                    == hs256_failure_text(token@, secret@, now) && decode_facts(
                    token@,
                    secret@,
                    now,
                    Some(e.kind),
                ) && kind_text_agrees(e.kind, e.text@) && !(e.kind is InvalidClaims),
        },
{
    let key = jsonwebtoken::DecodingKey::from_secret(secret);
    match jsonwebtoken::decode::<serde_json::Value>(token, &key, &jsonwebtoken::Validation::default()) {
        Ok(_) => Ok(()),
        Err(e) => Err(jwt_error_of(e)),
    }
}

/// Calls `chrono::Utc::now().timestamp()`: the current time in seconds since
/// 1970. `Utc::now` panics on a clock before 1970 and chrono's dates end before
/// 2^43 seconds, so what it returns lies in `0..MAX_CLOCK_SECS`.
#[verifier::external_body]
fn utc_now_timestamp() -> (t: i64)
    ensures
        0 <= t < MAX_CLOCK_SECS,
{
    chrono::Utc::now().timestamp()
}

/// The claims of a session token issued at `now`.
pub fn session_claims(now: i64) -> (c: Claims)
    requires
        now <= i64::MAX - JWT_EXPIRY_SECS,
    ensures
        c.iat == now,
        c.exp == now + JWT_EXPIRY_SECS,
{
    Claims { iat: now, exp: now + JWT_EXPIRY_SECS }
}

/// The JSON text of `claims`: `{"iat":<iat>,"exp":<exp>}`.
pub fn claims_json(claims: &Claims) -> (r: String)
    ensures
        r@ == claims_json_text(claims.iat as int, claims.exp as int),
{
    let a = joined("{\"iat\":", i64_text(claims.iat).as_str());
    let b = joined(a.as_str(), ",\"exp\":");
    let c = joined(b.as_str(), i64_text(claims.exp).as_str());
    joined(c.as_str(), "}")
}

/// Creates a session token issued at `now`, signed with `secret`. It always succeeds.
pub fn create_jwt_at(secret: &str, now: i64) -> (r: Result<String, String>)
    requires
        now <= i64::MAX - JWT_EXPIRY_SECS,
    ensures
        r matches Ok(t) && hs256_token(session_claims_text(now as int), secret.spec_bytes()) == Some(
            t@,
        ),
{
    let claims = session_claims(now);
    let text = claims_json(&claims);
    assert(claims_json_text(now as int, now + JWT_EXPIRY_SECS) == text@);
    match encode_hs256(text.as_str(), secret.as_bytes()) {
        Ok(t) => Ok(t),
        Err(e) => Err(jwt_error_of(e).text),
    }
}

/// Creates a session token issued now, signed with `secret`. It always
/// succeeds; whatever the clock reads, the token is the one for some time in
/// `0..MAX_CLOCK_SECS`.
pub fn create_jwt(secret: &str) -> (r: Result<String, String>)
    ensures
        r matches Ok(t) && exists|now: int|
            0 <= now < MAX_CLOCK_SECS && hs256_token(
                #[trigger] session_claims_text(now),
                secret.spec_bytes(),
            ) == Some(t@),
{
    let now = utc_now_timestamp();
    let r = create_jwt_at(secret, now);
    assert(session_claims_text(now as int) == session_claims_text(now as int));
    r
}

/// Checks a session token against `secret`: first its form, HS256 signature
/// and integer `iat` and `exp` claims, then its expiry and the other checks of
/// the default validation. On failure, the error's text (`ExpiredSignature` for
/// an expired token, `InvalidToken` for one without the
/// `header.payload.signature` form).
pub fn verify_jwt(token_string: &str, secret: &str) -> (r: Result<(), String>)
    ensures
        match r {
            Ok(()) => exists|now: int|
                0 <= now && #[trigger] check_outcome(token_string@, secret.spec_bytes(), now, None),
            Err(m) => exists|now: int, kind: JwtErrorKind|
                0 <= now && #[trigger] check_outcome(token_string@, secret.spec_bytes(), now, Some(kind))
                    && failure_text(token_string@, secret.spec_bytes(), now, kind, m@),
        },
{
    let t = token_string;
    let ghost s = secret.spec_bytes();
    match decode_hs256_signed(t, secret.as_bytes()) {
        Err(e) => {
            assert(check_outcome(t@, s, 0, Some(e.kind)));
            assert(failure_text(t@, s, 0, e.kind, e.text@));
            Err(e.text)
        },
        Ok((iat, exp)) => {
            if !(iat.is_some() && exp.is_some()) {
                let m = "JSON error: integer iat and exp claims are required".to_owned();
                assert(check_outcome(t@, s, 0, Some(JwtErrorKind::InvalidClaims)));
                assert(failure_text(t@, s, 0, JwtErrorKind::InvalidClaims, m@));
                return Err(m);
            }
            match decode_hs256(t, secret.as_bytes()) {
                Ok(()) => {
                    let ghost now = choose|now: int|
                        0 <= now && #[trigger] hs256_accepts(t@, s, now) && decode_facts(t@, s, now, None);
                    assert(check_outcome(t@, s, now, None));
                    Ok(())
                },
                Err(e) => {
                    let ghost k = e.kind;
                    let ghost now = choose|now: int|
                        0 <= now && !(#[trigger] hs256_accepts(t@, s, now)) && e.text@
                            == hs256_failure_text(t@, s, now) && decode_facts(t@, s, now, Some(k))
                            && kind_text_agrees(k, e.text@) && !(k is InvalidClaims);
                    assert(check_outcome(t@, s, now, Some(k)));
                    assert(failure_text(t@, s, now, k, e.text@));
                    Err(e.text)
                },
            }
        },
    }
}

} // verus!
