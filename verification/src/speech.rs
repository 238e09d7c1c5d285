//! The text-to-speech endpoint: request checks, the upstream call's
//! parameters and results, and the answer to each outcome.
use vstd::prelude::*;
use vstd::utf8::{decode_utf8, valid_utf8};

use crate::url::{is_unreserved, lemma_percent_decode_encode, lemma_percent_encode_safe, percent_decode, percent_encode, percent_encode_text};
use crate::errors::{error_body, format_error_response, ErrorResponse};
use crate::text::{
    joined, contains_seq, has_substring, is_blank, is_blank_seq, nat_text, lowercase,
    u64_text, lowercase_of,
};

verus! {

/// The status of a request the service refuses as invalid.
pub const BAD_REQUEST: u16 = 400;

/// The status of a failure on the service's side.
pub const INTERNAL_SERVER_ERROR: u16 = 500;

/// A checked request: the model to speak with and the text to speak.
pub struct SpeechRequest {
    pub model: String,
    pub text: String,
}

/// An error answer: its HTTP status and its body.
pub struct Rejection {
    pub status: u16,
    pub body: ErrorResponse,
}

/// How a text-to-speech request is answered once the upstream call is done.
pub enum SpeechReply {
    /// 200 with these `audio/mpeg` bytes.
    Audio(Vec<u8>),
    Failed(Rejection),
}

/// The view of an optional string.
pub open spec fn opt_string(s: Option<String>) -> Option<Seq<char>> {
    match s {
        Some(t) => Some(t@),
        None => None,
    }
}

/// The model used when the request names none.
pub open spec fn default_model() -> Seq<char> {
    "aura-2-thalia-en"@
}

/// The model a request asks for, or the default.
pub open spec fn model_of(model: Option<Seq<char>>) -> Seq<char> {
    match model {
        Some(m) => m,
        None => default_model(),
    }
}

/// The error body for a request whose text is missing or empty.
pub open spec fn missing_text_body() -> crate::errors::ErrorBody {
    error_body("Text parameter is required"@, 400, Some("EMPTY_TEXT"@))
}

/// The error body for a request whose text is only white space.
pub open spec fn blank_text_body() -> crate::errors::ErrorBody {
    error_body("Text must be a non-empty string"@, 400, Some("EMPTY_TEXT"@))
}

/// The upstream endpoint for a model, passed as the query parameter `model`
/// (percent-encoded, so that it is the one and only parameter).
pub open spec fn speak_url_text(model: Seq<char>) -> Seq<char> {
    "https://api.deepgram.com/v1/speak?model="@ + percent_encode(model)
}

/// What `String::from_utf8_lossy` gives for these bytes: the UTF-8 text,
/// each invalid sequence replaced by U+FFFD.
pub uninterp spec fn utf8_lossy(bytes: Seq<u8>) -> Seq<char>;

/// The error text for an upstream answer with a status other than 2xx.
pub open spec fn upstream_error_text(status: u16, body: Seq<u8>) -> Seq<char> {
    "Deepgram API error (status "@ + nat_text(status as nat) + "): "@ + utf8_lossy(body)
}

/// The status and code with which an upstream failure is reported, from its error text.
pub open spec fn failure_class(err: Seq<char>) -> (u16, Option<Seq<char>>) {
    class_of_lowered(lowercase_of(err))
}

/// The status and code for an upstream failure whose lowercased error text is `l`.
pub open spec fn class_of_lowered(l: Seq<char>) -> (u16, Option<Seq<char>>) {
    if contains_seq(l, "model"@) || contains_seq(l, "not found"@) {
        (400, Some("MODEL_NOT_FOUND"@))
    } else if contains_seq(l, "too long"@) || contains_seq(l, "length"@) || contains_seq(
        l,
        "limit"@,
    ) || contains_seq(l, "exceed"@) {
        (400, Some("TEXT_TOO_LONG"@))
    } else if contains_seq(l, "invalid"@) || contains_seq(l, "malformed"@) {
        (400, Some("INVALID_TEXT"@))
    } else {
        (500, None)
    }
}

/// Every upstream failure is answered with 400 and a code, or with 500 and
/// `INVALID_TEXT`; the body is a validation error exactly when the status is 400.
pub proof fn lemma_failure_answer(err: Seq<char>)
    ensures
        failure_class(err).0 == 400 || failure_class(err).0 == 500,
        failure_class(err).0 == 400 <==> failure_class(err).1 is Some,
        failure_class(err).0 == 500 ==> error_body(err, 500, failure_class(err).1).code
            == "INVALID_TEXT"@,
        (error_body(err, failure_class(err).0, failure_class(err).1).error_type
            == "ValidationError"@) <==> failure_class(err).0 == 400,
{
    crate::errors::lemma_error_body_shape(err, failure_class(err).0, failure_class(err).1);
}

/// A request that names a model is served with exactly that model, whatever
/// it is; the default `aura-2-thalia-en` applies only when none is named.
pub proof fn lemma_requested_model_kept(m: Seq<char>)
    ensures
        model_of(Some(m)) == m,
        model_of(None) == "aura-2-thalia-en"@,
{
}

/// The upstream URL is the speak endpoint with the one query parameter
/// `model`: its value holds only unreserved characters and `%` (so no `&`,
/// `#`, `=` or `+` can end it or start another), and it percent-decodes back
/// to the whole requested model, whatever the model holds.
pub proof fn lemma_speak_url_names_model(model: Seq<char>)
    ensures
        speak_url_text(model).len() >= 40,
        speak_url_text(model).take(40) == "https://api.deepgram.com/v1/speak?model="@,
        percent_decode(speak_url_text(model).skip(40)) == model,
        forall|j: int|
            40 <= j < speak_url_text(model).len() ==> is_unreserved(#[trigger] speak_url_text(model)[j])
                || speak_url_text(model)[j] == '%',
{
    reveal_strlit("https://api.deepgram.com/v1/speak?model=");
    let p = "https://api.deepgram.com/v1/speak?model="@;
    let u = speak_url_text(model);
    assert(u.take(40) =~= p);
    assert(u.skip(40) =~= percent_encode(model));
    lemma_percent_decode_encode(model);
    lemma_percent_encode_safe(model);
    assert forall|j: int| 40 <= j < u.len() implies is_unreserved(#[trigger] u[j]) || u[j] == '%' by {
        assert(u[j] == percent_encode(model)[j - 40]);
    }
}

/// An upstream failure is answered 400 exactly when its lowercased text `l`
/// names one of `model`, `not found`, `too long`, `length`, `limit`, `exceed`,
/// `invalid`, `malformed`; any other failure is answered 500 with no code. The
/// code is `MODEL_NOT_FOUND` for a model problem, else `TEXT_TOO_LONG` for a
/// length problem, else `INVALID_TEXT`.
pub proof fn lemma_failure_class_keywords(l: Seq<char>)
    ensures
        class_of_lowered(l).0 == 400 <==> (contains_seq(l, "model"@) || contains_seq(l, "not found"@)
            || contains_seq(l, "too long"@) || contains_seq(l, "length"@) || contains_seq(l, "limit"@)
            || contains_seq(l, "exceed"@) || contains_seq(l, "invalid"@) || contains_seq(l, "malformed"@)),
        class_of_lowered(l).0 != 400 ==> class_of_lowered(l).0 == 500 && class_of_lowered(l).1 is None,
        contains_seq(l, "model"@) || contains_seq(l, "not found"@) ==> class_of_lowered(l).1 == Some(
            "MODEL_NOT_FOUND"@,
        ),
        !(contains_seq(l, "model"@) || contains_seq(l, "not found"@)) && (contains_seq(l, "too long"@)
            || contains_seq(l, "length"@) || contains_seq(l, "limit"@) || contains_seq(l, "exceed"@))
            ==> class_of_lowered(l).1 == Some("TEXT_TOO_LONG"@),
        !(contains_seq(l, "model"@) || contains_seq(l, "not found"@) || contains_seq(l, "too long"@)
            || contains_seq(l, "length"@) || contains_seq(l, "limit"@) || contains_seq(l, "exceed"@))
            && (contains_seq(l, "invalid"@) || contains_seq(l, "malformed"@)) ==> class_of_lowered(
            l,
        ).1 == Some("INVALID_TEXT"@),
{
}

/// Calls `String::from_utf8_lossy`. Valid UTF-8 is decoded as it stands.
#[verifier::external_body]
fn utf8_lossy_text(bytes: &[u8]) -> (r: String)
    ensures
        r@ == utf8_lossy(bytes@),
        valid_utf8(bytes@) ==> r@ == decode_utf8(bytes@),
{
    String::from_utf8_lossy(bytes).into_owned()
}

/// The model a request asks for, or `aura-2-thalia-en`.
pub fn resolve_model(model: Option<String>) -> (r: String)
    ensures
        r@ == model_of(opt_string(model)),
        model matches Some(m) ==> r@ == m@,
        model is None ==> r@ == "aura-2-thalia-en"@,
{
    match model {
        Some(m) => m,
        None => "aura-2-thalia-en".to_owned(),
    }
}

/// Checks a text-to-speech request: the text must be present and hold more
/// than white space; the model defaults to `aura-2-thalia-en`.
pub fn prepare_speech_request(text: Option<String>, model: Option<String>) -> (r: Result<
    SpeechRequest,
    Rejection,
>)
    ensures
        match text {
            Some(t) if t@.len() > 0 && !is_blank_seq(t@) => r matches Ok(req) && req.text@ == t@
                && req.model@ == model_of(opt_string(model)),
            Some(t) if t@.len() > 0 => r matches Err(e) && e.status == BAD_REQUEST && e.body@
                == blank_text_body(),
            _ => r matches Err(e) && e.status == BAD_REQUEST && e.body@ == missing_text_body(),
        },
        r matches Ok(req) ==> (model matches Some(m) ==> req.model@ == m@),
        r matches Ok(req) ==> (model is None ==> req.model@ == "aura-2-thalia-en"@),
{
    let model = resolve_model(model);
    let text = match text {
        Some(t) if !t.as_str().is_empty() => t,
        _ => {
            return Err(
                Rejection {
                    status: BAD_REQUEST,
                    body: format_error_response(
                        "Text parameter is required",
                        400,
                        Some("EMPTY_TEXT"),
                    ),
                },
            );
        },
    };
    if is_blank(text.as_str()) {
        return Err(
            Rejection {
                status: BAD_REQUEST,
                body: format_error_response(
                    "Text must be a non-empty string",
                    400,
                    Some("EMPTY_TEXT"),
                ),
            },
        );
    }
    Ok(SpeechRequest { model, text })
}

/// The upstream endpoint for a model: `https://api.deepgram.com/v1/speak?model=<model>`,
/// the model percent-encoded.
pub fn speak_url(model: &str) -> (r: String)
    ensures
        r@ == speak_url_text(model@),
        r@.take(40) == "https://api.deepgram.com/v1/speak?model="@,
        percent_decode(r@.skip(40)) == model@,
{
    let encoded = percent_encode_text(model);
    let r = joined("https://api.deepgram.com/v1/speak?model=", encoded.as_str());
    proof {
        lemma_speak_url_names_model(model@);
    }
    r
}

/// The `Authorization` header value for the upstream call: `Token <api_key>`.
pub fn token_authorization(api_key: &str) -> (r: String)
    ensures
        r@ == "Token "@ + api_key@,
{
    joined("Token ", api_key)
}

/// The error text when the upstream call could not be made.
pub fn call_failed_text(detail: &str) -> (r: String)
    ensures
        r@ == "failed to call Deepgram API: "@ + detail@,
{
    joined("failed to call Deepgram API: ", detail)
}

/// The error text when the upstream answer could not be read.
pub fn read_failed_text(detail: &str) -> (r: String)
    ensures
        r@ == "failed to read response: "@ + detail@,
{
    joined("failed to read response: ", detail)
}

/// The audio of an upstream answer with a 2xx status, else its error text.
pub fn upstream_result(status: u16, body: Vec<u8>) -> (r: Result<Vec<u8>, String>)
    ensures
        200 <= status < 300 ==> (r matches Ok(audio) && audio@ == body@),
        !(200 <= status < 300) ==> (r matches Err(e) && e@ == upstream_error_text(status, body@)),
        !(200 <= status < 300) && valid_utf8(body@) ==> (r matches Err(e) && e@
            == "Deepgram API error (status "@ + nat_text(status as nat) + "): "@ + decode_utf8(body@)),
{
    if 200 <= status && status < 300 {
        Ok(body)
    } else {
        let a = joined("Deepgram API error (status ", u64_text(status as u64).as_str());
        let b = joined(a.as_str(), "): ");
        let c = joined(b.as_str(), utf8_lossy_text(body.as_slice()).as_str());
        Err(c)
    }
}

/// The status and code with which an upstream failure with error text `err` is reported.
pub fn classify_failure(err: &str) -> (r: (u16, Option<&'static str>))
    ensures
        r.0 == failure_class(err@).0,
        crate::errors::opt_text(r.1) == failure_class(err@).1,
        r.0 == 400 <==> ({
            let l = lowercase_of(err@);
            contains_seq(l, "model"@) || contains_seq(l, "not found"@) || contains_seq(l, "too long"@)
                || contains_seq(l, "length"@) || contains_seq(l, "limit"@) || contains_seq(
                l,
                "exceed"@,
            ) || contains_seq(l, "invalid"@) || contains_seq(l, "malformed"@)
        }),
        r.0 != 400 ==> r.0 == 500 && r.1 is None,
{
    let lowered = lowercase(err);
    classify_lowered(lowered.as_str())
}

/// The status and code for an upstream failure whose lowercased error text is `l`.
pub fn classify_lowered(l: &str) -> (r: (u16, Option<&'static str>))
    ensures
        r.0 == class_of_lowered(l@).0,
        crate::errors::opt_text(r.1) == class_of_lowered(l@).1,
        r.0 == 400 <==> (contains_seq(l@, "model"@) || contains_seq(l@, "not found"@) || contains_seq(
            l@,
            "too long"@,
        ) || contains_seq(l@, "length"@) || contains_seq(l@, "limit"@) || contains_seq(l@, "exceed"@)
            || contains_seq(l@, "invalid"@) || contains_seq(l@, "malformed"@)),
        r.0 != 400 ==> r.0 == 500 && r.1 is None,
{
    proof {
        lemma_failure_class_keywords(l@);
    }
    if has_substring(l, "model") || has_substring(l, "not found") {
        (400, Some("MODEL_NOT_FOUND"))
    } else if has_substring(l, "too long") || has_substring(l, "length") || has_substring(
        l,
        "limit",
    ) || has_substring(l, "exceed") {
        (400, Some("TEXT_TOO_LONG"))
    } else if has_substring(l, "invalid") || has_substring(l, "malformed") {
        (400, Some("INVALID_TEXT"))
    } else {
        (500, None)
    }
}

/// The answer to an upstream failure with error text `err`.
pub fn generation_failure(err: &str) -> (r: Rejection)
    ensures
        r.status == failure_class(err@).0,
        r.body@ == error_body(err@, failure_class(err@).0, failure_class(err@).1),
{
    let (status, code) = classify_failure(err);
    Rejection { status, body: format_error_response(err, status, code) }
}

/// The answer to a checked request, given the upstream outcome.
pub fn speech_reply(outcome: Result<Vec<u8>, String>) -> (r: SpeechReply)
    ensures
        match outcome {
            Ok(audio) => r matches SpeechReply::Audio(a) && a@ == audio@,
            Err(e) => r matches SpeechReply::Failed(f) && f.status == failure_class(e@).0 && f.body@
                == error_body(e@, failure_class(e@).0, failure_class(e@).1),
        },
{
    match outcome {
        Ok(audio) => SpeechReply::Audio(audio),
        Err(e) => SpeechReply::Failed(generation_failure(e.as_str())),
    }
}

} // verus!
