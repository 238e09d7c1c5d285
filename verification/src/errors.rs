//! The structured error body that every failing API call answers with.
use vstd::prelude::*;

use crate::text::{
    ascii_lower, contains_seq, has_substring, is_ascii_text, lemma_ascii_case_ignored, lowercase,
    lowercase_of,
};

verus! {

/// What an error body says: its type, code, message and details, as text.
pub struct ErrorBody {
    pub error_type: Seq<char>,
    pub code: Seq<char>,
    pub message: Seq<char>,
    pub details: Seq<(Seq<char>, Seq<char>)>,
}

impl ErrorBody {
    /// No two details share a key, as in a JSON object.
    pub open spec fn detail_keys_distinct(self) -> bool {
        forall|i: int, j: int|
            0 <= i < j < self.details.len() ==> #[trigger] self.details[i].0 != #[trigger] self.details[j].0
    }
}

/// The error object of an error response.
pub struct ErrorDetail {
    /// The error's type, such as `ValidationError`.
    pub error_type: String,
    pub code: String,
    pub message: String,
    /// Extra information, as key and value pairs with distinct keys.
    pub details: Vec<(String, String)>,
}

/// An error response: `{"error": {...}}`.
pub struct ErrorResponse {
    pub error: ErrorDetail,
}

impl View for ErrorResponse {
    type V = ErrorBody;

    open spec fn view(&self) -> ErrorBody {
        ErrorBody {
            error_type: self.error.error_type@,
            code: self.error.code@,
            message: self.error.message@,
            details: self.error.details@.map_values(|p: (String, String)| (p.0@, p.1@)),
        }
    }
}

/// The view of an optional string.
pub open spec fn opt_text(s: Option<&str>) -> Option<Seq<char>> {
    match s {
        Some(t) => Some(t@),
        None => None,
    }
}

/// The code chosen for an error whose caller gave none, from its status
/// and its lowercased message.
pub open spec fn detected_code(status_code: u16, lowered: Seq<char>) -> Seq<char> {
    if status_code == 400 {
        if contains_seq(lowered, "empty"@) {
            "EMPTY_TEXT"@
        } else if contains_seq(lowered, "model"@) {
            "MODEL_NOT_FOUND"@
        } else if contains_seq(lowered, "long"@) || contains_seq(lowered, "limit"@)
            || contains_seq(lowered, "exceed"@) {
            "TEXT_TOO_LONG"@
        } else {
            "INVALID_TEXT"@
        }
    } else {
        "INVALID_TEXT"@
    }
}

/// The error type that goes with a status: validation for 400, generation otherwise.
pub open spec fn error_type_for(status_code: u16) -> Seq<char> {
    if status_code == 400 {
        "ValidationError"@
    } else {
        "GenerationError"@
    }
}

/// The body `format_error_response` builds.
pub open spec fn error_body(message: Seq<char>, status_code: u16, error_code: Option<Seq<char>>) -> ErrorBody {
    ErrorBody {
        error_type: error_type_for(status_code),
        code: match error_code {
            Some(c) => c,
            None => detected_code(status_code, lowercase_of(message)),
        },
        message: message,
        details: seq![("originalError"@, message)],
    }
}

/// The body of a rejected request for want of authentication.
pub open spec fn auth_error_body(code: Seq<char>, message: Seq<char>) -> ErrorBody {
    ErrorBody { error_type: "AuthenticationError"@, code, message, details: seq![] }
}

/// A detected code is always one of the four text-validation codes.
pub proof fn lemma_detected_code_known(status_code: u16, lowered: Seq<char>)
    ensures
        detected_code(status_code, lowered) == "EMPTY_TEXT"@ || detected_code(status_code, lowered)
            == "MODEL_NOT_FOUND"@ || detected_code(status_code, lowered) == "TEXT_TOO_LONG"@
            || detected_code(status_code, lowered) == "INVALID_TEXT"@,
        status_code != 400 ==> detected_code(status_code, lowered) == "INVALID_TEXT"@,
{
}

/// Whatever the message and code, an error body keeps the message, records it
/// as the only detail `originalError`, and is a validation error exactly for status 400.
pub proof fn lemma_error_body_shape(message: Seq<char>, status_code: u16, error_code: Option<
    Seq<char>,
>)
    ensures
        error_body(message, status_code, error_code).message == message,
        error_body(message, status_code, error_code).details == seq![("originalError"@, message)],
        (error_body(message, status_code, error_code).error_type == "ValidationError"@) <==> (
        status_code == 400),
        error_code is Some ==> error_body(message, status_code, error_code).code
            == error_code->0,
        error_body(message, status_code, error_code).detail_keys_distinct(),
{
    reveal_strlit("ValidationError");
    reveal_strlit("GenerationError");
    if status_code != 400 {
        assert("ValidationError"@[0] != "GenerationError"@[0]);
    }
}

/// Messages that differ only in the case of ASCII letters get the same code
/// and type, whatever the status and the code given.
pub proof fn lemma_detection_ignores_ascii_case(
    m1: Seq<char>,
    m2: Seq<char>,
    status_code: u16,
    error_code: Option<Seq<char>>,
)
    requires
        is_ascii_text(m1),
        is_ascii_text(m2),
        ascii_lower(m1) == ascii_lower(m2),
    ensures
        error_body(m1, status_code, error_code).code == error_body(m2, status_code, error_code).code,
        error_body(m1, status_code, error_code).error_type == error_body(
            m2,
            status_code,
            error_code,
        ).error_type,
{
    lemma_ascii_case_ignored(m1, m2);
}

/// The code of an error that names none, from its status and lowercased
/// message `l`: for status 400, `EMPTY_TEXT` where `l` contains `empty`, else
/// `MODEL_NOT_FOUND` where it contains `model`, else `TEXT_TOO_LONG` where it
/// contains `long`, `limit` or `exceed`, else `INVALID_TEXT`; for any other
/// status, `INVALID_TEXT`.
pub proof fn lemma_detected_code_keywords(status_code: u16, l: Seq<char>)
    ensures
        status_code == 400 && contains_seq(l, "empty"@) ==> detected_code(status_code, l)
            == "EMPTY_TEXT"@,
        status_code == 400 && !contains_seq(l, "empty"@) && contains_seq(l, "model"@)
            ==> detected_code(status_code, l) == "MODEL_NOT_FOUND"@,
        status_code == 400 && !contains_seq(l, "empty"@) && !contains_seq(l, "model"@) && (
        contains_seq(l, "long"@) || contains_seq(l, "limit"@) || contains_seq(l, "exceed"@))
            ==> detected_code(status_code, l) == "TEXT_TOO_LONG"@,
        status_code == 400 && !contains_seq(l, "empty"@) && !contains_seq(l, "model"@)
            && !contains_seq(l, "long"@) && !contains_seq(l, "limit"@) && !contains_seq(l, "exceed"@)
            ==> detected_code(status_code, l) == "INVALID_TEXT"@,
        status_code != 400 ==> detected_code(status_code, l) == "INVALID_TEXT"@,
{
}

/// A response built without a code carries the code detected from its
/// lowercased message (so `Model not found` with status 400 is
/// `MODEL_NOT_FOUND`); one built with a code carries that code.
pub proof fn lemma_error_body_code(message: Seq<char>, status_code: u16, error_code: Option<Seq<char>>)
    ensures
        error_code matches Some(c) ==> error_body(message, status_code, error_code).code == c,
        error_code is None ==> error_body(message, status_code, error_code).code == detected_code(
            status_code,
            lowercase_of(message),
        ),
        error_code is None && status_code == 400 && !contains_seq(lowercase_of(message), "empty"@)
            && contains_seq(lowercase_of(message), "model"@) ==> error_body(
            message,
            status_code,
            error_code,
        ).code == "MODEL_NOT_FOUND"@,
{
    lemma_detected_code_keywords(status_code, lowercase_of(message));
}

/// The code detected from an already lowercased message that names none.
pub fn detect_code_lowered(lowered: &str, status_code: u16) -> (r: String)
    ensures
        r@ == detected_code(status_code, lowered@),
        status_code == 400 && contains_seq(lowered@, "empty"@) ==> r@ == "EMPTY_TEXT"@,
        status_code == 400 && !contains_seq(lowered@, "empty"@) && contains_seq(lowered@, "model"@)
            ==> r@ == "MODEL_NOT_FOUND"@,
        status_code == 400 && !contains_seq(lowered@, "empty"@) && !contains_seq(lowered@, "model"@)
            && (contains_seq(lowered@, "long"@) || contains_seq(lowered@, "limit"@) || contains_seq(
            lowered@,
            "exceed"@,
        )) ==> r@ == "TEXT_TOO_LONG"@,
        status_code == 400 && !contains_seq(lowered@, "empty"@) && !contains_seq(lowered@, "model"@)
            && !contains_seq(lowered@, "long"@) && !contains_seq(lowered@, "limit"@) && !contains_seq(
            lowered@,
            "exceed"@,
        ) ==> r@ == "INVALID_TEXT"@,
        status_code != 400 ==> r@ == "INVALID_TEXT"@,
{
    proof {
        lemma_detected_code_keywords(status_code, lowered@);
    }
    let l = lowered;
    if status_code == 400 {
        if has_substring(l, "empty") {
            "EMPTY_TEXT".to_owned()
        } else if has_substring(l, "model") {
            "MODEL_NOT_FOUND".to_owned()
        } else if has_substring(l, "long") || has_substring(l, "limit") || has_substring(
            l,
            "exceed",
        ) {
            "TEXT_TOO_LONG".to_owned()
        } else {
            "INVALID_TEXT".to_owned()
        }
    } else {
        "INVALID_TEXT".to_owned()
    }
}

/// The code detected from a message that names none.
fn detect_code(message: &str, status_code: u16) -> (r: String)
    ensures
        r@ == detected_code(status_code, lowercase_of(message@)),
{
    let lowered = lowercase(message);
    detect_code_lowered(lowered.as_str(), status_code)
}

/// Builds a contract-compliant error response.
/// The code is `error_code` where given; otherwise it is detected from the message.
pub fn format_error_response(message: &str, status_code: u16, error_code: Option<&str>) -> (r:
    ErrorResponse)
    ensures
        r@ == error_body(message@, status_code, opt_text(error_code)),
{
    let code = match error_code {
        Some(c) => c.to_owned(),
        None => detect_code(message, status_code),
    };
    let error_type = if status_code == 400 {
        "ValidationError".to_owned()
    } else {
        "GenerationError".to_owned()
    };
    let mut details: Vec<(String, String)> = Vec::new();
    details.push(("originalError".to_owned(), message.to_owned()));
    let r = ErrorResponse {
        error: ErrorDetail { error_type, code, message: message.to_owned(), details },
    };
    assert(r@.details =~= seq![("originalError"@, message@)]);
    r
}

/// An authentication error with the given code and message and no details.
pub fn authentication_error(code: &str, message: &str) -> (r: ErrorResponse)
    ensures
        r@ == auth_error_body(code@, message@),
{
    let r = ErrorResponse {
        error: ErrorDetail {
            error_type: "AuthenticationError".to_owned(),
            code: code.to_owned(),
            message: message.to_owned(),
            details: Vec::new(),
        },
    };
    assert(r@.details =~= seq![]);
    r
}

} // verus!
