//! The error taxonomy, and the classification of a completed HTTP exchange.

use vstd::prelude::*;

use crate::text::{
    decimal, decimal_chars, join_strings, joined, push_all, push_str, string_of, strings,
};

verus! {

/// A failure of one logical call, or of the input given to it.
#[derive(Debug, Clone, PartialEq, Eq)]
pub enum DatadogError {
    /// Credentials were rejected (401, 403), or are missing; carries the detail.
    AuthError(String),
    /// The API asked to slow down (429).
    RateLimitError,
    /// The request timed out (408).
    TimeoutError,
    /// Any other unsuccessful status; carries the status and body text.
    ApiError(String),
    /// The transport failed, or a successful body did not have the expected shape.
    NetworkError(String),
    /// A caller parameter is missing or malformed.
    InvalidInput(String),
    /// A time expression could not be resolved.
    DateParseError(String),
}

/// The mathematical content of a `DatadogError`.
pub enum ErrorView {
    Auth(Seq<char>),
    RateLimit,
    Timeout,
    Api(Seq<char>),
    Network(Seq<char>),
    InvalidInput(Seq<char>),
    DateParse(Seq<char>),
}

impl View for DatadogError {
    type V = ErrorView;

    open spec fn view(&self) -> ErrorView {
        match self {
            DatadogError::AuthError(m) => ErrorView::Auth(m@),
            DatadogError::RateLimitError => ErrorView::RateLimit,
            DatadogError::TimeoutError => ErrorView::Timeout,
            DatadogError::ApiError(m) => ErrorView::Api(m@),
            DatadogError::NetworkError(m) => ErrorView::Network(m@),
            DatadogError::InvalidInput(m) => ErrorView::InvalidInput(m@),
            DatadogError::DateParseError(m) => ErrorView::DateParse(m@),
        }
    }
}

/// The standard reason phrase of an HTTP status code, if it has one.
pub uninterp spec fn reason_phrase(code: u16) -> Option<Seq<char>>;

/// Relies on reqwest's `StatusCode::from_u16` and `StatusCode::canonical_reason`
/// (of the http crate): the phrase registered for the code; none for codes
/// outside 100..=999 or unregistered ones.
#[verifier::external_body]
fn canonical_reason(code: u16) -> (r: Option<String>)
    ensures
        r matches Some(p) ==> reason_phrase(code) == Some(p@),
        r is None ==> reason_phrase(code) is None,
{
    match reqwest::StatusCode::from_u16(code) {
        Ok(status) => status.canonical_reason().map(String::from),
        Err(_) => None,
    }
}

/// Whether a status code reports success (2xx).
pub open spec fn is_success_status(code: u16) -> bool {
    200 <= code <= 299
}

/// The error that an unsuccessful status with body text `body` stands for.
pub open spec fn status_error(code: u16, body: Seq<char>) -> ErrorView {
    if code == 401 || code == 403 {
        ErrorView::Auth(body)
    } else if code == 429 {
        ErrorView::RateLimit
    } else if code == 408 {
        ErrorView::Timeout
    } else {
        ErrorView::Api(api_message(code, reason_phrase(code), body))
    }
}

/// Classifies a completed exchange: the body back for a 2xx status, else the
/// error that the status stands for.
pub fn classify_response(status: u16, body: String) -> (r: Result<String, DatadogError>)
    ensures
        is_success_status(status) ==> r == Ok::<String, DatadogError>(body),
        !is_success_status(status) ==> (r matches Err(e) && e@ == status_error(status, body@)),
{
    if 200 <= status && status <= 299 {
        return Ok(body);
    }
    if status == 401 || status == 403 {
        Err(DatadogError::AuthError(body))
    } else if status == 429 {
        Err(DatadogError::RateLimitError)
    } else if status == 408 {
        Err(DatadogError::TimeoutError)
    } else {
        let reason = canonical_reason(status);
        Err(DatadogError::ApiError(api_error_message(status, reason, body.as_str())))
    }
}

/// The message of an unsuccessful status: `HTTP <code> <reason>: <body>`,
/// with `<unknown status code>` where the code has no reason phrase.
pub open spec fn api_message(code: u16, reason: Option<Seq<char>>, body: Seq<char>) -> Seq<char> {
    "HTTP "@ + decimal(code as nat) + " "@ + match reason {
        Some(p) => p,
        None => "<unknown status code>"@,
    } + ": "@ + body
}

/// Writes the message of an unsuccessful status from its reason phrase.
pub fn api_error_message(status: u16, reason: Option<String>, body: &str) -> (r: String)
    ensures
        r@ == api_message(
            status,
            match reason {
                Some(p) => Some(p@),
                None => None,
            },
            body@,
        ),
{
    let mut text: Vec<char> = Vec::new();
    push_str(&mut text, "HTTP ");
    let digits = decimal_chars(status as u64);
    push_all(&mut text, &digits);
    push_str(&mut text, " ");
    match reason {
        Some(p) => push_str(&mut text, p.as_str()),
        None => push_str(&mut text, "<unknown status code>"),
    }
    push_str(&mut text, ": ");
    push_str(&mut text, body);
    string_of(&text)
}

/// Fails with the messages of a response's error list, joined with `", "`,
/// where the response carries one.
pub fn response_errors(errors: Option<&Vec<String>>) -> (r: Result<(), DatadogError>)
    ensures
        errors is None ==> r is Ok,
        errors matches Some(v) ==> (r matches Err(e) && e@ == ErrorView::Api(
            joined(strings(v@), ", "@),
        )),
{
    match errors {
        None => Ok(()),
        Some(v) => Err(DatadogError::ApiError(join_strings(v, ", "))),
    }
}

} // verus!
