use datadog_cli::errors::{api_error_message, classify_response, response_errors, DatadogError};
use datadog_cli::text::join_strings;

#[test]
fn success_statuses_return_the_body() {
    assert_eq!(classify_response(200, "a".to_string()), Ok("a".to_string()));
    assert_eq!(classify_response(204, String::new()), Ok(String::new()));
    assert_eq!(classify_response(299, "z".to_string()), Ok("z".to_string()));
}

#[test]
fn auth_statuses() {
    assert_eq!(
        classify_response(401, "denied".to_string()),
        Err(DatadogError::AuthError("denied".to_string()))
    );
    assert_eq!(
        classify_response(403, "forbidden".to_string()),
        Err(DatadogError::AuthError("forbidden".to_string()))
    );
}

#[test]
fn rate_limit_and_timeout_statuses() {
    assert_eq!(classify_response(429, "slow".to_string()), Err(DatadogError::RateLimitError));
    assert_eq!(classify_response(408, "late".to_string()), Err(DatadogError::TimeoutError));
}

#[test]
fn other_statuses_carry_status_and_body() {
    assert_eq!(
        classify_response(404, "missing".to_string()),
        Err(DatadogError::ApiError("HTTP 404 Not Found: missing".to_string()))
    );
    assert_eq!(
        classify_response(500, "boom".to_string()),
        Err(DatadogError::ApiError("HTTP 500 Internal Server Error: boom".to_string()))
    );
    assert_eq!(
        classify_response(599, "".to_string()),
        Err(DatadogError::ApiError("HTTP 599 <unknown status code>: ".to_string()))
    );
    assert_eq!(
        classify_response(302, "moved".to_string()),
        Err(DatadogError::ApiError("HTTP 302 Found: moved".to_string()))
    );
}

#[test]
fn error_lists_fail_the_call() {
    assert_eq!(response_errors(None), Ok(()));
    let errors = vec!["bad query".to_string(), "try again".to_string()];
    assert_eq!(
        response_errors(Some(&errors)),
        Err(DatadogError::ApiError("bad query, try again".to_string()))
    );
    assert_eq!(response_errors(Some(&Vec::new())), Err(DatadogError::ApiError(String::new())));
}

#[test]
fn joining_strings() {
    let parts = vec!["a".to_string(), "".to_string(), "c".to_string()];
    assert_eq!(join_strings(&parts, "--"), "a----c");
    assert_eq!(join_strings(&Vec::new(), ","), "");
}

#[test]
fn api_error_messages() {
    assert_eq!(
        api_error_message(418, Some("I'm a teapot".to_string()), "tea"),
        "HTTP 418 I'm a teapot: tea"
    );
    assert_eq!(api_error_message(999, None, ""), "HTTP 999 <unknown status code>: ");
}
