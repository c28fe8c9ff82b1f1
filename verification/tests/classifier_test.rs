use keyrunes_rust_sdk::classifier::{body_looks_html, build_error_message, classify_error};
use keyrunes_rust_sdk::KeyrunesError;

const URL: &str = "https://example.com/api/me";

#[test]
fn test_classify_401_is_authentication() {
    match classify_error(401, r#"{"message":"no"}"#, URL) {
        KeyrunesError::AuthenticationError(m) => {
            assert_eq!(m, format!("no (URL: {})", URL));
        }
        _ => panic!("Expected AuthenticationError"),
    }
}

#[test]
fn test_classify_403_is_authorization() {
    match classify_error(403, r#"{"message":"denied"}"#, URL) {
        KeyrunesError::AuthorizationError(m) => {
            assert_eq!(m, format!("denied (URL: {})", URL));
        }
        _ => panic!("Expected AuthorizationError"),
    }
}

#[test]
fn test_classify_404_user() {
    match classify_error(404, r#"{"message":"User does not exist"}"#, URL) {
        KeyrunesError::UserNotFoundError(m) => {
            assert!(m.contains("User does not exist"));
        }
        _ => panic!("Expected UserNotFoundError"),
    }
}

#[test]
fn test_classify_404_group() {
    match classify_error(404, r#"{"message":"no such group"}"#, URL) {
        KeyrunesError::GroupNotFoundError(m) => {
            assert!(m.contains("no such group"));
        }
        _ => panic!("Expected GroupNotFoundError"),
    }
}

#[test]
fn test_classify_404_neither() {
    match classify_error(404, r#"{"message":"nothing here"}"#, URL) {
        KeyrunesError::Other(m) => {
            assert!(m.starts_with("Resource not found: "));
            assert!(m.contains("nothing here"));
        }
        _ => panic!("Expected Other"),
    }
}

#[test]
fn test_classify_other_status_is_http_error() {
    match classify_error(503, r#"{"message":"down"}"#, URL) {
        KeyrunesError::HttpError(m) => {
            assert_eq!(m, format!("HTTP 503: down (URL: {})", URL));
        }
        _ => panic!("Expected HttpError"),
    }
}

#[test]
fn test_html_body_message_mentions_status_and_url() {
    // A body that begins with `<` after trimming — even one that would also
    // parse as JSON cannot, but whitespace before the `<` must not matter.
    let msg = build_error_message(502, "  \n\t<html><body>oops</body></html>", URL);
    assert!(msg.contains("502"));
    assert!(msg.contains(URL));
    assert!(msg.contains("Received HTML response"));
}

#[test]
fn test_html_detection() {
    assert!(body_looks_html("<html>"));
    assert!(body_looks_html("   <div>"));
    assert!(body_looks_html("\u{a0}\u{2028}<x"));
    assert!(!body_looks_html(""));
    assert!(!body_looks_html("   "));
    assert!(!body_looks_html(r#"{"a":1}"#));
}

#[test]
fn test_message_field_precedence() {
    // `message` wins over `error`.
    let m = build_error_message(400, r#"{"message":"first","error":"second"}"#, URL);
    assert_eq!(m, format!("first (URL: {})", URL));

    // `error` is used when `message` is absent.
    let m = build_error_message(400, r#"{"error":"second"}"#, URL);
    assert_eq!(m, format!("second (URL: {})", URL));

    // a present but non-string `message` falls back to the whole body.
    let body = r#"{"message":5,"error":"second"}"#;
    let m = build_error_message(400, body, URL);
    assert_eq!(m, format!("{} (URL: {})", body, URL));

    // JSON without either field falls back to the whole body.
    let body = r#"{"status":"bad"}"#;
    let m = build_error_message(400, body, URL);
    assert_eq!(m, format!("{} (URL: {})", body, URL));
}

#[test]
fn test_non_json_body_truncated() {
    // A body that is not JSON is truncated to 200 characters.
    let long = "x".repeat(250);
    let m = build_error_message(400, &long, URL);
    let expected_prefix: String = "x".repeat(200);
    assert_eq!(m, format!("{}... (URL: {})", expected_prefix, URL));

    let short = "plain failure";
    let m = build_error_message(400, short, URL);
    assert_eq!(m, format!("{} (URL: {})", short, URL));
}
