use keyrunes_rust_sdk::KeyrunesClient;
use keyrunes_rust_sdk::KeyrunesError;

#[test]
fn test_client_new() {
    let client = KeyrunesClient::new("https://example.com");
    assert!(client.is_ok());
}

#[test]
fn test_client_new_invalid_url() {
    let client = KeyrunesClient::new("not-a-url");
    assert!(client.is_err());
}

#[test]
fn test_client_new_invalid_url_kind() {
    // #assert: a malformed base address is rejected as InvalidUrl exactly.
    match KeyrunesClient::new("not-a-url") {
        Err(KeyrunesError::InvalidUrl(_)) => {}
        _ => panic!("Expected InvalidUrl"),
    }
}

#[test]
fn test_client_trailing_slash_stripped() {
    // #setup
    let plain = KeyrunesClient::new("https://keyrunes.example.com").unwrap();
    let slashed = KeyrunesClient::new("https://keyrunes.example.com/").unwrap();

    // #assert: the normalized base and every request URL agree.
    assert_eq!(plain.base_url, slashed.base_url);
    assert_eq!(plain.login_url(), slashed.login_url());
    assert_eq!(plain.login_url(), "https://keyrunes.example.com/api/login");
    assert_eq!(plain.me_url(), "https://keyrunes.example.com/api/me");
    assert_eq!(plain.register_url(), "https://keyrunes.example.com/api/register");
    assert_eq!(plain.user_url("42"), "https://keyrunes.example.com/api/users/42");
    assert_eq!(
        plain.group_check_url("42", "admins"),
        "https://keyrunes.example.com/api/users/42/groups/admins"
    );
}

#[test]
fn test_login_success() {
    // #setup
    let mut client = KeyrunesClient::new("https://example.com").unwrap();

    // #act
    let result = client.handle_login_response(
        200,
        r#"{"token":"test-token-123"}"#,
        "https://example.com/api/login",
    );

    // #assert
    assert!(result.is_ok());
    let token = result.unwrap();
    assert_eq!(token.token, "test-token-123");
    assert_eq!(client.get_token(), Some("test-token-123".to_string()));
}

#[test]
fn test_login_failure() {
    // #setup
    let mut client = KeyrunesClient::new("https://example.com").unwrap();

    // #act
    let result = client.handle_login_response(
        401,
        r#"{"message":"Invalid credentials"}"#,
        "https://example.com/api/login",
    );

    // #assert
    assert!(result.is_err());
    match result.unwrap_err() {
        KeyrunesError::AuthenticationError(_) => {}
        _ => panic!("Expected AuthenticationError"),
    }
    assert!(client.get_token().is_none());
}

#[test]
fn test_register_success() {
    // #setup
    let client = KeyrunesClient::new("https://example.com").unwrap();

    // #act
    let result = client.handle_register_response(
        201,
        r#"{"user":{"user_id":123,"username":"john","email":"john@example.com","groups":[]},"token":"test-token","requires_password_change":false}"#,
        "https://example.com/api/register",
    );

    // #assert
    assert!(result.is_ok());
    let user = result.unwrap();
    assert_eq!(user.id, "123");
    assert_eq!(user.username, "john");
    assert_eq!(user.email, "john@example.com");
    // registration never installs the embedded token
    assert!(client.get_token().is_none());
}

#[test]
fn test_register_failure() {
    // #setup
    let client = KeyrunesClient::new("https://example.com").unwrap();

    // #act
    let result = client.handle_register_response(
        400,
        r#"{"message":"Email already exists"}"#,
        "https://example.com/api/register",
    );

    // #assert
    assert!(result.is_err());
}

#[test]
fn test_register_and_login_flow() {
    // #setup
    let mut client = KeyrunesClient::new("https://example.com").unwrap();

    // #act
    let user = client
        .handle_register_response(
            201,
            r#"{"user":{"user_id":123,"username":"john","email":"john@example.com","groups":[]},"token":"test-token","requires_password_change":false}"#,
            "https://example.com/api/register",
        )
        .unwrap();
    let token = client
        .handle_login_response(
            200,
            r#"{"token":"test-token-456"}"#,
            "https://example.com/api/login",
        )
        .unwrap();

    // #assert
    assert_eq!(user.username, "john");
    assert_eq!(token.token, "test-token-456");
}

#[test]
fn test_set_token() {
    // #setup
    let mut client = KeyrunesClient::new("https://example.com").unwrap();

    // #act
    client.set_token("test-token-123");

    // #assert: the authenticated fetch goes out with exactly this header.
    assert_eq!(client.auth_header_value().unwrap(), "Bearer test-token-123");
    let user = client.handle_user_response(
        200,
        r#"{"user_id":999,"username":"test","email":"test@example.com","groups":[]}"#,
        "https://example.com/api/me",
    );
    assert!(user.is_ok());
    assert_eq!(user.unwrap().username, "test");
}

#[test]
fn test_get_current_user_success() {
    // #setup
    let mut client = KeyrunesClient::new("https://example.com").unwrap();
    client.set_token("test-token-456");

    // #act
    let result = client.handle_user_response(
        200,
        r#"{"user_id":123,"username":"john","email":"john@example.com","groups":["users"]}"#,
        "https://example.com/api/me",
    );

    // #assert
    assert!(result.is_ok());
    let user = result.unwrap();
    assert_eq!(user.id, "123");
    assert_eq!(user.username, "john");
    assert_eq!(user.email, "john@example.com");
}

#[test]
fn test_get_current_user_no_token() {
    // #setup
    let client = KeyrunesClient::new("https://example.com").unwrap();

    // #act: with no credential the operation fails before any request
    // header exists, so no network call can be made.
    let result = client.auth_header_value();

    // #assert
    assert!(result.is_err());
    assert!(matches!(result.unwrap_err(), KeyrunesError::InvalidToken));
}

#[test]
fn test_get_current_user_unauthorized() {
    // #setup
    let mut client = KeyrunesClient::new("https://example.com").unwrap();
    client.set_token("invalid-token");

    // #act
    let result = client.handle_user_response(
        401,
        r#"{"message":"Invalid token"}"#,
        "https://example.com/api/me",
    );

    // #assert
    assert!(result.is_err());
    assert!(matches!(
        result.unwrap_err(),
        KeyrunesError::AuthenticationError(_)
    ));
}

#[test]
fn test_bearer_header() {
    assert_eq!(keyrunes_rust_sdk::client::bearer_header("abc"), "Bearer abc");
}

#[test]
fn test_token_store_last_writer_wins() {
    // #setup
    let mut client = KeyrunesClient::new("https://example.com").unwrap();

    // #act & #assert: exactly zero or one credential, the last one written.
    assert!(client.get_token().is_none());
    client.set_token("first");
    assert_eq!(client.get_token(), Some("first".to_string()));
    client.set_token("second");
    assert_eq!(client.get_token(), Some("second".to_string()));
    client.clear_token();
    assert!(client.get_token().is_none());
}

#[test]
fn test_login_bad_payload_is_serialization_error() {
    // #setup
    let mut client = KeyrunesClient::new("https://example.com").unwrap();

    // #act: a success status whose body holds no token is a decode failure,
    // never silently swallowed.
    let result = client.handle_login_response(
        200,
        r#"{"unexpected":"shape"}"#,
        "https://example.com/api/login",
    );

    // #assert
    assert!(matches!(
        result.unwrap_err(),
        KeyrunesError::SerializationError(_)
    ));
    assert!(client.get_token().is_none());
}

#[test]
fn test_group_check_responses() {
    // #setup
    let client = KeyrunesClient::new("https://example.com").unwrap();
    let url = "https://example.com/api/users/1/groups/g";

    // #assert: both membership field names come back unchanged.
    assert_eq!(
        client
            .handle_group_check_response(200, r#"{"has_access":true}"#, url)
            .unwrap(),
        true
    );
    assert_eq!(
        client
            .handle_group_check_response(200, r#"{"has_group":false}"#, url)
            .unwrap(),
        false
    );
    assert!(matches!(
        client.handle_group_check_response(200, r#"{}"#, url),
        Err(KeyrunesError::SerializationError(_))
    ));
}
