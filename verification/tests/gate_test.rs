use keyrunes_rust_sdk::gate::{
    begin_authentication, extract_bearer_token, finish_admin_check, finish_authentication,
    finish_group_check, require_group_id,
};
use keyrunes_rust_sdk::models::LoginCredentials;
use keyrunes_rust_sdk::KeyrunesClient;
use keyrunes_rust_sdk::KeyrunesError;
use keyrunes_rust_sdk::KeyrunesRejection;
use keyrunes_rust_sdk::User;

fn sample_user() -> User {
    User {
        id: "u-1".to_string(),
        username: "john".to_string(),
        email: "john@example.com".to_string(),
        groups: vec![],
        created_at: None,
        updated_at: None,
    }
}

#[test]
fn test_extract_bearer_token() {
    assert!(matches!(
        extract_bearer_token(None),
        Err(KeyrunesRejection::MissingToken)
    ));
    assert!(matches!(
        extract_bearer_token(Some("Basic abc")),
        Err(KeyrunesRejection::InvalidToken)
    ));
    // the prefix is case-sensitive and must carry the space
    assert!(matches!(
        extract_bearer_token(Some("bearer abc")),
        Err(KeyrunesRejection::InvalidToken)
    ));
    assert!(matches!(
        extract_bearer_token(Some("Bearerabc")),
        Err(KeyrunesRejection::InvalidToken)
    ));
    assert_eq!(extract_bearer_token(Some("Bearer abc")).unwrap(), "abc");
    assert_eq!(extract_bearer_token(Some("Bearer ")).unwrap(), "");
}

#[test]
fn test_begin_authentication_installs_token() {
    // #setup
    let mut client = KeyrunesClient::new("https://example.com").unwrap();
    client.set_token("stale");

    // #act
    let token = begin_authentication(&mut client, Some("Bearer fresh")).unwrap();

    // #assert: the extracted credential replaced whatever was stored.
    assert_eq!(token, "fresh");
    assert_eq!(client.get_token(), Some("fresh".to_string()));

    // #act: a rejected header leaves the store untouched.
    let rejected = begin_authentication(&mut client, None);
    assert!(matches!(rejected, Err(KeyrunesRejection::MissingToken)));
    assert_eq!(client.get_token(), Some("fresh".to_string()));
}

#[test]
fn test_finish_authentication() {
    let ok = finish_authentication(Ok(sample_user())).unwrap();
    assert_eq!(ok.user.username, "john");

    let err = finish_authentication(Err(KeyrunesError::AuthenticationError(
        "bad token".to_string(),
    )));
    match err {
        Err(KeyrunesRejection::AuthError(m)) => {
            assert_eq!(m, "Authentication error: bad token");
        }
        _ => panic!("Expected AuthError"),
    }
}

#[test]
fn test_require_group_id_missing_is_distinct() {
    // A request without the group_id parameter is turned away with the
    // dedicated rejection; there is nothing to query remotely.
    let missing = require_group_id(None);
    assert!(matches!(missing, Err(KeyrunesRejection::MissingGroup)));
    let (status, message) = KeyrunesRejection::MissingGroup.status_and_message();
    assert_eq!(status, 400);
    assert_eq!(message, "Missing group_id parameter");

    assert_eq!(require_group_id(Some("editors")).unwrap(), "editors");
}

#[test]
fn test_finish_group_check() {
    let admitted =
        finish_group_check(sample_user(), "editors".to_string(), Ok(true)).unwrap();
    assert_eq!(admitted.group_id, "editors");
    assert_eq!(admitted.user.id, "u-1");

    let denied = finish_group_check(sample_user(), "editors".to_string(), Ok(false));
    match denied {
        Err(KeyrunesRejection::Forbidden(m)) => {
            assert_eq!(m, "User does not belong to group: editors");
        }
        _ => panic!("Expected Forbidden"),
    }

    let failed = finish_group_check(
        sample_user(),
        "editors".to_string(),
        Err(KeyrunesError::NetworkError("timeout".to_string())),
    );
    assert!(matches!(failed, Err(KeyrunesRejection::AuthError(_))));
}

#[test]
fn test_finish_admin_check() {
    // membership present admits the user
    let admitted = finish_admin_check(sample_user(), Ok(true)).unwrap();
    assert_eq!(admitted.user.username, "john");

    // membership absent is a forbidden rejection naming the admins group
    let denied = finish_admin_check(sample_user(), Ok(false));
    match denied {
        Err(KeyrunesRejection::Forbidden(m)) => {
            assert!(m.contains("admins"));
            assert_eq!(m, "User does not belong to group: admins");
        }
        _ => panic!("Expected Forbidden"),
    }
}

#[test]
fn test_rejection_statuses() {
    assert_eq!(KeyrunesRejection::MissingToken.status_and_message().0, 401);
    assert_eq!(KeyrunesRejection::InvalidToken.status_and_message().0, 401);
    assert_eq!(KeyrunesRejection::MissingState.status_and_message().0, 500);
    assert_eq!(KeyrunesRejection::MissingGroup.status_and_message().0, 400);
    assert_eq!(
        KeyrunesRejection::AuthError("x".to_string())
            .status_and_message()
            .0,
        401
    );
    assert_eq!(
        KeyrunesRejection::Forbidden("x".to_string())
            .status_and_message()
            .0,
        403
    );
    assert_eq!(
        KeyrunesRejection::Other("x".to_string()).status_and_message().0,
        500
    );
}

#[test]
fn test_rejection_from_error() {
    assert!(matches!(
        KeyrunesRejection::from_error(KeyrunesError::AuthenticationError("a".to_string())),
        KeyrunesRejection::AuthError(_)
    ));
    assert!(matches!(
        KeyrunesRejection::from_error(KeyrunesError::AuthorizationError("a".to_string())),
        KeyrunesRejection::Forbidden(_)
    ));
    assert!(matches!(
        KeyrunesRejection::from_error(KeyrunesError::InvalidToken),
        KeyrunesRejection::InvalidToken
    ));
    match KeyrunesRejection::from_error(KeyrunesError::NetworkError("t".to_string())) {
        KeyrunesRejection::Other(m) => assert_eq!(m, "Network error: t"),
        _ => panic!("Expected Other"),
    }
}

#[test]
fn test_login_then_authenticated_fetch() {
    // #setup: the whole happy path at the library's level.
    let mut client = KeyrunesClient::new("https://keyrunes.example.com").unwrap();
    let creds = LoginCredentials {
        identity: "u@example.com".to_string(),
        password: "pw".to_string(),
        namespace: "public".to_string(),
    };

    // #act: the login request is what goes on the wire …
    assert_eq!(
        creds.to_json(),
        r#"{"identity":"u@example.com","password":"pw","namespace":"public"}"#
    );
    assert_eq!(client.login_url(), "https://keyrunes.example.com/api/login");

    // … and the service answers with a token.
    let token = client
        .handle_login_response(200, r#"{"token":"abc"}"#, "https://keyrunes.example.com/api/login")
        .unwrap();

    // #assert: the credential is the one returned, and the next
    // authenticated call carries it, with no explicit set in between.
    assert_eq!(token.token, "abc");
    assert_eq!(client.auth_header_value().unwrap(), "Bearer abc");
}
