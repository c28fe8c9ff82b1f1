//! The typed error taxonomy of the library.
//!
//! Every remote, parse or validation failure is surfaced to the caller as one
//! of these kinds; nothing is recovered locally.

use vstd::prelude::*;
use vstd::string::StringExecFns;

verus! {

/// Everything that can go wrong while talking to the identity service.
#[derive(Debug, Clone)]
pub enum KeyrunesError {
    /// Invalid credentials, expired token, and other authentication failures.
    AuthenticationError(String),
    /// Access denied, insufficient permissions.
    AuthorizationError(String),
    /// The queried group does not exist.
    GroupNotFoundError(String),
    /// The queried user does not exist.
    UserNotFoundError(String),
    /// Timeout or lost connection.
    NetworkError(String),
    /// Malformed JSON on a success status, or a local encode failure.
    SerializationError(String),
    /// A non-success status not otherwise classified.
    HttpError(String),
    /// The base address did not parse as an absolute URL.
    InvalidUrl(String),
    /// An operation needed a credential and none was set.
    InvalidToken,
    /// Uncategorized.
    Other(String),
}

/// The rendered message of each error kind.
pub open spec fn spec_render(e: KeyrunesError) -> Seq<char> {
    match e {
        KeyrunesError::AuthenticationError(m) => "Authentication error: "@ + m@,
        KeyrunesError::AuthorizationError(m) => "Authorization error: "@ + m@,
        KeyrunesError::GroupNotFoundError(m) => "Group not found: "@ + m@,
        KeyrunesError::UserNotFoundError(m) => "User not found: "@ + m@,
        KeyrunesError::NetworkError(m) => "Network error: "@ + m@,
        KeyrunesError::SerializationError(m) => "Serialization error: "@ + m@,
        KeyrunesError::HttpError(m) => "HTTP error: "@ + m@,
        KeyrunesError::InvalidUrl(m) => "Invalid URL: "@ + m@,
        KeyrunesError::InvalidToken => "Invalid or missing token"@,
        KeyrunesError::Other(m) => "Error: "@ + m@,
    }
}

impl KeyrunesError {
    /// The human-readable message of the error, with its kind spelled out.
    pub fn render(&self) -> (r: String)
        ensures
            r@ == spec_render(*self),
    {
        match self {
            KeyrunesError::AuthenticationError(m) => String::from_str(
                "Authentication error: ",
            ).concat(m.as_str()),
            KeyrunesError::AuthorizationError(m) => String::from_str(
                "Authorization error: ",
            ).concat(m.as_str()),
            KeyrunesError::GroupNotFoundError(m) => String::from_str("Group not found: ").concat(
                m.as_str(),
            ),
            KeyrunesError::UserNotFoundError(m) => String::from_str("User not found: ").concat(
                m.as_str(),
            ),
            KeyrunesError::NetworkError(m) => String::from_str("Network error: ").concat(
                m.as_str(),
            ),
            KeyrunesError::SerializationError(m) => String::from_str(
                "Serialization error: ",
            ).concat(m.as_str()),
            KeyrunesError::HttpError(m) => String::from_str("HTTP error: ").concat(m.as_str()),
            KeyrunesError::InvalidUrl(m) => String::from_str("Invalid URL: ").concat(m.as_str()),
            KeyrunesError::InvalidToken => String::from_str("Invalid or missing token"),
            KeyrunesError::Other(m) => String::from_str("Error: ").concat(m.as_str()),
        }
    }
}

/// Classifies a failure of the transport itself, before any response arrived:
/// a timeout or a failure to connect is a [`KeyrunesError::NetworkError`],
/// anything else a [`KeyrunesError::HttpError`].
pub fn classify_transport_failure(is_timeout: bool, is_connect: bool, message: String) -> (r:
    KeyrunesError)
    ensures
        (is_timeout || is_connect) ==> r == KeyrunesError::NetworkError(message),
        !(is_timeout || is_connect) ==> r == KeyrunesError::HttpError(message),
{
    if is_timeout || is_connect {
        KeyrunesError::NetworkError(message)
    } else {
        KeyrunesError::HttpError(message)
    }
}

} // verus!
