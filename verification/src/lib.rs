//! Client-side gate pipeline for a remote identity service.
//!
//! The library delegates authentication and authorization decisions to a
//! remote service and exposes them as composable request gates: a session
//! token store, a response-to-typed-error classifier, an authentication gate
//! and a group-membership authorization gate.  All decision logic lives here
//! and is verified; the HTTP transport itself is left to the caller.

pub mod classifier;
pub mod client;
pub mod decode;
pub mod error;
pub mod gate;
pub mod jsonread;
pub mod jsonwrite;
pub mod models;
pub mod strutil;

pub use client::KeyrunesClient;
pub use error::KeyrunesError;
pub use gate::{AuthenticatedUser, KeyrunesRejection, RequireAdmin, RequireGroup};
pub use models::{
    AdminRegistration, Group, GroupCheck, GroupVerificationResponse, LoginCredentials,
    RegisterResponse, Token, TokenResponse, User, UserRegistration, UserResponse,
};
