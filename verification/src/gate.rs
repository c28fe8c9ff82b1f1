//! The request gates: authentication (resolve a bearer header to a user) and
//! authorization (require membership in a group, named or hardcoded to the
//! administrators).
//!
//! Each gate is split at its remote call.  The `begin_*`/`require_*` step
//! decides everything that can be decided from the inbound request alone and
//! installs the credential; the caller then performs the one HTTP exchange
//! and hands the outcome to the matching `finish_*` step.  A failed step is
//! terminal: it yields a typed rejection and no later step can run, so a
//! request that lacks its header or its `group_id` parameter never causes a
//! remote query.

use vstd::prelude::*;
use vstd::string::StrSliceExecFns;
use vstd::string::StringExecFns;

use crate::client::KeyrunesClient;
use crate::error::{spec_render, KeyrunesError};
use crate::models::User;
use crate::strutil::{contains_sub, drop_prefix, is_sub_at, starts_with_str};

verus! {

/// Why a gate turned a request away.
#[derive(Debug, Clone)]
pub enum KeyrunesRejection {
    /// The request carried no authorization header.
    MissingToken,
    /// The authorization header did not carry a bearer credential.
    InvalidToken,
    /// The shared client state was not configured.
    MissingState,
    /// The request lacked the `group_id` query parameter.
    MissingGroup,
    /// The remote service refused to authenticate the credential.
    AuthError(String),
    /// The remote service denied the required membership.
    Forbidden(String),
    /// Anything else.
    Other(String),
}

/// The protocol-visible status each rejection maps to.
pub open spec fn rejection_status(r: KeyrunesRejection) -> u16 {
    match r {
        KeyrunesRejection::MissingToken => 401,
        KeyrunesRejection::InvalidToken => 401,
        KeyrunesRejection::MissingState => 500,
        KeyrunesRejection::MissingGroup => 400,
        KeyrunesRejection::AuthError(_) => 401,
        KeyrunesRejection::Forbidden(_) => 403,
        KeyrunesRejection::Other(_) => 500,
    }
}

/// The message each rejection carries.
pub open spec fn rejection_message(r: KeyrunesRejection) -> Seq<char> {
    match r {
        KeyrunesRejection::MissingToken => "Authentication token missing"@,
        KeyrunesRejection::InvalidToken => "Invalid authentication token"@,
        KeyrunesRejection::MissingState => "Keyrunes state not configured"@,
        KeyrunesRejection::MissingGroup => "Missing group_id parameter"@,
        KeyrunesRejection::AuthError(m) => m@,
        KeyrunesRejection::Forbidden(m) => m@,
        KeyrunesRejection::Other(m) => m@,
    }
}

impl KeyrunesRejection {
    /// The status and message a framework adapter should answer with.
    pub fn status_and_message(&self) -> (r: (u16, String))
        ensures
            r.0 == rejection_status(*self),
            r.1@ == rejection_message(*self),
    {
        match self {
            KeyrunesRejection::MissingToken => (
                401,
                String::from_str("Authentication token missing"),
            ),
            KeyrunesRejection::InvalidToken => (
                401,
                String::from_str("Invalid authentication token"),
            ),
            KeyrunesRejection::MissingState => (
                500,
                String::from_str("Keyrunes state not configured"),
            ),
            KeyrunesRejection::MissingGroup => (400, String::from_str("Missing group_id parameter")),
            KeyrunesRejection::AuthError(m) => (401, m.clone()),
            KeyrunesRejection::Forbidden(m) => (403, m.clone()),
            KeyrunesRejection::Other(m) => (500, m.clone()),
        }
    }

    /// Maps a typed error of the transport into the rejection a gate answers
    /// with: authentication failures keep their message, authorization
    /// failures become a forbidden answer, a missing credential keeps its
    /// kind, and everything else is carried with its rendered message.
    pub fn from_error(e: KeyrunesError) -> (r: KeyrunesRejection)
        ensures
            e matches KeyrunesError::AuthenticationError(m) ==> r
                == KeyrunesRejection::AuthError(m),
            e matches KeyrunesError::AuthorizationError(m) ==> r
                == KeyrunesRejection::Forbidden(m),
            (e matches KeyrunesError::InvalidToken) ==> r == KeyrunesRejection::InvalidToken,
            !(e matches KeyrunesError::AuthenticationError(_)) && !(
            e matches KeyrunesError::AuthorizationError(_)) && !(
            e matches KeyrunesError::InvalidToken) ==> (r matches KeyrunesRejection::Other(m) && m@
                == spec_render(e)),
    {
        match e {
            KeyrunesError::AuthenticationError(m) => KeyrunesRejection::AuthError(m),
            KeyrunesError::AuthorizationError(m) => KeyrunesRejection::Forbidden(m),
            KeyrunesError::InvalidToken => KeyrunesRejection::InvalidToken,
            other => KeyrunesRejection::Other(other.render()),
        }
    }
}

/// The bearer prefix every accepted authorization header starts with,
/// case-sensitively.
pub open spec fn bearer_prefixed(h: Seq<char>) -> bool {
    h.len() >= 7 && h.subrange(0, 7) == "Bearer "@
}

/// The credential inside a bearer header.
pub open spec fn bearer_token(h: Seq<char>) -> Seq<char> {
    h.subrange(7, h.len() as int)
}

/// Reads the bearer credential out of an inbound authorization header: a
/// missing header and a header without the exact `Bearer ` prefix are
/// distinct rejections, both answered as unauthenticated.
pub fn extract_bearer_token(header: Option<&str>) -> (r: Result<String, KeyrunesRejection>)
    ensures
        header is None ==> r is Err && r->Err_0 == KeyrunesRejection::MissingToken,
        header matches Some(h) && !bearer_prefixed(h@) ==> r is Err && r->Err_0
            == KeyrunesRejection::InvalidToken,
        header matches Some(h) ==> (bearer_prefixed(h@) ==> r is Ok && r->Ok_0@ == bearer_token(
            h@,
        )),
{
    let h = match header {
        Some(h) => h,
        None => {
            return Err(KeyrunesRejection::MissingToken);
        },
    };
    proof {
        reveal_strlit("Bearer ");
    }
    if starts_with_str(h, "Bearer ") {
        Ok(drop_prefix(h, 7))
    } else {
        Err(KeyrunesRejection::InvalidToken)
    }
}

/// The first gate step: reads the bearer credential and installs it in the
/// client's token store, overwriting whatever a previous request stored.
/// On success the caller must resolve the credential remotely (fetch the
/// current user) and hand the outcome to [`finish_authentication`]; on a
/// rejection the store is untouched and no remote call may follow.
///
/// The store is shared by every request handled through one client, so when
/// requests run concurrently a second request can overwrite it while the
/// first one's verification is still in flight.  The extracted credential is
/// therefore also returned: a concurrent caller should authenticate the
/// verifying round trip with [`crate::client::bearer_header`] over this
/// value, per call, and treat the store only as the remembered session of a
/// single-caller client.
pub fn begin_authentication(client: &mut KeyrunesClient, header: Option<&str>) -> (r: Result<
    String,
    KeyrunesRejection,
>)
    ensures
        final(client).base_url == old(client).base_url,
        header is None ==> r is Err && r->Err_0 == KeyrunesRejection::MissingToken && *final(client)
            == *old(client),
        header matches Some(h) && !bearer_prefixed(h@) ==> r is Err && r->Err_0
            == KeyrunesRejection::InvalidToken && *final(client) == *old(client),
        header matches Some(h) ==> (bearer_prefixed(h@) ==> r is Ok && r->Ok_0@ == bearer_token(h@)
            && (final(client).token matches Some(t) && t@ == bearer_token(h@))),
{
    match extract_bearer_token(header) {
        Ok(token) => {
            client.set_token(token.as_str());
            Ok(token)
        },
        Err(rej) => Err(rej),
    }
}

/// A user the authentication gate admitted.
#[derive(Debug, Clone)]
pub struct AuthenticatedUser {
    /// The resolved user.
    pub user: User,
}

/// The second gate step: the outcome of the remote fetch-current-user call
/// becomes an authenticated user, or the failure's message as an
/// unauthenticated rejection.
pub fn finish_authentication(outcome: Result<User, KeyrunesError>) -> (r: Result<
    AuthenticatedUser,
    KeyrunesRejection,
>)
    ensures
        outcome matches Ok(u) ==> r is Ok && r->Ok_0.user == u,
        outcome matches Err(e) ==> r is Err && (r->Err_0 matches KeyrunesRejection::AuthError(m)
            && m@ == spec_render(e)),
{
    match outcome {
        Ok(user) => Ok(AuthenticatedUser { user }),
        Err(e) => Err(KeyrunesRejection::AuthError(e.render())),
    }
}

/// A user admitted into a named group.
#[derive(Debug, Clone)]
pub struct RequireGroup {
    /// The resolved user.
    pub user: User,
    /// The group the request required.
    pub group_id: String,
}

/// A user admitted as an administrator.
#[derive(Debug, Clone)]
pub struct RequireAdmin {
    /// The resolved user.
    pub user: User,
}

/// The first authorization step for named-group gating: the `group_id`
/// query parameter is required, and its absence is a rejection of its own —
/// distinct from a failed membership check — after which no membership
/// query can follow.
pub fn require_group_id(param: Option<&str>) -> (r: Result<String, KeyrunesRejection>)
    ensures
        param is None ==> r is Err && r->Err_0 == KeyrunesRejection::MissingGroup,
        param matches Some(g) ==> r is Ok && r->Ok_0@ == g@,
{
    match param {
        Some(g) => Ok(g.to_owned()),
        None => Err(KeyrunesRejection::MissingGroup),
    }
}

/// The final authorization step: a denied membership is a forbidden
/// rejection naming the required group, a confirmed membership admits the
/// user, and a failed query carries the failure's message.
pub fn finish_group_check(user: User, group_id: String, outcome: Result<bool, KeyrunesError>) -> (r:
    Result<RequireGroup, KeyrunesRejection>)
    ensures
        outcome matches Ok(b) && b ==> r is Ok && r->Ok_0.user == user && r->Ok_0.group_id
            == group_id,
        outcome matches Ok(b) && !b ==> r is Err && (r->Err_0
            matches KeyrunesRejection::Forbidden(m) && m@ == "User does not belong to group: "@
            + group_id@ && contains_sub(m@, group_id@)),
        outcome matches Err(e) ==> r is Err && (r->Err_0 matches KeyrunesRejection::AuthError(m)
            && m@ == spec_render(e)),
{
    match outcome {
        Ok(true) => Ok(RequireGroup { user, group_id }),
        Ok(false) => {
            let mut m = String::from_str("User does not belong to group: ");
            m.append(group_id.as_str());
            proof {
                let p = "User does not belong to group: "@;
                assert((p + group_id@).subrange(p.len() as int, (p + group_id@).len() as int)
                    =~= group_id@);
                assert(is_sub_at(p + group_id@, group_id@, p.len() as int));
            }
            Err(KeyrunesRejection::Forbidden(m))
        },
        Err(e) => Err(KeyrunesRejection::AuthError(e.render())),
    }
}

/// The group that administrator gating requires.
pub open spec fn admin_group() -> Seq<char> {
    "admins"@
}

/// Administrator gating is named-group gating with the group hardcoded to
/// the administrators: a denied membership is a forbidden rejection naming
/// that group.
pub fn finish_admin_check(user: User, outcome: Result<bool, KeyrunesError>) -> (r: Result<
    RequireAdmin,
    KeyrunesRejection,
>)
    ensures
        outcome matches Ok(b) && b ==> r is Ok && r->Ok_0.user == user,
        outcome matches Ok(b) && !b ==> r is Err && (r->Err_0
            matches KeyrunesRejection::Forbidden(m) && m@ == "User does not belong to group: "@
            + admin_group() && contains_sub(m@, admin_group())),
        outcome matches Err(e) ==> r is Err && (r->Err_0 matches KeyrunesRejection::AuthError(m)
            && m@ == spec_render(e)),
{
    match finish_group_check(user, String::from_str("admins"), outcome) {
        Ok(rg) => Ok(RequireAdmin { user: rg.user }),
        Err(rej) => Err(rej),
    }
}

} // verus!
