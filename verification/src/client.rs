//! The transport client's verified half: the validated base address, the
//! session token store, the outbound URLs and headers, and the handling of
//! every answer the service can give.
//!
//! The client never performs I/O itself.  A caller asks it for the URL, the
//! payload and the `Authorization` header of an operation, performs the HTTP
//! exchange, and hands the raw `(status, body, url)` answer back to the
//! matching `handle_*` method, which classifies and decodes it.  An
//! operation that needs a credential fails with
//! [`KeyrunesError::InvalidToken`] before any request exists, so no network
//! call can happen without one.

use vstd::prelude::*;
use vstd::string::StrSliceExecFns;
use vstd::string::StringExecFns;

use crate::classifier::{classified_error, classify_error, is_success_status};
use crate::decode::{
    decode_group_check, decode_token, decode_user, decoded_group_check, decoded_token,
    decoded_user, token_decode_ok, user_decode_ok,
};
use crate::error::KeyrunesError;
use crate::models::Token;
use crate::models::User;

verus! {

/// Whether the text parses as an absolute URL.
pub uninterp spec fn url_ok(s: Seq<char>) -> bool;

/// Relies on `url::Url::parse`: accepts exactly the absolute-URL syntax, and
/// hands back the parser's message when it refuses.
#[verifier::external_body]
fn check_base_url(s: &str) -> (r: Option<String>)
    ensures
        r is None <==> url_ok(s@),
{
    match url::Url::parse(s) {
        Ok(_) => None,
        Err(e) => Some(e.to_string()),
    }
}

/// `s` with every trailing slash removed.
pub open spec fn strip_slashes(s: Seq<char>) -> Seq<char>
    decreases s.len(),
{
    if s.len() > 0 && s[s.len() - 1] == '/' {
        strip_slashes(s.drop_last())
    } else {
        s
    }
}

/// A trailing slash on the address has no effect on the normalized base:
/// stripping after appending one gives what stripping alone gives, so two
/// clients built from `addr` and `addr/` issue identical request URLs.
pub proof fn lemma_trailing_slash_stripped(s: Seq<char>)
    ensures
        strip_slashes(s.push('/')) == strip_slashes(s),
{
    let t = s.push('/');
    assert(t[t.len() - 1] == '/');
    assert(t.drop_last() =~= s);
}

/// Two clients built from the same address with and without a trailing
/// slash normalize to the same base, and every request URL is a function of
/// the base alone (see the URL builders' contracts), so the slash has no
/// observable effect on subsequent request paths.
pub proof fn lemma_trailing_slash_no_effect(s: Seq<char>, c1: KeyrunesClient, c2: KeyrunesClient)
    requires
        c1.base_url@ == strip_slashes(s),
        c2.base_url@ == strip_slashes(s.push('/')),
    ensures
        c1.base_url@ == c2.base_url@,
{
    lemma_trailing_slash_stripped(s);
}

/// Removes every trailing slash of `s`.
fn strip_trailing_slashes(s: &str) -> (r: String)
    ensures
        r@ == strip_slashes(s@),
{
    let n = s.unicode_len();
    let mut end: usize = n;
    proof {
        assert(s@.subrange(0, n as int) =~= s@);
    }
    while end > 0 && s.get_char(end - 1) == '/'
        invariant
            end <= n,
            n == s@.len(),
            strip_slashes(s@) == strip_slashes(s@.subrange(0, end as int)),
        decreases end,
    {
        proof {
            assert(s@.subrange(0, end as int).drop_last() =~= s@.subrange(0, end - 1));
        }
        end -= 1;
    }
    s.substring_char(0, end).to_owned()
}

/// The `Authorization` header value carrying one explicit credential.
///
/// Concurrent callers that share one client should authenticate each request
/// with this, over the credential extracted from that request, rather than
/// through the shared token store: between a store write and the verifying
/// round trip another request may overwrite the store, and a store-derived
/// header would then carry the other request's credential.
pub fn bearer_header(token: &str) -> (r: String)
    ensures
        r@ == "Bearer "@ + token@,
{
    String::from_str("Bearer ").concat(token)
}

/// The client: a slash-normalized base address, validated at construction,
/// and the session token store — at most one bearer credential, the last one
/// written.
#[derive(Debug, Clone)]
pub struct KeyrunesClient {
    /// The base address every request URL starts with; it never ends in `/`.
    pub base_url: String,
    /// The session token store: the current credential, if any was set.
    pub token: Option<String>,
}

impl KeyrunesClient {
    /// Builds a client from a base address.  Succeeds exactly when the
    /// address parses as an absolute URL, and strips its trailing slashes.
    pub fn new(base_url: &str) -> (r: Result<KeyrunesClient, KeyrunesError>)
        ensures
            r is Ok <==> url_ok(base_url@),
            r is Ok ==> r->Ok_0.base_url@ == strip_slashes(base_url@) && r->Ok_0.token is None,
            r is Err ==> r->Err_0 matches KeyrunesError::InvalidUrl(_),
    {
        match check_base_url(base_url) {
            None => Ok(
                KeyrunesClient { base_url: strip_trailing_slashes(base_url), token: None },
            ),
            Some(msg) => Err(KeyrunesError::InvalidUrl(msg)),
        }
    }

    /// Installs a credential, overwriting whatever was stored.
    pub fn set_token(&mut self, token: &str)
        ensures
            final(self).token matches Some(t) && t@ == token@,
            final(self).base_url == old(self).base_url,
    {
        self.token = Some(token.to_owned());
    }

    /// The stored credential, if any.
    pub fn get_token(&self) -> (r: Option<String>)
        ensures
            r == self.token,
    {
        match &self.token {
            Some(t) => Some(t.clone()),
            None => None,
        }
    }

    /// Empties the token store.
    pub fn clear_token(&mut self)
        ensures
            final(self).token is None,
            final(self).base_url == old(self).base_url,
    {
        self.token = None;
    }

    /// The URL of the login operation.
    pub fn login_url(&self) -> (r: String)
        ensures
            r@ == self.base_url@ + "/api/login"@,
    {
        self.base_url.clone().concat("/api/login")
    }

    /// The URL of the registration operation, for users and administrators
    /// alike.
    pub fn register_url(&self) -> (r: String)
        ensures
            r@ == self.base_url@ + "/api/register"@,
    {
        self.base_url.clone().concat("/api/register")
    }

    /// The URL of the fetch-current-user operation.
    pub fn me_url(&self) -> (r: String)
        ensures
            r@ == self.base_url@ + "/api/me"@,
    {
        self.base_url.clone().concat("/api/me")
    }

    /// The URL of the fetch-user-by-id operation.
    pub fn user_url(&self, id: &str) -> (r: String)
        ensures
            r@ == self.base_url@ + "/api/users/"@ + id@,
    {
        let mut out = self.base_url.clone();
        out.append("/api/users/");
        out.append(id);
        out
    }

    /// The URL of the group-membership check.
    pub fn group_check_url(&self, user_id: &str, group_id: &str) -> (r: String)
        ensures
            r@ == self.base_url@ + "/api/users/"@ + user_id@ + "/groups/"@ + group_id@,
    {
        let mut out = self.base_url.clone();
        out.append("/api/users/");
        out.append(user_id);
        out.append("/groups/");
        out.append(group_id);
        out
    }

    /// The `Authorization` header of an authenticated operation.  With no
    /// credential in the store this fails with
    /// [`KeyrunesError::InvalidToken`] at once: the caller never obtains a
    /// header, so no network call is made.
    pub fn auth_header_value(&self) -> (r: Result<String, KeyrunesError>)
        ensures
            r is Ok <==> self.token is Some,
            r is Ok ==> r->Ok_0@ == "Bearer "@ + self.token->0@,
            r is Err ==> r->Err_0 matches KeyrunesError::InvalidToken,
    {
        match &self.token {
            Some(t) => Ok(bearer_header(t.as_str())),
            None => Err(KeyrunesError::InvalidToken),
        }
    }

    /// Handles the answer of the login operation: on a success status a
    /// decoded credential, installed into the token store as a side effect;
    /// a payload that does not decode is a serialization error; a
    /// non-success status is classified.  Only a successful login touches
    /// the store.
    pub fn handle_login_response(&mut self, status: u16, body: &str, url: &str) -> (r: Result<
        Token,
        KeyrunesError,
    >)
        ensures
            final(self).base_url == old(self).base_url,
            is_success_status(status) && token_decode_ok(body@) ==> r is Ok && decoded_token(
                body@,
                r->Ok_0,
            ) && final(self).token == Some(r->Ok_0.token),
            is_success_status(status) && !token_decode_ok(body@) ==> r is Err && (r->Err_0
                matches KeyrunesError::SerializationError(_)) && final(self).token == old(
                self,
            ).token,
            !is_success_status(status) ==> r is Err && classified_error(
                status,
                body@,
                url@,
                r->Err_0,
            ) && final(self).token == old(self).token,
    {
        if 200 <= status && status < 300 {
            match decode_token(body) {
                Some(t) => {
                    self.token = Some(t.token.clone());
                    Ok(t)
                },
                None => Err(
                    KeyrunesError::SerializationError(
                        String::from_str("the success payload held no token"),
                    ),
                ),
            }
        } else {
            Err(classify_error(status, body, url))
        }
    }

    /// Handles the answer of a registration operation: on a success status a
    /// decoded, canonicalized user.  Registration never writes the token
    /// store, even when the answer embeds a token — this method only reads
    /// the client.
    pub fn handle_register_response(&self, status: u16, body: &str, url: &str) -> (r: Result<
        User,
        KeyrunesError,
    >)
        ensures
            is_success_status(status) && crate::decode::register_decode_ok(body@) ==> r is Ok
                && decoded_user(crate::jsonread::json_obj_field(body@, "user"@)->0, r->Ok_0),
            is_success_status(status) && !crate::decode::register_decode_ok(body@) ==> r is Err && (
            r->Err_0 matches KeyrunesError::SerializationError(_)),
            !is_success_status(status) ==> r is Err && classified_error(
                status,
                body@,
                url@,
                r->Err_0,
            ),
    {
        if 200 <= status && status < 300 {
            match crate::decode::decode_register(body) {
                Some(reg) => Ok(User::from(reg.user)),
                None => Err(
                    KeyrunesError::SerializationError(
                        String::from_str("the success payload held no registered user"),
                    ),
                ),
            }
        } else {
            Err(classify_error(status, body, url))
        }
    }

    /// Handles the answer of the fetch-current-user and fetch-user-by-id
    /// operations: on a success status a decoded, canonicalized user.
    pub fn handle_user_response(&self, status: u16, body: &str, url: &str) -> (r: Result<
        User,
        KeyrunesError,
    >)
        ensures
            is_success_status(status) && user_decode_ok(body@) ==> r is Ok && decoded_user(
                body@,
                r->Ok_0,
            ),
            is_success_status(status) && !user_decode_ok(body@) ==> r is Err && (r->Err_0
                matches KeyrunesError::SerializationError(_)),
            !is_success_status(status) ==> r is Err && classified_error(
                status,
                body@,
                url@,
                r->Err_0,
            ),
    {
        if 200 <= status && status < 300 {
            match decode_user(body) {
                Some(u) => Ok(u),
                None => Err(
                    KeyrunesError::SerializationError(
                        String::from_str("the success payload held no user"),
                    ),
                ),
            }
        } else {
            Err(classify_error(status, body, url))
        }
    }

    /// Handles the answer of the group-membership check: on a success status
    /// the boolean under `has_access` or `has_group`, returned unchanged.
    pub fn handle_group_check_response(&self, status: u16, body: &str, url: &str) -> (r: Result<
        bool,
        KeyrunesError,
    >)
        ensures
            is_success_status(status) && decoded_group_check(body@) is Some ==> r is Ok && Some(
                r->Ok_0,
            ) == decoded_group_check(body@),
            is_success_status(status) && decoded_group_check(body@) is None ==> r is Err && (
            r->Err_0 matches KeyrunesError::SerializationError(_)),
            !is_success_status(status) ==> r is Err && classified_error(
                status,
                body@,
                url@,
                r->Err_0,
            ),
    {
        if 200 <= status && status < 300 {
            match decode_group_check(body) {
                Some(b) => Ok(b),
                None => Err(
                    KeyrunesError::SerializationError(
                        String::from_str("the success payload held no membership verdict"),
                    ),
                ),
            }
        } else {
            Err(classify_error(status, body, url))
        }
    }
}

} // verus!
