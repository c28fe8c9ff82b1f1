//! Data models exchanged with the identity service, their canonical forms,
//! and their verified JSON renderings.
//!
//! The upstream service answers in more than one shape (several possible id
//! fields for a user, an old and a new credential field name).  The raw
//! shapes are decoded at the boundary and canonicalized here, at once, into
//! the one `User`/`Token` form; nothing downstream sees the raw variant.

use vstd::prelude::*;
use vstd::string::StringExecFns;

use crate::jsonwrite::{
    append_bool, append_i64, append_json_string, append_json_str_array, dec_int_of, json_bool,
    json_str_array, json_str_lit,
};
use crate::strutil::{dec_of, push_char, u64_to_string};

verus! {

/// A user of the identity service, in canonical form.
#[derive(Debug, Clone)]
pub struct User {
    /// Unique user id.
    pub id: String,
    /// Username.
    pub username: String,
    /// User email.
    pub email: String,
    /// The groups the user belongs to (informational; authorization decisions
    /// always query the service afresh).
    pub groups: Vec<String>,
    /// Creation timestamp, carried as opaque text.
    pub created_at: Option<String>,
    /// Last-update timestamp, carried as opaque text.
    pub updated_at: Option<String>,
}

/// A user as the service may answer it: the id can arrive under `id`,
/// `external_id`, or as a number under `user_id`.
#[derive(Debug, Clone)]
pub struct UserResponse {
    pub id_str: Option<String>,
    pub user_id_num: Option<u64>,
    pub external_id_str: Option<String>,
    pub username: String,
    pub email: String,
    pub groups: Vec<String>,
    pub created_at: Option<String>,
    pub updated_at: Option<String>,
}

/// The canonical id of a raw user answer: `id` wins, then `external_id`,
/// then the decimal rendering of `user_id`, and `unknown` when none is there.
pub open spec fn canonical_id(r: UserResponse) -> Seq<char> {
    match r.id_str {
        Some(s) => s@,
        None => match r.external_id_str {
            Some(s) => s@,
            None => match r.user_id_num {
                Some(n) => dec_of(n as nat),
                None => "unknown"@,
            },
        },
    }
}

impl User {
    /// Canonicalizes a raw user answer.
    pub fn from(r: UserResponse) -> (u: User)
        ensures
            u.id@ == canonical_id(r),
            u.username == r.username,
            u.email == r.email,
            u.groups == r.groups,
            u.created_at == r.created_at,
            u.updated_at == r.updated_at,
    {
        let id = match r.id_str {
            Some(s) => s,
            None => match r.external_id_str {
                Some(s) => s,
                None => match r.user_id_num {
                    Some(n) => u64_to_string(n),
                    None => String::from_str("unknown"),
                },
            },
        };
        User {
            id,
            username: r.username,
            email: r.email,
            groups: r.groups,
            created_at: r.created_at,
            updated_at: r.updated_at,
        }
    }
}

/// The wrapper around a freshly registered user, as the service answers it.
#[derive(Debug, Clone)]
pub struct RegisterResponse {
    /// The registered user, in raw shape.
    pub user: UserResponse,
    /// A token some deployments embed; registration never installs it.
    pub token: Option<String>,
    /// Whether the service asks for a password change on first login.
    pub requires_password_change: Option<bool>,
}

/// A group of the identity service.
#[derive(Debug, Clone)]
pub struct Group {
    /// Unique group id.
    pub id: String,
    /// Group name.
    pub name: String,
    /// Group description.
    pub description: Option<String>,
    /// Creation timestamp, carried as opaque text.
    pub created_at: Option<String>,
}

/// A bearer credential returned after a successful login.  Only `token` is
/// interpreted; the rest is optional metadata.
#[derive(Debug, Clone)]
pub struct Token {
    /// The bearer token itself.
    pub token: String,
    /// Token type (e.g. `bearer`).
    pub token_type: Option<String>,
    /// Lifetime in seconds.
    pub expires_in: Option<i64>,
    /// Refresh token.
    pub refresh_token: Option<String>,
    /// Expiry timestamp, carried as opaque text.
    pub expires_at: Option<String>,
}

/// A credential as the service may answer it: the current shape names the
/// token `token`, the legacy shape `access_token` and has no expiry
/// timestamp.
#[derive(Debug, Clone)]
pub enum TokenResponse {
    NewFormat {
        token: String,
        token_type: Option<String>,
        expires_in: Option<i64>,
        refresh_token: Option<String>,
        expires_at: Option<String>,
    },
    LegacyFormat {
        access_token: String,
        token_type: Option<String>,
        expires_in: Option<i64>,
        refresh_token: Option<String>,
    },
}

/// The canonical credential of a raw token answer.
pub open spec fn canonical_token(r: TokenResponse) -> Token {
    match r {
        TokenResponse::NewFormat { token, token_type, expires_in, refresh_token, expires_at } => (
        Token { token, token_type, expires_in, refresh_token, expires_at }),
        TokenResponse::LegacyFormat { access_token, token_type, expires_in, refresh_token } => (
        Token { token: access_token, token_type, expires_in, refresh_token, expires_at: None }),
    }
}

impl Token {
    /// Canonicalizes a raw token answer.
    pub fn from(r: TokenResponse) -> (t: Token)
        ensures
            t == canonical_token(r),
    {
        match r {
            TokenResponse::NewFormat { token, token_type, expires_in, refresh_token, expires_at } => Token {
                token,
                token_type,
                expires_in,
                refresh_token,
                expires_at,
            },
            TokenResponse::LegacyFormat { access_token, token_type, expires_in, refresh_token } => Token {
                token: access_token,
                token_type,
                expires_in,
                refresh_token,
                expires_at: None,
            },
        }
    }
}

/// The data needed to register a new user.
#[derive(Debug, Clone)]
pub struct UserRegistration {
    /// Username.
    pub username: String,
    /// User email.
    pub email: String,
    /// User password.
    pub password: String,
    /// The tenant namespace the registration belongs to.
    pub namespace: String,
}

/// The data needed to register a new administrator.
#[derive(Debug, Clone)]
pub struct AdminRegistration {
    /// Username.
    pub username: String,
    /// Administrator email.
    pub email: String,
    /// Administrator password.
    pub password: String,
    /// Administrator key.
    pub admin_key: String,
    /// The tenant namespace the registration belongs to.
    pub namespace: String,
}

/// The credentials handed to a login call.
#[derive(Debug, Clone)]
pub struct LoginCredentials {
    /// Username or email.
    pub identity: String,
    /// User password.
    pub password: String,
    /// The tenant namespace the login belongs to.
    pub namespace: String,
}

/// The boolean heart of a group-membership answer.
#[derive(Debug, Clone)]
pub struct GroupCheck {
    /// Whether the user belongs to the group.
    pub has_group: bool,
}

/// A full group-membership answer: the queried ids and the verdict.
#[derive(Debug, Clone)]
pub struct GroupVerificationResponse {
    /// The queried user id.
    pub user_id: String,
    /// The queried group id.
    pub group_id: String,
    /// Whether the user belongs to the group.
    pub has_group: bool,
}

/// One `,"key":"value"` segment for an optional string field, empty when the
/// field is absent.
pub open spec fn opt_str_field_json(key: Seq<char>, v: Option<String>) -> Seq<char> {
    match v {
        Some(s) => seq![','] + json_str_lit(key) + seq![':'] + json_str_lit(s@),
        None => Seq::<char>::empty(),
    }
}

/// Appends `,"key":"value"` to `out` when `v` is present.
fn append_opt_str_field(out: &mut String, key: &str, v: &Option<String>)
    ensures
        final(out)@ == old(out)@ + opt_str_field_json(key@, *v),
{
    match v {
        Some(s) => {
            push_char(out, ',');
            append_json_string(out, key);
            push_char(out, ':');
            append_json_string(out, s.as_str());
            proof {
                assert(out@ =~= old(out)@ + opt_str_field_json(key@, *v));
            }
        },
        None => {
            proof {
                assert(out@ =~= old(out)@ + opt_str_field_json(key@, *v));
            }
        },
    }
}

/// The JSON rendering of a [`User`].
pub open spec fn user_json(u: User) -> Seq<char> {
    seq!['{'] + json_str_lit("id"@) + seq![':'] + json_str_lit(u.id@) + seq![','] + json_str_lit(
        "username"@,
    ) + seq![':'] + json_str_lit(u.username@) + seq![','] + json_str_lit("email"@) + seq![':']
        + json_str_lit(u.email@) + seq![','] + json_str_lit("groups"@) + seq![':'] + json_str_array(
        u.groups.deep_view(),
    ) + opt_str_field_json("created_at"@, u.created_at) + opt_str_field_json(
        "updated_at"@,
        u.updated_at,
    ) + seq!['}']
}

impl User {
    /// Renders the user as a JSON object; absent timestamps are left out.
    pub fn to_json(&self) -> (r: String)
        ensures
            r@ == user_json(*self),
    {
        let mut out = String::new();
        push_char(&mut out, '{');
        append_json_string(&mut out, "id");
        push_char(&mut out, ':');
        append_json_string(&mut out, self.id.as_str());
        push_char(&mut out, ',');
        append_json_string(&mut out, "username");
        push_char(&mut out, ':');
        append_json_string(&mut out, self.username.as_str());
        push_char(&mut out, ',');
        append_json_string(&mut out, "email");
        push_char(&mut out, ':');
        append_json_string(&mut out, self.email.as_str());
        push_char(&mut out, ',');
        append_json_string(&mut out, "groups");
        push_char(&mut out, ':');
        append_json_str_array(&mut out, &self.groups);
        append_opt_str_field(&mut out, "created_at", &self.created_at);
        append_opt_str_field(&mut out, "updated_at", &self.updated_at);
        push_char(&mut out, '}');
        proof {
            assert(out@ =~= user_json(*self));
        }
        out
    }
}

/// The JSON rendering of a [`Group`].
pub open spec fn group_json(g: Group) -> Seq<char> {
    seq!['{'] + json_str_lit("id"@) + seq![':'] + json_str_lit(g.id@) + seq![','] + json_str_lit(
        "name"@,
    ) + seq![':'] + json_str_lit(g.name@) + opt_str_field_json("description"@, g.description)
        + opt_str_field_json("created_at"@, g.created_at) + seq!['}']
}

impl Group {
    /// Renders the group as a JSON object; absent fields are left out.
    pub fn to_json(&self) -> (r: String)
        ensures
            r@ == group_json(*self),
    {
        let mut out = String::new();
        push_char(&mut out, '{');
        append_json_string(&mut out, "id");
        push_char(&mut out, ':');
        append_json_string(&mut out, self.id.as_str());
        push_char(&mut out, ',');
        append_json_string(&mut out, "name");
        push_char(&mut out, ':');
        append_json_string(&mut out, self.name.as_str());
        append_opt_str_field(&mut out, "description", &self.description);
        append_opt_str_field(&mut out, "created_at", &self.created_at);
        push_char(&mut out, '}');
        proof {
            assert(out@ =~= group_json(*self));
        }
        out
    }
}

/// One `,"key":n` segment for an optional integer field.
pub open spec fn opt_i64_field_json(key: Seq<char>, v: Option<i64>) -> Seq<char> {
    match v {
        Some(n) => seq![','] + json_str_lit(key) + seq![':'] + dec_int_of(n as int),
        None => Seq::<char>::empty(),
    }
}

/// Appends `,"key":n` to `out` when `v` is present.
fn append_opt_i64_field(out: &mut String, key: &str, v: &Option<i64>)
    ensures
        final(out)@ == old(out)@ + opt_i64_field_json(key@, *v),
{
    match v {
        Some(n) => {
            push_char(out, ',');
            append_json_string(out, key);
            push_char(out, ':');
            append_i64(out, *n);
            proof {
                assert(out@ =~= old(out)@ + opt_i64_field_json(key@, *v));
            }
        },
        None => {
            proof {
                assert(out@ =~= old(out)@ + opt_i64_field_json(key@, *v));
            }
        },
    }
}

/// The JSON rendering of a [`Token`].
pub open spec fn token_json(t: Token) -> Seq<char> {
    seq!['{'] + json_str_lit("token"@) + seq![':'] + json_str_lit(t.token@) + opt_str_field_json(
        "token_type"@,
        t.token_type,
    ) + opt_i64_field_json("expires_in"@, t.expires_in) + opt_str_field_json(
        "refresh_token"@,
        t.refresh_token,
    ) + opt_str_field_json("expires_at"@, t.expires_at) + seq!['}']
}

impl Token {
    /// Renders the credential as a JSON object; absent metadata is left out.
    pub fn to_json(&self) -> (r: String)
        ensures
            r@ == token_json(*self),
    {
        let mut out = String::new();
        push_char(&mut out, '{');
        append_json_string(&mut out, "token");
        push_char(&mut out, ':');
        append_json_string(&mut out, self.token.as_str());
        append_opt_str_field(&mut out, "token_type", &self.token_type);
        append_opt_i64_field(&mut out, "expires_in", &self.expires_in);
        append_opt_str_field(&mut out, "refresh_token", &self.refresh_token);
        append_opt_str_field(&mut out, "expires_at", &self.expires_at);
        push_char(&mut out, '}');
        proof {
            assert(out@ =~= token_json(*self));
        }
        out
    }
}

/// The JSON rendering of [`LoginCredentials`].
pub open spec fn login_credentials_json(c: LoginCredentials) -> Seq<char> {
    seq!['{'] + json_str_lit("identity"@) + seq![':'] + json_str_lit(c.identity@) + seq![',']
        + json_str_lit("password"@) + seq![':'] + json_str_lit(c.password@) + seq![',']
        + json_str_lit("namespace"@) + seq![':'] + json_str_lit(c.namespace@) + seq!['}']
}

impl LoginCredentials {
    /// Renders the login payload as a JSON object.
    pub fn to_json(&self) -> (r: String)
        ensures
            r@ == login_credentials_json(*self),
    {
        let mut out = String::new();
        push_char(&mut out, '{');
        append_json_string(&mut out, "identity");
        push_char(&mut out, ':');
        append_json_string(&mut out, self.identity.as_str());
        push_char(&mut out, ',');
        append_json_string(&mut out, "password");
        push_char(&mut out, ':');
        append_json_string(&mut out, self.password.as_str());
        push_char(&mut out, ',');
        append_json_string(&mut out, "namespace");
        push_char(&mut out, ':');
        append_json_string(&mut out, self.namespace.as_str());
        push_char(&mut out, '}');
        proof {
            assert(out@ =~= login_credentials_json(*self));
        }
        out
    }
}

/// The JSON rendering of a [`UserRegistration`].
pub open spec fn user_registration_json(c: UserRegistration) -> Seq<char> {
    seq!['{'] + json_str_lit("username"@) + seq![':'] + json_str_lit(c.username@) + seq![',']
        + json_str_lit("email"@) + seq![':'] + json_str_lit(c.email@) + seq![','] + json_str_lit(
        "password"@,
    ) + seq![':'] + json_str_lit(c.password@) + seq![','] + json_str_lit("namespace"@) + seq![':']
        + json_str_lit(c.namespace@) + seq!['}']
}

impl UserRegistration {
    /// Renders the registration payload as a JSON object.
    pub fn to_json(&self) -> (r: String)
        ensures
            r@ == user_registration_json(*self),
    {
        let mut out = String::new();
        push_char(&mut out, '{');
        append_json_string(&mut out, "username");
        push_char(&mut out, ':');
        append_json_string(&mut out, self.username.as_str());
        push_char(&mut out, ',');
        append_json_string(&mut out, "email");
        push_char(&mut out, ':');
        append_json_string(&mut out, self.email.as_str());
        push_char(&mut out, ',');
        append_json_string(&mut out, "password");
        push_char(&mut out, ':');
        append_json_string(&mut out, self.password.as_str());
        push_char(&mut out, ',');
        append_json_string(&mut out, "namespace");
        push_char(&mut out, ':');
        append_json_string(&mut out, self.namespace.as_str());
        push_char(&mut out, '}');
        proof {
            assert(out@ =~= user_registration_json(*self));
        }
        out
    }
}

/// The JSON rendering of an [`AdminRegistration`].
pub open spec fn admin_registration_json(c: AdminRegistration) -> Seq<char> {
    seq!['{'] + json_str_lit("username"@) + seq![':'] + json_str_lit(c.username@) + seq![',']
        + json_str_lit("email"@) + seq![':'] + json_str_lit(c.email@) + seq![','] + json_str_lit(
        "password"@,
    ) + seq![':'] + json_str_lit(c.password@) + seq![','] + json_str_lit("admin_key"@) + seq![':']
        + json_str_lit(c.admin_key@) + seq![','] + json_str_lit("namespace"@) + seq![':']
        + json_str_lit(c.namespace@) + seq!['}']
}

impl AdminRegistration {
    /// Renders the administrator registration payload as a JSON object.
    pub fn to_json(&self) -> (r: String)
        ensures
            r@ == admin_registration_json(*self),
    {
        let mut out = String::new();
        push_char(&mut out, '{');
        append_json_string(&mut out, "username");
        push_char(&mut out, ':');
        append_json_string(&mut out, self.username.as_str());
        push_char(&mut out, ',');
        append_json_string(&mut out, "email");
        push_char(&mut out, ':');
        append_json_string(&mut out, self.email.as_str());
        push_char(&mut out, ',');
        append_json_string(&mut out, "password");
        push_char(&mut out, ':');
        append_json_string(&mut out, self.password.as_str());
        push_char(&mut out, ',');
        append_json_string(&mut out, "admin_key");
        push_char(&mut out, ':');
        append_json_string(&mut out, self.admin_key.as_str());
        push_char(&mut out, ',');
        append_json_string(&mut out, "namespace");
        push_char(&mut out, ':');
        append_json_string(&mut out, self.namespace.as_str());
        push_char(&mut out, '}');
        proof {
            assert(out@ =~= admin_registration_json(*self));
        }
        out
    }
}

/// The JSON rendering of a [`GroupCheck`].
pub open spec fn group_check_json(c: GroupCheck) -> Seq<char> {
    seq!['{'] + json_str_lit("has_group"@) + seq![':'] + json_bool(c.has_group) + seq!['}']
}

impl GroupCheck {
    /// Renders the membership verdict as a JSON object.
    pub fn to_json(&self) -> (r: String)
        ensures
            r@ == group_check_json(*self),
    {
        let mut out = String::new();
        push_char(&mut out, '{');
        append_json_string(&mut out, "has_group");
        push_char(&mut out, ':');
        append_bool(&mut out, self.has_group);
        push_char(&mut out, '}');
        proof {
            assert(out@ =~= group_check_json(*self));
        }
        out
    }
}

/// The JSON rendering of a [`GroupVerificationResponse`].
pub open spec fn group_verification_json(c: GroupVerificationResponse) -> Seq<char> {
    seq!['{'] + json_str_lit("user_id"@) + seq![':'] + json_str_lit(c.user_id@) + seq![',']
        + json_str_lit("group_id"@) + seq![':'] + json_str_lit(c.group_id@) + seq![',']
        + json_str_lit("has_group"@) + seq![':'] + json_bool(c.has_group) + seq!['}']
}

impl GroupVerificationResponse {
    /// Renders the full membership answer as a JSON object.
    pub fn to_json(&self) -> (r: String)
        ensures
            r@ == group_verification_json(*self),
    {
        let mut out = String::new();
        push_char(&mut out, '{');
        append_json_string(&mut out, "user_id");
        push_char(&mut out, ':');
        append_json_string(&mut out, self.user_id.as_str());
        push_char(&mut out, ',');
        append_json_string(&mut out, "group_id");
        push_char(&mut out, ':');
        append_json_string(&mut out, self.group_id.as_str());
        push_char(&mut out, ',');
        append_json_string(&mut out, "has_group");
        push_char(&mut out, ':');
        append_bool(&mut out, self.has_group);
        push_char(&mut out, '}');
        proof {
            assert(out@ =~= group_verification_json(*self));
        }
        out
    }
}

} // verus!
