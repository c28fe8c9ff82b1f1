//! Verified decoding of the service's JSON answers into the library's
//! canonical models, one top-level field at a time.
//!
//! What each decoder accepts and what it hands back is pinned exactly, over
//! the named field readers of [`crate::jsonread`]; the precedence between
//! alternative upstream shapes (several id fields, old and new credential
//! field names, two membership field names) is decided here, in verified
//! code.

use vstd::prelude::*;
use vstd::string::StringExecFns;

use crate::jsonread::{
    json_bool_field, json_has_field, json_i64_field, json_obj_field, json_str_array_field,
    json_str_field, json_u64_field,
};
use crate::jsonread;
use crate::models::{RegisterResponse, Token, TokenResponse, User, UserResponse};
use crate::strutil::dec_of;

verus! {

/// A body decodes as a user when it has string `username` and `email` fields
/// and its `groups` field, when present, is an array of strings.
pub open spec fn user_decode_ok(s: Seq<char>) -> bool {
    &&& json_str_field(s, "username"@) is Some
    &&& json_str_field(s, "email"@) is Some
    &&& (json_has_field(s, "groups"@) ==> json_str_array_field(s, "groups"@) is Some)
}

/// What a decoded raw user answer holds, field by field.
pub open spec fn decoded_user_response(s: Seq<char>, r: UserResponse) -> bool {
    &&& r.id_str.deep_view() == json_str_field(s, "id"@)
    &&& r.user_id_num == json_u64_field(s, "user_id"@)
    &&& r.external_id_str.deep_view() == json_str_field(s, "external_id"@)
    &&& Some(r.username@) == json_str_field(s, "username"@)
    &&& Some(r.email@) == json_str_field(s, "email"@)
    &&& r.groups.deep_view() == (if json_has_field(s, "groups"@) {
        json_str_array_field(s, "groups"@)->0
    } else {
        Seq::<Seq<char>>::empty()
    })
    &&& r.created_at.deep_view() == json_str_field(s, "created_at"@)
    &&& r.updated_at.deep_view() == json_str_field(s, "updated_at"@)
}

/// The id a decoded user canonicalizes to: the `id` field wins, then
/// `external_id`, then the decimal rendering of `user_id`, then `unknown`.
pub open spec fn decoded_canonical_id(s: Seq<char>) -> Seq<char> {
    match json_str_field(s, "id"@) {
        Some(x) => x,
        None => match json_str_field(s, "external_id"@) {
            Some(x) => x,
            None => match json_u64_field(s, "user_id"@) {
                Some(n) => dec_of(n as nat),
                None => "unknown"@,
            },
        },
    }
}

/// What a decoded, canonicalized user holds, field by field.
pub open spec fn decoded_user(s: Seq<char>, u: User) -> bool {
    &&& u.id@ == decoded_canonical_id(s)
    &&& Some(u.username@) == json_str_field(s, "username"@)
    &&& Some(u.email@) == json_str_field(s, "email"@)
    &&& u.groups.deep_view() == (if json_has_field(s, "groups"@) {
        json_str_array_field(s, "groups"@)->0
    } else {
        Seq::<Seq<char>>::empty()
    })
    &&& u.created_at.deep_view() == json_str_field(s, "created_at"@)
    &&& u.updated_at.deep_view() == json_str_field(s, "updated_at"@)
}

/// Decodes a raw user answer.
pub fn decode_user_response(s: &str) -> (r: Option<UserResponse>)
    ensures
        r is Some <==> user_decode_ok(s@),
        r is Some ==> decoded_user_response(s@, r->0),
{
    let username = match jsonread::str_field(s, "username") {
        Some(x) => x,
        None => {
            return None;
        },
    };
    let email = match jsonread::str_field(s, "email") {
        Some(x) => x,
        None => {
            return None;
        },
    };
    let groups: Vec<String> = if jsonread::has_field(s, "groups") {
        match jsonread::str_array_field(s, "groups") {
            Some(g) => g,
            None => {
                return None;
            },
        }
    } else {
        let g: Vec<String> = Vec::new();
        proof {
            assert(g.deep_view() =~= Seq::<Seq<char>>::empty());
        }
        g
    };
    Some(
        UserResponse {
            id_str: jsonread::str_field(s, "id"),
            user_id_num: jsonread::u64_field(s, "user_id"),
            external_id_str: jsonread::str_field(s, "external_id"),
            username,
            email,
            groups,
            created_at: jsonread::str_field(s, "created_at"),
            updated_at: jsonread::str_field(s, "updated_at"),
        },
    )
}

/// Decodes and canonicalizes a user answer in one step.
pub fn decode_user(s: &str) -> (r: Option<User>)
    ensures
        r is Some <==> user_decode_ok(s@),
        r is Some ==> decoded_user(s@, r->0),
{
    match decode_user_response(s) {
        Some(raw) => Some(User::from(raw)),
        None => None,
    }
}

/// A body decodes as a credential when it has a string `token` field (the
/// current shape) or a string `access_token` field (the legacy shape).
pub open spec fn token_decode_ok(s: Seq<char>) -> bool {
    json_str_field(s, "token"@) is Some || json_str_field(s, "access_token"@) is Some
}

/// What a decoded, canonicalized credential holds.  The current shape wins
/// over the legacy one; only the current shape carries an expiry timestamp.
pub open spec fn decoded_token(s: Seq<char>, t: Token) -> bool {
    &&& t.token_type.deep_view() == json_str_field(s, "token_type"@)
    &&& t.expires_in == json_i64_field(s, "expires_in"@)
    &&& t.refresh_token.deep_view() == json_str_field(s, "refresh_token"@)
    &&& match json_str_field(s, "token"@) {
        Some(tok) => t.token@ == tok && t.expires_at.deep_view() == json_str_field(
            s,
            "expires_at"@,
        ),
        None => Some(t.token@) == json_str_field(s, "access_token"@) && t.expires_at is None,
    }
}

/// Decodes and canonicalizes a credential answer.
pub fn decode_token(s: &str) -> (r: Option<Token>)
    ensures
        r is Some <==> token_decode_ok(s@),
        r is Some ==> decoded_token(s@, r->0),
{
    let token_type = jsonread::str_field(s, "token_type");
    let expires_in = jsonread::i64_field(s, "expires_in");
    let refresh_token = jsonread::str_field(s, "refresh_token");
    match jsonread::str_field(s, "token") {
        Some(token) => Some(
            Token::from(
                TokenResponse::NewFormat {
                    token,
                    token_type,
                    expires_in,
                    refresh_token,
                    expires_at: jsonread::str_field(s, "expires_at"),
                },
            ),
        ),
        None => match jsonread::str_field(s, "access_token") {
            Some(access_token) => Some(
                Token::from(
                    TokenResponse::LegacyFormat {
                        access_token,
                        token_type,
                        expires_in,
                        refresh_token,
                    },
                ),
            ),
            None => None,
        },
    }
}

/// A body decodes as a registration answer when its `user` field is an
/// object that decodes as a user.
pub open spec fn register_decode_ok(s: Seq<char>) -> bool {
    &&& json_obj_field(s, "user"@) is Some
    &&& user_decode_ok(json_obj_field(s, "user"@)->0)
}

/// What a decoded registration answer holds.
pub open spec fn decoded_register(s: Seq<char>, r: RegisterResponse) -> bool {
    &&& decoded_user_response(json_obj_field(s, "user"@)->0, r.user)
    &&& r.token.deep_view() == json_str_field(s, "token"@)
    &&& r.requires_password_change == json_bool_field(s, "requires_password_change"@)
}

/// Decodes a registration answer.
pub fn decode_register(s: &str) -> (r: Option<RegisterResponse>)
    ensures
        r is Some <==> register_decode_ok(s@),
        r is Some ==> decoded_register(s@, r->0),
{
    let user_text = match jsonread::obj_field(s, "user") {
        Some(t) => t,
        None => {
            return None;
        },
    };
    let user = match decode_user_response(user_text.as_str()) {
        Some(u) => u,
        None => {
            return None;
        },
    };
    Some(
        RegisterResponse {
            user,
            token: jsonread::str_field(s, "token"),
            requires_password_change: jsonread::bool_field(s, "requires_password_change"),
        },
    )
}

/// The membership verdict of a group-check answer: the service may name the
/// boolean `has_access` or `has_group`; either is accepted and returned
/// unchanged, and `has_access` wins when both are present.
pub open spec fn decoded_group_check(s: Seq<char>) -> Option<bool> {
    match json_bool_field(s, "has_access"@) {
        Some(b) => Some(b),
        None => json_bool_field(s, "has_group"@),
    }
}

/// Decodes a group-membership answer.
pub fn decode_group_check(s: &str) -> (r: Option<bool>)
    ensures
        r == decoded_group_check(s@),
{
    match jsonread::bool_field(s, "has_access") {
        Some(b) => Some(b),
        None => jsonread::bool_field(s, "has_group"),
    }
}

} // verus!
