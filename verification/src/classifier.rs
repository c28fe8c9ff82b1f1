//! The response classifier: turns a raw `(status, body, url)` triple from the
//! identity service into a typed error.
//!
//! The upstream error envelope is not uniform — some failures answer with
//! HTML pages, others with JSON under differing field names — so the
//! classification is heuristic, and centralizing it here gives every caller
//! one stable typed-error surface.

use vstd::prelude::*;
use vstd::string::StrSliceExecFns;
use vstd::string::StringExecFns;

use crate::error::KeyrunesError;
use crate::jsonread::{json_has_field, json_str_field, json_wf};
use crate::jsonread;
use crate::strutil::{contains_str, contains_sub, dec_of, is_sub_at, u64_to_string};

verus! {

/// The Unicode whitespace characters, as `str::trim_start` skips them.
pub open spec fn is_space(c: char) -> bool {
    c == ' ' || c == '\t' || c == '\n' || c == '\r' || c == '\u{0b}' || c == '\u{0c}' || c
        == '\u{85}' || c == '\u{a0}' || c == '\u{1680}' || ('\u{2000}' <= c && c <= '\u{200a}') || c
        == '\u{2028}' || c == '\u{2029}' || c == '\u{202f}' || c == '\u{205f}' || c == '\u{3000}'
}

/// Executable form of [`is_space`].
pub fn is_space_exec(c: char) -> (r: bool)
    ensures
        r == is_space(c),
{
    c == ' ' || c == '\t' || c == '\n' || c == '\r' || c == '\u{0b}' || c == '\u{0c}' || c
        == '\u{85}' || c == '\u{a0}' || c == '\u{1680}' || ('\u{2000}' <= c && c <= '\u{200a}') || c
        == '\u{2028}' || c == '\u{2029}' || c == '\u{202f}' || c == '\u{205f}' || c == '\u{3000}'
}

/// Whether the body, after trimming leading whitespace, begins with `<` —
/// the mark of an HTML answer from a misrouted request.
pub open spec fn html_like(body: Seq<char>) -> bool
    decreases body.len(),
{
    if body.len() == 0 {
        false
    } else if is_space(body[0]) {
        html_like(body.drop_first())
    } else {
        body[0] == '<'
    }
}

/// Decides [`html_like`] for a body.
pub fn body_looks_html(body: &str) -> (r: bool)
    ensures
        r == html_like(body@),
{
    let n = body.unicode_len();
    let mut i: usize = 0;
    proof {
        assert(body@.skip(0) =~= body@);
    }
    while i < n
        invariant
            i <= n,
            n == body@.len(),
            html_like(body@) == html_like(body@.skip(i as int)),
        decreases n - i,
    {
        let c = body.get_char(i);
        proof {
            assert(body@.skip(i as int)[0] == body@[i as int]);
            assert(body@.skip(i as int).drop_first() =~= body@.skip(i + 1));
        }
        if is_space_exec(c) {
            i += 1;
        } else {
            return c == '<';
        }
    }
    proof {
        assert(body@.skip(n as int) =~= Seq::<char>::empty());
    }
    false
}

/// The message produced for an HTML-looking body: it embeds the numeric
/// status and the request URL.
pub open spec fn html_error_message(status: u16, url: Seq<char>) -> Seq<char> {
    "HTTP "@ + dec_of(status as nat)
        + " - Received HTML response (endpoint may not exist or path is incorrect). Tried: "@ + url
}

/// The message extracted from a JSON error envelope: the `message` field
/// wins, then the `error` field; a present but non-string field falls back to
/// the whole body, and a body that is not JSON at all is truncated to 200
/// characters.
pub open spec fn api_message(body: Seq<char>) -> Seq<char> {
    if json_wf(body) {
        match json_str_field(body, "message"@) {
            Some(m) => m,
            None => if json_has_field(body, "message"@) {
                body
            } else {
                match json_str_field(body, "error"@) {
                    Some(m) => m,
                    None => body,
                }
            },
        }
    } else if body.len() > 200 {
        body.subrange(0, 200) + "..."@
    } else {
        body
    }
}

/// The full classifier message for a non-success answer.
pub open spec fn classifier_message(status: u16, body: Seq<char>, url: Seq<char>) -> Seq<char> {
    if html_like(body) {
        html_error_message(status, url)
    } else {
        api_message(body) + " (URL: "@ + url + ")"@
    }
}

/// Extracts [`api_message`] from a body.
fn api_message_exec(body: &str) -> (r: String)
    ensures
        r@ == api_message(body@),
{
    if jsonread::parse_ok(body) {
        match jsonread::str_field(body, "message") {
            Some(m) => m,
            None => {
                if jsonread::has_field(body, "message") {
                    body.to_owned()
                } else {
                    match jsonread::str_field(body, "error") {
                        Some(m) => m,
                        None => body.to_owned(),
                    }
                }
            },
        }
    } else {
        let n = body.unicode_len();
        if n > 200 {
            let mut t = body.substring_char(0, 200).to_owned();
            t.append("...");
            t
        } else {
            body.to_owned()
        }
    }
}

/// Builds [`classifier_message`] for a non-success answer.
pub fn build_error_message(status: u16, body: &str, url: &str) -> (r: String)
    ensures
        r@ == classifier_message(status, body@, url@),
{
    if body_looks_html(body) {
        let mut out = String::from_str("HTTP ");
        let d = u64_to_string(status as u64);
        proof {
            assert(status as u64 as nat == status as nat);
        }
        out.append(d.as_str());
        out.append(" - Received HTML response (endpoint may not exist or path is incorrect). Tried: ");
        out.append(url);
        proof {
            assert(out@ =~= classifier_message(status, body@, url@));
        }
        out
    } else {
        let mut out = api_message_exec(body);
        out.append(" (URL: ");
        out.append(url);
        out.append(")");
        proof {
            assert(out@ =~= classifier_message(status, body@, url@));
        }
        out
    }
}

/// Whether a status is in the HTTP success range.
pub open spec fn is_success_status(status: u16) -> bool {
    200 <= status < 300
}

/// Exactly which typed error the classifier assigns to a non-success
/// `(status, body, url)` triple: 401 is an authentication failure, 403 an
/// authorization failure, 404 a user- or group-not-found depending on what
/// the assembled message mentions, and every other status a generic HTTP
/// error carrying the numeric status.
pub open spec fn classified_error(status: u16, body: Seq<char>, url: Seq<char>, e: KeyrunesError) -> bool {
    let msg = classifier_message(status, body, url);
    if status == 401 {
        e matches KeyrunesError::AuthenticationError(m) && m@ == msg
    } else if status == 403 {
        e matches KeyrunesError::AuthorizationError(m) && m@ == msg
    } else if status == 404 {
        if contains_sub(msg, "user"@) || contains_sub(msg, "User"@) {
            e matches KeyrunesError::UserNotFoundError(m) && m@ == msg
        } else if contains_sub(msg, "group"@) || contains_sub(msg, "Group"@) {
            e matches KeyrunesError::GroupNotFoundError(m) && m@ == msg
        } else {
            e matches KeyrunesError::Other(m) && m@ == "Resource not found: "@ + msg
        }
    } else {
        e matches KeyrunesError::HttpError(m) && m@ == "HTTP "@ + dec_of(status as nat) + ": "@
            + msg
    }
}

/// Turns a non-success answer into its typed error, as
/// [`classified_error`] says.
pub fn classify_error(status: u16, body: &str, url: &str) -> (r: KeyrunesError)
    ensures
        classified_error(status, body@, url@, r),
{
    let msg = build_error_message(status, body, url);
    if status == 401 {
        KeyrunesError::AuthenticationError(msg)
    } else if status == 403 {
        KeyrunesError::AuthorizationError(msg)
    } else if status == 404 {
        if contains_str(msg.as_str(), "user") || contains_str(msg.as_str(), "User") {
            KeyrunesError::UserNotFoundError(msg)
        } else if contains_str(msg.as_str(), "group") || contains_str(msg.as_str(), "Group") {
            KeyrunesError::GroupNotFoundError(msg)
        } else {
            KeyrunesError::Other(String::from_str("Resource not found: ").concat(msg.as_str()))
        }
    } else {
        let mut out = String::from_str("HTTP ");
        let d = u64_to_string(status as u64);
        proof {
            assert(status as u64 as nat == status as nat);
        }
        out.append(d.as_str());
        out.append(": ");
        out.append(msg.as_str());
        proof {
            assert(out@ =~= "HTTP "@ + dec_of(status as nat) + ": "@ + classifier_message(
                status,
                body@,
                url@,
            ));
        }
        KeyrunesError::HttpError(out)
    }
}

/// On an HTML-looking body the classifier message mentions both the numeric
/// status and the request URL, whatever else the body held.
pub proof fn lemma_classifier_message_mentions(status: u16, body: Seq<char>, url: Seq<char>)
    requires
        html_like(body),
    ensures
        contains_sub(classifier_message(status, body, url), dec_of(status as nat)),
        contains_sub(classifier_message(status, body, url), url),
{
    reveal_strlit("HTTP ");
    let a = "HTTP "@;
    let d = dec_of(status as nat);
    let b = " - Received HTML response (endpoint may not exist or path is incorrect). Tried: "@;
    let msg = classifier_message(status, body, url);
    assert(msg == a + d + b + url);
    assert(a.len() == 5);
    assert(msg.subrange(5, 5 + d.len() as int) =~= d);
    assert(is_sub_at(msg, d, 5));
    let u0 = msg.len() - url.len();
    assert(msg.subrange(u0 as int, msg.len() as int) =~= url);
    assert(is_sub_at(msg, url, u0 as int));
}

} // verus!
