//! The authorisation check in front of protected routes: the caller must
//! present a valid token in the `auth_token` cookie.
use vstd::prelude::*;
use crate::reply::{
    is_json_text_message, is_plain_text, json_text_message, plain_text, Reply,
};
use crate::text::trimmed;
use crate::types::{AuthError, Token};

verus! {

/// `s` split at its first `c`: what comes before and what comes after it;
/// `None` when `s` holds no `c`.
pub open spec fn split_at_first(s: Seq<char>, c: char) -> Option<(Seq<char>, Seq<char>)>
    decreases s.len(),
{
    if s.len() == 0 {
        None
    } else if s[0] == c {
        Some((Seq::<char>::empty(), s.drop_first()))
    } else {
        match split_at_first(s.drop_first(), c) {
            Some(parts) => Some((seq![s[0]] + parts.0, parts.1)),
            None => None,
        }
    }
}

/// One `name=value` cookie (already trimmed): the name is what comes before
/// the first `=` and the value what follows it, each trimmed. `None` when
/// there is no `=` or the name is empty.
pub open spec fn cookie_pair(t: Seq<char>) -> Option<(Seq<char>, Seq<char>)> {
    match split_at_first(t, '=') {
        Some(parts) => if trimmed(parts.0).len() == 0 {
            None
        } else {
            Some((trimmed(parts.0), trimmed(parts.1)))
        },
        None => None,
    }
}

/// What one `;`-separated part of the header yields: nothing when it is
/// blank, else its trimmed text parsed as a cookie.
pub open spec fn cookie_part(part: Seq<char>) -> Seq<Option<(Seq<char>, Seq<char>)>> {
    if trimmed(part).len() == 0 {
        Seq::empty()
    } else {
        seq![cookie_pair(trimmed(part))]
    }
}

/// The cookies of the header's parts: `part` is the text since the last
/// `;`, `rest` what is left to read.
pub open spec fn cookie_parts(part: Seq<char>, rest: Seq<char>) -> Seq<
    Option<(Seq<char>, Seq<char>)>,
>
    decreases rest.len(),
{
    if rest.len() == 0 {
        cookie_part(part)
    } else if rest[0] == ';' {
        cookie_part(part) + cookie_parts(Seq::empty(), rest.drop_first())
    } else {
        cookie_parts(part.push(rest[0]), rest.drop_first())
    }
}

/// The name/value pairs `cookie::Cookie::split_parse` yields for a `Cookie`
/// header, in order: the header is split at each `;`, blank parts are
/// skipped, and each other part is parsed as a cookie; `None` for a part
/// that fails to parse.
pub open spec fn cookie_header_items(header: Seq<char>) -> Seq<Option<(Seq<char>, Seq<char>)>> {
    cookie_parts(Seq::empty(), header)
}

pub open spec fn item_view(item: Option<(String, String)>) -> Option<(Seq<char>, Seq<char>)> {
    match item {
        Some(p) => Some((p.0@, p.1@)),
        None => None,
    }
}

/// `cookie::Cookie::split_parse(header)`, each parsed cookie taken as its
/// `name()` and `value()`, each parse error as `None`. `split_parse` does not
/// percent-decode, and a part holds no `;`, so only the name/value pair of
/// each part is read; `str::trim` and `char::is_whitespace` both go by the
/// Unicode `White_Space` property.
#[verifier::external_body]
fn split_cookies(header: &str) -> (r: Vec<Option<(String, String)>>)
    ensures
        r@.map_values(|item: Option<(String, String)>| item_view(item)) == cookie_header_items(
            header@,
        ),
{
    cookie::Cookie::split_parse(header).map(
        |item| match item {
            Ok(c) => Some((c.name().to_string(), c.value().to_string())),
            Err(_) => None,
        },
    ).collect()
}

/// The value of the first well-formed cookie named `name`.
pub open spec fn first_cookie(items: Seq<Option<(Seq<char>, Seq<char>)>>, name: Seq<char>) -> Option<
    Seq<char>,
>
    decreases items.len(),
{
    if items.len() == 0 {
        None
    } else {
        match items[0] {
            Some(p) => if p.0 == name {
                Some(p.1)
            } else {
                first_cookie(items.drop_first(), name)
            },
            None => first_cookie(items.drop_first(), name),
        }
    }
}

/// The name of the cookie that carries the session token.
pub open spec fn auth_cookie_name() -> Seq<char> {
    "auth_token"@
}

fn find_cookie(items: &Vec<Option<(String, String)>>, name: &String) -> (r: Option<String>)
    ensures
        match (r, first_cookie(items@.map_values(|item: Option<(String, String)>| item_view(item)), name@)) {
            (Some(v), Some(w)) => v@ == w,
            (None, None) => true,
            _ => false,
        },
{
    let ghost all = items@.map_values(|item: Option<(String, String)>| item_view(item));
    let mut i: usize = 0;
    assert(all.subrange(0, all.len() as int) =~= all);
    while i < items.len()
        invariant
            0 <= i <= items@.len(),
            all == items@.map_values(|item: Option<(String, String)>| item_view(item)),
            first_cookie(all, name@) == first_cookie(all.subrange(i as int, all.len() as int), name@),
        decreases items.len() - i,
    {
        let ghost rest = all.subrange(i as int, all.len() as int);
        assert(rest.drop_first() =~= all.subrange(i + 1, all.len() as int));
        assert(rest[0] == item_view(items@[i as int]));
        match &items[i] {
            Some(pair) => {
                if pair.0 == *name {
                    return Some(pair.1.clone());
                }
            },
            None => {},
        }
        i = i + 1;
    }
    assert(all.subrange(i as int, all.len() as int).len() == 0);
    None
}

/// A `403` refusal with `msg`.
pub fn forbidden(msg: &str) -> (r: AuthError)
    ensures
        r.message@ == msg@,
        r.status_code == 403,
{
    AuthError { message: msg.to_owned(), status_code: 403 }
}

/// The answer a refusal gives: its status code, and
/// `{"status": "<code>", "message": <message>}`.
pub fn auth_error_reply(e: AuthError) -> (r: Reply)
    ensures
        is_json_text_message(r, e.status_code, e.message@),
{
    json_text_message(e.status_code, e.message)
}

/// The token the caller presents: the value of the first `auth_token` cookie
/// of its `Cookie` header. `cookie_header` is `None` when the request has no
/// `Cookie` header, or one that is not visible ASCII.
pub fn auth_token_cookie(cookie_header: Option<&str>) -> (r: Result<String, AuthError>)
    ensures
        match cookie_header {
            None => r matches Err(e) && e.status_code == 403 && e.message@ == "Empty cookies"@,
            Some(h) => match first_cookie(cookie_header_items(h@), auth_cookie_name()) {
                Some(v) => r matches Ok(t) && t@ == v,
                None => r matches Err(e) && e.status_code == 403 && e.message@
                    == "No Auth cookie"@,
            },
        },
{
    let header = match cookie_header {
        Some(h) => h,
        None => return Err(forbidden("Empty cookies")),
    };
    let items = split_cookies(header);
    let name = "auth_token".to_owned();
    match find_cookie(&items, &name) {
        Some(v) => Ok(v),
        None => Err(forbidden("No Auth cookie")),
    }
}

/// The key tokens are verified with; without one the answer is
/// `500 JWT key not found` in plain text.
pub fn verification_key(key: Option<String>) -> (r: Result<String, Reply>)
    ensures
        match key {
            Some(k) => r matches Ok(s) && s@ == k@,
            None => r matches Err(e) && is_plain_text(e, 500, "JWT key not found"@),
        },
{
    match key {
        Some(k) => Ok(k),
        None => Err(plain_text(500, "JWT key not found")),
    }
}

/// The outcome of the check once the token has been decoded and verified
/// (signature and expiry): the caller's claims, or `403 Invalid token`.
pub fn verified_claims(decoded: Option<Token>) -> (r: Result<Token, AuthError>)
    ensures
        match decoded {
            Some(t) => r == Ok::<Token, AuthError>(t),
            None => r matches Err(e) && e.status_code == 403 && e.message@ == "Invalid token"@,
        },
{
    match decoded {
        Some(t) => Ok(t),
        None => Err(forbidden("Invalid token")),
    }
}

} // verus!
