//! Session token claims and how they are shown back to their holder.
use vstd::prelude::*;
use crate::reply::{is_internal_server_error, throw_internal_server_error, Reply, ReplyBody};
use crate::text::{debug_quoted, decimal, decimal_text, quote_debug};
use crate::types::Token;

verus! {

/// How long a token issued by password login stays valid: 7 days, in seconds.
pub const LOGIN_TOKEN_LIFETIME: usize = 604800;

/// The `toktype` of every session token the Discord sign-in issues.
pub open spec fn auth_toktype() -> Seq<char> {
    "auth"@
}

/// `t` speaks for `sub`, was issued at `iat` and expires at `exp`.
pub open spec fn is_auth_token(t: Token, sub: Seq<char>, iat: usize, exp: usize) -> bool {
    &&& t.sub@ == sub
    &&& t.iat == iat
    &&& t.exp == exp
    &&& t.toktype@ == auth_toktype()
}

/// The claims of an authentication token for `sub`.
pub fn auth_claims(sub: String, iat: usize, exp: usize) -> (r: Token)
    ensures
        is_auth_token(r, sub@, iat, exp),
{
    Token { sub, exp, iat, toktype: "auth".to_owned() }
}

/// The `Debug` rendering of a token, as `{:?}` writes it for the derived
/// implementation.
pub open spec fn token_debug(t: Token) -> Seq<char> {
    "Token { sub: "@ + debug_quoted(t.sub@) + ", exp: "@ + decimal(t.exp as nat) + ", iat: "@
        + decimal(t.iat as nat) + ", toktype: "@ + debug_quoted(t.toktype@) + " }"@
}

/// What `/auth/me` answers: the claims of the caller's token, rendered with `{:?}`.
pub fn me(token: &Token) -> (r: String)
    ensures
        r@ == token_debug(*token),
{
    let mut out = String::new();
    out.append("Token { sub: ");
    let sub = quote_debug(token.sub.as_str());
    out.append(sub.as_str());
    out.append(", exp: ");
    let exp = decimal_text(token.exp as u64);
    out.append(exp.as_str());
    out.append(", iat: ");
    let iat = decimal_text(token.iat as u64);
    out.append(iat.as_str());
    out.append(", toktype: ");
    let toktype = quote_debug(token.toktype.as_str());
    out.append(toktype.as_str());
    out.append(" }");
    out
}

/// The answer to a login once the token has been signed:
/// `200 {"status": 200, "token": <token>}`, or the generic failure when
/// signing failed.
pub fn token_reply(signed: Option<String>) -> (r: Reply)
    ensures
        match signed {
            Some(t) => r.status == 200 && r.location is None && r.set_cookie is None && (
            r.body matches ReplyBody::Token { token } && token@ == t@),
            None => is_internal_server_error(r),
        },
{
    match signed {
        Some(token) => Reply {
            status: 200,
            body: ReplyBody::Token { token },
            location: None,
            set_cookie: None,
        },
        None => throw_internal_server_error(),
    }
}

/// `/auth/me` shows each claim of the token under its own label: the
/// rendering holds `sub: ` followed by the quoted subject, `exp: ` and
/// `iat: ` followed by those times in decimal, and `toktype: ` followed by
/// the quoted token type, whatever the token.
pub proof fn me_shows_each_claim(t: Token)
    ensures
        exists|a: Seq<char>, b: Seq<char>| token_debug(t) == a + "sub: "@ + debug_quoted(t.sub@) + b,
        exists|a: Seq<char>, b: Seq<char>| token_debug(t) == a + ", exp: "@ + decimal(t.exp as nat) + b,
        exists|a: Seq<char>, b: Seq<char>| token_debug(t) == a + ", iat: "@ + decimal(t.iat as nat) + b,
        exists|a: Seq<char>, b: Seq<char>|
            token_debug(t) == a + ", toktype: "@ + debug_quoted(t.toktype@) + b,
{
    let sub = debug_quoted(t.sub@);
    let exp = decimal(t.exp as nat);
    let iat = decimal(t.iat as nat);
    let ty = debug_quoted(t.toktype@);
    let d = token_debug(t);
    reveal_strlit("Token { ");
    reveal_strlit("sub: ");
    reveal_strlit("Token { sub: ");
    let a1 = "Token { "@;
    let b1 = ", exp: "@ + exp + ", iat: "@ + iat + ", toktype: "@ + ty + " }"@;
    assert(d =~= a1 + "sub: "@ + sub + b1);
    let a2 = "Token { sub: "@ + sub;
    let b2 = ", iat: "@ + iat + ", toktype: "@ + ty + " }"@;
    assert(d =~= a2 + ", exp: "@ + exp + b2);
    let a3 = "Token { sub: "@ + sub + ", exp: "@ + exp;
    let b3 = ", toktype: "@ + ty + " }"@;
    assert(d =~= a3 + ", iat: "@ + iat + b3);
    let a4 = "Token { sub: "@ + sub + ", exp: "@ + exp + ", iat: "@ + iat;
    let b4 = " }"@;
    assert(d =~= a4 + ", toktype: "@ + ty + b4);
}

} // verus!
