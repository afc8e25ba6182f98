use auth_api::middleware::{auth_error_reply, auth_token_cookie, forbidden, verification_key, verified_claims};
use auth_api::reply::{ReplyBody, StatusField};
use auth_api::types::Token;

fn refusal(header: Option<&str>) -> (u16, String) {
    match auth_token_cookie(header) {
        Err(e) => (e.status_code, e.message),
        Ok(v) => panic!("found {}", v),
    }
}

#[test]
fn cookie_header_missing() {
    assert_eq!(refusal(None), (403, "Empty cookies".to_owned()));
}

#[test]
fn cookie_without_auth_token() {
    assert_eq!(refusal(Some("theme=dark; lang=en")), (403, "No Auth cookie".to_owned()));
    assert_eq!(refusal(Some("")), (403, "No Auth cookie".to_owned()));
}

#[test]
fn cookie_auth_token_found() {
    assert_eq!(auth_token_cookie(Some("theme=dark; auth_token=abc.def.ghi")).ok().unwrap(), "abc.def.ghi");
    assert_eq!(auth_token_cookie(Some("  auth_token = xyz ;a=b")).ok().unwrap(), "xyz");
}

#[test]
fn cookie_first_auth_token_wins() {
    assert_eq!(auth_token_cookie(Some("auth_token=one; auth_token=two")).ok().unwrap(), "one");
}

#[test]
fn cookie_malformed_pairs_are_skipped() {
    assert_eq!(auth_token_cookie(Some("garbage; auth_token=ok")).ok().unwrap(), "ok");
    assert_eq!(auth_token_cookie(Some(" =nameless; ; auth_token=a=b ;")).ok().unwrap(), "a=b");
}

#[test]
fn refusal_reply_has_text_status() {
    let r = auth_error_reply(forbidden("Invalid token"));
    assert_eq!(r.status, 403);
    match r.body {
        ReplyBody::Message { status: StatusField::Text(t), message } => {
            assert_eq!(t, "403");
            assert_eq!(message, "Invalid token");
        }
        _ => panic!("not a text-status message"),
    }
}

#[test]
fn missing_key_is_plain_500() {
    let r = verification_key(None).err().unwrap();
    assert_eq!(r.status, 500);
    match r.body {
        ReplyBody::Text(t) => assert_eq!(t, "JWT key not found"),
        _ => panic!("not text"),
    }
    assert_eq!(verification_key(Some("k".to_owned())).ok().unwrap(), "k");
}

#[test]
fn undecodable_token_is_refused() {
    let e = verified_claims(None).err().unwrap();
    assert_eq!((e.status_code, e.message.as_str()), (403, "Invalid token"));
    let t = Token { sub: "s".to_owned(), exp: 2, iat: 1, toktype: "auth".to_owned() };
    let ok = verified_claims(Some(t)).ok().unwrap();
    assert_eq!(ok.sub, "s");
}
