use auth_api::reply::{throw_internal_server_error, ReplyBody, StatusField};
use auth_api::token::{auth_claims, me};
use auth_api::types::Token;

#[test]
fn me_renders_debug_form() {
    let t = Token { sub: "abc".to_owned(), exp: 20, iat: 10, toktype: "auth".to_owned() };
    assert_eq!(me(&t), "Token { sub: \"abc\", exp: 20, iat: 10, toktype: \"auth\" }");
    assert_eq!(me(&t), format!("{:?}", t));
    let t = Token { sub: "q\"\n".to_owned(), exp: 0, iat: usize::MAX, toktype: String::new() };
    assert_eq!(me(&t), format!("{:?}", t));
    let t = Token { sub: "it's".to_owned(), exp: 0, iat: 0, toktype: String::new() };
    assert_eq!(me(&t), "Token { sub: \"it's\", exp: 0, iat: 0, toktype: \"\" }");
}

#[test]
fn auth_claims_mark_auth_tokens() {
    let t = auth_claims("s".to_owned(), 1, 2);
    assert_eq!((t.sub.as_str(), t.iat, t.exp, t.toktype.as_str()), ("s", 1, 2, "auth"));
}

#[test]
fn internal_server_error_body() {
    let r = throw_internal_server_error();
    assert_eq!(r.status, 500);
    match r.body {
        ReplyBody::Message { status: StatusField::Number(500), message } => assert_eq!(message, "Internal server error"),
        _ => panic!("unexpected body"),
    }
}

