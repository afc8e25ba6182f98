use auth_api::oauth::{authorize_reply, authorize_request};
use auth_api::reply::{ReplyBody, StatusField};
use auth_api::types::Timestamp;

#[test]
fn authorize_url_lists_pairs_in_order() {
    let now = Timestamp { seconds: 1_700_000_000, nanos: 0 };
    let req = authorize_request("12345", "https://example.com/cb?x=1", 0x0123456789abcdef0123456789abcdef, now)
        .ok()
        .unwrap();
    assert_eq!(
        req.url,
        "https://discord.com/oauth2/authorize?client_id=12345&response_type=code&redirect_uri=https%3A%2F%2Fexample.com%2Fcb%3Fx%3D1&scope=email+identify+openid+connections&state=01234567-89ab-cdef-0123-456789abcdef"
    );
    assert_eq!(req.state, 0x0123456789abcdef0123456789abcdef);
    assert_eq!(req.created_at, now);
}

#[test]
fn authorize_reply_redirects_once_saved() {
    let now = Timestamp { seconds: 1, nanos: 0 };
    let req = authorize_request("id", "uri", 1, now).ok().unwrap();
    let url = req.url.clone();
    let r = authorize_reply(req, true);
    assert_eq!(r.status, 303);
    assert_eq!(r.location, Some(url));
    assert!(matches!(r.body, ReplyBody::Empty));

    let req = authorize_request("id", "uri", 1, now).ok().unwrap();
    let r = authorize_reply(req, false);
    assert_eq!(r.status, 500);
    assert!(r.location.is_none());
    assert!(matches!(r.body, ReplyBody::Message { status: StatusField::Number(500), .. }));
}
