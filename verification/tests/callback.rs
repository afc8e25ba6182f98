use chrono::{DateTime, TimeDelta, Utc};
use auth_api::callback::{
    EARLIEST_SECONDS, LATEST_SECONDS,
    access_token_expiry, check_discord_user, check_state_freshness, discord_account_row,
    minutes_between, session_claims, session_row, sign_in_reply, token_exchange_form,
};
use auth_api::patterns::Patterns;
use auth_api::reply::{Reply, ReplyBody, StatusField};
use auth_api::types::{DiscordAccessTokenResponse, DiscordUser, Provider, Timestamp};

fn ts(seconds: i64, nanos: u32) -> Timestamp {
    Timestamp { seconds, nanos }
}

fn text(r: &Reply) -> (u16, String) {
    match &r.body {
        ReplyBody::Text(t) => (r.status, t.clone()),
        _ => panic!("not text"),
    }
}

fn json(r: &Reply) -> (u16, String, String) {
    match &r.body {
        ReplyBody::Message { status: StatusField::Number(n), message } => (r.status, n.to_string(), message.clone()),
        ReplyBody::Message { status: StatusField::Text(t), message } => (r.status, t.clone(), message.clone()),
        _ => panic!("not json"),
    }
}

fn discord_user(verified: bool, email: Option<&str>, username: &str, global: Option<&str>, avatar: Option<&str>) -> DiscordUser {
    DiscordUser {
        id: "80351110224678912".to_owned(),
        username: username.to_owned(),
        global_name: global.map(|s| s.to_owned()),
        email: email.map(|s| s.to_owned()),
        avatar: avatar.map(|s| s.to_owned()),
        verified,
    }
}

#[test]
fn minutes_truncate_toward_zero() {
    assert_eq!(minutes_between(ts(0, 0), ts(959, 999_999_999)), 15);
    assert_eq!(minutes_between(ts(0, 0), ts(960, 0)), 16);
    assert_eq!(minutes_between(ts(100, 500), ts(100, 400)), 0);
    assert_eq!(minutes_between(ts(1000, 0), ts(0, 1)), -16);
    assert_eq!(minutes_between(ts(120, 0), ts(0, 0)), -2);
}

#[test]
fn state_token_expires_after_fifteen_minutes() {
    let created = ts(1_700_000_000, 250);
    let fresh = check_state_freshness(created, ts(1_700_000_959, 900)).unwrap();
    assert_eq!(fresh.checked_at(), ts(1_700_000_959, 900));
    assert!(check_state_freshness(created, ts(1_700_000_960, 250)).is_none());
    assert!(check_state_freshness(created, ts(1_699_000_000, 0)).is_some());
}

#[test]
fn exchange_form_pairs() {
    let form = token_exchange_form("the-code", "https://example.com/cb");
    assert_eq!(
        form,
        vec![
            ("grant_type".to_owned(), "authorization_code".to_owned()),
            ("code".to_owned(), "the-code".to_owned()),
            ("redirect_uri".to_owned(), "https://example.com/cb".to_owned()),
        ]
    );
}

#[test]
fn discord_account_needs_verified_email() {
    let patterns = Patterns::compile().unwrap();
    let m = "Your Discord account doesn't have an email or isn't verified.".to_owned();
    let r = check_discord_user(&patterns, discord_user(false, Some("a@b.co"), "bob", None, None)).err().unwrap();
    assert_eq!(json(&r), (400, "400".to_owned(), m.clone()));
    let r = check_discord_user(&patterns, discord_user(true, None, "bob", None, None)).err().unwrap();
    assert_eq!(json(&r), (400, "400".to_owned(), m));
}

#[test]
fn discord_username_must_match_pattern() {
    let patterns = Patterns::compile().unwrap();
    let r = check_discord_user(&patterns, discord_user(true, Some("a@b.co"), "b", None, None)).err().unwrap();
    assert_eq!(json(&r), (400, "400".to_owned(), "Invalid username".to_owned()));
}

#[test]
fn discord_profile_rows_and_avatars() {
    let patterns = Patterns::compile().unwrap();
    let created = ts(1_700_000_000, 0);
    let state = check_state_freshness(created, ts(1_700_000_060, 7)).unwrap();

    let profile = check_discord_user(&patterns, discord_user(true, Some("a@b.co"), "Bob_1", None, None)).ok().unwrap();
    assert_eq!(profile.email(), "a@b.co");
    let row = discord_account_row(9, &profile, &state);
    assert_eq!(row.userid, 9);
    assert_eq!(row.username, "Bob_1");
    assert_eq!(row.display_name.as_deref(), Some("Bob_1"));
    assert_eq!(row.pfp_url.as_deref(), Some("https://api.dicebear.com/7.x/thumbs/svg?seed=80351110224678912"));
    assert_eq!(row.created_at, ts(1_700_000_060, 7));

    let profile = check_discord_user(&patterns, discord_user(true, Some("a@b.co"), "bob", Some("Bobby"), Some("8342729096ea3675442027381ff50dfe"))).ok().unwrap();
    let row = discord_account_row(9, &profile, &state);
    assert_eq!(row.display_name.as_deref(), Some("Bobby"));
    assert_eq!(
        row.pfp_url.as_deref(),
        Some("https://cdn.discordapp.com/avatars/80351110224678912/8342729096ea3675442027381ff50dfe.png")
    );
}

#[test]
fn access_token_expiry_adds_lifetime() {
    assert_eq!(access_token_expiry(ts(100, 3), Some(604800)), Some(ts(604900, 3)));
    assert_eq!(access_token_expiry(ts(100, 3), None), None);
}

#[test]
fn session_row_and_claims() {
    let patterns = Patterns::compile().unwrap();
    let state = check_state_freshness(ts(1_700_000_000, 0), ts(1_700_000_100, 0)).unwrap();
    let profile = check_discord_user(&patterns, discord_user(true, Some("a@b.co"), "bob", None, None)).ok().unwrap();
    let tokens = DiscordAccessTokenResponse {
        access_token: "at".to_owned(),
        token_type: "Bearer".to_owned(),
        expires_in: Some(604800),
        refresh_token: "rt".to_owned(),
        scope: "identify".to_owned(),
    };
    let row = session_row(0x10, &state, ts(1_700_000_200, 9), &profile, tokens, Some(ts(5, 0)), 77);
    assert_eq!(row.session_id, 0x10);
    assert_eq!(row.issued_at, ts(1_700_000_100, 0));
    assert_eq!(row.expires_at, ts(1_700_000_200 + 44640 * 60, 9));
    assert_eq!(row.provider, Provider::Discord);
    assert_eq!(row.provider_id, "80351110224678912");
    assert_eq!((row.access_token.as_str(), row.refresh_token.as_str()), ("at", "rt"));
    assert_eq!(row.token_expires_at, Some(ts(5, 0)));
    assert_eq!(row.user_id, 77);

    let claims = session_claims(0x10, &state);
    assert_eq!(claims.sub, "00000000-0000-0000-0000-000000000010");
    assert_eq!(claims.iat, 1_700_000_100);
    assert_eq!(claims.exp, 1_700_000_100 + 60 * 60 * 24 * 31);
    assert_eq!(claims.toktype, "auth");
}

#[test]
fn sign_in_sets_cookie_and_redirects() {
    let r = sign_in_reply("a.b.c", "https://app.example.com/".to_owned());
    assert_eq!(r.status, 302);
    assert_eq!(
        r.set_cookie.as_deref(),
        Some("auth_token=a.b.c; HttpOnly; Secure; SameSite=Strict; Path=/; Max-Age=604800")
    );
    assert_eq!(r.location.as_deref(), Some("https://app.example.com/"));
    assert_eq!(text(&r), (302, String::new()));
}

#[test]
fn date_range_is_chronos() {
    assert_eq!(DateTime::<Utc>::MAX_UTC.timestamp(), LATEST_SECONDS);
    assert_eq!(DateTime::<Utc>::MIN_UTC.timestamp(), EARLIEST_SECONDS);
    let last = DateTime::<Utc>::from_timestamp(LATEST_SECONDS, 0).unwrap();
    assert!(last.checked_add_signed(TimeDelta::seconds(1)).is_none());
    let now = Timestamp { seconds: LATEST_SECONDS - 10, nanos: 5 };
    assert_eq!(access_token_expiry(now, Some(10)), Some(Timestamp { seconds: LATEST_SECONDS, nanos: 5 }));
}
