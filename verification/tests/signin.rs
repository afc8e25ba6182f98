use auth_api::callback::{AccountLookup, StateLookup};
use auth_api::patterns::Patterns;
use auth_api::reply::{Reply, ReplyBody, StatusField};
use auth_api::settings::{setting_name, Setting};
use auth_api::signin::{callback_start, exchange_code, CallbackAction, CallbackEvent, CallbackState};
use auth_api::types::{DiscordAccessTokenResponse, DiscordCallbackQuery, DiscordUser, Provider, Timestamp};

fn ts(seconds: i64, nanos: u32) -> Timestamp {
    Timestamp { seconds, nanos }
}

fn query() -> DiscordCallbackQuery {
    DiscordCallbackQuery { code: "the-code".to_owned(), state: 0xabc }
}

fn tokens() -> DiscordAccessTokenResponse {
    DiscordAccessTokenResponse {
        access_token: "access".to_owned(),
        token_type: "Bearer".to_owned(),
        expires_in: Some(604800),
        refresh_token: "refresh".to_owned(),
        scope: "identify email".to_owned(),
    }
}

fn user(verified: bool) -> DiscordUser {
    DiscordUser {
        id: "42".to_owned(),
        username: "bob".to_owned(),
        global_name: None,
        email: Some("bob@example.com".to_owned()),
        avatar: None,
        verified,
    }
}

fn setting(v: &str) -> CallbackEvent {
    CallbackEvent::Setting(Some(v.to_owned()))
}

fn json(r: &Reply) -> (u16, String, String) {
    match &r.body {
        ReplyBody::Message { status: StatusField::Number(n), message } => (r.status, n.to_string(), message.clone()),
        ReplyBody::Message { status: StatusField::Text(t), message } => (r.status, t.clone(), message.clone()),
        _ => panic!("not json"),
    }
}

fn text(r: &Reply) -> (u16, String) {
    match &r.body {
        ReplyBody::Text(t) => (r.status, t.clone()),
        _ => panic!("not text"),
    }
}

/// Runs the sign-in on a script of outcomes; returns every action asked for.
fn run(events: Vec<CallbackEvent>) -> (CallbackState, Vec<CallbackAction>) {
    let patterns = Patterns::compile().unwrap();
    let (mut state, action) = callback_start(query());
    let mut actions = vec![action];
    for e in events {
        let (s, a) = exchange_code(&patterns, state, e);
        state = s;
        actions.push(a);
    }
    (state, actions)
}

fn last_reply(actions: &[CallbackAction]) -> &Reply {
    match actions.last().unwrap() {
        CallbackAction::Respond(r) => r,
        _ => panic!("did not answer"),
    }
}

fn happy_events() -> Vec<CallbackEvent> {
    vec![
        CallbackEvent::Completed,
        setting("client"),
        setting("secret"),
        CallbackEvent::StateToken(StateLookup::Found(ts(1_700_000_000, 0))),
        CallbackEvent::Clock(ts(1_700_000_300, 0)),
        CallbackEvent::Completed,
        CallbackEvent::Completed,
        setting("https://api.example.com/cb"),
        CallbackEvent::Tokens(Some(tokens())),
        CallbackEvent::DiscordUser(Some(user(true))),
        CallbackEvent::Clock(ts(1_700_000_301, 0)),
        CallbackEvent::Completed,
        CallbackEvent::Account(AccountLookup::NotFound),
        CallbackEvent::Id(7),
        CallbackEvent::Completed,
        CallbackEvent::Id(0x55),
        CallbackEvent::Clock(ts(1_700_000_302, 0)),
        CallbackEvent::Completed,
        CallbackEvent::Completed,
        setting("jwt-key"),
        CallbackEvent::Signed(Some("a.b.c".to_owned())),
        setting("https://app.example.com/"),
    ]
}

#[test]
fn setting_names() {
    assert_eq!(setting_name(&Setting::DiscordClientId), "DISCORD_CLIENT_ID");
    assert_eq!(setting_name(&Setting::DiscordSecret), "DISCORD_SECRET");
    assert_eq!(setting_name(&Setting::RedirectUriDiscord), "REDIRECT_URI_DISCORD");
    assert_eq!(setting_name(&Setting::JwtKey), "JWT_KEY");
    assert_eq!(setting_name(&Setting::CallbackUriDiscord), "CALLBACK_URI_DISCORD");
}

#[test]
fn sign_in_happy_path() {
    let (state, actions) = run(happy_events());
    assert!(matches!(state, CallbackState::Finished));
    assert!(matches!(actions[0], CallbackAction::OpenTransaction));
    assert!(matches!(actions[3], CallbackAction::LoadStateToken(0xabc)));
    assert!(matches!(actions[5], CallbackAction::DeleteStateToken(0xabc)));
    match &actions[8] {
        CallbackAction::ExchangeCode { client_id, client_secret, form } => {
            assert_eq!((client_id.as_str(), client_secret.as_str()), ("client", "secret"));
            assert_eq!(form[1], ("code".to_owned(), "the-code".to_owned()));
            assert_eq!(form[2], ("redirect_uri".to_owned(), "https://api.example.com/cb".to_owned()));
        }
        _ => panic!("expected the code exchange"),
    }
    match &actions[9] {
        CallbackAction::FetchDiscordUser { access_token } => assert_eq!(access_token, "access"),
        _ => panic!("expected the user fetch"),
    }
    match &actions[12] {
        CallbackAction::FindAccount { email } => assert_eq!(email, "bob@example.com"),
        _ => panic!("expected the account lookup"),
    }
    match &actions[14] {
        CallbackAction::InsertAccount(row) => {
            assert_eq!(row.userid, 7);
            assert_eq!(row.created_at, ts(1_700_000_300, 0));
            assert_eq!(row.pfp_url.as_deref(), Some("https://api.dicebear.com/7.x/thumbs/svg?seed=42"));
        }
        _ => panic!("expected the account insert"),
    }
    match &actions[17] {
        CallbackAction::InsertSession(row) => {
            assert_eq!(row.session_id, 0x55);
            assert_eq!(row.user_id, 7);
            assert_eq!(row.issued_at, ts(1_700_000_300, 0));
            assert_eq!(row.expires_at, ts(1_700_000_302 + 2_678_400, 0));
            assert_eq!(row.token_expires_at, Some(ts(1_700_000_301 + 604_800, 0)));
            assert_eq!(row.provider, Provider::Discord);
            assert_eq!(row.provider_id, "42");
            assert_eq!((row.access_token.as_str(), row.refresh_token.as_str()), ("access", "refresh"));
        }
        _ => panic!("expected the session insert"),
    }
    match &actions[20] {
        CallbackAction::Sign { claims, key } => {
            assert_eq!(key, "jwt-key");
            assert_eq!(claims.sub, "00000000-0000-0000-0000-000000000055");
            assert_eq!(claims.iat, 1_700_000_300);
            assert_eq!(claims.exp, 1_700_000_300 + 2_678_400);
        }
        _ => panic!("expected signing"),
    }
    let r = last_reply(&actions);
    assert_eq!(r.status, 302);
    assert_eq!(r.location.as_deref(), Some("https://app.example.com/"));
    assert_eq!(
        r.set_cookie.as_deref(),
        Some("auth_token=a.b.c; HttpOnly; Secure; SameSite=Strict; Path=/; Max-Age=604800")
    );
}

#[test]
fn sign_in_existing_account_skips_new_id() {
    let mut events = happy_events();
    events[12] = CallbackEvent::Account(AccountLookup::Found(99));
    events.remove(13);
    let (_, actions) = run(events);
    match &actions[13] {
        CallbackAction::InsertAccount(row) => assert_eq!(row.userid, 99),
        _ => panic!("expected the account insert"),
    }
    assert_eq!(last_reply(&actions).status, 302);
}

#[test]
fn sign_in_unknown_state_token() {
    let (_, actions) = run(vec![
        CallbackEvent::Completed,
        setting("client"),
        setting("secret"),
        CallbackEvent::StateToken(StateLookup::NotFound),
        CallbackEvent::Completed,
    ]);
    assert!(matches!(actions[4], CallbackAction::RollBack));
    assert_eq!(text(last_reply(&actions)), (401, "Invalid state token".to_owned()));
}

#[test]
fn sign_in_expired_state_token() {
    let (_, actions) = run(vec![
        CallbackEvent::Completed,
        setting("client"),
        setting("secret"),
        CallbackEvent::StateToken(StateLookup::Found(ts(1_700_000_000, 0))),
        CallbackEvent::Clock(ts(1_700_000_960, 0)),
        CallbackEvent::Completed,
    ]);
    assert!(matches!(actions[5], CallbackAction::RollBack));
    assert_eq!(text(last_reply(&actions)), (401, "State token expired".to_owned()));
}

#[test]
fn sign_in_failed_rollback_is_500() {
    let (_, actions) = run(vec![
        CallbackEvent::Completed,
        setting("client"),
        setting("secret"),
        CallbackEvent::StateToken(StateLookup::NotFound),
        CallbackEvent::Failed,
    ]);
    assert_eq!(json(last_reply(&actions)), (500, "500".to_owned(), "Internal server error".to_owned()));
}

#[test]
fn sign_in_missing_secret_is_500() {
    let (_, actions) = run(vec![CallbackEvent::Completed, setting("client"), CallbackEvent::Setting(None)]);
    assert_eq!(json(last_reply(&actions)).0, 500);
}

#[test]
fn sign_in_unverified_account_is_400() {
    let mut events = happy_events();
    events.truncate(10);
    events[9] = CallbackEvent::DiscordUser(Some(user(false)));
    let (_, actions) = run(events);
    assert_eq!(
        json(last_reply(&actions)),
        (400, "400".to_owned(), "Your Discord account doesn't have an email or isn't verified.".to_owned())
    );
}

#[test]
fn sign_in_account_lookup_failure_rolls_back() {
    let mut events = happy_events();
    events.truncate(13);
    events[12] = CallbackEvent::Account(AccountLookup::Failed);
    events.push(CallbackEvent::Completed);
    let (_, actions) = run(events);
    assert!(matches!(actions[13], CallbackAction::RollBack));
    assert_eq!(json(last_reply(&actions)).0, 500);
}

#[test]
fn sign_in_session_insert_failure_is_500_without_rollback() {
    let mut events = happy_events();
    events.truncate(18);
    events[17] = CallbackEvent::Failed;
    let (_, actions) = run(events);
    assert_eq!(json(last_reply(&actions)).0, 500);
}

#[test]
fn sign_in_unexpected_outcome_is_500() {
    let (state, actions) = run(vec![CallbackEvent::Id(3)]);
    assert!(matches!(state, CallbackState::Finished));
    assert_eq!(json(last_reply(&actions)).0, 500);
}

#[test]
fn sign_in_calls_discord_only_after_spending_the_state_token() {
    let (_, actions) = run(happy_events());
    let first_call = actions
        .iter()
        .position(|a| matches!(a, CallbackAction::ExchangeCode { .. } | CallbackAction::FetchDiscordUser { .. }))
        .unwrap();
    assert_eq!(first_call, 8);
    assert!(matches!(actions[5], CallbackAction::DeleteStateToken(0xabc)));
    assert!(matches!(actions[6], CallbackAction::Commit));

    let mut events = happy_events();
    events[3] = CallbackEvent::StateToken(StateLookup::NotFound);
    let (_, actions) = run(events);
    assert!(!actions
        .iter()
        .any(|a| matches!(a, CallbackAction::ExchangeCode { .. } | CallbackAction::FetchDiscordUser { .. })));
}
