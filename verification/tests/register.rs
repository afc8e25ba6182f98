use auth_api::patterns::Patterns;
use auth_api::register::{account_row, hash_registration, registration_reply, validate_registration, NewAccount};
use auth_api::reply::{Reply, ReplyBody, StatusField};
use auth_api::types::{Provider, RegisterPayload, Timestamp};

fn payload(email: &str, password: &str, username: &str, display_name: Option<&str>) -> RegisterPayload {
    RegisterPayload {
        email: email.to_owned(),
        password: password.to_owned(),
        username: username.to_owned(),
        display_name: display_name.map(|d| d.to_owned()),
    }
}

fn message(r: &Reply) -> (u16, String) {
    match &r.body {
        ReplyBody::Message { status: StatusField::Number(n), message } => {
            assert_eq!(*n, r.status);
            (r.status, message.clone())
        }
        _ => panic!("not a JSON message"),
    }
}

fn refusal(p: RegisterPayload) -> (u16, String) {
    let patterns = Patterns::compile().unwrap();
    match validate_registration(&patterns, p) {
        Err(r) => message(&r),
        Ok(_) => panic!("accepted"),
    }
}

#[test]
fn registration_normalises_fields() {
    let patterns = Patterns::compile().unwrap();
    let reg = match validate_registration(&patterns, payload("  Alice@Example.COM ", "correct horse", " Alice_1 ", None)) {
        Ok(r) => r,
        Err(_) => panic!("refused"),
    };
    assert_eq!(reg.email, "alice@example.com");
    assert_eq!(reg.password, "correct horse");
    assert_eq!(reg.username, "alice_1");
    assert_eq!(reg.display_name, "alice_1");
}

#[test]
fn registration_keeps_display_name_case() {
    let patterns = Patterns::compile().unwrap();
    let reg = match validate_registration(&patterns, payload("a@b.co", "12345678", "bob", Some("  Bob <b>B</b> "))) {
        Ok(r) => r,
        Err(_) => panic!("refused"),
    };
    assert_eq!(reg.display_name, "Bob <b>B</b>");
}

#[test]
fn registration_refuses_bad_email() {
    let m = "Email not between 5 and 320 characters or not formatted correctly.".to_owned();
    assert_eq!(refusal(payload("a@b", "12345678", "bob", None)), (400, m.clone()));
    assert_eq!(refusal(payload("not-an-email", "12345678", "bob", None)), (400, m.clone()));
    let long = format!("{}@example.com", "a".repeat(320));
    assert_eq!(refusal(payload(&long, "12345678", "bob", None)), (400, m));
}

#[test]
fn registration_refuses_bad_password() {
    let m = "Password not between 8 and 128 characters".to_owned();
    assert_eq!(refusal(payload("a@b.co", "1234567", "bob", None)), (400, m.clone()));
    assert_eq!(refusal(payload("a@b.co", &"x".repeat(129), "bob", None)), (400, m));
}

#[test]
fn registration_password_length_counts_bytes() {
    let patterns = Patterns::compile().unwrap();
    // four two-byte characters make eight bytes
    assert!(validate_registration(&patterns, payload("a@b.co", "éééé", "bob", None)).is_ok());
}

#[test]
fn registration_refuses_bad_username() {
    let m = "Username not within 3 and 32 characters or has invalid non-ASCII characters".to_owned();
    assert_eq!(refusal(payload("a@b.co", "12345678", "ab", None)), (400, m.clone()));
    assert_eq!(refusal(payload("a@b.co", "12345678", "bob smith", None)), (400, m.clone()));
    assert_eq!(refusal(payload("a@b.co", "12345678", "<script>x</script>ab", None)), (400, m));
}

#[test]
fn registration_refuses_bad_display_name() {
    let m = "Display name not within 3 and 32 characters".to_owned();
    assert_eq!(refusal(payload("a@b.co", "12345678", "bob", Some(" x "))), (400, m.clone()));
    assert_eq!(refusal(payload("a@b.co", "12345678", "bob", Some(&"y".repeat(33)))), (400, m));
}

#[test]
fn registration_checks_email_first() {
    assert_eq!(
        refusal(payload("bad", "1", "x", Some("y"))).1,
        "Email not between 5 and 320 characters or not formatted correctly."
    );
}

#[test]
fn registration_needs_pepper() {
    let patterns = Patterns::compile().unwrap();
    let reg = validate_registration(&patterns, payload("a@b.co", "12345678", "bob", None)).ok().unwrap();
    match hash_registration(reg, None) {
        Err(r) => assert_eq!(message(&r), (500, "Internal server error".to_owned())),
        Ok(_) => panic!("hashed without pepper"),
    }
}

#[test]
fn registration_hash_is_phc() {
    let patterns = Patterns::compile().unwrap();
    let reg = validate_registration(&patterns, payload("a@b.co", "12345678", "bob", None)).ok().unwrap();
    let acc = hash_registration(reg, Some("pepper".to_owned())).ok().unwrap();
    assert!(acc.password_hash.starts_with("$argon2id$"));
    assert_eq!(acc.email, "a@b.co");
    assert_eq!(acc.username, "bob");
}

#[test]
fn account_row_uses_credentials_provider() {
    let acc = NewAccount {
        email: "a@b.co".to_owned(),
        username: "bob".to_owned(),
        password_hash: "h".to_owned(),
        display_name: "Bob".to_owned(),
    };
    let t = Timestamp { seconds: 1_700_000_000, nanos: 5 };
    let row = account_row(acc, 42, t);
    assert_eq!(row.provider, Provider::Credentials);
    assert_eq!(row.userid, 42);
    assert_eq!(row.provider_id, 42);
    assert_eq!(row.created_at, t);
    assert_eq!(row.display_name, "Bob");
}

#[test]
fn registration_reply_is_uniform() {
    assert_eq!(
        message(&registration_reply(true)),
        (200, "If this email or username is available, an account has been created".to_owned())
    );
    assert_eq!(message(&registration_reply(false)), (500, "Internal server error".to_owned()));
}

#[test]
fn registration_lowercases_non_ascii() {
    let patterns = Patterns::compile().unwrap();
    // the user name is lower-cased before the pattern check, so this one fails it
    assert_eq!(
        refusal(payload("a@b.co", "12345678", "ΟΔΟΣ", None)).1,
        "Username not within 3 and 32 characters or has invalid non-ASCII characters"
    );
    let reg = validate_registration(&patterns, payload("ALICE@B.CO", "12345678", "BOB", None)).ok().unwrap();
    assert_eq!((reg.email.as_str(), reg.username.as_str()), ("alice@b.co", "bob"));
}

#[test]
fn registration_sanitises_user_name_before_checks() {
    let patterns = Patterns::compile().unwrap();
    let reg = validate_registration(&patterns, payload("a@b.co", "12345678", "<i>bob</i>", None));
    // sanitising keeps <i>, whose angle brackets fail the pattern
    assert!(reg.is_err());
    let reg = validate_registration(&patterns, payload("a@b.co", "12345678", "<script>x</script>bobby", None)).ok().unwrap();
    assert_eq!(reg.username, "bobby");
}

use auth_api::register::{register, register_start, RegisterAction, RegisterEvent, RegisterState};
use auth_api::settings::Setting;

#[test]
fn register_flow_inserts_account() {
    let patterns = Patterns::compile().unwrap();
    let (s, a) = register_start(&patterns, payload(" Bob@Example.com", "12345678", "Bob", None));
    assert!(matches!(a, RegisterAction::ReadSetting(Setting::Pepper)));
    let (s, a) = register(s, RegisterEvent::Setting(Some("pepper".to_owned())));
    assert!(matches!(a, RegisterAction::NewId));
    let (s, a) = register(s, RegisterEvent::Id(5));
    assert!(matches!(a, RegisterAction::ReadClock));
    let (s, a) = register(s, RegisterEvent::Clock(Timestamp { seconds: 10, nanos: 20 }));
    match &a {
        RegisterAction::InsertAccount(row) => {
            assert_eq!(row.email, "bob@example.com");
            assert_eq!(row.username, "bob");
            assert_eq!(row.display_name, "bob");
            assert_eq!(row.userid, 5);
            assert_eq!(row.provider_id, 5);
            assert_eq!(row.provider, Provider::Credentials);
            assert_eq!(row.created_at, Timestamp { seconds: 10, nanos: 20 });
            assert!(row.password_hash.starts_with("$argon2id$"));
            assert_eq!(auth_api::password::check_password(&row.password_hash, "pepper", "12345678"), Some(true));
        }
        _ => panic!("expected the insert"),
    }
    let (s, a) = register(s, RegisterEvent::Completed);
    assert!(matches!(s, RegisterState::Finished));
    match a {
        RegisterAction::Respond(r) => assert_eq!(
            message(&r),
            (200, "If this email or username is available, an account has been created".to_owned())
        ),
        _ => panic!("expected the answer"),
    }
}

#[test]
fn register_flow_failures() {
    let patterns = Patterns::compile().unwrap();
    let (s, a) = register_start(&patterns, payload("x", "12345678", "bob", None));
    assert!(matches!(s, RegisterState::Finished));
    assert!(matches!(a, RegisterAction::Respond(ref r) if r.status == 400));
    let (s, _) = register_start(&patterns, payload("a@b.co", "12345678", "bob", None));
    match register(s, RegisterEvent::Setting(None)).1 {
        RegisterAction::Respond(r) => assert_eq!(message(&r), (500, "Internal server error".to_owned())),
        _ => panic!("expected the answer"),
    }
    let (s, _) = register_start(&patterns, payload("a@b.co", "12345678", "bob", None));
    let (s, _) = register(s, RegisterEvent::Setting(Some("p".to_owned())));
    let (s, _) = register(s, RegisterEvent::Id(1));
    let (s, _) = register(s, RegisterEvent::Clock(Timestamp { seconds: 0, nanos: 0 }));
    match register(s, RegisterEvent::Failed).1 {
        RegisterAction::Respond(r) => assert_eq!(message(&r), (500, "Internal server error".to_owned())),
        _ => panic!("expected the answer"),
    }
}
