//! Account registration with an e-mail address and a password.
use vstd::prelude::*;
use crate::password::{hash_password, stores_password};
use crate::patterns::{pattern_is_match, regex_matches, Patterns, EMAIL_PATTERN, USERNAME_PATTERN};
use crate::reply::{
    is_internal_server_error, is_json_message, json_message, throw_internal_server_error, Reply,
};
use crate::text::{byte_len, html_clean, sanitize_html, to_lowercase, trim, trimmed, unicode_lowercase};
use crate::settings::Setting;
use crate::types::{Provider, RegisterPayload, Timestamp};

verus! {

pub const USERNAME_MIN_LEN: usize = 3;

pub const USERNAME_MAX_LEN: usize = 32;

pub const EMAIL_MIN_LEN: usize = 5;

pub const EMAIL_MAX_LEN: usize = 320;

pub const PASSWORD_MIN_LEN: usize = 8;

pub const PASSWORD_MAX_LEN: usize = 128;

/// The e-mail address an account is registered under: the given one, trimmed
/// and in lower case.
pub open spec fn registered_email(p: RegisterPayload) -> Seq<char> {
    unicode_lowercase(trimmed(p.email@))
}

/// The user name an account is registered under: the given one sanitised as
/// HTML, trimmed and in lower case.
pub open spec fn registered_username(p: RegisterPayload) -> Seq<char> {
    unicode_lowercase(trimmed(html_clean(p.username@)))
}

/// The display name: the given one trimmed and sanitised as HTML, or else the
/// user name.
pub open spec fn registered_display_name(p: RegisterPayload) -> Seq<char> {
    match p.display_name {
        Some(d) => html_clean(trimmed(d@)),
        None => registered_username(p),
    }
}

pub open spec fn email_acceptable(e: Seq<char>) -> bool {
    &&& EMAIL_MIN_LEN <= byte_len(e) <= EMAIL_MAX_LEN
    &&& regex_matches(EMAIL_PATTERN@, e)
}

pub open spec fn password_acceptable(pw: Seq<char>) -> bool {
    PASSWORD_MIN_LEN <= byte_len(pw) <= PASSWORD_MAX_LEN
}

pub open spec fn username_acceptable(u: Seq<char>) -> bool {
    &&& USERNAME_MIN_LEN <= byte_len(u) <= USERNAME_MAX_LEN
    &&& regex_matches(USERNAME_PATTERN@, u)
}

pub open spec fn display_name_acceptable(d: Seq<char>) -> bool {
    USERNAME_MIN_LEN <= byte_len(d) <= USERNAME_MAX_LEN
}

pub open spec fn bad_email_text() -> Seq<char> {
    "Email not between 5 and 320 characters or not formatted correctly."@
}

pub open spec fn bad_password_text() -> Seq<char> {
    "Password not between 8 and 128 characters"@
}

pub open spec fn bad_username_text() -> Seq<char> {
    "Username not within 3 and 32 characters or has invalid non-ASCII characters"@
}

pub open spec fn bad_display_name_text() -> Seq<char> {
    "Display name not within 3 and 32 characters"@
}

/// Why a registration request is refused, checking the e-mail address, the
/// password, the user name and the display name in that order; `None` when
/// it is accepted.
pub open spec fn registration_problem(p: RegisterPayload) -> Option<Seq<char>> {
    if !email_acceptable(registered_email(p)) {
        Some(bad_email_text())
    } else if !password_acceptable(p.password@) {
        Some(bad_password_text())
    } else if !username_acceptable(registered_username(p)) {
        Some(bad_username_text())
    } else if !display_name_acceptable(registered_display_name(p)) {
        Some(bad_display_name_text())
    } else {
        None
    }
}

/// A registration request that passed validation.
pub struct Registration {
    pub email: String,
    pub password: String,
    pub username: String,
    pub display_name: String,
}

/// Validates a registration request. Refusals answer `400` with the message
/// of the first check that fails.
pub fn validate_registration(patterns: &Patterns, payload: RegisterPayload) -> (r: Result<
    Registration,
    Reply,
>)
    requires
        patterns.wf(),
    ensures
        match registration_problem(payload) {
            Some(m) => r matches Err(e) && is_json_message(e, 400, m),
            None => r matches Ok(reg) && reg.email@ == registered_email(payload) && reg.password@
                == payload.password@ && reg.username@ == registered_username(payload)
                && reg.display_name@ == registered_display_name(payload),
        },
{
    let ghost p = payload;
    let trimmed_email = trim(payload.email.as_str());
    let email = to_lowercase(trimmed_email.as_str());
    if email.as_str().len() < EMAIL_MIN_LEN || email.as_str().len() > EMAIL_MAX_LEN
        || !pattern_is_match(&patterns.email, email.as_str()) {
        return Err(
            json_message(400, "Email not between 5 and 320 characters or not formatted correctly."),
        );
    }
    let password = payload.password;
    if password.as_str().len() < PASSWORD_MIN_LEN || password.as_str().len() > PASSWORD_MAX_LEN {
        return Err(json_message(400, "Password not between 8 and 128 characters"));
    }
    let cleaned_username = sanitize_html(payload.username.as_str());
    let trimmed_username = trim(cleaned_username.as_str());
    let username = to_lowercase(trimmed_username.as_str());
    if username.as_str().len() < USERNAME_MIN_LEN || username.as_str().len() > USERNAME_MAX_LEN
        || !pattern_is_match(&patterns.username, username.as_str()) {
        return Err(
            json_message(
                400,
                "Username not within 3 and 32 characters or has invalid non-ASCII characters",
            ),
        );
    }
    let display_name = match &payload.display_name {
        Some(d) => {
            let trimmed_display = trim(d.as_str());
            sanitize_html(trimmed_display.as_str())
        },
        None => username.clone(),
    };
    if display_name.as_str().len() < USERNAME_MIN_LEN || display_name.as_str().len()
        > USERNAME_MAX_LEN {
        return Err(json_message(400, "Display name not within 3 and 32 characters"));
    }
    Ok(Registration { email, password, username, display_name })
}

/// A validated registration with its password hashed.
pub struct NewAccount {
    pub email: String,
    pub username: String,
    pub password_hash: String,
    pub display_name: String,
}

/// Hashes the password of a validated registration with the pepper. Without
/// a pepper the answer is the generic failure; with one, hashing succeeds.
pub fn hash_registration(reg: Registration, pepper: Option<String>) -> (r: Result<NewAccount, Reply>)
    ensures
        pepper is None <==> r is Err,
        r matches Err(e) ==> is_internal_server_error(e),
        r matches Ok(acc) ==> pepper matches Some(p) && stores_password(
            acc.password_hash@,
            p@,
            reg.password@,
        ) && acc.email@ == reg.email@ && acc.username@ == reg.username@ && acc.display_name@
            == reg.display_name@,
{
    let pepper = match pepper {
        Some(p) => p,
        None => return Err(throw_internal_server_error()),
    };
    match hash_password(pepper.as_str(), reg.password.as_str()) {
        Some(h) => Ok(
            NewAccount {
                email: reg.email,
                username: reg.username,
                password_hash: h,
                display_name: reg.display_name,
            },
        ),
        None => Err(throw_internal_server_error()),
    }
}

/// The row a new account is inserted as.
pub struct AccountRow {
    pub email: String,
    pub username: String,
    pub password_hash: String,
    pub display_name: String,
    pub userid: u128,
    pub created_at: Timestamp,
    pub provider: Provider,
    /// The account's identifier with its provider: the account's own id.
    pub provider_id: u128,
}

/// The row for a new account with id `userid`, created at `created_at`.
pub fn account_row(acc: NewAccount, userid: u128, created_at: Timestamp) -> (r: AccountRow)
    ensures
        r.email@ == acc.email@,
        r.username@ == acc.username@,
        r.password_hash@ == acc.password_hash@,
        r.display_name@ == acc.display_name@,
        r.userid == userid,
        r.created_at == created_at,
        r.provider == Provider::Credentials,
        r.provider_id == userid,
{
    AccountRow {
        email: acc.email,
        username: acc.username,
        password_hash: acc.password_hash,
        display_name: acc.display_name,
        userid,
        created_at,
        provider: Provider::Credentials,
        provider_id: userid,
    }
}

pub open spec fn account_created_text() -> Seq<char> {
    "If this email or username is available, an account has been created"@
}

/// The answer once the insert has run: the same `200` whether or not an
/// account was created (an existing e-mail or user name is not revealed), or
/// the generic failure when the insert failed.
pub fn registration_reply(inserted: bool) -> (r: Reply)
    ensures
        inserted ==> is_json_message(r, 200, account_created_text()),
        !inserted ==> is_internal_server_error(r),
{
    if inserted {
        json_message(200, "If this email or username is available, an account has been created")
    } else {
        throw_internal_server_error()
    }
}


/// What a registration is waiting for.
pub enum RegisterState {
    ReadingPepper { registration: Registration },
    /// A fresh id for the account.
    MintingId { account: NewAccount },
    /// The creation time.
    ReadingClock { account: NewAccount, userid: u128 },
    /// The outcome of the insert.
    Inserting,
    /// The answer has been given.
    Finished,
}

/// The outcome of the last action.
pub enum RegisterEvent {
    /// The insert succeeded.
    Completed,
    /// The insert failed.
    Failed,
    /// The setting's value, `None` when it is not set.
    Setting(Option<String>),
    /// A fresh random id.
    Id(u128),
    Clock(Timestamp),
}

/// What the caller must do next.
pub enum RegisterAction {
    ReadSetting(Setting),
    NewId,
    ReadClock,
    /// Insert the account unless its e-mail address or user name is taken.
    InsertAccount(AccountRow),
    Respond(Reply),
}

/// The step ends the registration with the generic failure.
pub open spec fn register_fails(n: RegisterState, a: RegisterAction) -> bool {
    &&& n is Finished
    &&& a matches RegisterAction::Respond(r) && is_internal_server_error(r)
}

/// Where a registration starts: the pepper is read once the request passes
/// validation; otherwise `400` with the first problem found.
pub fn register_start(patterns: &Patterns, payload: RegisterPayload) -> (r: (RegisterState, RegisterAction))
    requires
        patterns.wf(),
    ensures
        match registration_problem(payload) {
            Some(m) => r.0 is Finished && (r.1 matches RegisterAction::Respond(e) && is_json_message(
                e,
                400,
                m,
            )),
            None => (r.0 matches RegisterState::ReadingPepper { registration }
                && registration.email@ == registered_email(payload) && registration.password@
                == payload.password@ && registration.username@ == registered_username(payload)
                && registration.display_name@ == registered_display_name(payload)) && r.1
                == RegisterAction::ReadSetting(Setting::Pepper),
        },
{
    match validate_registration(patterns, payload) {
        Ok(registration) => (
            RegisterState::ReadingPepper { registration },
            RegisterAction::ReadSetting(Setting::Pepper),
        ),
        Err(reply) => (RegisterState::Finished, RegisterAction::Respond(reply)),
    }
}

/// How a registration moves on from `s` on outcome `e`: to state `n`,
/// asking for action `a`. Any outcome other than those listed ends the
/// registration with the generic failure.
pub open spec fn register_step(s: RegisterState, e: RegisterEvent, n: RegisterState, a: RegisterAction) -> bool {
    match s {
        RegisterState::ReadingPepper { registration } => match e {
            RegisterEvent::Setting(Some(p)) => ((n matches RegisterState::MintingId {
                account,
            } && stores_password(account.password_hash@, p@, registration.password@)
                && account.email@ == registration.email@ && account.username@
                == registration.username@ && account.display_name@ == registration.display_name@)
                && a is NewId),
            _ => register_fails(n, a),
        },
        RegisterState::MintingId { account } => match e {
            RegisterEvent::Id(id) => n == (RegisterState::ReadingClock { account, userid: id }) && a
                is ReadClock,
            _ => register_fails(n, a),
        },
        RegisterState::ReadingClock { account, userid } => match e {
            RegisterEvent::Clock(t) => n is Inserting && (a matches RegisterAction::InsertAccount(row)
                && row.email@ == account.email@ && row.username@ == account.username@
                && row.password_hash@ == account.password_hash@ && row.display_name@
                == account.display_name@ && row.userid == userid && row.created_at == t
                && row.provider == Provider::Credentials && row.provider_id == userid),
            _ => register_fails(n, a),
        },
        RegisterState::Inserting => match e {
            RegisterEvent::Completed => n is Finished && (a matches RegisterAction::Respond(r)
                && is_json_message(r, 200, account_created_text())),
            _ => register_fails(n, a),
        },
        RegisterState::Finished => register_fails(n, a),
    }
}

fn register_failure() -> (r: (RegisterState, RegisterAction))
    ensures
        register_fails(r.0, r.1),
{
    (RegisterState::Finished, RegisterAction::Respond(throw_internal_server_error()))
}

/// One step of a registration: from state `state`, given the outcome
/// `event` of the last action, the next state and the next action.
pub fn register(state: RegisterState, event: RegisterEvent) -> (r: (RegisterState, RegisterAction))
    ensures
        register_step(state, event, r.0, r.1),
{
    match state {
        RegisterState::ReadingPepper { registration } => match event {
            RegisterEvent::Setting(Some(p)) => match hash_registration(registration, Some(p)) {
                Ok(account) => (RegisterState::MintingId { account }, RegisterAction::NewId),
                Err(reply) => (RegisterState::Finished, RegisterAction::Respond(reply)),
            },
            _ => register_failure(),
        },
        RegisterState::MintingId { account } => match event {
            RegisterEvent::Id(id) => (
                RegisterState::ReadingClock { account, userid: id },
                RegisterAction::ReadClock,
            ),
            _ => register_failure(),
        },
        RegisterState::ReadingClock { account, userid } => match event {
            RegisterEvent::Clock(t) => (
                RegisterState::Inserting,
                RegisterAction::InsertAccount(account_row(account, userid, t)),
            ),
            _ => register_failure(),
        },
        RegisterState::Inserting => match event {
            RegisterEvent::Completed => (
                RegisterState::Finished,
                RegisterAction::Respond(registration_reply(true)),
            ),
            _ => register_failure(),
        },
        RegisterState::Finished => register_failure(),
    }
}

/// A validated registration goes through once the pepper is set: the
/// password is hashed so that it is stored, the account is inserted with a
/// fresh id and the time read, and once the insert has run the answer is the
/// same `200` whether it created the account or found the e-mail address or
/// user name taken.
pub proof fn registration_goes_through(
    registration: Registration,
    pepper: String,
    id: u128,
    now: Timestamp,
    n1: RegisterState,
    a1: RegisterAction,
    n2: RegisterState,
    a2: RegisterAction,
    n3: RegisterState,
    a3: RegisterAction,
    n4: RegisterState,
    a4: RegisterAction,
)
    requires
        register_step(
            RegisterState::ReadingPepper { registration },
            RegisterEvent::Setting(Some(pepper)),
            n1,
            a1,
        ),
        register_step(n1, RegisterEvent::Id(id), n2, a2),
        register_step(n2, RegisterEvent::Clock(now), n3, a3),
        register_step(n3, RegisterEvent::Completed, n4, a4),
    ensures
        a1 is NewId,
        a2 is ReadClock,
        a3 matches RegisterAction::InsertAccount(row) && stores_password(
            row.password_hash@,
            pepper@,
            registration.password@,
        ) && row.email@ == registration.email@ && row.username@ == registration.username@
            && row.display_name@ == registration.display_name@ && row.userid == id
            && row.provider_id == id && row.created_at == now && row.provider
            == Provider::Credentials,
        n4 is Finished,
        a4 matches RegisterAction::Respond(r) && is_json_message(r, 200, account_created_text()),
{
}

/// A registration that passes the checks on its e-mail address, password
/// and user name is refused for its display name exactly when the display
/// name, as registered, takes fewer than 3 or more than 32 bytes in UTF-8
/// (what `str::len` counts, not the number of characters); otherwise it is
/// accepted.
pub proof fn display_name_length_counts_bytes(p: RegisterPayload)
    requires
        email_acceptable(registered_email(p)),
        password_acceptable(p.password@),
        username_acceptable(registered_username(p)),
    ensures
        registration_problem(p) is None <==> 3 <= byte_len(registered_display_name(p)) <= 32,
        !(3 <= byte_len(registered_display_name(p)) <= 32) ==> registration_problem(p) == Some(
            bad_display_name_text(),
        ),
{
}

/// The checks run in order, each counting bytes in UTF-8 (what `str::len`
/// counts): the e-mail address, as registered, must take 5 to 320 bytes and
/// match the e-mail pattern; then the password 8 to 128 bytes; then the user
/// name, as registered, 3 to 32 bytes and match the user-name pattern. The
/// first that fails gives the refusal.
pub proof fn registration_checks_count_bytes(p: RegisterPayload)
    ensures
        registration_problem(p) == Some(bad_email_text()) <==> !(5 <= byte_len(registered_email(p))
            <= 320 && regex_matches(EMAIL_PATTERN@, registered_email(p))),
        registration_problem(p) == Some(bad_password_text()) <==> (5 <= byte_len(
            registered_email(p),
        ) <= 320 && regex_matches(EMAIL_PATTERN@, registered_email(p)) && !(8 <= byte_len(
            p.password@,
        ) <= 128)),
        registration_problem(p) == Some(bad_username_text()) <==> (5 <= byte_len(
            registered_email(p),
        ) <= 320 && regex_matches(EMAIL_PATTERN@, registered_email(p)) && 8 <= byte_len(
            p.password@,
        ) <= 128 && !(3 <= byte_len(registered_username(p)) <= 32 && regex_matches(
            USERNAME_PATTERN@,
            registered_username(p),
        ))),
{
    reveal_strlit("Email not between 5 and 320 characters or not formatted correctly.");
    reveal_strlit("Password not between 8 and 128 characters");
    reveal_strlit("Username not within 3 and 32 characters or has invalid non-ASCII characters");
    reveal_strlit("Display name not within 3 and 32 characters");
    assert(bad_email_text()[0] == 'E');
    assert(bad_password_text()[0] == 'P');
    assert(bad_username_text()[0] == 'U');
    assert(bad_display_name_text()[0] == 'D');
}

} // verus!
