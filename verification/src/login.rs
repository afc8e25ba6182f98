//! Login with an e-mail address and a password.
use vstd::prelude::*;
use crate::password::{check_password, login_accepts, phc_is_valid, phc_parses, stores_password};
use crate::reply::{
    is_internal_server_error, is_json_message, json_message, throw_internal_server_error, Reply,
    ReplyBody,
};
use crate::text::{uuid_hyphenated, uuid_text};
use crate::settings::Setting;
use crate::token::{token_reply, LOGIN_TOKEN_LIFETIME};
use crate::types::LoginClaims;

verus! {

/// The members of a login request body: each is present when the body has
/// that member as a JSON string.
pub struct LoginPayload {
    pub email: Option<String>,
    pub password: Option<String>,
}

pub struct LoginCredentials {
    pub email: String,
    pub password: String,
}

pub open spec fn invalid_login_text() -> Seq<char> {
    "Invalid email or password"@
}

/// The e-mail address and password of a login request; `400` when either is
/// missing, the e-mail address checked first.
pub fn login_credentials(payload: LoginPayload) -> (r: Result<LoginCredentials, Reply>)
    ensures
        match (payload.email, payload.password) {
            (None, _) => r matches Err(e) && is_json_message(e, 400, "Missing email"@),
            (Some(_), None) => r matches Err(e) && is_json_message(e, 400, "Missing password"@),
            (Some(em), Some(pw)) => r matches Ok(c) && c.email@ == em@ && c.password@ == pw@,
        },
{
    let email = match payload.email {
        Some(e) => e,
        None => return Err(json_message(400, "Missing email")),
    };
    let password = match payload.password {
        Some(p) => p,
        None => return Err(json_message(400, "Missing password")),
    };
    Ok(LoginCredentials { email, password })
}

/// The stored account a login looks up by e-mail address.
pub struct StoredUser {
    /// The stored password hash, in PHC format.
    pub password: String,
    pub userid: u128,
    pub email: String,
    pub username: String,
}

/// The outcome of looking the account up.
pub enum UserLookup {
    Found(StoredUser),
    NotFound,
    Failed,
}

/// A login whose account was found and whose stored hash parses.
pub struct PendingLogin {
    pub password: String,
    pub user: StoredUser,
}

impl PendingLogin {
    pub open spec fn wf(&self) -> bool {
        phc_parses(self.user.password@)
    }
}

/// Goes on from the account lookup: an unknown address answers `401`, a
/// failed lookup or a stored hash that does not parse the generic failure.
pub fn login_lookup(creds: LoginCredentials, lookup: UserLookup) -> (r: Result<PendingLogin, Reply>)
    ensures
        match lookup {
            UserLookup::NotFound => r matches Err(e) && is_json_message(e, 401, invalid_login_text()),
            UserLookup::Failed => r matches Err(e) && is_internal_server_error(e),
            UserLookup::Found(u) => if phc_parses(u.password@) {
                r matches Ok(p) && p.wf() && p.password@ == creds.password@ && p.user == u
            } else {
                r matches Err(e) && is_internal_server_error(e)
            },
        },
{
    match lookup {
        UserLookup::NotFound => Err(json_message(401, "Invalid email or password")),
        UserLookup::Failed => Err(throw_internal_server_error()),
        UserLookup::Found(user) => {
            if phc_is_valid(user.password.as_str()) {
                Ok(PendingLogin { password: creds.password, user })
            } else {
                Err(throw_internal_server_error())
            }
        },
    }
}

/// Checks the password against the stored hash with the pepper: the account
/// id when it matches, `401` when it does not, the generic failure when there
/// is no pepper or the stored hash does not parse.
pub fn login_check(pending: PendingLogin, pepper: Option<String>) -> (r: Result<u128, Reply>)
    ensures
        match pepper {
            None => r matches Err(e) && is_internal_server_error(e),
            Some(p) => if !phc_parses(pending.user.password@) {
                r matches Err(e) && is_internal_server_error(e)
            } else if login_accepts(pending.user.password@, p@, pending.password@) {
                r == Ok::<u128, Reply>(pending.user.userid)
            } else {
                r matches Err(e) && is_json_message(e, 401, invalid_login_text())
            },
        },
{
    let pepper = match pepper {
        Some(p) => p,
        None => return Err(throw_internal_server_error()),
    };
    if !phc_is_valid(pending.user.password.as_str()) {
        return Err(throw_internal_server_error());
    }
    match check_password(pending.user.password.as_str(), pepper.as_str(), pending.password.as_str()) {
        Some(true) => Ok(pending.user.userid),
        Some(false) => Err(json_message(401, "Invalid email or password")),
        None => Err(throw_internal_server_error()),
    }
}

/// `c` speaks for account `sub`, was issued at `iat`, expires at `exp`, and
/// carries the account's user name and e-mail address.
pub open spec fn is_login_token(
    c: LoginClaims,
    sub: Seq<char>,
    iat: usize,
    exp: usize,
    username: Seq<char>,
    email: Seq<char>,
) -> bool {
    &&& c.sub@ == sub
    &&& c.iat == iat
    &&& c.exp == exp
    &&& c.username@ == username
    &&& c.email@ == email
}

/// The claims of the token a successful login receives: it speaks for the
/// account, carries its user name and e-mail address, and is issued now and
/// valid for 7 days. `now` is the time in seconds since the Unix epoch,
/// `None` when the clock reads earlier than the epoch (the generic failure).
pub fn login_claims(userid: u128, username: String, email: String, now: Option<usize>) -> (r: Result<
    LoginClaims,
    Reply,
>)
    requires
        now matches Some(t) ==> t + LOGIN_TOKEN_LIFETIME <= usize::MAX,
    ensures
        match now {
            None => r matches Err(e) && is_internal_server_error(e),
            Some(t) => r matches Ok(c) && is_login_token(
                c,
                uuid_hyphenated(userid),
                t,
                (t + LOGIN_TOKEN_LIFETIME) as usize,
                username@,
                email@,
            ),
        },
{
    let now = match now {
        Some(t) => t,
        None => return Err(throw_internal_server_error()),
    };
    let expiration = now + LOGIN_TOKEN_LIFETIME;
    Ok(LoginClaims { sub: uuid_text(userid), exp: expiration, iat: now, username, email })
}


/// What a login is waiting for.
pub enum LoginState {
    /// The account with the request's e-mail address.
    FindingUser { credentials: LoginCredentials },
    ReadingPepper { pending: PendingLogin },
    /// The time in seconds since the Unix epoch.
    ReadingClock { userid: u128, username: String, email: String },
    ReadingKey { claims: LoginClaims },
    /// The signed token.
    Signing,
    /// The answer has been given.
    Finished,
}

impl LoginState {
    pub open spec fn wf(&self) -> bool {
        match *self {
            LoginState::ReadingPepper { pending } => pending.wf(),
            _ => true,
        }
    }
}

/// The outcome of the last action.
pub enum LoginEvent {
    User(UserLookup),
    /// The setting's value, `None` when it is not set.
    Setting(Option<String>),
    /// Whole seconds since the Unix epoch, `None` when the clock reads
    /// earlier than the epoch.
    Clock(Option<usize>),
    /// The signed token, `None` when signing failed.
    Signed(Option<String>),
}

/// What the caller must do next.
pub enum LoginAction {
    /// Look up the account with this e-mail address.
    FindUser { email: String },
    ReadSetting(Setting),
    ReadClock,
    /// Sign the claims with the key (HS256, default header).
    Sign { claims: LoginClaims, key: String },
    Respond(Reply),
}

/// The step ends the login with the generic failure.
pub open spec fn login_fails(n: LoginState, a: LoginAction) -> bool {
    &&& n is Finished
    &&& a matches LoginAction::Respond(r) && is_internal_server_error(r)
}

/// Where a login starts: the account lookup, or `400` when the e-mail
/// address or the password is missing.
pub fn login_start(payload: LoginPayload) -> (r: (LoginState, LoginAction))
    ensures
        match (payload.email, payload.password) {
            (None, _) => r.0 is Finished && (r.1 matches LoginAction::Respond(e) && is_json_message(
                e,
                400,
                "Missing email"@,
            )),
            (Some(_), None) => r.0 is Finished && (r.1 matches LoginAction::Respond(e)
                && is_json_message(e, 400, "Missing password"@)),
            (Some(em), Some(pw)) => (r.0 matches LoginState::FindingUser { credentials }
                && credentials.email@ == em@ && credentials.password@ == pw@) && (
            r.1 matches LoginAction::FindUser { email } && email@ == em@),
        },
{
    match login_credentials(payload) {
        Ok(credentials) => {
            let email = credentials.email.clone();
            (LoginState::FindingUser { credentials }, LoginAction::FindUser { email })
        },
        Err(reply) => (LoginState::Finished, LoginAction::Respond(reply)),
    }
}

/// How a login moves on from `s` on outcome `e`: to state `n`, asking for
/// action `a`. Any outcome other than those listed ends the login with the
/// generic failure.
pub open spec fn login_step(s: LoginState, e: LoginEvent, n: LoginState, a: LoginAction) -> bool {
    match s {
        LoginState::FindingUser { credentials } => match e {
            LoginEvent::User(UserLookup::NotFound) => n is Finished && (a matches LoginAction::Respond(
                r,
            ) && is_json_message(r, 401, invalid_login_text())),
            LoginEvent::User(UserLookup::Failed) => login_fails(n, a),
            LoginEvent::User(UserLookup::Found(u)) => if phc_parses(u.password@) {
                (n matches LoginState::ReadingPepper { pending } && pending.user == u
                    && pending.password@ == credentials.password@) && a
                    == LoginAction::ReadSetting(Setting::Pepper)
            } else {
                login_fails(n, a)
            },
            _ => login_fails(n, a),
        },
        LoginState::ReadingPepper { pending } => match e {
            LoginEvent::Setting(Some(p)) => if !phc_parses(pending.user.password@) {
                login_fails(n, a)
            } else if login_accepts(pending.user.password@, p@, pending.password@) {
                n == (LoginState::ReadingClock {
                    userid: pending.user.userid,
                    username: pending.user.username,
                    email: pending.user.email,
                }) && a is ReadClock
            } else {
                n is Finished && (a matches LoginAction::Respond(r) && is_json_message(
                    r,
                    401,
                    invalid_login_text(),
                ))
            },
            _ => login_fails(n, a),
        },
        LoginState::ReadingClock { userid, username, email } => match e {
            LoginEvent::Clock(Some(t)) => (n matches LoginState::ReadingKey { claims }
                && is_login_token(
                claims,
                uuid_hyphenated(userid),
                t,
                (t + LOGIN_TOKEN_LIFETIME) as usize,
                username@,
                email@,
            )) && a == LoginAction::ReadSetting(Setting::JwtKey),
            _ => login_fails(n, a),
        },
        LoginState::ReadingKey { claims } => match e {
            LoginEvent::Setting(Some(k)) => n is Signing && a == (LoginAction::Sign {
                claims,
                key: k,
            }),
            _ => login_fails(n, a),
        },
        LoginState::Signing => match e {
            LoginEvent::Signed(Some(t)) => n is Finished && (a matches LoginAction::Respond(r)
                && r.status == 200 && r.location is None && r.set_cookie is None && (
            r.body matches ReplyBody::Token { token } && token@ == t@)),
            _ => login_fails(n, a),
        },
        LoginState::Finished => login_fails(n, a),
    }
}

fn login_failure() -> (r: (LoginState, LoginAction))
    ensures
        login_fails(r.0, r.1),
{
    (LoginState::Finished, LoginAction::Respond(throw_internal_server_error()))
}

/// One step of a login: from state `state`, given the outcome `event` of the
/// last action, the next state and the next action.
pub fn login(state: LoginState, event: LoginEvent) -> (r: (LoginState, LoginAction))
    requires
        event matches LoginEvent::Clock(Some(t)) ==> t + LOGIN_TOKEN_LIFETIME <= usize::MAX,
    ensures
        r.0.wf(),
        login_step(state, event, r.0, r.1),
{
    match state {
        LoginState::FindingUser { credentials } => match event {
            LoginEvent::User(lookup) => match login_lookup(credentials, lookup) {
                Ok(pending) => (
                    LoginState::ReadingPepper { pending },
                    LoginAction::ReadSetting(Setting::Pepper),
                ),
                Err(reply) => (LoginState::Finished, LoginAction::Respond(reply)),
            },
            _ => login_failure(),
        },
        LoginState::ReadingPepper { pending } => match event {
            LoginEvent::Setting(Some(p)) => {
                let username = pending.user.username.clone();
                let email = pending.user.email.clone();
                match login_check(pending, Some(p)) {
                    Ok(userid) => (
                        LoginState::ReadingClock { userid, username, email },
                        LoginAction::ReadClock,
                    ),
                    Err(reply) => (LoginState::Finished, LoginAction::Respond(reply)),
                }
            },
            _ => login_failure(),
        },
        LoginState::ReadingClock { userid, username, email } => match event {
            LoginEvent::Clock(Some(t)) => match login_claims(userid, username, email, Some(t)) {
                Ok(claims) => (
                    LoginState::ReadingKey { claims },
                    LoginAction::ReadSetting(Setting::JwtKey),
                ),
                Err(reply) => (LoginState::Finished, LoginAction::Respond(reply)),
            },
            _ => login_failure(),
        },
        LoginState::ReadingKey { claims } => match event {
            LoginEvent::Setting(Some(k)) => (LoginState::Signing, LoginAction::Sign { claims, key: k }),
            _ => login_failure(),
        },
        LoginState::Signing => match event {
            LoginEvent::Signed(Some(t)) => (
                LoginState::Finished,
                LoginAction::Respond(token_reply(Some(t))),
            ),
            _ => login_failure(),
        },
        LoginState::Finished => login_failure(),
    }
}

/// A password stored at registration logs in: with the same pepper and
/// password, the step that checks the password goes on to issue a token.
pub proof fn registered_account_can_log_in(pending: PendingLogin, pepper: String, n: LoginState, a: LoginAction)
    requires
        stores_password(pending.user.password@, pepper@, pending.password@),
        login_step(LoginState::ReadingPepper { pending }, LoginEvent::Setting(Some(pepper)), n, a),
    ensures
        n == (LoginState::ReadingClock {
            userid: pending.user.userid,
            username: pending.user.username,
            email: pending.user.email,
        }),
        a is ReadClock,
{
}

/// An unknown e-mail address and a wrong password get the same answer, so a
/// login does not reveal which addresses have accounts.
pub proof fn login_refusals_look_alike(
    s1: LoginState,
    e1: LoginEvent,
    n1: LoginState,
    r1: Reply,
    s2: LoginState,
    e2: LoginEvent,
    n2: LoginState,
    r2: Reply,
)
    requires
        login_step(s1, e1, n1, LoginAction::Respond(r1)),
        e1 == LoginEvent::User(UserLookup::NotFound),
        s1 is FindingUser,
        login_step(s2, e2, n2, LoginAction::Respond(r2)),
        s2 is ReadingPepper,
        e2 is Setting && r2.status != 500,
    ensures
        is_json_message(r1, 401, invalid_login_text()),
        is_json_message(r2, 401, invalid_login_text()),
{
}

/// A login that finds account `u` and goes on to ask for the signing key
/// has built the token for `u` itself: its subject is the text of the
/// account's full 128-bit id, it carries the account's user name and
/// e-mail address, and it is issued at the clock reading and valid for
/// 7 days.
pub proof fn login_token_speaks_for_the_account(
    credentials: LoginCredentials,
    u: StoredUser,
    pepper: String,
    t: usize,
    n1: LoginState,
    a1: LoginAction,
    n2: LoginState,
    a2: LoginAction,
    n3: LoginState,
    a3: LoginAction,
)
    requires
        login_step(LoginState::FindingUser { credentials }, LoginEvent::User(UserLookup::Found(u)), n1, a1),
        login_step(n1, LoginEvent::Setting(Some(pepper)), n2, a2),
        login_step(n2, LoginEvent::Clock(Some(t)), n3, a3),
        t + LOGIN_TOKEN_LIFETIME <= usize::MAX,
        n3 is ReadingKey,
    ensures
        n3 matches LoginState::ReadingKey { claims } && claims.sub@ == uuid_hyphenated(u.userid)
            && claims.username@ == u.username@ && claims.email@ == u.email@ && claims.iat == t
            && claims.exp == t + LOGIN_TOKEN_LIFETIME,
        login_accepts(u.password@, pepper@, credentials.password@),
{
}

} // verus!
