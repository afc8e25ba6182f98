//! The end of Discord sign-in: Discord redirects back with a code and the
//! state token; the service checks the token, exchanges the code, checks the
//! Discord account, records the account and a session, and hands the caller
//! a session token in a cookie.
use vstd::prelude::*;
use crate::patterns::{pattern_is_match, regex_matches, Patterns, USERNAME_PATTERN};
use crate::reply::{is_json_text_message, json_text_message, Reply, ReplyBody};
use crate::text::{uuid_hyphenated, uuid_text};
use crate::token::{auth_claims, is_auth_token};
use crate::types::{DiscordAccessTokenResponse, DiscordUser, Provider, Timestamp, Token};

verus! {

/// The client credentials the code exchange uses.
pub struct DiscordClient {
    pub client_id: String,
    pub client_secret: String,
}

/// The outcome of looking up the creation time of the presented state token.
pub enum StateLookup {
    Found(Timestamp),
    NotFound,
    Failed,
}

/// Integer division rounding toward zero (Rust's `/`), for `b > 0`.
pub open spec fn trunc_div(a: int, b: int) -> int {
    if a >= 0 {
        a / b
    } else {
        -((-a) / b)
    }
}

/// The time from `from` to `to` in nanoseconds.
pub open spec fn elapsed_nanos(from: Timestamp, to: Timestamp) -> int {
    (to.seconds - from.seconds) * 1_000_000_000 + (to.nanos - from.nanos)
}

/// The time from `from` to `to` in whole minutes, as chrono's
/// `to.signed_duration_since(from).num_minutes()` counts it: whole seconds
/// rounded toward zero, then whole minutes rounded toward zero.
pub open spec fn elapsed_minutes(from: Timestamp, to: Timestamp) -> int {
    trunc_div(trunc_div(elapsed_nanos(from, to), 1_000_000_000), 60)
}

/// How many minutes a state token stays usable.
pub const STATE_TOKEN_MAX_AGE_MINUTES: i128 = 15;

/// A state token created at `created_at` is still usable at `now`.
pub open spec fn state_token_fresh(created_at: Timestamp, now: Timestamp) -> bool {
    elapsed_minutes(created_at, now) <= STATE_TOKEN_MAX_AGE_MINUTES
}

/// A state token is usable for less than 16 minutes after it was created,
/// and not from then on; a token is usable at any time before its creation.
pub proof fn state_token_age_limit(created_at: Timestamp, now: Timestamp)
    ensures
        state_token_fresh(created_at, now) <==> elapsed_nanos(created_at, now) < 960_000_000_000,
        elapsed_nanos(created_at, now) <= 0 ==> state_token_fresh(created_at, now),
{
    let e = elapsed_nanos(created_at, now);
    if e >= 0 {
        let s = e / 1_000_000_000;
        assert(s >= 0);
        assert(trunc_div(e, 1_000_000_000) == s);
        assert(trunc_div(s, 60) == s / 60);
        assert(s / 60 <= 15 <==> s < 960);
        assert(s < 960 <==> e < 960_000_000_000) by (nonlinear_arith)
            requires
                e >= 0,
                s == e / 1_000_000_000,
        ;
    } else {
        let s = (-e) / 1_000_000_000;
        assert(s >= 0);
        assert(trunc_div(e, 1_000_000_000) == -s);
        assert(trunc_div(-s, 60) <= 0);
    }
}

fn trunc_div_i128(a: i128, b: i128) -> (q: i128)
    requires
        b > 0,
        a > i128::MIN,
    ensures
        q == trunc_div(a as int, b as int),
{
    if a >= 0 {
        a / b
    } else {
        -((-a) / b)
    }
}

/// `to.signed_duration_since(from).num_minutes()`.
pub fn minutes_between(from: Timestamp, to: Timestamp) -> (r: i128)
    ensures
        r == elapsed_minutes(from, to),
{
    let nanos: i128 = (to.seconds as i128 - from.seconds as i128) * 1_000_000_000 + (
    to.nanos as i128 - from.nanos as i128);
    let seconds = trunc_div_i128(nanos, 1_000_000_000);
    trunc_div_i128(seconds, 60)
}

/// A state token that was found and is still fresh.
pub struct ValidState {
    created_at: Timestamp,
    checked_at: Timestamp,
}

/// The earliest time chrono's `DateTime<Utc>` holds (the start of year
/// -262143), in seconds since the Unix epoch.
pub const EARLIEST_SECONDS: i64 = -8334601228800;

/// The latest whole second chrono's `DateTime<Utc>` holds (the last second
/// of year 262142), in seconds since the Unix epoch.
pub const LATEST_SECONDS: i64 = 8210266876799;

/// `t` is a time chrono can represent: every clock reading is one, and
/// adding a duration that leaves this range panics.
pub open spec fn in_date_range(t: Timestamp) -> bool {
    EARLIEST_SECONDS <= t.seconds <= LATEST_SECONDS
}

impl ValidState {
    pub closed spec fn created(&self) -> Timestamp {
        self.created_at
    }

    pub closed spec fn checked(&self) -> Timestamp {
        self.checked_at
    }

    /// A valid state token was fresh when it was checked, and it was
    /// checked at a time chrono represents.
    pub closed spec fn wf(&self) -> bool {
        &&& state_token_fresh(self.created_at, self.checked_at)
        &&& in_date_range(self.checked_at)
    }

    /// A valid state token was fresh when it was checked.
    pub proof fn was_fresh(&self)
        requires
            self.wf(),
        ensures
            state_token_fresh(self.created(), self.checked()),
    {
    }

    /// When the state token was checked.
    pub fn checked_at(&self) -> (r: Timestamp)
        ensures
            r == self.checked(),
    {
        self.checked_at
    }
}

/// Checks at `now` a state token created at `created_at`: `None` when it is
/// more than 15 minutes old.
pub fn check_state_freshness(created_at: Timestamp, now: Timestamp) -> (r: Option<ValidState>)
    requires
        in_date_range(now),
    ensures
        state_token_fresh(created_at, now) ==> (r matches Some(v) && v.wf() && v.created()
            == created_at && v.checked() == now),
        !state_token_fresh(created_at, now) ==> r is None,
{
    if minutes_between(created_at, now) > STATE_TOKEN_MAX_AGE_MINUTES {
        None
    } else {
        Some(ValidState { created_at, checked_at: now })
    }
}

/// The form posted to Discord's token endpoint.
pub open spec fn is_exchange_form(form: Seq<(String, String)>, code: Seq<char>, redirect_uri: Seq<char>) -> bool {
    &&& form.len() == 3
    &&& form[0].0@ == "grant_type"@ && form[0].1@ == "authorization_code"@
    &&& form[1].0@ == "code"@ && form[1].1@ == code
    &&& form[2].0@ == "redirect_uri"@ && form[2].1@ == redirect_uri
}

/// The form that exchanges `code` for an access token.
pub fn token_exchange_form(code: &str, redirect_uri: &str) -> (r: Vec<(String, String)>)
    ensures
        is_exchange_form(r@, code@, redirect_uri@),
{
    let mut form: Vec<(String, String)> = Vec::new();
    form.push(("grant_type".to_owned(), "authorization_code".to_owned()));
    form.push(("code".to_owned(), code.to_owned()));
    form.push(("redirect_uri".to_owned(), redirect_uri.to_owned()));
    form
}

pub open spec fn unverified_account_text() -> Seq<char> {
    "Your Discord account doesn't have an email or isn't verified."@
}

/// Why a Discord account cannot sign in: it has no verified e-mail address,
/// or its user name does not match the user-name pattern; `None` when it can.
pub open spec fn discord_user_problem(u: DiscordUser) -> Option<Seq<char>> {
    if !u.verified || u.email is None {
        Some(unverified_account_text())
    } else if !regex_matches(USERNAME_PATTERN@, u.username@) {
        Some("Invalid username"@)
    } else {
        None
    }
}

/// The picture of a Discord account: its Discord avatar, or a generated one
/// seeded with the account id when it has none.
pub open spec fn avatar_url(id: Seq<char>, avatar: Option<String>) -> Seq<char> {
    match avatar {
        None => "https://api.dicebear.com/7.x/thumbs/svg?seed="@ + id,
        Some(a) => "https://cdn.discordapp.com/avatars/"@ + id + "/"@ + a@ + ".png"@,
    }
}

/// A Discord account that passed the checks.
pub struct DiscordProfile {
    id: String,
    email: String,
    username: String,
    display_name: String,
    avatar_url: String,
}

impl DiscordProfile {
    pub closed spec fn id_view(&self) -> Seq<char> {
        self.id@
    }

    pub closed spec fn email_view(&self) -> Seq<char> {
        self.email@
    }

    pub closed spec fn username_view(&self) -> Seq<char> {
        self.username@
    }

    pub closed spec fn display_name_view(&self) -> Seq<char> {
        self.display_name@
    }

    pub closed spec fn avatar_view(&self) -> Seq<char> {
        self.avatar_url@
    }

    /// The account's e-mail address.
    pub fn email(&self) -> (r: &String)
        ensures
            r@ == self.email_view(),
    {
        &self.email
    }

    /// The profile of the account `u`.
    pub open spec fn describes(&self, u: DiscordUser) -> bool {
        &&& u.email matches Some(e) && self.email_view() == e@
        &&& self.id_view() == u.id@
        &&& self.username_view() == u.username@
        &&& self.display_name_view() == match u.global_name {
            Some(g) => g@,
            None => u.username@,
        }
        &&& self.avatar_view() == avatar_url(u.id@, u.avatar)
    }
}

/// Checks the Discord account: it must have a verified e-mail address and a
/// user name matching the user-name pattern; refusals answer `400` with the
/// status written as text. The display name falls back to the user name.
pub fn check_discord_user(patterns: &Patterns, user: DiscordUser) -> (r: Result<DiscordProfile, Reply>)
    requires
        patterns.wf(),
    ensures
        match discord_user_problem(user) {
            Some(m) => r matches Err(e) && is_json_text_message(e, 400, m),
            None => r matches Ok(p) && p.describes(user),
        },
{
    let ghost u = user;
    if !user.verified || user.email.is_none() {
        return Err(
            json_text_message(
                400,
                "Your Discord account doesn't have an email or isn't verified.".to_owned(),
            ),
        );
    }
    let email = match user.email {
        Some(e) => e,
        None => {
            return Err(
                json_text_message(
                    400,
                    "Your Discord account doesn't have an email or isn't verified.".to_owned(),
                ),
            )
        },
    };
    let display_name = match user.global_name {
        Some(g) => g,
        None => user.username.clone(),
    };
    if !pattern_is_match(&patterns.username, user.username.as_str()) {
        return Err(json_text_message(400, "Invalid username".to_owned()));
    }
    let mut avatar = String::new();
    match &user.avatar {
        None => {
            avatar.append("https://api.dicebear.com/7.x/thumbs/svg?seed=");
            avatar.append(user.id.as_str());
        },
        Some(a) => {
            avatar.append("https://cdn.discordapp.com/avatars/");
            avatar.append(user.id.as_str());
            avatar.append("/");
            avatar.append(a.as_str());
            avatar.append(".png");
        },
    }
    Ok(
        DiscordProfile {
            id: user.id,
            email,
            username: user.username,
            display_name,
            avatar_url: avatar,
        },
    )
}


/// `t` moved `seconds` later.
pub open spec fn later(t: Timestamp, seconds: int) -> Timestamp {
    Timestamp { seconds: (t.seconds + seconds) as i64, nanos: t.nanos }
}

/// When the Discord access token expires: `expires_in` seconds after `now`,
/// or never when Discord gives no lifetime. A lifetime chrono's
/// `TimeDelta::seconds` rejects (beyond `i64::MAX / 1000` either way) is
/// left out, as is one that takes the time out of chrono's range (where
/// `DateTime + TimeDelta` panics).
pub fn access_token_expiry(now: Timestamp, expires_in: Option<i64>) -> (r: Option<Timestamp>)
    requires
        expires_in matches Some(d) ==> -(i64::MAX / 1000) <= d <= i64::MAX / 1000
            && EARLIEST_SECONDS <= now.seconds + d <= LATEST_SECONDS,
    ensures
        match expires_in {
            Some(d) => r == Some(later(now, d as int)),
            None => r is None,
        },
{
    match expires_in {
        Some(d) => Some(Timestamp { seconds: now.seconds + d, nanos: now.nanos }),
        None => None,
    }
}

/// The outcome of looking up an existing account by the Discord e-mail address.
pub enum AccountLookup {
    Found(u128),
    NotFound,
    Failed,
}

/// The row recording a Discord account (kept when the account already exists).
pub struct DiscordAccountRow {
    pub userid: u128,
    pub email: String,
    pub username: String,
    pub display_name: Option<String>,
    pub pfp_url: Option<String>,
    pub created_at: Timestamp,
}

/// `r` records the checked Discord account `profile` with id `userid`,
/// created when the state token was checked.
pub open spec fn is_account_row(r: DiscordAccountRow, userid: u128, profile: DiscordProfile, state: ValidState) -> bool {
    &&& r.userid == userid
    &&& r.email@ == profile.email_view()
    &&& r.username@ == profile.username_view()
    &&& r.display_name matches Some(d) && d@ == profile.display_name_view()
    &&& r.pfp_url matches Some(a) && a@ == profile.avatar_view()
    &&& r.created_at == state.checked()
}

/// The account row for the checked Discord account with id `userid`,
/// created when the state token was checked.
pub fn discord_account_row(userid: u128, profile: &DiscordProfile, state: &ValidState) -> (r:
    DiscordAccountRow)
    ensures
        is_account_row(r, userid, *profile, *state),
{
    DiscordAccountRow {
        userid,
        email: profile.email.clone(),
        username: profile.username.clone(),
        display_name: Some(profile.display_name.clone()),
        pfp_url: Some(profile.avatar_url.clone()),
        created_at: state.checked_at,
    }
}

/// How long a session lasts: 44640 minutes (31 days), in seconds.
pub const SESSION_LIFETIME_SECONDS: i64 = 2678400;

/// The row recording a new session.
pub struct SessionRow {
    pub session_id: u128,
    pub issued_at: Timestamp,
    pub expires_at: Timestamp,
    pub provider: Provider,
    pub provider_id: String,
    pub access_token: String,
    pub refresh_token: String,
    pub token_expires_at: Option<Timestamp>,
    pub user_id: u128,
}

/// `r` records session `session_id` of account `userid`: issued when the
/// state token was checked, expiring 31 days after `clock`, with the Discord
/// account id and tokens.
pub open spec fn is_session_row(
    r: SessionRow,
    session_id: u128,
    state: ValidState,
    clock: Timestamp,
    profile: DiscordProfile,
    tokens: DiscordAccessTokenResponse,
    token_expires_at: Option<Timestamp>,
    userid: u128,
) -> bool {
    &&& r.session_id == session_id
    &&& r.issued_at == state.checked()
    &&& r.expires_at == later(clock, SESSION_LIFETIME_SECONDS as int)
    &&& r.provider == Provider::Discord
    &&& r.provider_id@ == profile.id_view()
    &&& r.access_token@ == tokens.access_token@
    &&& r.refresh_token@ == tokens.refresh_token@
    &&& r.token_expires_at == token_expires_at
    &&& r.user_id == userid
}

/// The session row for account `userid`: issued when the state token was
/// checked, expiring 31 days after `clock`, with the Discord account id and
/// tokens.
pub fn session_row(
    session_id: u128,
    state: &ValidState,
    clock: Timestamp,
    profile: &DiscordProfile,
    tokens: DiscordAccessTokenResponse,
    token_expires_at: Option<Timestamp>,
    userid: u128,
) -> (r: SessionRow)
    requires
        clock.seconds + SESSION_LIFETIME_SECONDS <= LATEST_SECONDS,
    ensures
        is_session_row(r, session_id, *state, clock, *profile, tokens, token_expires_at, userid),
{
    SessionRow {
        session_id,
        issued_at: state.checked_at,
        expires_at: Timestamp { seconds: clock.seconds + SESSION_LIFETIME_SECONDS, nanos: clock.nanos },
        provider: Provider::Discord,
        provider_id: profile.id.clone(),
        access_token: tokens.access_token,
        refresh_token: tokens.refresh_token,
        token_expires_at,
        user_id: userid,
    }
}

/// The claims of the session token: it speaks for the session, issued when
/// the state token was checked and valid for 31 days, times in whole seconds
/// since the Unix epoch converted with `as usize`.
pub fn session_claims(session_id: u128, state: &ValidState) -> (r: Token)
    requires
        state.wf(),
    ensures
        is_auth_token(
            r,
            uuid_hyphenated(session_id),
            state.checked().seconds as usize,
            (state.checked().seconds + SESSION_LIFETIME_SECONDS) as usize,
        ),
{
    let now = state.checked_at.seconds;
    let expiration = now + SESSION_LIFETIME_SECONDS;
    auth_claims(uuid_text(session_id), now as usize, expiration as usize)
}

/// The `Set-Cookie` value carrying a session token.
pub open spec fn session_cookie(token: Seq<char>) -> Seq<char> {
    "auth_token="@ + token + "; HttpOnly; Secure; SameSite=Strict; Path=/; Max-Age=604800"@
}

/// `r` completes sign-in: `302 Found` to `location`, setting the session
/// cookie for `token`, with an empty body.
pub open spec fn is_sign_in(r: Reply, token: Seq<char>, location: Seq<char>) -> bool {
    &&& r.status == 302
    &&& r.set_cookie matches Some(c) && c@ == session_cookie(token)
    &&& r.location matches Some(l) && l@ == location
    &&& r.body matches ReplyBody::Text(t) && t@.len() == 0
}

/// The answer that completes sign-in with the signed session token.
pub fn sign_in_reply(token: &str, location: String) -> (r: Reply)
    ensures
        is_sign_in(r, token@, location@),
{
    let mut cookie = "auth_token=".to_owned();
    cookie.append(token);
    cookie.append("; HttpOnly; Secure; SameSite=Strict; Path=/; Max-Age=604800");
    Reply {
        status: 302,
        body: ReplyBody::Text(String::new()),
        location: Some(location),
        set_cookie: Some(cookie),
    }
}

/// A verified Discord account with an e-mail address is accepted exactly
/// when its user name matches the user-name pattern, and refused with
/// `Invalid username` otherwise: the global name plays no part in the check.
pub proof fn discord_check_reads_the_user_name(u: DiscordUser)
    requires
        u.verified,
        u.email is Some,
    ensures
        discord_user_problem(u) is None <==> regex_matches(USERNAME_PATTERN@, u.username@),
        !regex_matches(USERNAME_PATTERN@, u.username@) ==> discord_user_problem(u) == Some(
            "Invalid username"@,
        ),
{
}

/// Two Discord accounts that differ only in their global names (and
/// avatars) get the same verdict.
pub proof fn discord_check_ignores_the_global_name(u1: DiscordUser, u2: DiscordUser)
    requires
        u1.verified == u2.verified,
        u1.email == u2.email,
        u1.username == u2.username,
    ensures
        discord_user_problem(u1) == discord_user_problem(u2),
{
}

} // verus!
