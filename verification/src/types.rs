//! The data the service reads and writes.
use vstd::prelude::*;

verus! {

/// Where an account's identity comes from.
#[derive(Clone, Copy, Debug, PartialEq, Eq, Structural)]
pub enum Provider {
    Discord,
    Google,
    Microsoft,
    /// An account created with an e-mail address and a password.
    Credentials,
}

/// A moment in UTC: whole seconds since the Unix epoch and the nanoseconds
/// past that second.
#[derive(Clone, Copy, Debug, PartialEq, Eq, Structural)]
pub struct Timestamp {
    pub seconds: i64,
    pub nanos: u32,
}

impl Timestamp {
    pub open spec fn wf(&self) -> bool {
        self.nanos < 1_000_000_000
    }
}

/// The claims of a session token.
#[derive(Clone, Debug)]
pub struct Token {
    /// The session the token speaks for, as UUID text.
    pub sub: String,
    /// Expiry, in seconds since the Unix epoch.
    pub exp: usize,
    /// Issue time, in seconds since the Unix epoch.
    pub iat: usize,
    pub toktype: String,
}

/// The claims of the token a password login issues: the account it speaks
/// for, with the account's user name and e-mail address.
#[derive(Clone, Debug)]
pub struct LoginClaims {
    /// The account id, as UUID text.
    pub sub: String,
    /// Expiry, in seconds since the Unix epoch.
    pub exp: usize,
    /// Issue time, in seconds since the Unix epoch.
    pub iat: usize,
    pub username: String,
    pub email: String,
}

/// A refusal of the authorisation check.
pub struct AuthError {
    pub message: String,
    pub status_code: u16,
}

/// An account as the `users` table holds it.
pub struct User {
    pub userid: u128,
    pub email: String,
    pub provider: Provider,
    pub access_token: String,
    pub refresh_token: String,
    pub provider_name: Option<String>,
    pub username: String,
    pub display_name: Option<String>,
    pub pfp_url: Option<String>,
    pub created_at: Timestamp,
    pub token_expires_at: Option<Timestamp>,
}

/// The query string Discord redirects back with.
pub struct DiscordCallbackQuery {
    pub code: String,
    /// The state token, as the 128-bit value of its UUID.
    pub state: u128,
}

/// Discord's answer to the authorisation-code exchange.
pub struct DiscordAccessTokenResponse {
    pub access_token: String,
    pub token_type: String,
    pub expires_in: Option<i64>,
    pub refresh_token: String,
    pub scope: String,
}

/// The Discord account, as `/users/@me` describes it.
pub struct DiscordUser {
    pub id: String,
    pub username: String,
    pub global_name: Option<String>,
    pub email: Option<String>,
    pub avatar: Option<String>,
    pub verified: bool,
}

/// The body of a registration request.
pub struct RegisterPayload {
    pub email: String,
    pub password: String,
    pub username: String,
    pub display_name: Option<String>,
}

} // verus!
