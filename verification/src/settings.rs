//! The settings the service reads from its environment.
use vstd::prelude::*;

verus! {

/// A setting read from the environment.
#[derive(PartialEq, Eq, Structural)]
pub enum Setting {
    DiscordClientId,
    DiscordSecret,
    RedirectUriDiscord,
    JwtKey,
    CallbackUriDiscord,
    Pepper,
}

/// The environment variable that holds a setting.
pub open spec fn setting_var(s: Setting) -> Seq<char> {
    match s {
        Setting::DiscordClientId => "DISCORD_CLIENT_ID"@,
        Setting::DiscordSecret => "DISCORD_SECRET"@,
        Setting::RedirectUriDiscord => "REDIRECT_URI_DISCORD"@,
        Setting::JwtKey => "JWT_KEY"@,
        Setting::CallbackUriDiscord => "CALLBACK_URI_DISCORD"@,
        Setting::Pepper => "PEPPER"@,
    }
}

/// The name of the environment variable that holds `s`.
pub fn setting_name(s: &Setting) -> (r: &'static str)
    ensures
        r@ == setting_var(*s),
{
    match s {
        Setting::DiscordClientId => "DISCORD_CLIENT_ID",
        Setting::DiscordSecret => "DISCORD_SECRET",
        Setting::RedirectUriDiscord => "REDIRECT_URI_DISCORD",
        Setting::JwtKey => "JWT_KEY",
        Setting::CallbackUriDiscord => "CALLBACK_URI_DISCORD",
        Setting::Pepper => "PEPPER",
    }
}

} // verus!
