//! Account registration, password login, Discord sign-in and request
//! authorisation for the authentication service.
pub mod text;
pub mod patterns;
pub mod types;
pub mod reply;
pub mod password;
pub mod register;
pub mod token;
pub mod login;
pub mod middleware;
pub mod oauth;
pub mod callback;
pub mod settings;
pub mod signin;
