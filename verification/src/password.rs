//! Password storage: passwords are peppered with HMAC-SHA256 and the result
//! is hashed with Argon2.
use vstd::prelude::*;
use vstd::utf8::encode_utf8;
use hmac::Mac;
use argon2::{PasswordHasher, PasswordVerifier};

verus! {

/// `argon2::password_hash::Error`, opaque.
#[verifier::external_type_specification]
#[verifier::external_body]
pub struct ExPasswordHashError(argon2::password_hash::Error);

/// HMAC-SHA256 of `message` under `key`.
pub uninterp spec fn hmac_sha256(key: Seq<u8>, message: Seq<u8>) -> Seq<u8>;

/// Whether `phc` parses as a password hash string in PHC format
/// (`argon2::PasswordHash::new` succeeds on it).
pub uninterp spec fn phc_parses(phc: Seq<char>) -> bool;

/// Whether Argon2 (default instance), recomputing the hash of `password`
/// with the algorithm, version, parameters and salt that `phc` records,
/// obtains the output that `phc` records.
pub uninterp spec fn argon2_accepts(phc: Seq<char>, password: Seq<u8>) -> bool;

/// `Hmac::<Sha256>::new_from_slice(key)`, `update(message)`, `finalize()`:
/// the HMAC-SHA256 tag of `message` under `key`. `new_from_slice` accepts a
/// key of any length (longer keys are hashed first), so the result is never
/// `None`; the tag has SHA-256's output size, 32 bytes.
#[verifier::external_body]
fn hmac_sha256_tag(key: &[u8], message: &[u8]) -> (r: Option<Vec<u8>>)
    ensures
        r is Some,
        r matches Some(t) ==> t@.len() == 32,
        r matches Some(t) ==> t@ == hmac_sha256(key@, message@),
{
    match hmac::Hmac::<sha2::Sha256>::new_from_slice(key) {
        Ok(mut mac) => {
            mac.update(message);
            Some(mac.finalize().into_bytes().to_vec())
        },
        Err(_) => None,
    }
}

/// `argon2::PasswordHash::new(phc).is_ok()`.
#[verifier::external_body]
pub(crate) fn phc_is_valid(phc: &str) -> (r: bool)
    ensures
        r == phc_parses(phc@),
{
    argon2::PasswordHash::new(phc).is_ok()
}

/// `Argon2::default().verify_password(password, &PasswordHash::new(phc)?)`,
/// reporting whether it succeeded.
#[verifier::external_body]
fn argon2_verify(password: &[u8], phc: &str) -> (r: bool)
    requires
        phc_parses(phc@),
    ensures
        r == argon2_accepts(phc@, password@),
{
    match argon2::PasswordHash::new(phc) {
        Ok(hash) => argon2::Argon2::default().verify_password(password, &hash).is_ok(),
        Err(_) => false,
    }
}

/// `Argon2::default().hash_password(password, &SaltString::generate(&mut OsRng))`
/// rendered as a PHC string. The salt is random, so only this is said of the
/// result: it parses, and `verify_password` accepts `password` against it,
/// since verification recomputes the hash from the salt and parameters the
/// string records. With the default parameters (32-byte output) and a
/// generated 16-byte salt, the only input check that can fail is the
/// password's length, which may be at most `0xFFFF_FFFF` bytes.
#[verifier::external_body]
fn argon2_hash_with_fresh_salt(password: &[u8]) -> (r: Result<String, argon2::password_hash::Error>)
    ensures
        password@.len() <= 0xFFFF_FFFF ==> r is Ok,
        r matches Ok(h) ==> phc_parses(h@) && argon2_accepts(h@, password@),
{
    let salt = argon2::password_hash::SaltString::generate(&mut argon2::password_hash::rand_core::OsRng);
    match argon2::Argon2::default().hash_password(password, &salt) {
        Ok(hash) => Ok(hash.to_string()),
        Err(e) => Err(e),
    }
}

/// The peppered form of a password: HMAC-SHA256 of the password's UTF-8
/// bytes under the pepper's UTF-8 bytes.
pub open spec fn peppered(pepper: Seq<char>, password: Seq<char>) -> Seq<u8> {
    hmac_sha256(encode_utf8(pepper), encode_utf8(password))
}

/// `phc` is a stored hash of `password` under `pepper`.
pub open spec fn stores_password(phc: Seq<char>, pepper: Seq<char>, password: Seq<char>) -> bool {
    phc_parses(phc) && argon2_accepts(phc, peppered(pepper, password))
}

/// Login accepts `password` against the stored hash `phc` under `pepper`.
pub open spec fn login_accepts(phc: Seq<char>, pepper: Seq<char>, password: Seq<char>) -> bool {
    argon2_accepts(phc, peppered(pepper, password))
}

/// The peppered form of `password`: a 32-byte HMAC-SHA256 tag.
pub fn pepper_password(pepper: &str, password: &str) -> (r: Option<Vec<u8>>)
    ensures
        r matches Some(t) && t@ == peppered(pepper@, password@) && t@.len() == 32,
{
    hmac_sha256_tag(pepper.as_bytes(), password.as_bytes())
}

/// Hashes `password` peppered with `pepper` under a fresh random salt: a
/// hash that stores the password. The peppered password is 32 bytes, so
/// hashing it always succeeds.
pub fn hash_password(pepper: &str, password: &str) -> (r: Option<String>)
    ensures
        r matches Some(h) && stores_password(h@, pepper@, password@),
{
    let tag = match pepper_password(pepper, password) {
        Some(t) => t,
        None => return None,
    };
    match argon2_hash_with_fresh_salt(tag.as_slice()) {
        Ok(h) => Some(h),
        Err(_) => None,
    }
}

/// Whether `password` peppered with `pepper` matches the stored hash `phc`.
pub fn check_password(phc: &str, pepper: &str, password: &str) -> (r: Option<bool>)
    requires
        phc_parses(phc@),
    ensures
        r matches Some(b) && b == login_accepts(phc@, pepper@, password@),
{
    let tag = match pepper_password(pepper, password) {
        Some(t) => t,
        None => return None,
    };
    Some(argon2_verify(tag.as_slice(), phc))
}

/// A hash stored at registration lets login succeed with the same pepper and
/// password.
pub proof fn registered_password_is_accepted(phc: Seq<char>, pepper: Seq<char>, password: Seq<char>)
    requires
        stores_password(phc, pepper, password),
    ensures
        phc_parses(phc),
        login_accepts(phc, pepper, password),
{
}

} // verus!
