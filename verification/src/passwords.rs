use vstd::prelude::*;

use argon2::password_hash::rand_core::OsRng;
use argon2::password_hash::{PasswordHash, PasswordHasher, PasswordVerifier, SaltString};
use argon2::Argon2;

verus! {

/// Whether the text parses as a PHC password-hash string
/// (`argon2::password_hash::PasswordHash::new` succeeds on it).
pub uninterp spec fn phc_well_formed(phc: Seq<char>) -> bool;

/// Whether Argon2 with default parameters accepts `password` against the
/// well-formed PHC string `phc` (`Argon2::verify_password` returns `Ok`).
pub uninterp spec fn argon2_accepts(password: Seq<char>, phc: Seq<char>) -> bool;

/// The longest password, in bytes, that Argon2 hashes (`argon2::MAX_PWD_LEN`).
pub open spec fn password_fits(password: Seq<char>) -> bool {
    vstd::utf8::encode_utf8(password).len() <= 0xFFFF_FFFF
}

/// Hashes a password with Argon2 (default parameters) under a fresh random
/// salt from the operating system, giving the PHC string
/// (`SaltString::generate`, `Argon2::hash_password`, `PasswordHash::to_string`).
/// Trusted: the string parses as a PHC string and Argon2 accepts the password
/// against it, as the crate documents for `hash_password` and `verify_password`.
/// The salt, and so the string itself, is left unsaid: it is random.
#[verifier::external_body]
pub fn hash(s: &str) -> (r: String)
    requires
        password_fits(s@),
    ensures
        phc_well_formed(r@),
        argon2_accepts(s@, r@),
{
    let salt = SaltString::generate(&mut OsRng);
    Argon2::default().hash_password(s.as_bytes(), &salt).expect("Error while hashing password").to_string()
}

/// Checks a password against a stored PHC string: parses it
/// (`PasswordHash::new`) and, where it parses, runs
/// `Argon2::default().verify_password`. Trusted: `None` exactly when the
/// string does not parse; otherwise whether Argon2 accepts the password.
#[verifier::external_body]
pub(crate) fn password_matches(password: &str, phc: &str) -> (r: Option<bool>)
    ensures
        r is Some <==> phc_well_formed(phc@),
        r matches Some(b) ==> b == argon2_accepts(password@, phc@),
{
    match PasswordHash::new(phc) {
        Ok(h) => Some(Argon2::default().verify_password(password.as_bytes(), &h).is_ok()),
        Err(_) => None,
    }
}

} // verus!
