use vstd::prelude::*;
use argon2::{
    password_hash::{PasswordHash, PasswordHasher, PasswordVerifier, SaltString},
    Argon2,
};

use crate::error::AppError;
use vstd::utf8::{encode_scalar, encode_utf8};
use crate::models::user::User;

verus! {

/// What checking `password` against the stored Argon2 hash text `hash`
/// gives: `None` where the text is not a password hash (PHC string),
/// otherwise whether the password matches it.
pub uninterp spec fn spec_password_verifies(password: Seq<char>, hash: Seq<char>) -> Option<bool>;

/// Checks a password against a stored hash with `argon2`:
/// `PasswordHash::new(hash)`, then `Argon2::default().verify_password(..)`
/// succeeding. Claimed: the result is the one named by
/// `spec_password_verifies`. The wording of the error is left unsaid.
#[verifier::external_body]
pub fn verify_password(password: &str, hash: &str) -> (r: Result<bool, String>)
    ensures
        match r {
            Ok(b) => spec_password_verifies(password@, hash@) == Some(b),
            Err(_) => spec_password_verifies(password@, hash@) is None,
        },
{
    match PasswordHash::new(hash) {
        Ok(parsed) => Ok(Argon2::default().verify_password(password.as_bytes(), &parsed).is_ok()),
        Err(e) => Err(e.to_string()),
    }
}

/// Hashes a password with `argon2` (`Argon2::default().hash_password`) and a
/// fresh random salt (`SaltString::generate` from the operating system's
/// generator), as a PHC string. Claimed: a hash that is made is one the same
/// password verifies against, and hashing succeeds for every password of at
/// most `0xFFFF_FFFF` UTF-8 bytes (Argon2's only refusal under its default
/// parameters and a generated salt). Which salt is drawn is chance.
#[verifier::external_body]
pub fn hash_password(password: &str) -> (r: Result<String, String>)
    ensures
        r matches Ok(h) ==> spec_password_verifies(password@, h@) == Some(true),
        encode_utf8(password@).len() <= 0xFFFF_FFFF ==> r is Ok,
{
    let salt = SaltString::generate(&mut rand::rngs::OsRng);
    match Argon2::default().hash_password(password.as_bytes(), &salt) {
        Ok(h) => Ok(h.to_string()),
        Err(e) => Err(e.to_string()),
    }
}

/// The first login step: only a known user whose stored hash the password
/// verifies against passes. An unknown user or a wrong password is
/// unauthorized; a stored hash that is not a password hash is an internal
/// error.
pub fn check_login(user: Option<User>, password: &str) -> (r: Result<User, AppError>)
    ensures
        match user {
            None => r == Err::<User, AppError>(AppError::Unauthorized),
            Some(u) => match spec_password_verifies(password@, u.password_hash@) {
                Some(true) => r == Ok::<User, AppError>(u),
                Some(false) => r == Err::<User, AppError>(AppError::Unauthorized),
                None => r matches Err(AppError::Internal(_)),
            },
        },
{
    let u = match user {
        Some(u) => u,
        None => return Err(AppError::Unauthorized),
    };
    match verify_password(password, u.password_hash.as_str()) {
        Ok(true) => Ok(u),
        Ok(false) => Err(AppError::Unauthorized),
        Err(msg) => Err(AppError::Internal(msg)),
    }
}

/// The UTF-8 form of a text is at most four bytes per character.
pub proof fn lemma_utf8_len_bound(chars: Seq<char>)
    ensures
        encode_utf8(chars).len() <= 4 * chars.len(),
    decreases chars.len(),
{
    if chars.len() > 0 {
        lemma_utf8_len_bound(chars.drop_first());
        assert(encode_scalar(chars[0] as u32).len() <= 4);
    }
}

/// The stored hash for a new account's password; a failure to hash is an
/// internal error. A hash that is made verifies the password, and every
/// password of at most `0xFFFF_FFFF` UTF-8 bytes (so every one of at most
/// `0x3FFF_FFFF` characters) is hashed.
pub fn new_password_hash(password: &str) -> (r: Result<String, AppError>)
    ensures
        r matches Ok(h) ==> spec_password_verifies(password@, h@) == Some(true),
        r matches Err(e) ==> e is Internal,
        encode_utf8(password@).len() <= 0xFFFF_FFFF ==> r is Ok,
        password@.len() <= 0x3FFF_FFFF ==> r is Ok,
{
    proof {
        lemma_utf8_len_bound(password@);
    }
    match hash_password(password) {
        Ok(h) => Ok(h),
        Err(msg) => Err(AppError::Internal(msg)),
    }
}

} // verus!
