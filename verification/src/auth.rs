//! Passwords: checking a login against the stored hash, and hashing a new
//! password for storage.

use vstd::prelude::*;
use crate::model::User;
use vstd::string::StringSliceAdditionalSpecFns;
use argon2::password_hash::{rand_core::OsRng, PasswordHasher, SaltString};

verus! {

/// Whether `password` matches the PHC-format `hash`: what
/// `password_auth::verify_password` decides (argon2 verification). It
/// depends on its two arguments alone.
pub uninterp spec fn password_verifies(password: Seq<char>, hash: Seq<char>) -> bool;

/// `password_auth::verify_password(password, hash)`, read as a yes or no.
/// Claimed: the answer is the name `password_verifies` of the two texts;
/// nothing more is said of which passwords match which hashes.
#[verifier::external_body]
fn verify_password_text(password: &str, hash: &str) -> (ok: bool)
    ensures
        ok == password_verifies(password@, hash@),
{
    password_auth::verify_password(password, hash).is_ok()
}

/// Keeps the user found for a login name when the password was verified
/// against its hash.
pub fn keep_if_verified(found: Option<User>, verified: bool) -> (r: Option<User>)
    ensures
        r == (if verified {
            found
        } else {
            None
        }),
{
    if verified {
        found
    } else {
        None
    }
}

/// The user that a login with `password` authenticates, among the user
/// found under the login name: that user when the password matches its
/// stored hash, else none.
pub open spec fn authenticated(found: Option<User>, password: Seq<char>) -> Option<User> {
    match found {
        Some(u) => if password_verifies(password, u.password_hash@) {
            Some(u)
        } else {
            None
        },
        None => None,
    }
}

/// Authenticates a login against the user found under its name.
pub fn authenticate(found: Option<User>, password: &str) -> (r: Option<User>)
    ensures
        r == authenticated(found, password@),
{
    match found {
        Some(u) => {
            let ok = verify_password_text(password, u.password_hash.as_str());
            keep_if_verified(Some(u), ok)
        },
        None => None,
    }
}

/// Where a successful login leads: the page asked for, else the library.
pub fn login_target(next: Option<&str>) -> (url: String)
    ensures
        url@ == (match next {
            Some(n) => n@,
            None => "/library"@,
        }),
{
    match next {
        Some(n) => crate::text::owned(n),
        None => crate::text::owned("/library"),
    }
}

/// The error of a failed hashing (`argon2::password_hash::Error`).
#[verifier::external_type_specification]
#[verifier::external_body]
pub struct ExHashError(argon2::password_hash::Error);

/// The longest password argon2 hashes, in bytes (its `MAX_PWD_LEN`).
pub open spec fn max_password_bytes() -> nat {
    0xffff_ffff
}

/// `Argon2::default().hash_password` of the password's bytes with a salt
/// drawn by `SaltString::generate(&mut OsRng)`, written in PHC format.
/// Claimed, as the crate's documentation and source show it: a hash that
/// comes back verifies the same password (`password_verifies`, which
/// reads the parameters from the hash); and hashing succeeds whenever the
/// password has at most `MAX_PWD_LEN` bytes, its only input check (the
/// generated 16-byte salt always passes the salt checks, and the default
/// parameters are valid). The text of the hash is left unsaid: it rests
/// on the random salt.
#[verifier::external_body]
fn argon2_hash_with_fresh_salt(password: &str) -> (r: Result<String, argon2::password_hash::Error>)
    ensures
        r matches Ok(h) ==> password_verifies(password@, h@),
        password.spec_bytes().len() <= max_password_bytes() ==> r is Ok,
{
    let salt = SaltString::generate(&mut OsRng);
    match argon2::Argon2::default().hash_password(password.as_bytes(), &salt) {
        Ok(h) => Ok(h.to_string()),
        Err(e) => Err(e),
    }
}

/// The text of a hashing error (its `Display`). Nothing is claimed of it.
#[verifier::external_body]
fn hash_error_text(e: &argon2::password_hash::Error) -> (s: String) {
    e.to_string()
}

/// The message that starts the error of a failed hashing.
pub open spec fn hash_error_prefix() -> Seq<char> {
    "unable to hash password : "@
}

/// Hashes a password with argon2 and a fresh random salt. The hash, which
/// a login with the same password then verifies, or an error message that
/// starts with `unable to hash password : ` followed by the hasher's own
/// message. Hashing succeeds for every password of at most `MAX_PWD_LEN`
/// bytes.
pub fn hash_password(plain_text_password: &str) -> (r: Result<String, String>)
    ensures
        plain_text_password.spec_bytes().len() <= max_password_bytes() ==> r is Ok,
        r matches Ok(h) ==> password_verifies(plain_text_password@, h@),
        r matches Err(msg) ==> msg@.len() >= hash_error_prefix().len() && msg@.take(
            hash_error_prefix().len() as int,
        ) == hash_error_prefix(),
{
    match argon2_hash_with_fresh_salt(plain_text_password) {
        Ok(h) => Ok(h),
        Err(e) => {
            let mut msg = crate::text::owned("unable to hash password : ");
            let text = hash_error_text(&e);
            let ghost head = msg@;
            msg.append(text.as_str());
            assert(msg@.take(hash_error_prefix().len() as int) =~= head);
            Err(msg)
        },
    }
}

} // verus!
