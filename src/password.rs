use vstd::prelude::*;
use argon2::password_hash::rand_core::OsRng;
use argon2::password_hash::{PasswordHash, PasswordHasher, PasswordVerifier, SaltString};
use argon2::Argon2;
use crate::error::AppError;

verus! {

/// Whether `hash` is a structurally valid PHC hash string
/// (`$alg$v=..$params$salt$output`), as `PasswordHash::new` decides.
pub uninterp spec fn phc_parses(hash: Seq<char>) -> bool;

/// Whether Argon2, re-running with the algorithm, parameters and salt that
/// `hash` names, reproduces the output that `hash` holds for `password`.
pub uninterp spec fn argon2_accepts(password: Seq<char>, hash: Seq<char>) -> bool;

/// The PHC string that Argon2 with default parameters derives from
/// `password` and the B64-encoded `salt`.
pub uninterp spec fn argon2_phc(password: Seq<char>, salt: Seq<char>) -> Seq<char>;

/// Whether `salt` is a B64 salt that `SaltString::from_b64` accepts and that
/// decodes to a byte length Argon2 takes (8 to 64 bytes).
pub uninterp spec fn argon2_salt_ok(salt: Seq<char>) -> bool;

/// Whether a password is short enough for Argon2, whose limit is
/// `u32::MAX` bytes: at most four bytes per character keeps it below.
pub open spec fn password_len_ok(password: Seq<char>) -> bool {
    password.len() <= 0x3FFF_FFFF
}

/// `hash` is a stored credential that `password` opens.
pub open spec fn hashes_password(password: Seq<char>, hash: Seq<char>) -> bool {
    phc_parses(hash) && argon2_accepts(password, hash)
}

/// What checking `password` against a stored `hash` yields: nothing when the
/// hash is not a valid PHC string, else whether it matches.
pub open spec fn password_verdict(password: Seq<char>, hash: Seq<char>) -> Option<bool> {
    if phc_parses(hash) {
        Some(argon2_accepts(password, hash))
    } else {
        None
    }
}

/// Relies on `SaltString::generate` over the operating system's random source:
/// a fresh salt on every call, always 16 random bytes in B64, which Argon2 takes.
#[verifier::external_body]
pub(crate) fn fresh_salt() -> (r: String)
    ensures
        argon2_salt_ok(r@),
{
    SaltString::generate(&mut OsRng).as_str().to_string()
}

/// Relies on `SaltString::from_b64` and `Argon2::default().hash_password`:
/// the PHC string they produce parses again, and Argon2's verifier, re-running
/// with the parameters and salt it names, accepts the same password. The
/// only failures are a salt out of range and a password over `u32::MAX` bytes.
#[verifier::external_body]
fn argon2_hash(password: &str, salt: &str) -> (r: Option<String>)
    ensures
        argon2_salt_ok(salt@) && password_len_ok(password@) ==> r is Some,
        r matches Some(h) ==> h@ == argon2_phc(password@, salt@),
        r matches Some(h) ==> phc_parses(h@),
        r matches Some(h) ==> argon2_accepts(password@, h@),
{
    let salt = SaltString::from_b64(salt).ok()?;
    Argon2::default().hash_password(password.as_bytes(), &salt).ok().map(|h| h.to_string())
}

/// Relies on `PasswordHash::new`: whether the string is a valid PHC hash.
#[verifier::external_body]
fn phc_check(hash: &str) -> (r: bool)
    ensures
        r == phc_parses(hash@),
{
    PasswordHash::new(hash).is_ok()
}

/// Relies on `PasswordVerifier::verify_password` of `Argon2::default()`, which
/// recomputes the hash and compares the outputs in constant time.
#[verifier::external_body]
fn argon2_verify(password: &str, hash: &str) -> (r: bool)
    requires
        phc_parses(hash@),
    ensures
        r == argon2_accepts(password@, hash@),
{
    match PasswordHash::new(hash) {
        Ok(parsed) => Argon2::default().verify_password(password.as_bytes(), &parsed).is_ok(),
        Err(_) => false,
    }
}

/// Hashes `password` with Argon2 under the given B64 salt. A salt that is not
/// valid B64 of an acceptable length is refused with a hash failure.
pub fn hash_password_with_salt(password: &str, salt: &str) -> (r: Result<String, AppError>)
    ensures
        r is Ok <== argon2_salt_ok(salt@) && password_len_ok(password@),
        r matches Ok(h) ==> h@ == argon2_phc(password@, salt@),
        r matches Ok(h) ==> hashes_password(password@, h@),
        r matches Err(e) ==> e is HashError,
{
    match argon2_hash(password, salt) {
        Some(h) => Ok(h),
        None => Err(AppError::HashError(String::from_str("Failed to hash password"))),
    }
}

/// Hashes `password` with Argon2 under a freshly drawn random salt, giving a
/// self-describing PHC string.
pub fn hash_password(password: &str) -> (r: Result<String, AppError>)
    ensures
        password_len_ok(password@) ==> r is Ok,
        r matches Ok(h) ==> hashes_password(password@, h@),
        r matches Err(e) ==> e is HashError,
{
    let salt = fresh_salt();
    hash_password_with_salt(password, salt.as_str())
}

/// Checks `password` against a stored hash. A hash that is not a valid PHC
/// string is a hash failure; otherwise the answer is whether it matches.
pub fn verify_password(password: &str, hash: &str) -> (r: Result<bool, AppError>)
    ensures
        r is Ok <==> password_verdict(password@, hash@) is Some,
        r matches Ok(b) ==> password_verdict(password@, hash@) == Some(b),
        r matches Err(e) ==> e is HashError,
{
    if !phc_check(hash) {
        return Err(AppError::HashError(String::from_str("Invalid password hash")));
    }
    Ok(argon2_verify(password, hash))
}

/// A password always verifies against a hash made from it.
pub proof fn lemma_hashed_password_verifies(password: Seq<char>, hash: Seq<char>)
    requires
        hashes_password(password, hash),
    ensures
        password_verdict(password, hash) == Some(true),
{
}

/// Two hashes of one password, whatever salts they were drawn with, both
/// verify that password.
pub proof fn lemma_rehash_still_verifies(password: Seq<char>, first: Seq<char>, second: Seq<char>)
    requires
        hashes_password(password, first),
        hashes_password(password, second),
    ensures
        password_verdict(password, first) == Some(true),
        password_verdict(password, second) == Some(true),
{
}

} // verus!
