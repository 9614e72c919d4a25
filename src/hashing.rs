use vstd::prelude::*;

use argon2::password_hash::rand_core::{OsRng, RngCore};
use argon2::password_hash::{PasswordHash, Salt, SaltString};
use argon2::{Argon2, PasswordHasher, PasswordVerifier};

verus! {

#[verifier::external_type_specification]
#[verifier::external_body]
pub struct ExSaltString(SaltString);

/// Whether `encoded` parses as a PHC string (`$argon2id$v=19$...`).
pub uninterp spec fn phc_parses(encoded: Seq<char>) -> bool;

/// Whether Argon2, with the parameters and salt that `encoded` names, hashes
/// `password` to the digest that `encoded` holds.
pub uninterp spec fn argon2_accepts(password: Seq<char>, encoded: Seq<char>) -> bool;

/// Relies on rand_core's OsRng::try_fill_bytes, which reports a failure of the
/// operating system's random source instead of panicking, and on
/// password_hash::SaltString::encode_b64: a fresh salt of the recommended length,
/// of which nothing is known in advance, or the text of the failure.
#[verifier::external_body]
fn generate_salt() -> (r: Result<SaltString, String>) {
    let mut bytes = [0u8; Salt::RECOMMENDED_LENGTH];
    match OsRng.try_fill_bytes(&mut bytes) {
        Ok(()) => match SaltString::encode_b64(&bytes) {
            Ok(salt) => Ok(salt),
            Err(e) => Err(e.to_string()),
        },
        Err(e) => Err(e.to_string()),
    }
}

/// Relies on argon2's PasswordHasher::hash_password with the default Argon2
/// parameters, and on the PHC string that the hash displays as: the string
/// parses again, and names the parameters and salt under which the same
/// password verifies.
#[verifier::external_body]
fn hash_with_salt(password: &str, salt: &SaltString) -> (r: Result<String, String>)
    ensures
        r matches Ok(h) ==> phc_parses(h@) && argon2_accepts(password@, h@),
{
    match Argon2::default().hash_password(password.as_bytes(), salt) {
        Ok(h) => Ok(h.to_string()),
        Err(e) => Err(e.to_string()),
    }
}

/// Relies on password_hash::PasswordHash::new: whether the string is in PHC
/// format; the error's text on failure.
#[verifier::external_body]
fn parse_phc(encoded: &str) -> (r: Result<(), String>)
    ensures
        r is Ok <==> phc_parses(encoded@),
{
    match PasswordHash::new(encoded) {
        Ok(_) => Ok(()),
        Err(e) => Err(e.to_string()),
    }
}

/// Relies on argon2's PasswordVerifier::verify_password, on the hash that
/// `encoded` parses to: `Ok` exactly when the password hashes to its digest.
#[verifier::external_body]
fn verify_phc(password: &str, encoded: &str) -> (r: Result<(), String>)
    requires
        phc_parses(encoded@),
    ensures
        r is Ok <==> argon2_accepts(password@, encoded@),
{
    match PasswordHash::new(encoded) {
        Ok(h) => match Argon2::default().verify_password(password.as_bytes(), &h) {
            Ok(()) => Ok(()),
            Err(e) => Err(e.to_string()),
        },
        Err(e) => Err(e.to_string()),
    }
}

/// Hashes `password` under a fresh random salt into a PHC string; `Err` holds the
/// text of a failure of the random source or of the hasher. Whatever the salt, a
/// hash that comes back parses, and `password` verifies against it.
pub fn hash_password(password: &str) -> (r: Result<String, String>)
    ensures
        r matches Ok(h) ==> phc_parses(h@) && argon2_accepts(password@, h@),
{
    match generate_salt() {
        Ok(salt) => hash_with_salt(password, &salt),
        Err(diagnostic) => Err(diagnostic),
    }
}

/// How checking a password against a stored hash string came out.
pub enum PasswordCheck {
    /// The password verifies against the stored hash.
    Accepted,
    /// The stored hash parses but the password does not verify against it.
    Rejected(String),
    /// The stored hash is not a PHC string.
    Malformed(String),
}

/// How a check of `password` against `encoded` comes out.
pub open spec fn check_outcome(password: Seq<char>, encoded: Seq<char>, r: PasswordCheck) -> bool {
    &&& r is Malformed <==> !phc_parses(encoded)
    &&& r is Accepted <==> phc_parses(encoded) && argon2_accepts(password, encoded)
    &&& r is Rejected <==> phc_parses(encoded) && !argon2_accepts(password, encoded)
}

/// A password checks out against every hash that hashing it has returned.
pub proof fn lemma_hash_then_check(password: Seq<char>, hash: Seq<char>, check: PasswordCheck)
    requires
        phc_parses(hash) && argon2_accepts(password, hash),
        check_outcome(password, hash, check),
    ensures
        check is Accepted,
{
}

/// Checks `password` against the stored PHC string `encoded`: a hash that does
/// not parse is told apart from a password that does not verify.
pub fn check_password(password: &str, encoded: &str) -> (r: PasswordCheck)
    ensures
        check_outcome(password@, encoded@, r),
{
    match parse_phc(encoded) {
        Err(diagnostic) => PasswordCheck::Malformed(diagnostic),
        Ok(()) => match verify_phc(password, encoded) {
            Ok(()) => PasswordCheck::Accepted,
            Err(diagnostic) => PasswordCheck::Rejected(diagnostic),
        },
    }
}

} // verus!
