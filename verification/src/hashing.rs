//! Credential hasher: one-way password hashing and verification.
//!
//! Hashing derives a memory-hard digest of the password under a fresh
//! random salt and returns a self-describing encoded string (algorithm
//! parameters, salt and digest).  Verification recomputes the digest from
//! the parameters embedded in the encoded string and compares.

use argon2::password_hash::rand_core::OsRng;
use argon2::password_hash::SaltString;
use argon2::PasswordHasher;
use argon2::PasswordVerifier;
use vstd::prelude::*;

verus! {

/// Why a credential operation failed.
#[derive(Clone, Copy, Debug, PartialEq, Eq, Structural)]
pub enum HashError {
    /// The underlying entropy or allocation source failed while hashing;
    /// fatal and unexpected, not a property of the input.
    HashingFailure,
    /// The password does not match the encoded hash (or the encoded hash
    /// is not parsable; the two are deliberately not told apart).
    Mismatch,
}

/// Whether verification accepts `password` against the encoded hash
/// `hashed`.  Verification recomputes the digest from the parameters and
/// salt embedded in `hashed`, so acceptance is a function of these two
/// strings alone; an unparsable `hashed` accepts nothing.
pub uninterp spec fn pw_verifies(password: Seq<char>, hashed: Seq<char>) -> bool;

/// Relies on argon2's `PasswordHasher::hash_password` with a fresh random
/// salt: whatever salt is drawn, the returned encoded string is one that
/// `PasswordVerifier::verify_password` accepts for the same password.
#[verifier::external_body]
fn argon2_hash(password: &str) -> (r: Result<String, HashError>)
    ensures
        r matches Ok(h) ==> pw_verifies(password@, h@),
        r matches Err(e) ==> e == HashError::HashingFailure,
{
    let salt = SaltString::generate(&mut OsRng);
    match argon2::Argon2::default().hash_password(password.as_bytes(), &salt) {
        Ok(hashed) => Ok(hashed.to_string()),
        Err(_) => Err(HashError::HashingFailure),
    }
}

/// Relies on argon2's `PasswordHash::new` and
/// `PasswordVerifier::verify_password`: parsing the encoded string and
/// recomputing the digest are deterministic, so acceptance is a function
/// of the password and the encoded string.
#[verifier::external_body]
fn argon2_verify(password: &str, hashed: &str) -> (r: bool)
    ensures
        r == pw_verifies(password@, hashed@),
{
    match argon2::PasswordHash::new(hashed) {
        Ok(parsed) => argon2::Argon2::default().verify_password(password.as_bytes(), &parsed)
            .is_ok(),
        Err(_) => false,
    }
}

/// Hash a password under a fresh random salt.  Fails only on an
/// underlying entropy or allocation fault, never on a property of the
/// password; every hash returned verifies against the password it was
/// derived from.
pub fn hash_password(password: String) -> (r: Result<String, HashError>)
    ensures
        r matches Ok(h) ==> pw_verifies(password@, h@),
        r matches Err(e) ==> e == HashError::HashingFailure,
{
    argon2_hash(password.as_str())
}

/// Verify a password against a self-describing encoded hash.  Succeeds
/// exactly when the recomputed digest matches; a wrong password and a
/// malformed hash produce the same rejection.
pub fn verify_password(password: String, hashed_password: String) -> (r: Result<(), HashError>)
    ensures
        r is Ok <==> pw_verifies(password@, hashed_password@),
        r matches Err(e) ==> e == HashError::Mismatch,
{
    if argon2_verify(password.as_str(), hashed_password.as_str()) {
        Ok(())
    } else {
        Err(HashError::Mismatch)
    }
}

} // verus!
