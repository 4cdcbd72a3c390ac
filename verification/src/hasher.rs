//! Password records: salted, memory-hard hashing and its verification, both
//! done by Argon2.

use vstd::prelude::*;

verus! {

/// `argon2::password_hash::Error`: only its presence counts.
#[verifier::external_type_specification]
#[verifier::external_body]
pub struct ExPasswordHashError(argon2::password_hash::Error);

/// Hashing did not produce a record.
#[derive(Debug, Clone, Copy, PartialEq, Eq, Structural)]
pub struct HashError;

/// What Argon2 makes of a password and an encoded record: `None` when the
/// record does not parse, otherwise whether the password matches it.
pub uninterp spec fn argon2_verdict(password: Seq<char>, record: Seq<char>) -> Option<bool>;

/// Draws a fresh random salt with `SaltString::generate` and hashes the
/// password with `Argon2::default().hash_password`, giving the encoded
/// record. Trusted, as the crate documents of the two calls together: a
/// record that comes out parses and matches the password it was made from.
/// Nothing is claimed of which record it is: the salt differs from call to
/// call.
#[verifier::external_body]
fn argon2_hash(password: &str) -> (r: Result<String, argon2::password_hash::Error>)
    ensures
        r is Ok ==> argon2_verdict(password@, r.unwrap()@) == Some(true),
{
    let salt = argon2::password_hash::SaltString::generate(
        &mut argon2::password_hash::rand_core::OsRng,
    );
    argon2::PasswordHasher::hash_password(&argon2::Argon2::default(), password.as_bytes(), &salt)
        .map(|record| record.to_string())
}

/// Parses the record with `PasswordHash::new` and checks the password
/// against it with `Argon2::default().verify_password`. Trusted: the outcome
/// depends on the two texts alone, an error being a record that does not
/// parse.
#[verifier::external_body]
fn argon2_verify(password: &str, record: &str) -> (r: Result<bool, argon2::password_hash::Error>)
    ensures
        (match r {
            Ok(matches) => Some(matches),
            Err(_) => None,
        }) == argon2_verdict(password@, record@),
{
    let parsed = argon2::password_hash::PasswordHash::new(record)?;
    Ok(
        argon2::PasswordVerifier::verify_password(
            &argon2::Argon2::default(),
            password.as_bytes(),
            &parsed,
        ).is_ok(),
    )
}

/// Whether `record` is a well-formed record that `password` matches.
pub open spec fn accepts(password: Seq<char>, record: Seq<char>) -> bool {
    argon2_verdict(password, record) == Some(true)
}

/// What a verification amounts to: only a match on a well-formed record
/// counts, a mismatch and a malformed record are the same rejection.
pub fn verdict_accepts(verdict: Option<bool>) -> (accepted: bool)
    ensures
        accepted == (verdict == Some(true)),
{
    match verdict {
        Some(matches) => matches,
        None => false,
    }
}

/// Hashes a password under a fresh random salt into a self-describing
/// record, which the same password then verifies against.
pub fn hash(password: &str) -> (r: Result<String, HashError>)
    ensures
        r is Ok ==> accepts(password@, r.unwrap()@),
{
    match argon2_hash(password) {
        Ok(record) => Ok(record),
        Err(_) => Err(HashError),
    }
}

/// Checks a password against a record. A malformed record is rejected like a
/// wrong password.
pub fn verify_hash(password: &str, record: &str) -> (accepted: bool)
    ensures
        accepted == accepts(password@, record@),
{
    let verdict = match argon2_verify(password, record) {
        Ok(matches) => Some(matches),
        Err(_) => None,
    };
    verdict_accepts(verdict)
}

} // verus!
