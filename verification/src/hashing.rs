//! Password hashing: the one-way, salted, cost-factored primitive.
//!
//! The primitive itself is bcrypt; this module gives its two entry points
//! contracts the rest of the library builds on. A fresh hash carries its own
//! random salt, so nothing more is claimed of the hash string than that the
//! verifier accepts it for the hashed password.

use vstd::prelude::*;

use crate::errors::AuthError;

verus! {

/// What bcrypt's verifier returns for a candidate password and a stored hash
/// string: `Some(b)` when the hash string parses, `None` when it is
/// malformed. The salt and cost are read from the hash string itself, so the
/// result is a function of the two arguments alone.
pub uninterp spec fn bcrypt_verify_of(password: Seq<char>, hash: Seq<char>) -> Option<bool>;

/// Relies on bcrypt::hash: the result, when it exists, is a salted hash
/// string that bcrypt::verify accepts against the hashed password, in the
/// fixed 60-character `$2b$` format that carries the requested cost as two
/// decimal digits.
#[verifier::external_body]
pub(crate) fn bcrypt_hash(password: &str, cost: u32) -> (r: Option<String>)
    ensures
        r matches Some(h) ==> ({
            &&& bcrypt_verify_of(password@, h@) == Some(true)
            &&& h@.len() == 60
            &&& h@[0] == '$' && h@[1] == '2' && h@[2] == 'b' && h@[3] == '$' && h@[6] == '$'
            &&& cost <= 99 ==> h@[4] as int - '0' as int == cost as int / 10 && h@[5] as int
                - '0' as int == cost as int % 10
        }),
{
    bcrypt::hash(password, cost).ok()
}

/// Relies on bcrypt::verify: it re-derives the digest of `password` under the
/// salt and cost read from `hash` and compares in constant time, failing only
/// when `hash` is malformed.
#[verifier::external_body]
pub(crate) fn bcrypt_check(password: &str, hash: &str) -> (r: Option<bool>)
    ensures
        r == bcrypt_verify_of(password@, hash@),
{
    bcrypt::verify(password, hash).ok()
}

/// What comparing a candidate against a stored hash yields: the verifier's
/// answer, or an internal error for a malformed stored hash.
pub open spec fn spec_verify_password(candidate: Seq<char>, stored_hash: Seq<char>) -> Result<
    bool,
    AuthError,
> {
    match bcrypt_verify_of(candidate, stored_hash) {
        Some(b) => Ok(b),
        None => Err(AuthError::InternalError),
    }
}

/// Compares a candidate password against a stored hash. Returns the
/// verifier's answer; a malformed stored hash is an internal error, never a
/// plain mismatch.
pub fn verify_password(candidate: &str, stored_hash: &str) -> (r: Result<bool, AuthError>)
    ensures
        r == spec_verify_password(candidate@, stored_hash@),
{
    match bcrypt_check(candidate, stored_hash) {
        Some(b) => Ok(b),
        None => Err(AuthError::InternalError),
    }
}

/// Hashing then verifying round-trips: a fresh hash is one the verifier
/// answers `true` for — the premise is exactly what hashing promises of its
/// result — so verifying the original plaintext against it always succeeds.
pub proof fn lemma_hash_round_trip(password: Seq<char>, hash: Seq<char>)
    requires
        bcrypt_verify_of(password, hash) == Some(true),
    ensures
        spec_verify_password(password, hash) == Ok::<bool, AuthError>(true),
{
}

} // verus!
