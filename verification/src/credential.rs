//! The credential check: a presented password against the stored bcrypt hash.
use vstd::prelude::*;

verus! {

/// Whether bcrypt accepts `h` as a well-formed hash string: 60 ASCII bytes,
/// a recognised `$2_$` version prefix, a two-digit cost inside bcrypt's
/// allowed range, and base64 salt and digest parts.
pub uninterp spec fn bcrypt_valid_hash(h: Seq<char>) -> bool;

/// Whether bcrypt's salted digest of `password`, computed with the cost and
/// salt taken from the hash string `h`, equals the digest stored in `h`.
pub uninterp spec fn bcrypt_matches(password: Seq<char>, h: Seq<char>) -> bool;

/// The stored reference hash could not be parsed as a bcrypt hash. This is a
/// configuration fault, kept apart from an ordinary failed password check.
#[derive(Debug, Clone, Copy, PartialEq, Eq, Structural)]
pub struct VerificationError;

/// Relies on bcrypt::verify: it re-derives the salted digest of `password`
/// with the cost and salt found in `reference` and compares in constant time;
/// it errors exactly when `reference` itself cannot be parsed (cost range
/// included), never because of the password's content.
#[verifier::external_body]
fn bcrypt_check(password: &str, reference: &str) -> (r: Result<bool, VerificationError>)
    ensures
        r matches Ok(b) ==> bcrypt_valid_hash(reference@) && b == bcrypt_matches(
            password@,
            reference@,
        ),
        r is Err <==> !bcrypt_valid_hash(reference@),
{
    match bcrypt::verify(password, reference) {
        Ok(b) => Ok(b),
        Err(_) => Err(VerificationError),
    }
}

/// Checks `candidate` against the stored `reference_hash`.
///
/// A malformed reference hash is reported as an error, never folded into a
/// plain `false`: the two failure classes must stay distinguishable.
pub fn verify_credential(candidate: &str, reference_hash: &str) -> (r: Result<
    bool,
    VerificationError,
>)
    ensures
        r matches Ok(b) ==> bcrypt_valid_hash(reference_hash@) && b == bcrypt_matches(
            candidate@,
            reference_hash@,
        ),
        r is Err <==> !bcrypt_valid_hash(reference_hash@),
{
    bcrypt_check(candidate, reference_hash)
}

} // verus!
