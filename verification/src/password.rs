//! Password hashing with bcrypt.

use vstd::prelude::*;

verus! {

/// `bcrypt::BcryptError`, the error of hashing or checking.
#[verifier::external_type_specification]
#[verifier::external_body]
pub struct ExBcryptError(bcrypt::BcryptError);

/// What `bcrypt::verify` gives for a password and a stored hash: `Some(matches)`, or
/// `None` where it reports an error (a malformed hash).
pub uninterp spec fn bcrypt_verifies(password: Seq<char>, hash: Seq<char>) -> Option<bool>;

/// `bcrypt::hash(password, bcrypt::DEFAULT_COST)`. The salt is random, so the hash is
/// not a function of the password; the contract states what `bcrypt::verify` recomputes
/// from it (same cost, same salt, same first 72 bytes): that the password checks out.
#[verifier::external_body]
pub fn hash_password(password: &str) -> (r: Result<String, bcrypt::BcryptError>)
    ensures
        r matches Ok(hash) ==> bcrypt_verifies(password@, hash@) == Some(true),
{
    bcrypt::hash(password, bcrypt::DEFAULT_COST)
}

/// `bcrypt::verify(password, hash)`: whether the password matches the stored hash.
#[verifier::external_body]
pub fn verify_password(password: &str, hash: &str) -> (r: Result<bool, bcrypt::BcryptError>)
    ensures
        r is Ok <==> bcrypt_verifies(password@, hash@) is Some,
        r matches Ok(b) ==> bcrypt_verifies(password@, hash@) == Some(b),
{
    bcrypt::verify(password, hash)
}

} // verus!
