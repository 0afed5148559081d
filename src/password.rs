use vstd::prelude::*;
use vstd::string::StringSliceAdditionalSpecFns;

verus! {

/// Whether a stored password hash accepts a password.
pub uninterp spec fn password_matches(password: Seq<char>, hash: Seq<char>) -> bool;

/// Relies on password_auth::generate_hash: a salted Argon2 hash in PHC form, which
/// password_auth::verify_password accepts for the same password. Argon2 refuses passwords of
/// more than 2^32 - 1 bytes, on which the call would panic.
#[verifier::external_body]
pub fn hash_password(raw_password: &str) -> (r: String)
    requires
        raw_password.spec_bytes().len() <= 0xFFFF_FFFF,
    ensures
        password_matches(raw_password@, r@),
{
    password_auth::generate_hash(raw_password)
}

/// Relies on password_auth::verify_password: whether the hash accepts the password, which
/// depends on the two alone.
#[verifier::external_body]
pub fn verify_password(raw_password: &str, hash: &str) -> (r: bool)
    ensures
        r == password_matches(raw_password@, hash@),
{
    password_auth::verify_password(raw_password, hash).is_ok()
}

} // verus!
