//! Password hashing and checking, done by the bcrypt crate behind two
//! trusted wrappers. A bcrypt hash embeds its own salt and cost, so checking
//! is a function of the password and the hash alone; hashing draws a fresh
//! random salt, so nothing is assumed of the hash text beyond what checking
//! says of it.

use vstd::prelude::*;

verus! {

/// What `bcrypt::verify` returns for this password and hash text: a
/// function of the two alone, since the hash embeds its salt and cost. A
/// malformed hash counts as no match.
pub uninterp spec fn password_verified(password: Seq<char>, hash: Seq<char>) -> bool;

/// Relies on bcrypt::verify: deterministic in the password and the hash; an
/// error (a malformed hash) is taken as no match, as the sign-in flow takes
/// it.
#[verifier::external_body]
pub(crate) fn verify_password(password: &str, hash: &str) -> (r: bool)
    ensures
        r == password_verified(password@, hash@),
{
    bcrypt::verify(password, hash).unwrap_or(false)
}

/// Relies on bcrypt::hash with the default cost: the returned hash is
/// exactly what bcrypt::verify re-derives for the same password, so it
/// checks out; hashing fails only when the process cannot draw randomness.
#[verifier::external_body]
pub(crate) fn hash_password(password: &str) -> (r: Option<String>)
    ensures
        r matches Some(h) ==> password_verified(password@, h@),
{
    bcrypt::hash(password, bcrypt::DEFAULT_COST).ok()
}

} // verus!
