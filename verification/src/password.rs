//! Checking a password against a stored bcrypt hash.

use vstd::prelude::*;

verus! {

/// The bcrypt crate's error type. It is carried through without being read.
#[verifier::external_type_specification]
#[verifier::external_body]
pub struct ExBcryptError(bcrypt::BcryptError);

/// What `bcrypt::verify` returns for a password and a stored hash, with the
/// detail of an error dropped: `Some(same)` where it returns `Ok(same)`,
/// `None` where it returns an error.
///
/// The crate reads salt and cost out of the hash, digests the password under
/// them, and reports whether the digest is the one in the hash. Nothing of
/// that is spelled out here: the handlers only need the result to have a
/// name.
pub uninterp spec fn bcrypt_verify(password: Seq<char>, hash: Seq<char>) -> Option<bool>;

/// A verification result without the detail of why it failed.
pub open spec fn verdict(checked: Result<bool, bcrypt::BcryptError>) -> Option<bool> {
    match checked {
        Ok(same) => Some(same),
        Err(_) => None,
    }
}

/// Calls `bcrypt::verify` on the UTF-8 bytes of `password` and on `hash`.
///
/// Trusted, not proved: the call depends on its two arguments alone, so its
/// result, with the error detail dropped, is `bcrypt_verify` of them. The call
/// returns for every pair of strings: a hash that is malformed or names a cost
/// outside 4..=31 is reported as an error.
#[verifier::external_body]
pub(crate) fn verify_hash(password: &str, hash: &str) -> (checked: Result<bool, bcrypt::BcryptError>)
    ensures
        verdict(checked) == bcrypt_verify(password@, hash@),
{
    bcrypt::verify(password, hash)
}

/// Whether a verification result lets the user in: only a successful
/// comparison that found the password to match does.
pub fn accepts(checked: &Result<bool, bcrypt::BcryptError>) -> (ok: bool)
    ensures
        ok == (verdict(*checked) == Some(true)),
{
    match checked {
        Ok(same) => *same,
        Err(_) => false,
    }
}

} // verus!
