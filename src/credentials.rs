//! Password hashing and verification.

use vstd::prelude::*;
use crate::primitives::{bcrypt_hash, bcrypt_prefix, bcrypt_verdict, bcrypt_verify};

verus! {

/// Work factor of new password hashes.
pub const DEFAULT_COST: u32 = 12;

/// Why a credential check did not succeed.
#[derive(Debug, Clone, Copy, PartialEq, Eq, Structural)]
pub enum CredentialError {
    /// The password does not match the stored hash.
    Mismatch,
    /// The hash could not be produced.
    HashingFailure,
}

/// The password matches the stored hash.
pub open spec fn password_matches(password: Seq<char>, hash: Seq<char>) -> bool {
    bcrypt_verdict(password, hash) == Some(true)
}

/// Hashes a password with a fresh salt at the default cost. A hash that is
/// returned begins `$2b$12$` and verifies against the same password.
pub fn hash_password(password: &str) -> (r: Result<String, CredentialError>)
    ensures
        r matches Ok(h) ==> password_matches(password@, h@),
        r matches Ok(h) ==> h@.len() >= 7 && h@.subrange(0, 7) == seq![
            '$',
            '2',
            'b',
            '$',
            '1',
            '2',
            '$',
        ],
        r matches Err(e) ==> e == CredentialError::HashingFailure,
{
    match bcrypt_hash(password, DEFAULT_COST) {
        Some(h) => {
            assert(bcrypt_prefix(DEFAULT_COST) =~= seq!['$', '2', 'b', '$', '1', '2', '$']);
            Ok(h)
        },
        None => Err(CredentialError::HashingFailure),
    }
}

/// Whether the password matches the stored hash. A hash that cannot be read
/// is a fault of the store, not a wrong password.
pub fn verify_password(password: &str, hash: &str) -> (r: Result<bool, CredentialError>)
    ensures
        match bcrypt_verdict(password@, hash@) {
            Some(b) => r == Ok::<bool, CredentialError>(b),
            None => r == Err::<bool, CredentialError>(CredentialError::HashingFailure),
        },
{
    match bcrypt_verify(password, hash) {
        Some(b) => Ok(b),
        None => Err(CredentialError::HashingFailure),
    }
}

} // verus!
