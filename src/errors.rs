//! The failures of the authentication core and the HTTP status each one is
//! answered with.

use vstd::prelude::*;
use crate::credentials::CredentialError;
use crate::token::TokenError;

verus! {

/// Why the authorization header was not accepted.
#[derive(Debug, Clone, Copy, PartialEq, Eq, Structural)]
pub enum MiddlewareError {
    /// The request carries no `Authorization` header.
    MissingHeader,
    /// The header is not `Bearer ` followed by a token.
    MalformedHeader,
}

/// Any failure of the authentication core.
#[derive(Debug, Clone, Copy, PartialEq, Eq, Structural)]
pub enum AuthError {
    Credential(CredentialError),
    Token(TokenError),
    Middleware(MiddlewareError),
}

/// Infrastructure faults, as opposed to refused credentials or tokens.
pub open spec fn is_internal_fault(e: AuthError) -> bool {
    e == AuthError::Credential(CredentialError::HashingFailure) || e == AuthError::Token(
        TokenError::SigningFailure,
    )
}

impl AuthError {
    /// 500 for infrastructure faults, 401 for every refusal.
    pub fn status_code(&self) -> (r: u16)
        ensures
            r == (if is_internal_fault(*self) {
                500u16
            } else {
                401u16
            }),
    {
        match self {
            AuthError::Credential(CredentialError::HashingFailure) => 500,
            AuthError::Token(TokenError::SigningFailure) => 500,
            _ => 401,
        }
    }

    /// The message shown to the caller: the same for every refusal, so that
    /// it does not tell one cause from another.
    pub fn public_message(&self) -> (r: &'static str)
        ensures
            r@ == (if is_internal_fault(*self) {
                "Internal server error"@
            } else {
                "Unauthorized"@
            }),
    {
        match self {
            AuthError::Credential(CredentialError::HashingFailure) => "Internal server error",
            AuthError::Token(TokenError::SigningFailure) => "Internal server error",
            _ => "Unauthorized",
        }
    }
}

} // verus!
