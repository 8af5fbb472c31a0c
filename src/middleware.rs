//! The request guard in front of protected routes: it reads the
//! `Authorization` header, validates the bearer token, and either forwards the
//! request with the token's claims or rejects it.

use vstd::prelude::*;
use vstd::string::*;
use crate::claims::{Claims, ClaimsView};
use crate::errors::{AuthError, MiddlewareError};
use crate::token::{decode_token, validation, TokenError};

verus! {

/// `Bearer ` with its single space.
pub open spec fn bearer_prefix() -> Seq<char> {
    seq!['B', 'e', 'a', 'r', 'e', 'r', ' ']
}

/// The token of an `Authorization` header value: the header must be
/// `Bearer ` followed by at least one character.
pub open spec fn bearer_token(header: Option<Seq<char>>) -> Result<Seq<char>, MiddlewareError> {
    match header {
        None => Err(MiddlewareError::MissingHeader),
        Some(h) => {
            if h.len() > 7 && h.subrange(0, 7) == bearer_prefix() {
                Ok(h.subrange(7, h.len() as int))
            } else {
                Err(MiddlewareError::MalformedHeader)
            }
        },
    }
}

/// What the guard decides for a header, a secret and a time: the claims of a
/// valid bearer token, or the reason for rejecting the request.
pub open spec fn authorization(header: Option<Seq<char>>, secret: Seq<char>, now: int) -> Result<
    ClaimsView,
    AuthError,
> {
    match bearer_token(header) {
        Err(e) => Err(AuthError::Middleware(e)),
        Ok(t) => match validation(t, secret, now) {
            Ok(c) => Ok(c),
            Err(e) => Err(AuthError::Token(e)),
        },
    }
}

pub open spec fn header_view(header: Option<&str>) -> Option<Seq<char>> {
    match header {
        Some(h) => Some(h@),
        None => None,
    }
}

/// Reads the token out of an `Authorization` header value.
pub fn extract_bearer<'a>(header: Option<&'a str>) -> (r: Result<&'a str, MiddlewareError>)
    ensures
        match r {
            Ok(t) => bearer_token(header_view(header)) == Ok::<Seq<char>, MiddlewareError>(t@),
            Err(e) => bearer_token(header_view(header)) == Err::<Seq<char>, MiddlewareError>(e),
        },
{
    let h = match header {
        None => {
            return Err(MiddlewareError::MissingHeader);
        },
        Some(h) => h,
    };
    let n = h.unicode_len();
    if n <= 7 {
        return Err(MiddlewareError::MalformedHeader);
    }
    let prefix = "Bearer ";
    proof {
        reveal_strlit("Bearer ");
    }
    assert(prefix@ =~= bearer_prefix());
    let mut i: usize = 0;
    while i < 7
        invariant
            i <= 7,
            n == h@.len(),
            n > 7,
            header_view(header) == Some(h@),
            prefix@ == bearer_prefix(),
            forall|j: int| 0 <= j < i ==> h@[j] == bearer_prefix()[j],
        decreases 7 - i,
    {
        if h.get_char(i) != prefix.get_char(i) {
            assert(h@.subrange(0, 7)[i as int] != bearer_prefix()[i as int]);
            assert(h@.subrange(0, 7) != bearer_prefix());
            assert(bearer_token(header_view(header)) == Err::<Seq<char>, MiddlewareError>(
                MiddlewareError::MalformedHeader,
            ));
            return Err(MiddlewareError::MalformedHeader);
        }
        i = i + 1;
    }
    assert(h@.subrange(0, 7) =~= bearer_prefix());
    Ok(h.substring_char(7, n))
}

/// What happens to a request: it goes on to its handler with the claims of
/// its token, or it is answered with the error's status.
pub enum AuthDecision {
    Forward(Claims),
    Reject(AuthError),
}

/// `d` is the decision that `authorization` describes.
pub open spec fn decided(d: AuthDecision, header: Option<Seq<char>>, secret: Seq<char>, now: int) -> bool {
    match d {
        AuthDecision::Forward(c) => authorization(header, secret, now) == Ok::<ClaimsView, AuthError>(
            c@,
        ),
        AuthDecision::Reject(e) => authorization(header, secret, now) == Err::<ClaimsView, AuthError>(
            e,
        ),
    }
}

/// The guard wrapped around a group of protected routes, holding the token
/// secret.
pub struct AuthMiddleware {
    pub jwt_secret: String,
}

impl AuthMiddleware {
    /// Decides a request from its `Authorization` header at time `now` (Unix
    /// seconds).
    pub fn authorize(&self, header: Option<&str>, now: i64) -> (r: AuthDecision)
        ensures
            decided(r, header_view(header), self.jwt_secret@, now as int),
    {
        let token = match extract_bearer(header) {
            Ok(t) => t,
            Err(e) => {
                return AuthDecision::Reject(AuthError::Middleware(e));
            },
        };
        match decode_token(token, self.jwt_secret.as_str(), now) {
            Ok(c) => AuthDecision::Forward(c),
            Err(e) => AuthDecision::Reject(AuthError::Token(e)),
        }
    }
}

/// A request without the header, or with one that is not `Bearer ` and a
/// token, is rejected; one with a bearer token goes on exactly when the token
/// validates, and then with the token's claims.
pub proof fn lemma_middleware_gating(header: Option<Seq<char>>, secret: Seq<char>, now: int)
    ensures
        header is None ==> authorization(header, secret, now) == Err::<ClaimsView, AuthError>(
            AuthError::Middleware(MiddlewareError::MissingHeader),
        ),
        header matches Some(h) && !(h.len() > 7 && h.subrange(0, 7) == bearer_prefix())
            ==> authorization(header, secret, now) == Err::<ClaimsView, AuthError>(
            AuthError::Middleware(MiddlewareError::MalformedHeader),
        ),
        forall|t: Seq<char>|
            t.len() > 0 && header == Some(bearer_prefix() + t) ==> authorization(header, secret, now)
                == match #[trigger] validation(t, secret, now) {
                Ok(c) => Ok::<ClaimsView, AuthError>(c),
                Err(e) => Err::<ClaimsView, AuthError>(AuthError::Token(e)),
            },
{
    assert forall|t: Seq<char>|
        t.len() > 0 && header == Some(bearer_prefix() + t) implies authorization(header, secret, now)
            == match #[trigger] validation(t, secret, now) {
            Ok(c) => Ok::<ClaimsView, AuthError>(c),
            Err(e) => Err::<ClaimsView, AuthError>(AuthError::Token(e)),
        } by {
        let h = bearer_prefix() + t;
        assert(h.subrange(0, 7) =~= bearer_prefix());
        assert(h.subrange(7, h.len() as int) =~= t);
    }
}

} // verus!
