//! The login decision: given the account fetched for an agent number and the
//! submitted password, a signed token and the public summary, or a refusal.

use vstd::prelude::*;
use crate::credentials::{verify_password, CredentialError};
use crate::primitives::bcrypt_verdict;
use crate::errors::AuthError;
use crate::models::{Agent, AgentInfo, AgentLogin, AuthResponse};
use crate::token::{generate_token, token_issued, TokenError};

verus! {

/// The login is refused: no such account, an inactive one, another agent
/// number, or a password that the stored hash does not match.
pub open spec fn login_refused(agent: Option<&Agent>, credentials: &AgentLogin) -> bool {
    match agent {
        None => true,
        Some(a) => !a.is_active || a.agent_number@ != credentials.agent_number@ || bcrypt_verdict(
            credentials.password@,
            a.password_hash@,
        ) == Some(false),
    }
}

/// The account may log in but its stored hash cannot be read.
pub open spec fn login_fault(agent: Option<&Agent>, credentials: &AgentLogin) -> bool {
    match agent {
        None => false,
        Some(a) => a.is_active && a.agent_number@ == credentials.agent_number@ && bcrypt_verdict(
            credentials.password@,
            a.password_hash@,
        ) is None,
    }
}

/// What an accepted login gives at time `now`: the account's
/// summary and the token issued at `now`, or a signing failure where the
/// expiry time does not fit.
pub open spec fn login_outcome(
    r: Result<AuthResponse, AuthError>,
    a: &Agent,
    secret: Seq<char>,
    ttl: i64,
    now: i64,
) -> bool {
    match r {
        Ok(resp) => {
            &&& resp.agent.id == a.id
            &&& resp.agent.agent_number@ == a.agent_number@
            &&& resp.agent.is_active == a.is_active
            &&& token_issued(resp.token@, a.id, a.agent_number@, secret, ttl, now)
        },
        Err(e) => e == AuthError::Token(TokenError::SigningFailure) && now + ttl > i64::MAX,
    }
}

/// Logs an agent in at time `now` (Unix seconds). `agent` is the account
/// stored under the submitted agent number, if any; the token lives for
/// `ttl_seconds` seconds.
pub fn login(
    agent: Option<&Agent>,
    credentials: &AgentLogin,
    secret: &str,
    ttl_seconds: i64,
    now: i64,
) -> (r: Result<AuthResponse, AuthError>)
    requires
        ttl_seconds > 0,
    ensures
        login_refused(agent, credentials) ==> r == Err::<AuthResponse, AuthError>(
            AuthError::Credential(CredentialError::Mismatch),
        ),
        login_fault(agent, credentials) ==> r == Err::<AuthResponse, AuthError>(
            AuthError::Credential(CredentialError::HashingFailure),
        ),
        !login_refused(agent, credentials) && !login_fault(agent, credentials) ==> login_outcome(
            r,
            agent->Some_0,
            secret@,
            ttl_seconds,
            now,
        ),
{
    let a = match agent {
        None => {
            return Err(AuthError::Credential(CredentialError::Mismatch));
        },
        Some(a) => a,
    };
    if !a.is_active || !a.agent_number.eq(&credentials.agent_number) {
        return Err(AuthError::Credential(CredentialError::Mismatch));
    }
    match verify_password(credentials.password.as_str(), a.password_hash.as_str()) {
        Ok(true) => {},
        Ok(false) => {
            return Err(AuthError::Credential(CredentialError::Mismatch));
        },
        Err(e) => {
            return Err(AuthError::Credential(e));
        },
    }
    let issued = generate_token(a.id, a.agent_number.clone(), secret, ttl_seconds, now);
    match issued {
        Ok(token) => {
            let resp = AuthResponse { token, agent: AgentInfo::from_agent(a) };
            let r = Ok(resp);
            assert(login_outcome(r, a, secret@, ttl_seconds, now));
            r
        },
        Err(e) => {
            let r = Err(AuthError::Token(e));
            assert(login_outcome(r, a, secret@, ttl_seconds, now));
            r
        },
    }
}

} // verus!
