use agent_backend::credentials::CredentialError;
use agent_backend::errors::{AuthError, MiddlewareError};
use agent_backend::middleware::{extract_bearer, AuthDecision, AuthMiddleware};
use agent_backend::token::{generate_token, TokenError};

fn guard() -> AuthMiddleware {
    AuthMiddleware { jwt_secret: "s3cr3t".to_string() }
}

fn rejection(d: AuthDecision) -> AuthError {
    match d {
        AuthDecision::Reject(e) => e,
        AuthDecision::Forward(_) => panic!("request was forwarded"),
    }
}

#[test]
fn missing_header_is_rejected() {
    let e = rejection(guard().authorize(None, 0));
    assert_eq!(e, AuthError::Middleware(MiddlewareError::MissingHeader));
    assert_eq!(e.status_code(), 401);
}

#[test]
fn other_schemes_and_empty_tokens_are_rejected() {
    for h in ["Basic xyz", "Bearer", "Bearer ", "bearer abc", "BearerX abc", ""] {
        let e = rejection(guard().authorize(Some(h), 0));
        assert_eq!(e, AuthError::Middleware(MiddlewareError::MalformedHeader));
        assert_eq!(e.status_code(), 401);
        assert_eq!(e.public_message(), "Unauthorized");
    }
}

#[test]
fn expired_and_forged_tokens_are_rejected() {
    let token = generate_token(42, "A042".to_string(), "s3cr3t", 3600, 1000).unwrap();
    let header = format!("Bearer {}", token);
    let e = rejection(guard().authorize(Some(&header), 4600));
    assert_eq!(e, AuthError::Token(TokenError::Expired));
    assert_eq!(e.status_code(), 401);
    let forged = generate_token(42, "A042".to_string(), "other", 3600, 1000).unwrap();
    let header = format!("Bearer {}", forged);
    let e = rejection(guard().authorize(Some(&header), 2000));
    assert_eq!(e, AuthError::Token(TokenError::SignatureMismatch));
    assert_eq!(e.public_message(), "Unauthorized");
    let e = rejection(guard().authorize(Some("Bearer not-a-token"), 2000));
    assert_eq!(e, AuthError::Token(TokenError::Malformed));
    let e = rejection(guard().authorize(Some("Bearer  "), 2000));
    assert_eq!(e, AuthError::Token(TokenError::Malformed));
}

#[test]
fn valid_token_is_forwarded_with_its_claims() {
    let token = generate_token(42, "A042".to_string(), "s3cr3t", 3600, 1000).unwrap();
    let header = format!("Bearer {}", token);
    match guard().authorize(Some(&header), 4599) {
        AuthDecision::Forward(c) => {
            assert_eq!(c.agent_id, 42);
            assert_eq!(c.sub, "A042");
            assert_eq!(c.iat, 1000);
            assert_eq!(c.exp, 4600);
        }
        AuthDecision::Reject(e) => panic!("rejected: {:?}", e),
    }
}

#[test]
fn bearer_extraction() {
    assert_eq!(extract_bearer(Some("Bearer abc.def")).unwrap(), "abc.def");
    assert_eq!(extract_bearer(Some("Bearer  x")).unwrap(), " x");
    assert_eq!(extract_bearer(None).unwrap_err(), MiddlewareError::MissingHeader);
    assert_eq!(extract_bearer(Some("Token abc")).unwrap_err(), MiddlewareError::MalformedHeader);
}

#[test]
fn error_status_table() {
    assert_eq!(AuthError::Credential(CredentialError::HashingFailure).status_code(), 500);
    assert_eq!(AuthError::Token(TokenError::SigningFailure).status_code(), 500);
    assert_eq!(AuthError::Credential(CredentialError::Mismatch).status_code(), 401);
    assert_eq!(AuthError::Token(TokenError::Expired).status_code(), 401);
    assert_eq!(AuthError::Token(TokenError::Malformed).status_code(), 401);
    assert_eq!(AuthError::Middleware(MiddlewareError::MissingHeader).status_code(), 401);
    assert_eq!(
        AuthError::Token(TokenError::SigningFailure).public_message(),
        "Internal server error"
    );
    assert_eq!(AuthError::Token(TokenError::Expired).public_message(), "Unauthorized");
}
