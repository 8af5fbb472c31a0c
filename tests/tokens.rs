use agent_backend::claims::{decode_claims, encode_claims, Claims};
use agent_backend::token::{decode_token, generate_token, TokenError};
use base64::engine::general_purpose::URL_SAFE_NO_PAD;
use base64::Engine;

fn segments(token: &str) -> Vec<String> {
    token.split('.').map(|s| s.to_string()).collect()
}

fn segment_json(segment: &str) -> serde_json::Value {
    serde_json::from_slice(&URL_SAFE_NO_PAD.decode(segment.as_bytes()).unwrap()).unwrap()
}

fn signed(header_json: &str, claims_json: &str, secret: &[u8]) -> String {
    let header = URL_SAFE_NO_PAD.encode(header_json.as_bytes());
    let body = URL_SAFE_NO_PAD.encode(claims_json.as_bytes());
    let message = format!("{}.{}", header, body);
    let signature = jsonwebtoken::crypto::sign(
        message.as_bytes(),
        &jsonwebtoken::EncodingKey::from_secret(secret),
        jsonwebtoken::Algorithm::HS256,
    )
    .unwrap();
    format!("{}.{}", message, signature)
}

const HS256_HEADER: &str = "{\"typ\":\"JWT\",\"alg\":\"HS256\"}";
const A042: &str = "{\"sub\":\"A042\",\"agent_id\":42,\"exp\":4600,\"iat\":1000}";

#[test]
fn concrete_scenario_claims_and_expiry() {
    let token = generate_token(42, "A042".to_string(), "s3cr3t", 3600, 1000).unwrap();
    let parts = segments(&token);
    assert_eq!(parts.len(), 3);
    let claims = segment_json(&parts[1]);
    assert_eq!(claims["sub"], "A042");
    assert_eq!(claims["agent_id"], 42);
    assert_eq!(claims["iat"], 1000);
    assert_eq!(claims["exp"], 4600);
    assert_eq!(claims.as_object().unwrap().len(), 4);
    let header = segment_json(&parts[0]);
    assert_eq!(header["alg"], "HS256");
    assert_eq!(header["typ"], "JWT");

    let claims = decode_token(&token, "s3cr3t", 4599).unwrap();
    assert_eq!(claims.sub, "A042");
    assert_eq!(claims.agent_id, 42);
    assert_eq!(claims.iat, 1000);
    assert_eq!(claims.exp, 4600);
    assert_eq!(decode_token(&token, "s3cr3t", 4600).unwrap_err(), TokenError::Expired);
    assert_eq!(decode_token(&token, "wrong-secret", 1000).unwrap_err(), TokenError::SignatureMismatch);
    assert_eq!(decode_token(&token, "wrong-secret", 99999).unwrap_err(), TokenError::SignatureMismatch);
}

#[test]
fn round_trip_keeps_identity_and_lifetime() {
    for (id, sub, secret, ttl, now) in [
        (1i64, "A001", "k", 1i64, 0i64),
        (-7, "agent \"seven\"\n\\", "another secret", 86400, 1_700_000_000),
        (i64::MAX, "Ünïcødé ✓", "s", 10, -50),
        (0, "", "", 5, i64::MIN),
    ] {
        let token = generate_token(id, sub.to_string(), secret, ttl, now).unwrap();
        let claims = decode_token(&token, secret, now).unwrap();
        assert_eq!(claims.agent_id, id);
        assert_eq!(claims.sub, sub);
        assert_eq!(claims.iat, now);
        assert_eq!(claims.exp, now + ttl);
    }
}

#[test]
fn expiry_boundary_is_exclusive() {
    let t0 = 1_000_000;
    let ttl = 60;
    let token = generate_token(5, "A005".to_string(), "secret", ttl, t0).unwrap();
    assert!(decode_token(&token, "secret", t0 + ttl - 1).is_ok());
    assert_eq!(decode_token(&token, "secret", t0 + ttl).unwrap_err(), TokenError::Expired);
    assert_eq!(decode_token(&token, "secret", t0 + ttl + 1000).unwrap_err(), TokenError::Expired);
    // a token dated in the future is accepted
    assert!(decode_token(&token, "secret", t0 - 500).is_ok());
}

#[test]
fn other_secrets_fail_on_signature() {
    let token = generate_token(9, "A009".to_string(), "S1", 100, 0).unwrap();
    for other in ["S2", "s1", "S1 ", "", "S1S1"] {
        assert_eq!(decode_token(&token, other, 0).unwrap_err(), TokenError::SignatureMismatch);
        assert_eq!(decode_token(&token, other, 1_000_000).unwrap_err(), TokenError::SignatureMismatch);
    }
}

#[test]
fn tampered_claims_are_not_accepted() {
    let token = generate_token(42, "A042".to_string(), "s3cr3t", 3600, 1000).unwrap();
    let parts = segments(&token);
    let claims_segment: Vec<char> = parts[1].chars().collect();
    for pos in 0..claims_segment.len() {
        let mut changed = claims_segment.clone();
        changed[pos] = if changed[pos] == 'A' { 'B' } else { 'A' };
        let changed: String = changed.into_iter().collect();
        let forged = format!("{}.{}.{}", parts[0], changed, parts[2]);
        let r = decode_token(&forged, "s3cr3t", 2000);
        assert!(r.is_err());
        if URL_SAFE_NO_PAD.decode(changed.as_bytes()).is_ok() {
            assert_eq!(r.unwrap_err(), TokenError::SignatureMismatch);
        } else {
            assert_eq!(r.unwrap_err(), TokenError::Malformed);
        }
    }
}

#[test]
fn malformed_tokens() {
    let token = generate_token(1, "A001".to_string(), "k", 100, 0).unwrap();
    let parts = segments(&token);
    assert_eq!(decode_token("", "k", 0).unwrap_err(), TokenError::Malformed);
    assert_eq!(decode_token("abc", "k", 0).unwrap_err(), TokenError::Malformed);
    assert_eq!(decode_token(&format!("{}.{}", parts[0], parts[1]), "k", 0).unwrap_err(), TokenError::Malformed);
    assert_eq!(decode_token(&format!("{}.x", token), "k", 0).unwrap_err(), TokenError::Malformed);
    assert_eq!(
        decode_token(&format!("{}.{}!.{}", parts[0], parts[1], parts[2]), "k", 0).unwrap_err(),
        TokenError::Malformed
    );
    assert_eq!(
        decode_token(&format!("@@.{}.{}", parts[1], parts[2]), "k", 0).unwrap_err(),
        TokenError::Malformed
    );
}

#[test]
fn claims_in_any_layout_are_read() {
    for claims in [
        "{ \"sub\" : \"A042\" , \"agent_id\" : 42 , \"exp\" : 4600 , \"iat\" : 1000 }",
        "{\"sub\":\"A042\",\"agent_id\":42,\"iat\":1000,\"exp\":4600}",
        "{\"iat\":1000,\"exp\":4600,\"agent_id\":42,\"sub\":\"A042\",\"role\":[1,2]}",
        "\n{\"sub\":\"A\\u0030\\u00342\",\"agent_id\":42,\"exp\":4600,\"iat\":1000}\n",
    ] {
        let token = signed(HS256_HEADER, claims, b"k");
        let c = decode_token(&token, "k", 0).unwrap();
        assert_eq!(c.sub, "A042");
        assert_eq!(c.agent_id, 42);
        assert_eq!(c.exp, 4600);
        assert_eq!(c.iat, 1000);
    }
}

#[test]
fn signed_claims_with_missing_or_mistyped_fields_are_malformed() {
    for claims in [
        "{\"sub\":\"A042\",\"agent_id\":42,\"exp\":4600}",
        "{\"sub\":42,\"agent_id\":42,\"exp\":4600,\"iat\":1000}",
        "{\"sub\":\"A042\",\"agent_id\":\"42\",\"exp\":4600,\"iat\":1000}",
        "{\"sub\":\"A042\",\"agent_id\":42,\"exp\":4600.5,\"iat\":1000}",
        "[\"A042\",42,4600,1000]",
        "not json",
    ] {
        let token = signed(HS256_HEADER, claims, b"k");
        assert_eq!(decode_token(&token, "k", 0).unwrap_err(), TokenError::Malformed);
        assert_eq!(decode_token(&token, "other", 0).unwrap_err(), TokenError::SignatureMismatch);
    }
}

#[test]
fn only_headers_declaring_hs256_are_accepted() {
    for header in [HS256_HEADER, "{\"alg\":\"HS256\",\"typ\":\"JWT\"}", "{ \"alg\" : \"HS256\" }"] {
        let token = signed(header, A042, b"k");
        assert_eq!(decode_token(&token, "k", 0).unwrap().agent_id, 42);
        assert_eq!(decode_token(&token, "other", 0).unwrap_err(), TokenError::SignatureMismatch);
    }
    for header in [
        "{\"alg\":\"none\"}",
        "{\"typ\":\"JWT\",\"alg\":\"none\"}",
        "{\"typ\":\"JWT\",\"alg\":\"HS512\"}",
        "{\"typ\":\"JWT\",\"alg\":\"RS256\"}",
        "{\"typ\":\"JWT\"}",
        "not json",
    ] {
        let token = signed(header, A042, b"k");
        assert_eq!(decode_token(&token, "k", 0).unwrap_err(), TokenError::Malformed);
    }
}

#[test]
fn tokens_are_readable_by_jsonwebtoken() {
    let now = chrono::Utc::now().timestamp();
    let token = generate_token(77, "A077".to_string(), "shared", 600, now).unwrap();
    let mut validation = jsonwebtoken::Validation::new(jsonwebtoken::Algorithm::HS256);
    validation.leeway = 0;
    let data = jsonwebtoken::decode::<serde_json::Value>(
        &token,
        &jsonwebtoken::DecodingKey::from_secret(b"shared"),
        &validation,
    )
    .unwrap();
    assert_eq!(data.claims["sub"], "A077");
    assert_eq!(data.claims["agent_id"], 77);
    assert_eq!(data.claims["exp"], now + 600);
}

#[test]
fn expiry_overflow_fails_to_sign() {
    assert_eq!(
        generate_token(1, "A001".to_string(), "k", 10, i64::MAX - 5).unwrap_err(),
        TokenError::SigningFailure
    );
    assert!(generate_token(1, "A001".to_string(), "k", 5, i64::MAX - 5).is_ok());
}

#[test]
fn claims_json_round_trip() {
    let c = Claims { sub: "a\"b\\c\u{1}\u{8}\t/é".to_string(), agent_id: -3, exp: 0, iat: i64::MIN };
    let text = encode_claims(&c);
    let v: serde_json::Value = serde_json::from_slice(&text).unwrap();
    assert_eq!(v["sub"], c.sub.as_str());
    assert_eq!(v["iat"], i64::MIN);
    let back = decode_claims(&text).unwrap();
    assert_eq!(back.sub, c.sub);
    assert_eq!(back.agent_id, -3);
    assert_eq!(back.exp, 0);
    assert_eq!(back.iat, i64::MIN);
    assert!(decode_claims(b"{\"sub\":\"x\",\"agent_id\":99999999999999999999,\"exp\":0,\"iat\":0}").is_none());
    assert!(decode_claims(b"").is_none());
}
