//! Session tokens: three dot-separated base64url segments (header, claims,
//! HMAC-SHA256 signature over the first two), issued for a fixed lifetime and
//! validated without any stored state.

use vstd::prelude::*;
use vstd::string::*;
use crate::claims::{claims_json, claims_of_json, decode_claims, encode_claims, Claims, ClaimsView};
use crate::primitives::{
    base64url_decoding, base64url_encoding, decode_base64url, encode_base64url, hs256_signature,
    is_url_safe, is_url_safe_char, json_text_member, json_text_pair, read_json_text, sign_hs256,
    verify_hs256, write_json_text_pair,
};

verus! {

/// Why a token could not be issued or was refused.
#[derive(Debug, Clone, Copy, PartialEq, Eq, Structural)]
pub enum TokenError {
    /// Not three segments, a segment that is not base64url, a header that
    /// does not declare HS256, or claims that are not a claims record.
    Malformed,
    /// The signature segment is not the signature of the first two under the
    /// secret.
    SignatureMismatch,
    /// The current time is at or past the expiry time.
    Expired,
    /// The token could not be produced.
    SigningFailure,
}

/// The JSON header that every token is issued with: `typ` is `JWT` and `alg`
/// is `HS256`.
pub open spec fn header_json() -> Seq<u8> {
    json_text_pair("typ"@, "JWT"@, "alg"@, "HS256"@)
}

/// The header declares HMAC-SHA256: it is a JSON object whose `alg` member is
/// the string `HS256`.
pub open spec fn declares_hs256(header: Seq<u8>) -> bool {
    json_text_member(header, "alg"@) == Some("HS256"@)
}

/// Index of the first `.` at or after `from`, or the length when there is none.
pub open spec fn next_dot(t: Seq<char>, from: int) -> int
    decreases t.len() - from,
{
    if from >= t.len() {
        t.len() as int
    } else if t[from] == '.' {
        from
    } else {
        next_dot(t, from + 1)
    }
}

/// The three segments of a token that holds exactly two dots.
pub open spec fn token_segments(t: Seq<char>) -> Option<(Seq<char>, Seq<char>, Seq<char>)> {
    let d1 = next_dot(t, 0);
    let d2 = next_dot(t, d1 + 1);
    if d1 >= t.len() || d2 >= t.len() || next_dot(t, d2 + 1) < t.len() {
        None
    } else {
        Some((t.subrange(0, d1), t.subrange(d1 + 1, d2), t.subrange(d2 + 1, t.len() as int)))
    }
}

/// What validating `token` under `secret` at time `now` gives: the checks in
/// order are the segment count, base64url of header and claims, the header's
/// declared algorithm (only HS256), the signature, the claims record, and
/// expiry (`now >= exp` is expired).
pub open spec fn validation(token: Seq<char>, secret: Seq<char>, now: int) -> Result<
    ClaimsView,
    TokenError,
> {
    match token_segments(token) {
        None => Err(TokenError::Malformed),
        Some((h, c, sig)) => {
            if base64url_decoding(h) is None || base64url_decoding(c) is None {
                Err(TokenError::Malformed)
            } else if !declares_hs256(base64url_decoding(h)->Some_0) {
                Err(TokenError::Malformed)
            } else if hs256_signature(h + seq!['.'] + c, secret) != Some(sig) {
                Err(TokenError::SignatureMismatch)
            } else {
                match claims_of_json(base64url_decoding(c)->Some_0) {
                    None => Err(TokenError::Malformed),
                    Some(cl) => {
                        if now >= cl.exp {
                            Err(TokenError::Expired)
                        } else {
                            Ok(cl)
                        }
                    },
                }
            }
        },
    }
}

/// `r` is what `validation` gives for the token under the secret at `now`.
pub open spec fn validate_result(
    r: Result<Claims, TokenError>,
    token: Seq<char>,
    secret: Seq<char>,
    now: int,
) -> bool {
    match r {
        Ok(c) => validation(token, secret, now) == Ok::<ClaimsView, TokenError>(c@),
        Err(e) => validation(token, secret, now) == Err::<ClaimsView, TokenError>(e),
    }
}

/// The claims of a token issued at `now` for `ttl` seconds.
pub open spec fn claims_for(agent_id: i64, sub: Seq<char>, now: i64, ttl: i64) -> ClaimsView {
    ClaimsView { sub, agent_id, exp: (now + ttl) as i64, iat: now }
}

/// Header and claims segments joined by a dot: the text that is signed.
pub open spec fn signing_input(c: ClaimsView) -> Seq<char> {
    base64url_encoding(header_json()) + seq!['.'] + base64url_encoding(claims_json(c))
}

/// The token for `c` under `secret`, where the signer produces a signature.
pub open spec fn issued_token(c: ClaimsView, secret: Seq<char>) -> Option<Seq<char>> {
    match hs256_signature(signing_input(c), secret) {
        Some(sig) => Some(signing_input(c) + seq!['.'] + sig),
        None => None,
    }
}

/// `t` is the token issued at `now` for `ttl` seconds.
pub open spec fn token_issued(
    t: Seq<char>,
    agent_id: i64,
    sub: Seq<char>,
    secret: Seq<char>,
    ttl: i64,
    now: i64,
) -> bool {
    now + ttl <= i64::MAX && issued_token(claims_for(agent_id, sub, now, ttl), secret) == Some(t)
}

/// What issuing at `now` gives: a token exactly when the expiry time fits;
/// the token is `issued_token` of the claims.
pub open spec fn issue_result(
    r: Result<String, TokenError>,
    agent_id: i64,
    sub: Seq<char>,
    secret: Seq<char>,
    ttl: i64,
    now: i64,
) -> bool {
    let c = claims_for(agent_id, sub, now, ttl);
    match r {
        Ok(t) => token_issued(t@, agent_id, sub, secret, ttl, now),
        Err(e) => e == TokenError::SigningFailure && now + ttl > i64::MAX,
    }
}

/// The laws that every issued token obeys: under its own secret it validates
/// to its claims strictly before the expiry time and is expired from then on;
/// under any secret whose signature of the same text differs it is refused
/// for its signature, at every time.
pub open spec fn token_laws(t: Seq<char>, c: ClaimsView, secret: Seq<char>) -> bool {
    &&& forall|at: int| #[trigger]
        validation(t, secret, at) == (if at >= c.exp {
            Err::<ClaimsView, TokenError>(TokenError::Expired)
        } else {
            Ok(c)
        })
    &&& forall|other: Seq<char>, at: int|
        hs256_signature(signing_input(c), other) != hs256_signature(signing_input(c), secret)
            ==> #[trigger] validation(t, other, at) == Err::<ClaimsView, TokenError>(
            TokenError::SignatureMismatch,
        )
}

proof fn lemma_next_dot_is(t: Seq<char>, from: int, d: int)
    requires
        0 <= from <= d <= t.len(),
        forall|k: int| from <= k < d ==> t[k] != '.',
        d == t.len() || t[d] == '.',
    ensures
        next_dot(t, from) == d,
    decreases d - from,
{
    if from < d {
        lemma_next_dot_is(t, from + 1, d);
    }
}

proof fn lemma_next_dot_bounds(t: Seq<char>, from: int)
    requires
        0 <= from <= t.len(),
    ensures
        from <= next_dot(t, from) <= t.len(),
        forall|k: int| from <= k < next_dot(t, from) ==> t[k] != '.',
        next_dot(t, from) == t.len() || t[next_dot(t, from)] == '.',
    decreases t.len() - from,
{
    if from < t.len() && t[from] != '.' {
        lemma_next_dot_bounds(t, from + 1);
    }
}

/// Three dot-free segments joined by dots split back into themselves.
proof fn lemma_segments_of_join(h: Seq<char>, c: Seq<char>, s: Seq<char>)
    requires
        forall|k: int| 0 <= k < h.len() ==> h[k] != '.',
        forall|k: int| 0 <= k < c.len() ==> c[k] != '.',
        forall|k: int| 0 <= k < s.len() ==> s[k] != '.',
    ensures
        token_segments(h + seq!['.'] + c + seq!['.'] + s) == Some((h, c, s)),
{
    let t = h + seq!['.'] + c + seq!['.'] + s;
    let d1 = h.len() as int;
    let d2 = d1 + 1 + c.len();
    assert forall|k: int| 0 <= k < d1 implies t[k] != '.' by {
        assert(t[k] == h[k]);
    }
    assert(t[d1] == '.');
    lemma_next_dot_is(t, 0, d1);
    assert forall|k: int| d1 + 1 <= k < d2 implies t[k] != '.' by {
        assert(t[k] == c[k - d1 - 1]);
    }
    assert(t[d2] == '.');
    lemma_next_dot_is(t, d1 + 1, d2);
    assert forall|k: int| d2 + 1 <= k < t.len() implies t[k] != '.' by {
        assert(t[k] == s[k - d2 - 1]);
    }
    lemma_next_dot_is(t, d2 + 1, t.len() as int);
    assert(t.subrange(0, d1) =~= h);
    assert(t.subrange(d1 + 1, d2) =~= c);
    assert(t.subrange(d2 + 1, t.len() as int) =~= s);
}

proof fn lemma_url_safe_dot_free(s: Seq<char>)
    requires
        is_url_safe(s),
    ensures
        forall|k: int| 0 <= k < s.len() ==> s[k] != '.',
{
    assert forall|k: int| 0 <= k < s.len() implies s[k] != '.' by {
        assert(is_url_safe_char(s[k]));
    }
}

fn find_dot(s: &str, from: usize, len: usize) -> (r: usize)
    requires
        len == s@.len(),
        from <= len,
    ensures
        r == next_dot(s@, from as int),
{
    let mut i = from;
    while i < len && s.get_char(i) != '.'
        invariant
            from <= i <= len,
            len == s@.len(),
            next_dot(s@, i as int) == next_dot(s@, from as int),
        decreases len - i,
    {
        i = i + 1;
    }
    i
}

/// Issues a token for the agent at time `now` (Unix seconds), valid for
/// `ttl_seconds` seconds.
pub fn generate_token(
    agent_id: i64,
    agent_number: String,
    secret: &str,
    ttl_seconds: i64,
    now: i64,
) -> (r: Result<String, TokenError>)
    requires
        ttl_seconds > 0,
    ensures
        issue_result(r, agent_id, agent_number@, secret@, ttl_seconds, now),
        now + ttl_seconds <= i64::MAX ==> r is Ok,
        r matches Ok(t) ==> token_laws(t@, claims_for(agent_id, agent_number@, now, ttl_seconds), secret@),
{
    let ghost sub = agent_number@;
    if now > i64::MAX - ttl_seconds {
        return Err(TokenError::SigningFailure);
    }
    let claims = Claims { sub: agent_number, agent_id, exp: now + ttl_seconds, iat: now };
    let ghost c = claims@;
    assert(c == claims_for(agent_id, sub, now, ttl_seconds));
    proof {
        reveal_strlit("typ");
        reveal_strlit("alg");
        assert("typ"@[0] != "alg"@[0]);
    }
    let header = write_json_text_pair("typ", "JWT", "alg", "HS256");
    let header_segment = encode_base64url(header.as_slice());
    let json = encode_claims(&claims);
    let claims_segment = encode_base64url(json.as_slice());
    proof {
        reveal_strlit(".");
    }
    let mut input = header_segment;
    input.append(".");
    input.append(claims_segment.as_str());
    assert(input@ =~= signing_input(c));
    let signature = match sign_hs256(input.as_str(), secret) {
        Some(sig) => sig,
        None => {
            return Err(TokenError::SigningFailure);
        },
    };
    let mut token = input;
    token.append(".");
    token.append(signature.as_str());
    proof {
        let h = base64url_encoding(header_json());
        let cs = base64url_encoding(claims_json(c));
        let sig = signature@;
        assert(token@ =~= h + seq!['.'] + cs + seq!['.'] + sig);
        lemma_url_safe_dot_free(h);
        lemma_url_safe_dot_free(cs);
        lemma_url_safe_dot_free(sig);
        lemma_segments_of_join(h, cs, sig);
        assert(h + seq!['.'] + cs =~= signing_input(c));
        assert forall|at: int| #[trigger]
            validation(token@, secret@, at) == (if at >= c.exp {
                Err::<ClaimsView, TokenError>(TokenError::Expired)
            } else {
                Ok(c)
            }) by {}
        assert forall|other: Seq<char>, at: int|
            hs256_signature(signing_input(c), other) != hs256_signature(signing_input(c), secret@)
                implies #[trigger] validation(token@, other, at) == Err::<ClaimsView, TokenError>(
            TokenError::SignatureMismatch,
        ) by {}
    }
    Ok(token)
}

/// Validates a token under `secret` at time `now` (Unix seconds) and returns
/// its claims.
pub fn decode_token(token: &str, secret: &str, now: i64) -> (r: Result<Claims, TokenError>)
    ensures
        validate_result(r, token@, secret@, now as int),
{
    let len = token.unicode_len();
    let d1 = find_dot(token, 0, len);
    if d1 >= len {
        return Err(TokenError::Malformed);
    }
    let d2 = find_dot(token, d1 + 1, len);
    if d2 >= len {
        return Err(TokenError::Malformed);
    }
    let d3 = find_dot(token, d2 + 1, len);
    if d3 < len {
        return Err(TokenError::Malformed);
    }
    proof {
        lemma_next_dot_bounds(token@, 0);
        lemma_next_dot_bounds(token@, d1 + 1);
    }
    let header_segment = token.substring_char(0, d1);
    let claims_segment = token.substring_char(d1 + 1, d2);
    let signature = token.substring_char(d2 + 1, len);
    let signed = token.substring_char(0, d2);
    assert(signed@ =~= header_segment@ + seq!['.'] + claims_segment@);
    let header_bytes = match decode_base64url(header_segment) {
        Some(b) => b,
        None => {
            return Err(TokenError::Malformed);
        },
    };
    let claims_bytes = match decode_base64url(claims_segment) {
        Some(b) => b,
        None => {
            return Err(TokenError::Malformed);
        },
    };
    let hs256 = String::from_str("HS256");
    match read_json_text(header_bytes.as_slice(), "alg") {
        Some(alg) => {
            if !alg.eq(&hs256) {
                return Err(TokenError::Malformed);
            }
        },
        None => {
            return Err(TokenError::Malformed);
        },
    }
    match verify_hs256(signature, signed, secret) {
        Some(true) => {},
        _ => {
            return Err(TokenError::SignatureMismatch);
        },
    }
    let claims = match decode_claims(claims_bytes.as_slice()) {
        Some(c) => c,
        None => {
            return Err(TokenError::Malformed);
        },
    };
    if now >= claims.exp {
        return Err(TokenError::Expired);
    }
    Ok(claims)
}

/// Changing one character of the claims segment of a token that validates,
/// to another character that is not a dot and leaves the segment base64url,
/// makes it fail on its signature, unless the signature of the changed text
/// happens to equal that of the original.
pub proof fn lemma_tampered_claims_rejected(
    token: Seq<char>,
    secret: Seq<char>,
    now: int,
    pos: int,
    ch: char,
)
    requires
        validation(token, secret, now) is Ok,
        token_segments(token) is Some,
        ({
            let (h, c, sig) = token_segments(token)->Some_0;
            let changed = c.update(pos - h.len() - 1, ch);
            &&& h.len() + 1 <= pos < h.len() + 1 + c.len()
            &&& ch != '.'
            &&& base64url_decoding(changed) is Some
            &&& hs256_signature(h + seq!['.'] + changed, secret) != hs256_signature(
                h + seq!['.'] + c,
                secret,
            )
        }),
    ensures
        validation(token.update(pos, ch), secret, now) == Err::<ClaimsView, TokenError>(
            TokenError::SignatureMismatch,
        ),
{
    let (h, c, sig) = token_segments(token)->Some_0;
    let changed = c.update(pos - h.len() - 1, ch);
    let t2 = token.update(pos, ch);
    let d1 = next_dot(token, 0);
    lemma_next_dot_bounds(token, 0);
    let d2 = next_dot(token, d1 + 1);
    lemma_next_dot_bounds(token, d1 + 1);
    lemma_next_dot_bounds(token, d2 + 1);
    assert(token =~= h + seq!['.'] + c + seq!['.'] + sig);
    assert(t2 =~= h + seq!['.'] + changed + seq!['.'] + sig);
    assert forall|k: int| 0 <= k < h.len() implies h[k] != '.' by {
        assert(h[k] == token[k]);
    }
    assert forall|k: int| 0 <= k < changed.len() implies changed[k] != '.' by {
        if k != pos - h.len() - 1 {
            assert(changed[k] == token[d1 + 1 + k]);
        }
    }
    assert forall|k: int| 0 <= k < sig.len() implies sig[k] != '.' by {
        assert(sig[k] == token[d2 + 1 + k]);
    }
    lemma_segments_of_join(h, changed, sig);
}

} // verus!
