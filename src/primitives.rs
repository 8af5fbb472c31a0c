//! Calls into outside crates, each with the contract that the library relies on.

use vstd::prelude::*;
use base64::Engine;

verus! {

/// Characters of the URL-safe base64 alphabet: letters, digits, `-` and `_`.
pub open spec fn is_url_safe_char(c: char) -> bool {
    ('A' <= c && c <= 'Z') || ('a' <= c && c <= 'z') || ('0' <= c && c <= '9') || c == '-' || c
        == '_'
}

/// Text written entirely in the URL-safe base64 alphabet (so it holds no `.`).
pub open spec fn is_url_safe(s: Seq<char>) -> bool {
    forall|i: int| 0 <= i < s.len() ==> is_url_safe_char(#[trigger] s[i])
}

/// The unpadded base64url text of a byte string.
pub uninterp spec fn base64url_encoding(bytes: Seq<u8>) -> Seq<char>;

/// The bytes that unpadded base64url decoding reads from a text, if it is one.
pub uninterp spec fn base64url_decoding(text: Seq<char>) -> Option<Seq<u8>>;

/// Relies on base64's `URL_SAFE_NO_PAD.encode`: the output uses the URL-safe
/// alphabet without padding, and `URL_SAFE_NO_PAD.decode` reads the input back.
#[verifier::external_body]
pub(crate) fn encode_base64url(bytes: &[u8]) -> (r: String)
    ensures
        r@ == base64url_encoding(bytes@),
        is_url_safe(r@),
        base64url_decoding(r@) == Some(bytes@),
{
    base64::engine::general_purpose::URL_SAFE_NO_PAD.encode(bytes)
}

/// Relies on base64's `URL_SAFE_NO_PAD.decode`: the decoded bytes, or an error.
#[verifier::external_body]
pub(crate) fn decode_base64url(text: &str) -> (r: Option<Vec<u8>>)
    ensures
        match r {
            Some(v) => base64url_decoding(text@) == Some(v@),
            None => base64url_decoding(text@) is None,
        },
{
    base64::engine::general_purpose::URL_SAFE_NO_PAD.decode(text.as_bytes()).ok()
}

/// The HMAC-SHA256 signature of a message under a secret, as base64url text
/// (or `None` where the signer reports an error).
pub uninterp spec fn hs256_signature(message: Seq<char>, secret: Seq<char>) -> Option<Seq<char>>;

/// Relies on jsonwebtoken's `crypto::sign` with `HS256` and a key made by
/// `EncodingKey::from_secret`: the unpadded base64url text of the HMAC-SHA256 of
/// the message's bytes under the secret's bytes. For `HS256` it always
/// returns `Ok`.
#[verifier::external_body]
pub(crate) fn sign_hs256(message: &str, secret: &str) -> (r: Option<String>)
    ensures
        r is Some,
        match r {
            Some(s) => hs256_signature(message@, secret@) == Some(s@) && is_url_safe(s@),
            None => hs256_signature(message@, secret@) is None,
        },
{
    jsonwebtoken::crypto::sign(
        message.as_bytes(),
        &jsonwebtoken::EncodingKey::from_secret(secret.as_bytes()),
        jsonwebtoken::Algorithm::HS256,
    ).ok()
}

/// Relies on jsonwebtoken's `crypto::verify` with `HS256`: it signs the message
/// again as `crypto::sign` does and compares that text with `signature` in
/// constant time.
#[verifier::external_body]
pub(crate) fn verify_hs256(signature: &str, message: &str, secret: &str) -> (r: Option<bool>)
    ensures
        match hs256_signature(message@, secret@) {
            Some(s) => r == Some(s == signature@),
            None => r is None,
        },
{
    jsonwebtoken::crypto::verify(
        signature,
        message.as_bytes(),
        &jsonwebtoken::DecodingKey::from_secret(secret.as_bytes()),
        jsonwebtoken::Algorithm::HS256,
    ).ok()
}

/// The string member named `key` of the JSON object in `json`, if `json` is a
/// JSON object with such a member and its value is a string.
pub uninterp spec fn json_text_member(json: Seq<u8>, key: Seq<char>) -> Option<Seq<char>>;

/// The integer member named `key` of the JSON object in `json`, if `json` is
/// a JSON object with such a member and its value is an integer that fits
/// `i64`.
pub uninterp spec fn json_integer_member(json: Seq<u8>, key: Seq<char>) -> Option<i64>;

/// Relies on serde_json's `from_slice` into a `Value`, then `Value::get` and
/// `Value::as_str`: `None` where the bytes are not JSON, not an object, or
/// lack a string member of that name.
#[verifier::external_body]
pub(crate) fn read_json_text(json: &[u8], key: &str) -> (r: Option<String>)
    ensures
        match r {
            Some(s) => json_text_member(json@, key@) == Some(s@),
            None => json_text_member(json@, key@) is None,
        },
{
    match serde_json::from_slice::<serde_json::Value>(json) {
        Ok(v) => match v.get(key) {
            Some(m) => m.as_str().map(String::from),
            None => None,
        },
        Err(_) => None,
    }
}

/// Relies on serde_json's `from_slice` into a `Value`, then `Value::get` and
/// `Value::as_i64`: `None` where the bytes are not JSON, not an object, or
/// lack an integer member of that name that fits `i64`.
#[verifier::external_body]
pub(crate) fn read_json_integer(json: &[u8], key: &str) -> (r: Option<i64>)
    ensures
        r == json_integer_member(json@, key@),
{
    match serde_json::from_slice::<serde_json::Value>(json) {
        Ok(v) => match v.get(key) {
            Some(m) => m.as_i64(),
            None => None,
        },
        Err(_) => None,
    }
}

/// The JSON text that serde_json writes for an object of two string members.
pub uninterp spec fn json_text_pair(k1: Seq<char>, v1: Seq<char>, k2: Seq<char>, v2: Seq<char>) -> Seq<u8>;

/// Relies on serde_json's `to_vec` of a `Value::Object` holding two
/// `Value::String` members: keys are strings and the output is a `Vec`, so
/// writing cannot fail; the text depends on the members alone, and
/// `from_slice` reads each member back as written.
#[verifier::external_body]
pub(crate) fn write_json_text_pair(k1: &str, v1: &str, k2: &str, v2: &str) -> (r: Vec<u8>)
    requires
        k1@ != k2@,
    ensures
        r@ == json_text_pair(k1@, v1@, k2@, v2@),
        json_text_member(r@, k1@) == Some(v1@),
        json_text_member(r@, k2@) == Some(v2@),
{
    let mut m = serde_json::Map::new();
    m.insert(k1.to_string(), serde_json::Value::from(v1));
    m.insert(k2.to_string(), serde_json::Value::from(v2));
    serde_json::to_vec(&serde_json::Value::Object(m)).unwrap_or_default()
}

/// The JSON text that serde_json writes for an object of one string member
/// and three integer members.
pub uninterp spec fn json_text_and_integers(
    k0: Seq<char>,
    v0: Seq<char>,
    k1: Seq<char>,
    v1: i64,
    k2: Seq<char>,
    v2: i64,
    k3: Seq<char>,
    v3: i64,
) -> Seq<u8>;

/// Relies on serde_json's `to_vec` of a `Value::Object` holding a
/// `Value::String` and three integer `Value::Number` members: keys are strings
/// and the output is a `Vec`, so writing cannot fail; the text depends on the
/// members alone, and `from_slice` reads each member back as written.
#[verifier::external_body]
pub(crate) fn write_json_text_and_integers(
    k0: &str,
    v0: &str,
    k1: &str,
    v1: i64,
    k2: &str,
    v2: i64,
    k3: &str,
    v3: i64,
) -> (r: Vec<u8>)
    requires
        k0@ != k1@,
        k0@ != k2@,
        k0@ != k3@,
        k1@ != k2@,
        k1@ != k3@,
        k2@ != k3@,
    ensures
        r@ == json_text_and_integers(k0@, v0@, k1@, v1, k2@, v2, k3@, v3),
        json_text_member(r@, k0@) == Some(v0@),
        json_integer_member(r@, k1@) == Some(v1),
        json_integer_member(r@, k2@) == Some(v2),
        json_integer_member(r@, k3@) == Some(v3),
{
    let mut m = serde_json::Map::new();
    m.insert(k0.to_string(), serde_json::Value::from(v0));
    m.insert(k1.to_string(), serde_json::Value::from(v1));
    m.insert(k2.to_string(), serde_json::Value::from(v2));
    m.insert(k3.to_string(), serde_json::Value::from(v3));
    serde_json::to_vec(&serde_json::Value::Object(m)).unwrap_or_default()
}

/// What bcrypt's `verify` answers for a password and a stored hash: whether they
/// match, or `None` where the hash cannot be read.
pub uninterp spec fn bcrypt_verdict(password: Seq<char>, hash: Seq<char>) -> Option<bool>;

/// Relies on bcrypt's `verify`: it reads cost and salt from the hash, hashes the
/// password with them and compares in constant time; an unreadable hash is an error.
#[verifier::external_body]
pub(crate) fn bcrypt_verify(password: &str, hash: &str) -> (r: Option<bool>)
    ensures
        r == bcrypt_verdict(password@, hash@),
{
    bcrypt::verify(password, hash).ok()
}

/// The decimal digit character of a value below 10.
pub open spec fn digit_char(d: u32) -> char {
    if d == 0 {
        '0'
    } else if d == 1 {
        '1'
    } else if d == 2 {
        '2'
    } else if d == 3 {
        '3'
    } else if d == 4 {
        '4'
    } else if d == 5 {
        '5'
    } else if d == 6 {
        '6'
    } else if d == 7 {
        '7'
    } else if d == 8 {
        '8'
    } else {
        '9'
    }
}

/// `$2b$`, the cost in two digits, and `$`: how a bcrypt hash begins.
pub open spec fn bcrypt_prefix(cost: u32) -> Seq<char> {
    seq!['$', '2', 'b', '$', digit_char(cost / 10), digit_char(cost % 10), '$']
}

/// Relies on bcrypt's `hash`: a fresh random salt each call; the result is
/// `$2b$`, the cost as two digits, `$`, the salt and the digest, which
/// `verify` reads back and accepts for the same password.
#[verifier::external_body]
pub(crate) fn bcrypt_hash(password: &str, cost: u32) -> (r: Option<String>)
    requires
        cost < 100,
    ensures
        r matches Some(h) ==> bcrypt_verdict(password@, h@) == Some(true),
        r matches Some(h) ==> h@.len() >= 7 && h@.subrange(0, 7) == bcrypt_prefix(cost),
{
    bcrypt::hash(password, cost).ok()
}

/// A character that `sanitize_filename` always removes: path separators and
/// the other characters reserved in file names, and control characters.
pub open spec fn is_reserved_file_char(c: char) -> bool {
    c == '/' || c == '\\' || c == '?' || c == '<' || c == '>' || c == ':' || c == '*' || c == '|'
        || c == '"' || (c as u32) < 0x20 || (0x80 <= (c as u32) && (c as u32) <= 0x9f)
}

/// The file name that sanitize_filename makes of `name` under its Unix rules.
pub uninterp spec fn sanitized_name(name: Seq<char>) -> Seq<char>;

/// Relies on sanitize_filename's `sanitize_with_options` with the Unix rules
/// (no Windows rules, truncation to 255 bytes, removal rather than
/// replacement): the result depends on the name alone, and every reserved and
/// control character is deleted, so none is left.
#[verifier::external_body]
pub(crate) fn sanitize_file_name(name: &str) -> (r: String)
    ensures
        r@ == sanitized_name(name@),
        forall|i: int| 0 <= i < r@.len() ==> !is_reserved_file_char(#[trigger] r@[i]),
{
    sanitize_filename::sanitize_with_options(
        name,
        sanitize_filename::Options { windows: false, truncate: true, replacement: "" },
    )
}

} // verus!
