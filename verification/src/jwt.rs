use vstd::prelude::*;

use crate::error::AppError;

verus! {

/// The token `jsonwebtoken::encode` builds with the default header (HS256) for claims
/// given as JSON text, signed with the UTF-8 bytes of `secret`; `None` where encoding
/// fails (the text is not a single JSON value).
pub uninterp spec fn hs256_token(claims_json: Seq<char>, secret: Seq<char>) -> Option<Seq<char>>;

/// True when `serde_json::value::RawValue::from_string` accepts `text`: a single JSON
/// value, with nothing but JSON whitespace around it.
pub uninterp spec fn is_json_value(text: Seq<char>) -> bool;

/// The JSON text of a token's claims as `jsonwebtoken::decode` hands it back when it
/// accepts the token: the middle segment, base64url-decoded, without surrounding whitespace.
pub uninterp spec fn token_claims_text(token: Seq<char>) -> Seq<char>;

/// True when `token` is a compact JWS whose header names HS256 and whose third segment is
/// the HMAC-SHA256, under the UTF-8 bytes of `secret`, of its first two segments: what
/// `jsonwebtoken`'s signature check (`verify_signature`) accepts for that key.
pub uninterp spec fn hs256_signed(token: Seq<char>, secret: Seq<char>) -> bool;

/// True when `jsonwebtoken::decode`, with the secret's bytes as key and the default
/// validation but no expiry check, accepts `token`: a well-formed HS256 token whose
/// signature holds under the secret and whose claims are a JSON object with a numeric
/// `exp` and no `aud`.
pub uninterp spec fn hs256_accepts(token: Seq<char>, secret: Seq<char>) -> bool;

/// The whitespace JSON allows around a value.
pub open spec fn is_json_space(c: char) -> bool {
    c == ' ' || c == '\t' || c == '\n' || c == '\r'
}

/// A text with no JSON whitespace at either end (as `serde_json` writes a value).
pub open spec fn is_trimmed(s: Seq<char>) -> bool {
    s.len() > 0 && !is_json_space(s[0]) && !is_json_space(s[s.len() - 1])
}

/// Calls `jsonwebtoken::encode` with `Header::default()` and `EncodingKey::from_secret`
/// on the secret's bytes, the claims being the given JSON text wrapped as a
/// `serde_json::value::RawValue`, which serializes verbatim. The token is named
/// `hs256_token`. What the crate's source shows of it: its payload segment is the
/// base64url of that text, so decoding gives the text back where it has no surrounding
/// whitespace, and the token is signed with HS256 under the secret. The only step that can
/// fail is the parse of the text as a raw JSON value (`is_json_value`): with an HMAC key
/// and the HS256 header, `encode` itself has no failing path. The text of an error is not
/// stated.
#[verifier::external_body]
fn jwt_encode(claims_json: String, secret: &str) -> (res: Result<String, String>)
    ensures
        res is Ok <==> is_json_value(claims_json@),
        match hs256_token(claims_json@, secret@) {
            Some(t) => res matches Ok(r) && r@ == t,
            None => res is Err,
        },
        res matches Ok(t) ==> (is_trimmed(claims_json@) ==> token_claims_text(t@) == claims_json@),
        res matches Ok(t) ==> hs256_signed(t@, secret@),
{
    let claims = serde_json::value::RawValue::from_string(claims_json).map_err(|e| e.to_string())?;
    let key = jsonwebtoken::EncodingKey::from_secret(secret.as_bytes());
    jsonwebtoken::encode(&jsonwebtoken::Header::default(), &claims, &key).map_err(|e| e.to_string())
}

/// Calls `jsonwebtoken::decode` with `DecodingKey::from_secret` on the secret's bytes and
/// the default validation with its expiry check switched off (HS256 only, signature
/// checked, `exp` required as a number, no `aud` accepted), the claims taken as a
/// `serde_json::value::RawValue`. With no time check the crate never reads the clock, so
/// whether a token is accepted depends on the token and the secret alone, and is named
/// `hs256_accepts`; an accepted token carries an HS256 signature under this secret
/// (`hs256_signed`) and yields its claims text, named `token_claims_text`. Expiry is
/// checked by the caller against its own reading of the clock.
#[verifier::external_body]
fn jwt_decode(token: &str, secret: &str) -> (res: Option<String>)
    ensures
        res is Some <==> hs256_accepts(token@, secret@),
        res matches Some(text) ==> text@ == token_claims_text(token@),
        res is Some ==> hs256_signed(token@, secret@),
{
    let key = jsonwebtoken::DecodingKey::from_secret(secret.as_bytes());
    let mut validation = jsonwebtoken::Validation::default();
    validation.validate_exp = false;
    match jsonwebtoken::decode::<Box<serde_json::value::RawValue>>(token, &key, &validation) {
        Ok(data) => Some(data.claims.get().to_string()),
        Err(_) => None,
    }
}

/// Signs claims, given as their JSON text, into an HS256 token with the secret. Any JSON
/// text is signed; what is signed is what a later decoding of the token gives back.
pub fn sign_token(claims_json: String, secret: &str) -> (res: Result<String, AppError>)
    ensures
        res is Ok <==> is_json_value(claims_json@),
        match hs256_token(claims_json@, secret@) {
            Some(t) => res matches Ok(r) && r@ == t,
            None => res matches Err(e) && e@ is Internal,
        },
        res matches Ok(t) ==> (is_trimmed(claims_json@) ==> token_claims_text(t@) == claims_json@),
        res matches Ok(t) ==> hs256_signed(t@, secret@),
{
    match jwt_encode(claims_json, secret) {
        Ok(t) => Ok(t),
        Err(m) => Err(AppError::Internal(m)),
    }
}

/// Checks a presented token (signature, algorithm, required claims) with the secret and,
/// where it is accepted, yields the JSON text of its claims; `None` for any refusal. Only a
/// token signed with HS256 under this very secret is ever accepted. Expiry is not checked
/// here: it is a matter of the time, which `accept_token` compares with the claims.
pub fn decode_token(token: &str, secret: &str) -> (res: Option<String>)
    ensures
        res is Some <==> hs256_accepts(token@, secret@),
        res matches Some(text) ==> text@ == token_claims_text(token@),
        res is Some ==> hs256_signed(token@, secret@),
{
    jwt_decode(token, secret)
}

} // verus!
