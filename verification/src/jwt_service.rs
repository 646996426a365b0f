//! Session tokens, made and checked by the jsonwebtoken crate behind two
//! trusted wrappers. Producing a token is a function of the claims and the
//! secret alone and is named as such; checking one also consults the clock
//! for expiry, so nothing is assumed of its outcome, and the decision on
//! whatever comes back is made by verified code. The secret and the current
//! time are handed in by the caller.

use vstd::prelude::*;

verus! {

/// A session token's claims: the user's email and the expiry timestamp
/// (unix seconds).
#[derive(Clone, Debug)]
pub struct Claims {
    pub sub: String,
    pub exp: u64,
}

/// Sessions last a day: the seconds added to the issue time for `exp`.
pub const SESSION_SECONDS: u64 = 86400;

/// What `jsonwebtoken::encode` returns for claims `{sub, exp}` under the
/// default header (HMAC-SHA256) and this secret: a function of the three
/// alone.
pub uninterp spec fn token_of(sub: Seq<char>, exp: u64, secret: Seq<char>) -> Seq<char>;

/// Relies on jsonwebtoken::encode with Header::default() (HMAC-SHA256) and
/// EncodingKey::from_secret: the token is computed from the claims and the
/// secret alone, and signing with an HMAC secret of any length succeeds.
#[verifier::external_body]
fn encode_jwt(sub: &str, exp: u64, secret: &str) -> (r: String)
    ensures
        r@ == token_of(sub@, exp, secret@),
{
    let mut claims = serde_json::Map::new();
    claims.insert("sub".to_string(), serde_json::Value::String(sub.to_string()));
    claims.insert("exp".to_string(), serde_json::Value::from(exp));
    jsonwebtoken::encode(
        &jsonwebtoken::Header::default(),
        &serde_json::Value::Object(claims),
        &jsonwebtoken::EncodingKey::from_secret(secret.as_bytes()),
    ).expect("HMAC signing of a JSON object cannot fail")
}

/// Relies on jsonwebtoken::decode with Validation::default() (HMAC-SHA256,
/// expiry required and checked against the clock): the claims come back only
/// from a token whose signature verifies under the secret and whose expiry
/// has not passed. Because the outcome depends on the clock, nothing is
/// assumed of it here; callers decide on the returned value.
#[verifier::external_body]
fn decode_jwt(token: &str, secret: &str) -> (r: Option<Claims>) {
    let data = jsonwebtoken::decode::<serde_json::Value>(
        token,
        &jsonwebtoken::DecodingKey::from_secret(secret.as_bytes()),
        &jsonwebtoken::Validation::default(),
    ).ok()?;
    let sub = data.claims.get("sub")?.as_str()?.to_string();
    let exp = data.claims.get("exp")?.as_u64()?;
    Some(Claims { sub, exp })
}

/// Issues the session token for `email`, expiring one day after `now`
/// (unix seconds).
pub fn generate_jwt(email: &str, secret: &str, now: u64) -> (r: String)
    requires
        now <= u64::MAX - SESSION_SECONDS,
    ensures
        r@ == token_of(email@, (now + SESSION_SECONDS) as u64, secret@),
{
    encode_jwt(email, now + SESSION_SECONDS, secret)
}

/// The decision on whatever a token check handed back: the subject on
/// success, the sign-in flow's rejection text otherwise.
pub fn claims_subject(decoded: Option<Claims>) -> (r: Result<String, String>)
    ensures
        match decoded {
            Some(c) => r matches Ok(s) && s == c.sub,
            None => r matches Err(e) && e@ == "Invalid token"@,
        },
{
    match decoded {
        Some(c) => Ok(c.sub),
        None => Err(String::from_str("Invalid token")),
    }
}

/// Checks a session token against the secret and the clock and returns its
/// subject; the token must carry a valid signature and an unexpired `exp`.
pub fn validate_jwt(token: &str, secret: &str) -> (r: Result<String, String>)
    ensures
        r matches Err(e) ==> e@ == "Invalid token"@,
{
    claims_subject(decode_jwt(token, secret))
}

} // verus!
