use vstd::prelude::*;
use crate::error::{ErrorKind, ErrorMessage, HttpError};

verus! {

/// The claims that a token asserts: its subject, when it was issued and when
/// it expires, both in seconds since the Unix epoch.
#[derive(Debug)]
pub struct TokenClaims {
    pub sub: String,
    pub iat: u64,
    pub exp: u64,
}

/// Why a token could not be issued.
#[derive(Debug, Clone, Copy, PartialEq, Eq, Structural)]
pub enum TokenError {
    /// The subject is empty.
    InvalidSubject,
    /// The lifetime is not positive, or the issue or expiry time does not fit
    /// in a timestamp.
    InvalidLifetime,
    /// The signing library refused the claims; with an HMAC secret and the
    /// HS256 header it never does.
    Encoding,
}

pub const SECONDS_PER_MINUTE: i64 = 60;

/// The claims that a token signed with `secret` carries, as
/// `(subject, issued-at, expires-at)`, or `None` when its signature does not
/// verify against `secret` or it is not a well-formed HS256 token. Expiry is
/// not consulted.
pub uninterp spec fn jwt_claims(token: Seq<char>, secret: Seq<u8>) -> Option<(Seq<char>, u64, u64)>;

/// The subject that `token` proves at time `now`: the signature verifies
/// against `secret` and `now` is strictly before the expiry.
pub open spec fn validated_subject(token: Seq<char>, secret: Seq<u8>, now: int) -> Option<Seq<char>> {
    match jwt_claims(token, secret) {
        Some(c) => if now < c.2 {
            Some(c.0)
        } else {
            None
        },
        None => None,
    }
}

/// The expiry of a token issued at `now` for `ttl_minutes` minutes.
pub open spec fn expiry_of(now: int, ttl_minutes: int) -> int {
    now + ttl_minutes * 60
}

/// Whether a token issued at `now` for `ttl_minutes` has representable,
/// strictly ordered issue and expiry times.
pub open spec fn lifetime_ok(now: int, ttl_minutes: int) -> bool {
    &&& ttl_minutes > 0
    &&& now >= 0
    &&& expiry_of(now, ttl_minutes) <= i64::MAX
}

/// Why issuing a token for `subject` at `now` is refused, if it is.
pub open spec fn issue_error(subject: Seq<char>, now: int, ttl_minutes: int) -> Option<TokenError> {
    if subject.len() == 0 {
        Some(TokenError::InvalidSubject)
    } else if !lifetime_ok(now, ttl_minutes) {
        Some(TokenError::InvalidLifetime)
    } else {
        None
    }
}

/// The error type of jsonwebtoken, carried opaque.
#[verifier::external_type_specification]
#[verifier::external_body]
pub struct ExJwtError(jsonwebtoken::errors::Error);

/// Relies on jsonwebtoken::encode with the default HS256 header and a key made
/// by EncodingKey::from_secret: the key's family matches the header, a JSON
/// map always serializes and HMAC signing does not fail, so it succeeds; and
/// decoding the result with the same secret gives back the claims.
#[verifier::external_body]
fn jwt_encode(claims: &TokenClaims, secret: &[u8]) -> (r: Result<String, jsonwebtoken::errors::Error>)
    ensures
        r is Ok,
        r matches Ok(t) ==> jwt_claims(t@, secret@) == Some((claims.sub@, claims.iat, claims.exp)),
{
    let mut map = serde_json::Map::new();
    map.insert("sub".to_string(), serde_json::Value::from(claims.sub.clone()));
    map.insert("iat".to_string(), serde_json::Value::from(claims.iat));
    map.insert("exp".to_string(), serde_json::Value::from(claims.exp));
    let key = jsonwebtoken::EncodingKey::from_secret(secret);
    jsonwebtoken::encode(&jsonwebtoken::Header::default(), &map, &key)
}

/// Relies on jsonwebtoken::decode with an HS256 validation whose expiry check
/// is switched off: it checks the signature against `secret` and reads the
/// `sub`, `iat` and `exp` claims.
#[verifier::external_body]
fn jwt_decode(token: &str, secret: &[u8]) -> (r: Option<TokenClaims>)
    ensures
        r is Some <==> jwt_claims(token@, secret@) is Some,
        r matches Some(c) ==> jwt_claims(token@, secret@) == Some((c.sub@, c.iat, c.exp)),
{
    let mut validation = jsonwebtoken::Validation::new(jsonwebtoken::Algorithm::HS256);
    validation.validate_exp = false;
    let key = jsonwebtoken::DecodingKey::from_secret(secret);
    let data = jsonwebtoken::decode::<serde_json::Map<String, serde_json::Value>>(token, &key, &validation).ok()?;
    let c = data.claims;
    Some(TokenClaims { sub: c.get("sub")?.as_str()?.to_string(), iat: c.get("iat")?.as_u64()?, exp: c.get("exp")?.as_u64()? })
}

/// Relies on chrono::Utc::now: the current time in whole seconds since the
/// Unix epoch. Nothing is known of its value.
#[verifier::external_body]
pub(crate) fn now_seconds() -> i64 {
    chrono::Utc::now().timestamp()
}

/// Issues a token for `user_id` that is valid from `now` for `ttl_minutes`
/// minutes, signed with `secret`.
pub fn create_token_at(user_id: &str, secret: &[u8], ttl_minutes: i64, now: i64) -> (r: Result<String, TokenError>)
    ensures
        match issue_error(user_id@, now as int, ttl_minutes as int) {
            Some(e) => r == Err::<String, TokenError>(e),
            None => r is Ok,
        },
        r matches Ok(t) ==> jwt_claims(t@, secret@) == Some(
            (user_id@, now as u64, expiry_of(now as int, ttl_minutes as int) as u64),
        ),
        r matches Ok(t) ==> forall|later: int|
            now <= later < expiry_of(now as int, ttl_minutes as int) ==> #[trigger] validated_subject(
                t@,
                secret@,
                later,
            ) == Some(user_id@),
{
    if user_id.unicode_len() == 0 {
        return Err(TokenError::InvalidSubject);
    }
    if ttl_minutes <= 0 || now < 0 {
        return Err(TokenError::InvalidLifetime);
    }
    let exp = match ttl_minutes.checked_mul(SECONDS_PER_MINUTE) {
        Some(span) => now.checked_add(span),
        None => None,
    };
    let exp = match exp {
        Some(e) => e,
        None => {
            return Err(TokenError::InvalidLifetime);
        },
    };
    let iat = now as u64;
    let exp = exp as u64;
    let claims = TokenClaims { sub: user_id.to_string(), iat, exp };
    match jwt_encode(&claims, secret) {
        Ok(t) => Ok(t),
        Err(_) => Err(TokenError::Encoding),
    }
}

/// Issues a token for `user_id` that is valid for `ttl_minutes` minutes from
/// the current time.
pub fn create_token(user_id: &str, secret: &[u8], ttl_minutes: i64) -> (r: Result<String, TokenError>)
    ensures
        (r == Err::<String, TokenError>(TokenError::InvalidSubject)) <==> user_id@.len() == 0,
        r is Err ==> r == Err::<String, TokenError>(TokenError::InvalidSubject) || r == Err::<String, TokenError>(
            TokenError::InvalidLifetime,
        ),
        user_id@.len() > 0 && ttl_minutes <= 0 ==> r == Err::<String, TokenError>(TokenError::InvalidLifetime),
        r matches Ok(t) ==> exists|now: int|
            lifetime_ok(now, ttl_minutes as int) && jwt_claims(t@, secret@) == Some(
                (user_id@, now as u64, expiry_of(now, ttl_minutes as int) as u64),
            ),
{
    let now = now_seconds();
    create_token_at(user_id, secret, ttl_minutes, now)
}

/// The subject of `token` if it is valid at time `now` (seconds since the
/// Unix epoch) under `secret`.
pub fn decode_token_at(token: &str, secret: &[u8], now: i64) -> (r: Result<String, HttpError>)
    ensures
        r is Ok <==> validated_subject(token@, secret@, now as int) is Some,
        r matches Ok(s) ==> validated_subject(token@, secret@, now as int) == Some(s@),
        r matches Err(e) ==> e == HttpError::spec_new(ErrorMessage::InvalidToken, ErrorKind::Unauthorized),
        jwt_claims(token@, secret@) matches Some(c) && now >= c.2 ==> r is Err,
{
    match jwt_decode(token, secret) {
        Some(c) => {
            if (now as i128) < (c.exp as i128) {
                Ok(c.sub)
            } else {
                Err(HttpError::unauthorized(ErrorMessage::InvalidToken))
            }
        },
        None => Err(HttpError::unauthorized(ErrorMessage::InvalidToken)),
    }
}

/// The subject of `token` if it is valid now under `secret`.
pub fn decode_token(token: &str, secret: &[u8]) -> (r: Result<String, HttpError>)
    ensures
        r is Ok ==> exists|now: int| validated_subject(token@, secret@, now) == Some(r->Ok_0@),
        jwt_claims(token@, secret@) is None ==> r is Err,
        r matches Err(e) ==> e == HttpError::spec_new(ErrorMessage::InvalidToken, ErrorKind::Unauthorized),
{
    let now = now_seconds();
    decode_token_at(token, secret, now)
}

} // verus!
