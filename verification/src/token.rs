//! Session tokens: HS256 JSON Web Tokens carrying the user id, issue time and
//! expiry time.
use vstd::prelude::*;
use jsonwebtoken::{Algorithm, DecodingKey, EncodingKey, Header, Validation};

use crate::errors::{unauthorized_of, unauthorized_with, ErrorMessage, HttpError};

verus! {

/// The claims of a session token: subject (the user id as text), issued-at and
/// expiry, both in seconds since the Unix epoch.
#[derive(Debug, Clone)]
pub struct Claims {
    pub sub: String,
    pub iat: i64,
    pub exp: i64,
}

/// Why a token was not made.
#[derive(Debug, Clone, Copy, PartialEq, Eq, Structural)]
pub enum TokenError {
    /// The subject (user id) is empty.
    InvalidSubject,
}

/// The largest number of minutes, either way, that a token's lifetime may span:
/// `chrono::Duration::minutes` panics beyond `i64::MAX` milliseconds.
pub const MAX_LIFETIME_MINUTES: i64 = 153722867280912;

/// A bound on the Unix timestamp (in seconds) of any `DateTime<Utc>`: chrono
/// represents years from -262143 to 262142 only.
pub const TIMESTAMP_BOUND: i64 = 8400000000000;

/// The token that `jsonwebtoken::encode` produces with the default header (HS256)
/// and an HMAC key made from `secret`, for the claims `{"sub","iat","exp"}` in
/// this order.
pub uninterp spec fn jwt_hs256_token(sub: Seq<char>, iat: i64, exp: i64, secret: Seq<u8>) -> Seq<
    char,
>;

/// Whether the token is three dot-separated parts whose last is the HS256 (HMAC
/// with SHA-256) signature, under a key made from `secret`, of the first two: the
/// signature check of `jsonwebtoken::decode`, which reads only the token and the
/// key.
pub uninterp spec fn hs256_signed(token: Seq<char>, secret: Seq<u8>) -> bool;

/// The current time: `chrono::Utc::now().timestamp()`. Claimed: it lies within
/// the range of timestamps that a `DateTime<Utc>` can have. Which instant it is
/// depends on the clock and is not stated.
#[verifier::external_body]
pub(crate) fn utc_now_timestamp() -> (t: i64)
    ensures
        -TIMESTAMP_BOUND <= t <= TIMESTAMP_BOUND,
{
    chrono::Utc::now().timestamp()
}

/// `now` is a reading of the clock in seconds: a value that `utc_now_timestamp`
/// returned.
pub closed spec fn clock_reading(now: i64) -> bool {
    call_ensures(utc_now_timestamp, (), now)
}

/// Reads the clock, in seconds since the Unix epoch.
pub(crate) fn read_clock() -> (now: i64)
    ensures
        clock_reading(now),
        -TIMESTAMP_BOUND <= now <= TIMESTAMP_BOUND,
{
    utc_now_timestamp()
}

/// A bound on the Unix time in microseconds of any `DateTime<Utc>`.
pub const MICROS_BOUND: i64 = 8400000000000000000;

/// The current time in microseconds: `chrono::Utc::now().timestamp_micros()`.
/// Claimed: it lies within the range of a `DateTime<Utc>`. Which instant it is
/// depends on the clock and is not stated.
#[verifier::external_body]
pub(crate) fn utc_now_micros() -> (t: i64)
    ensures
        -MICROS_BOUND <= t <= MICROS_BOUND,
{
    chrono::Utc::now().timestamp_micros()
}

/// `now` is a reading of the clock in microseconds: a value that `utc_now_micros`
/// returned.
pub closed spec fn clock_micros_reading(now: i64) -> bool {
    call_ensures(utc_now_micros, (), now)
}

/// Reads the clock, in microseconds since the Unix epoch.
pub(crate) fn read_clock_micros() -> (now: i64)
    ensures
        clock_micros_reading(now),
        -MICROS_BOUND <= now <= MICROS_BOUND,
{
    utc_now_micros()
}

/// `jsonwebtoken::encode(&Header::default(), claims, &EncodingKey::from_secret(secret))`
/// with the claims as a JSON object whose keys keep the order sub, iat, exp.
/// Claimed: the result is the named token of those values, and its signature checks
/// under the same secret (`encode` signs header and payload with that key and
/// appends the signature). `encode` fails only
/// when the key's family differs from the header's algorithm, which it does not
/// here (HS256 with an HMAC secret), and HMAC signing does not fail.
#[verifier::external_body]
fn encode_claims(claims: &Claims, secret: &[u8]) -> (token: String)
    ensures
        token@ == jwt_hs256_token(claims.sub@, claims.iat, claims.exp, secret@),
        hs256_signed(token@, secret@),
{
    let mut m = serde_json::Map::new();
    m.insert("sub".to_string(), serde_json::Value::from(claims.sub.clone()));
    m.insert("iat".to_string(), serde_json::Value::from(claims.iat));
    m.insert("exp".to_string(), serde_json::Value::from(claims.exp));
    jsonwebtoken::encode(&Header::default(), &m, &EncodingKey::from_secret(secret))
        .unwrap_or_default()
}

/// `jsonwebtoken::decode` with an HMAC key from `secret` and
/// `Validation::new(Algorithm::HS256)`, reading the claims sub (text), iat and exp
/// (integers), with the expiry left unchecked (`validate_exp` off): the caller
/// compares it with the clock. The claim `exp` is still required, as an unsigned
/// number. Claimed: a token decodes only where its signature checks under the
/// secret (`verify_signature` runs first and refuses it otherwise); where a token
/// made by `encode` for some claims decodes, the claims read are those that were
/// written (`decode` reads the payload part of the token it was given, and
/// `encode` wrote the claims there); and such a token with an expiry of 0 or more
/// does decode (its signature checks, its header names HS256, `exp` is present
/// and no other check is enabled).
/// The claims are read through a JSON map, so a payload that repeats a claim key
/// is read with its last value, where a decoding into a typed struct would refuse
/// it; `encode` never writes such a payload.
#[verifier::external_body]
fn decode_claims(token: &str, secret: &[u8]) -> (res: Option<Claims>)
    ensures
        res matches Some(c) ==> encoded_claims_read(token@, secret@, c),
        res is Some ==> hs256_signed(token@, secret@),
        forall|sub: Seq<char>, iat: i64, exp: i64|
            #[trigger] jwt_hs256_token(sub, iat, exp, secret@) == token@ && 0 <= exp ==> res is Some,
{
    let mut validation = Validation::new(Algorithm::HS256);
    validation.validate_exp = false;
    let data = jsonwebtoken::decode::<serde_json::Map<String, serde_json::Value>>(
        token,
        &DecodingKey::from_secret(secret),
        &validation,
    ).ok()?;
    let c = data.claims;
    Some(Claims {
        sub: c.get("sub")?.as_str()?.to_string(),
        iat: c.get("iat")?.as_i64()?,
        exp: c.get("exp")?.as_i64()?,
    })
}

/// The token made for a user at time `now` (seconds) for a lifetime in minutes:
/// issued at `now`, expiring `60 * minutes` seconds later.
pub open spec fn token_outcome(user_id: Seq<char>, secret: Seq<u8>, minutes: i64, now: i64) -> Result<
    Seq<char>,
    TokenError,
> {
    if user_id.len() == 0 {
        Err(TokenError::InvalidSubject)
    } else {
        Ok(jwt_hs256_token(user_id, now, (now + 60 * minutes) as i64, secret))
    }
}

/// The text of a token result.
pub open spec fn token_text(r: Result<String, TokenError>) -> Result<Seq<char>, TokenError> {
    match r {
        Ok(s) => Ok(s@),
        Err(e) => Err(e),
    }
}

/// The expiry of a token issued at `now` for `minutes` minutes.
pub fn expiry_after(now: i64, minutes: i64) -> (exp: i64)
    requires
        -TIMESTAMP_BOUND <= now <= TIMESTAMP_BOUND,
        -MAX_LIFETIME_MINUTES <= minutes <= MAX_LIFETIME_MINUTES,
    ensures
        exp == now + 60 * minutes,
{
    now + 60 * minutes
}

/// Makes the token of a user at the given time. An empty user id is refused,
/// whatever the lifetime; a lifetime is needed only where a token is made.
pub fn create_token_at(user_id: String, secret: &[u8], expires_in_minutes: i64, now: i64) -> (res:
    Result<String, TokenError>)
    requires
        -TIMESTAMP_BOUND <= now <= TIMESTAMP_BOUND,
        user_id@.len() > 0 ==> -MAX_LIFETIME_MINUTES <= expires_in_minutes <= MAX_LIFETIME_MINUTES,
    ensures
        token_text(res) == token_outcome(user_id@, secret@, expires_in_minutes, now),
        res matches Ok(t) ==> hs256_signed(t@, secret@),
{
    if user_id.unicode_len() == 0 {
        return Err(TokenError::InvalidSubject);
    }
    let exp = expiry_after(now, expires_in_minutes);
    let claims = Claims { sub: user_id, iat: now, exp };
    Ok(encode_claims(&claims, secret))
}

/// Makes a token for a user, issued now and valid for the given minutes. An
/// empty user id is refused; otherwise the token is the one made at the clock's
/// reading (in seconds) taken by the call.
pub fn create_token(user_id: String, secret: &[u8], expires_in_minutes: i64) -> (res: Result<
    String,
    TokenError,
>)
    requires
        user_id@.len() > 0 ==> -MAX_LIFETIME_MINUTES <= expires_in_minutes <= MAX_LIFETIME_MINUTES,
    ensures
        user_id@.len() == 0 <==> res == Err::<String, TokenError>(TokenError::InvalidSubject),
        res matches Ok(t) ==> exists|now: i64|
            -TIMESTAMP_BOUND <= now <= TIMESTAMP_BOUND && token_outcome(
                user_id@,
                secret@,
                expires_in_minutes,
                now,
            ) == Ok::<Seq<char>, TokenError>(t@),
        res matches Ok(t) ==> exists|now: i64|
            #[trigger] clock_reading(now) && token_outcome(
                user_id@,
                secret@,
                expires_in_minutes,
                now,
            ) == Ok::<Seq<char>, TokenError>(t@),
        res matches Ok(t) ==> hs256_signed(t@, secret@),
{
    if user_id.unicode_len() == 0 {
        return Err(TokenError::InvalidSubject);
    }
    let now = read_clock();
    let ghost uid = user_id@;
    let res = create_token_at(user_id, secret, expires_in_minutes, now);
    proof {
        if let Ok(t) = &res {
            assert(token_outcome(uid, secret@, expires_in_minutes, now) == Ok::<
                Seq<char>,
                TokenError,
            >(t@));
        }
    }
    res
}

/// The claims read from `token` are those it was made with, wherever it is the
/// token that `encode` makes with the secret for some claims.
pub open spec fn encoded_claims_read(token: Seq<char>, secret: Seq<u8>, c: Claims) -> bool {
    forall|sub: Seq<char>, iat: i64, exp: i64|
        #[trigger] jwt_hs256_token(sub, iat, exp, secret) == token ==> c.sub@ == sub && c.iat == iat
            && c.exp == exp
}

/// The answer to a decoded token: its claims, or "unauthorized" where it did not
/// decode.
pub fn claims_or_unauthorized(decoded: Option<Claims>) -> (res: Result<Claims, HttpError>)
    ensures
        match decoded {
            Some(c) => res matches Ok(r) && r == c,
            None => res matches Err(e) && unauthorized_with(e, ErrorMessage::Unauthorized),
        },
{
    match decoded {
        Some(c) => Ok(c),
        None => Err(unauthorized_of(ErrorMessage::Unauthorized)),
    }
}

/// The leeway, in seconds, that the expiry check allows past a token's `exp`
/// (`jsonwebtoken`'s default).
pub const EXPIRY_LEEWAY_SECONDS: i64 = 60;

/// The answer of decoding `token` with `secret` when the clock reads `now`
/// (seconds): a refusal is "unauthorized"; a token let in has its signature checked
/// under the secret, is not past its expiry plus the leeway, and is read as it was
/// written; and a token made by `encode` with this secret, with an expiry of 0 or
/// more that `now` has not passed by more than the leeway, is let in with the
/// claims it was made with.
pub open spec fn decode_answer(token: Seq<char>, secret: Seq<u8>, now: i64, res: Result<Claims, HttpError>) -> bool {
    &&& res matches Err(e) ==> unauthorized_with(e, ErrorMessage::Unauthorized)
    &&& res matches Ok(c) ==> encoded_claims_read(token, secret, c) && hs256_signed(token, secret)
        && now - EXPIRY_LEEWAY_SECONDS <= c.exp
    &&& forall|sub: Seq<char>, iat: i64, exp: i64|
        #[trigger] jwt_hs256_token(sub, iat, exp, secret) == token && 0 <= exp && now
            - EXPIRY_LEEWAY_SECONDS <= exp ==> (res matches Ok(c) && c.sub@ == sub && c.iat == iat
            && c.exp == exp)
}

/// Decodes and validates a token with the given secret, at the clock's reading
/// taken by the call. A token that does not decode, or whose expiry the clock has
/// passed by more than the leeway, is answered "unauthorized". Only a token whose
/// signature checks under the secret decodes, the claims of a token made for some
/// claims with this secret are read back as they were written, and such a token
/// is let in until its expiry plus the leeway.
pub fn decode_token(token: &str, secret: &[u8]) -> (res: Result<Claims, HttpError>)
    ensures
        res matches Err(e) ==> unauthorized_with(e, ErrorMessage::Unauthorized),
        res matches Ok(c) ==> encoded_claims_read(token@, secret@, c),
        res is Ok ==> hs256_signed(token@, secret@),
        exists|now: i64|
            #[trigger] clock_reading(now) && decode_answer(token@, secret@, now, res),
{
    let now = read_clock();
    let decoded = decode_claims(token, secret);
    let checked = match decoded {
        Some(c) => if c.exp < now - EXPIRY_LEEWAY_SECONDS {
            None
        } else {
            Some(c)
        },
        None => None,
    };
    let res = claims_or_unauthorized(checked);
    assert(decode_answer(token@, secret@, now, res));
    res
}

/// A session token, decoded with the secret it was made with at any clock reading
/// that has not passed its expiry by more than the leeway, is let in with the user
/// id, issue time and expiry it was made with; past that, it is refused.
pub proof fn lemma_created_token_decodes(
    user_id: Seq<char>,
    secret: Seq<u8>,
    minutes: i64,
    issued: i64,
    token: Seq<char>,
    now: i64,
    res: Result<Claims, HttpError>,
)
    requires
        -TIMESTAMP_BOUND <= issued <= TIMESTAMP_BOUND,
        -MAX_LIFETIME_MINUTES <= minutes <= MAX_LIFETIME_MINUTES,
        token_outcome(user_id, secret, minutes, issued) == Ok::<Seq<char>, TokenError>(token),
        0 <= issued + 60 * minutes,
        decode_answer(token, secret, now, res),
    ensures
        now - EXPIRY_LEEWAY_SECONDS <= issued + 60 * minutes ==> (res matches Ok(c) && c.sub@
            == user_id && c.iat == issued && c.exp == issued + 60 * minutes),
        now - EXPIRY_LEEWAY_SECONDS > issued + 60 * minutes ==> res is Err,
{
    let exp = (issued + 60 * minutes) as i64;
    assert(jwt_hs256_token(user_id, issued, exp, secret) == token);
}

} // verus!
