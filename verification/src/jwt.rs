//! Access tokens: short-lived HS256 JSON Web Tokens naming the user. They
//! are checked statelessly (signature and expiry only), which is safe
//! because they live fifteen minutes; sessions last through refresh tokens.
use vstd::prelude::*;
use crate::errors::ApiError;
use crate::ids::{Oid, hex_value, is_oid_text, parse_oid};

verus! {

#[verifier::external_type_specification]
#[verifier::external_body]
pub struct ExJwtError(jsonwebtoken::errors::Error);

/// What an access token asserts.
#[derive(Debug)]
pub struct Claims {
    /// The user's id, as 24 hex digits.
    pub sub: String,
    /// Expiry, in seconds since the epoch.
    pub exp: usize,
    /// The user's token generation the token was issued under.
    pub token_version: i32,
}

/// How long an access token lives, in minutes.
pub const ACCESS_TOKEN_TTL_MINUTES: i64 = 15;

/// How far past its expiry a token is still accepted, in seconds (clock
/// skew between issuer and checker).
pub const EXPIRY_LEEWAY_SECS: i64 = 60;

/// The token `jsonwebtoken::encode` makes, with the default HS256 header,
/// of the claims `sub`, `exp` and `token_version` under `secret`.
pub uninterp spec fn signed_token(sub: Seq<char>, exp: usize, token_version: i32, secret: Seq<char>) -> Seq<char>;

/// The claims `sub`, `exp` and `token_version` that a token carries, read
/// by `jsonwebtoken::decode` under `secret` with the default validation but
/// for the expiry time: `None` when the signature, the format or the
/// presence of `exp` fails.
pub uninterp spec fn token_fields(token: Seq<char>, secret: Seq<char>) -> Option<
    (Option<Seq<char>>, Option<u64>, Option<i64>),
>;

/// Calls `jsonwebtoken::encode` with `Header::default()` (HS256) on a JSON
/// object of the three claims and `EncodingKey::from_secret`. Claimed: it
/// returns `Ok` with the token `signed_token` of its arguments. `encode`
/// fails only when the key's family differs from the header's algorithm
/// (both are HMAC here), when JSON serialisation fails (it cannot for a map
/// of a string and two integers written into a `Vec`), or when signing
/// fails (HMAC signing through `ring` cannot); HMAC signing and JSON
/// serialisation are deterministic.
#[verifier::external_body]
fn jwt_encode(sub: &str, exp: usize, token_version: i32, secret: &str) -> (r: Result<
    String,
    jsonwebtoken::errors::Error,
>)
    ensures
        r is Ok,
        r matches Ok(t) ==> t@ == signed_token(sub@, exp, token_version, secret@),
{
    let mut claims = serde_json::Map::new();
    claims.insert("sub".to_string(), serde_json::Value::from(sub));
    claims.insert("exp".to_string(), serde_json::Value::from(exp));
    claims.insert("token_version".to_string(), serde_json::Value::from(token_version));
    let key = jsonwebtoken::EncodingKey::from_secret(secret.as_bytes());
    jsonwebtoken::encode(&jsonwebtoken::Header::default(), &claims, &key)
}

/// Calls `jsonwebtoken::decode` into a JSON value with
/// `DecodingKey::from_secret` and `Validation::default()` except that the
/// expiry time is not compared (it is still required to be present), and
/// reads the string `sub`, the unsigned `exp` and the integer
/// `token_version`. Claimed: the result is `token_fields` of the token and
/// secret, and a token made by `jwt_encode` under the same secret reads
/// back the claims it was made of (the signature verifies, `exp` is
/// present, and JSON keeps strings and integers exactly).
#[verifier::external_body]
fn jwt_decode_fields(token: &str, secret: &str) -> (r: Result<
    (Option<String>, Option<u64>, Option<i64>),
    jsonwebtoken::errors::Error,
>)
    ensures
        match r {
            Ok(f) => token_fields(token@, secret@) == Some(
                (
                    match f.0 {
                        Some(s) => Some(s@),
                        None => None::<Seq<char>>,
                    },
                    f.1,
                    f.2,
                ),
            ),
            Err(_) => token_fields(token@, secret@) is None,
        },
        (exists|sub: Seq<char>, exp: usize, v: i32| #[trigger] signed_token(sub, exp, v, secret@)
            == token@) ==> r is Ok,
        r matches Ok(f) ==> forall|sub: Seq<char>, exp: usize, v: i32|
            #[trigger] signed_token(sub, exp, v, secret@) == token@ ==> (f.0 matches Some(s) && s@
                == sub && f.1 == Some(exp as u64) && f.2 == Some(v as i64)),
{
    let mut validation = jsonwebtoken::Validation::default();
    validation.validate_exp = false;
    let key = jsonwebtoken::DecodingKey::from_secret(secret.as_bytes());
    let claims = jsonwebtoken::decode::<serde_json::Value>(token, &key, &validation)?.claims;
    let sub = claims["sub"].as_str().map(|s| s.to_string());
    Ok((sub, claims["exp"].as_u64(), claims["token_version"].as_i64()))
}

/// `ErrorKind::ExpiredSignature` as a `jsonwebtoken` error.
#[verifier::external_body]
fn expired_signature_error() -> jsonwebtoken::errors::Error {
    jsonwebtoken::errors::Error::from(jsonwebtoken::errors::ErrorKind::ExpiredSignature)
}

/// `ErrorKind::InvalidToken` as a `jsonwebtoken` error.
#[verifier::external_body]
fn invalid_token_error() -> jsonwebtoken::errors::Error {
    jsonwebtoken::errors::Error::from(jsonwebtoken::errors::ErrorKind::InvalidToken)
}

/// The current time from `chrono::Utc::now()`, in whole seconds since the
/// epoch. Nothing is claimed of it.
#[verifier::external_body]
pub fn now_unix_seconds() -> i64 {
    chrono::Utc::now().timestamp()
}

/// The expiry of a token issued at `now`: fifteen minutes later, clamped
/// to what `usize` holds.
pub open spec fn expiry_after(now: i64) -> usize {
    let t = now + 900;
    if t < 0 {
        0
    } else if t > usize::MAX {
        usize::MAX
    } else {
        t as usize
    }
}

pub fn token_expiry(now: i64) -> (exp: usize)
    ensures
        exp == expiry_after(now),
{
    let t: i128 = (now as i128) + 900;
    if t < 0 {
        0
    } else if t > (usize::MAX as i128) {
        usize::MAX
    } else {
        t as usize
    }
}

/// Signs a token for `user_id` expiring at `exp`, at token generation 0.
pub fn issue_token_with_exp(user_id: &str, secret: &str, exp: usize) -> (r: Result<
    String,
    jsonwebtoken::errors::Error,
>)
    ensures
        r matches Ok(t) && t@ == signed_token(user_id@, exp, 0, secret@),
{
    jwt_encode(user_id, exp, 0, secret)
}

/// Signs a token for `user_id` that expires fifteen minutes from now.
pub fn issue_token(user_id: &str, secret: &str) -> (r: Result<String, jsonwebtoken::errors::Error>)
    ensures
        r matches Ok(t) && exists|now: i64| t@ == signed_token(user_id@, expiry_after(now), 0, secret@),
{
    let now = now_unix_seconds();
    issue_token_with_exp(user_id, secret, token_expiry(now))
}

/// Why claims that verified are still refused.
#[derive(Debug, Clone, Copy, PartialEq, Eq, Structural)]
pub enum ClaimsRejection {
    /// A claim is missing or not of its type.
    Malformed,
    /// The token expired more than the leeway ago.
    Expired,
}

/// A token expiring at `exp` is refused at `now` once `exp` is more than
/// the leeway in the past.
pub open spec fn is_expired(exp: u64, now: i64) -> bool {
    (exp as int) < now - 60
}

/// The claims out of the fields a verified token carries, at `now`: each
/// must be present and of its type (`exp` an unsigned size, the version an
/// `i32`), and the token must not have expired.
pub fn check_claims(fields: (Option<String>, Option<u64>, Option<i64>), now: i64) -> (r: Result<
    Claims,
    ClaimsRejection,
>)
    ensures
        match fields {
            (Some(sub), Some(exp), Some(v)) => if exp > usize::MAX || v < i32::MIN || v > i32::MAX {
                r == Err::<Claims, ClaimsRejection>(ClaimsRejection::Malformed)
            } else if is_expired(exp, now) {
                r == Err::<Claims, ClaimsRejection>(ClaimsRejection::Expired)
            } else {
                r matches Ok(c) && c.sub == sub && c.exp == exp && c.token_version == v
            },
            _ => r == Err::<Claims, ClaimsRejection>(ClaimsRejection::Malformed),
        },
{
    match fields {
        (Some(sub), Some(exp), Some(v)) => {
            if exp > (usize::MAX as u64) || v < (i32::MIN as i64) || v > (i32::MAX as i64) {
                return Err(ClaimsRejection::Malformed);
            }
            if (exp as i128) < (now as i128) - 60 {
                return Err(ClaimsRejection::Expired);
            }
            Ok(Claims { sub, exp: exp as usize, token_version: v as i32 })
        },
        _ => Err(ClaimsRejection::Malformed),
    }
}

/// What verifying `token` under `secret` at `now` gives: the subject,
/// expiry and token generation, or `None` where the token is refused
/// (forged or malformed, a claim missing or out of its type's range, or
/// expired more than the leeway ago).
pub open spec fn decoded_claims(token: Seq<char>, secret: Seq<char>, now: i64) -> Option<
    (Seq<char>, usize, i32),
> {
    match token_fields(token, secret) {
        Some((Some(sub), Some(exp), Some(v))) => if exp > usize::MAX || v < i32::MIN || v
            > i32::MAX || is_expired(exp, now) {
            None
        } else {
            Some((sub, exp as usize, v as i32))
        },
        _ => None,
    }
}

/// The claims a decoding result carries, `None` for an error.
pub open spec fn claims_of<E>(r: Result<Claims, E>) -> Option<(Seq<char>, usize, i32)> {
    match r {
        Ok(c) => Some((c.sub@, c.exp, c.token_version)),
        Err(_) => None,
    }
}

/// Whether a decoding outcome at `now` is what a token signed from `sub`,
/// `exp` and `v` reads back: an error once it has expired, else exactly
/// those claims.
pub open spec fn reads_back(
    outcome: Option<(Seq<char>, usize, i32)>,
    sub: Seq<char>,
    exp: usize,
    v: i32,
    now: i64,
) -> bool {
    if is_expired(exp as u64, now) {
        outcome is None
    } else {
        outcome == Some((sub, exp, v))
    }
}

/// Verifies `token` under `secret` and returns its claims as of `now`
/// (seconds since the epoch). A token issued under the same secret reads
/// back the claims it was issued with, until it expires.
pub fn decode_token_at(token: &str, secret: &str, now: i64) -> (r: Result<
    Claims,
    jsonwebtoken::errors::Error,
>)
    ensures
        match token_fields(token@, secret@) {
            None => r is Err,
            Some(f) => match (f.0, f.1, f.2) {
                (Some(sub), Some(exp), Some(v)) => if exp > usize::MAX || v < i32::MIN || v
                    > i32::MAX || is_expired(exp, now) {
                    r is Err
                } else {
                    r matches Ok(c) && c.sub@ == sub && c.exp == exp && c.token_version == v
                },
                _ => r is Err,
            },
        },
        forall|sub: Seq<char>, exp: usize, v: i32|
            #[trigger] signed_token(sub, exp, v, secret@) == token@ ==> (if is_expired(
                exp as u64,
                now,
            ) {
                r is Err
            } else {
                r matches Ok(c) && c.sub@ == sub && c.exp == exp && c.token_version == v
            }),
        claims_of(r) == decoded_claims(token@, secret@, now),
{
    let fields = jwt_decode_fields(token, secret)?;
    match check_claims(fields, now) {
        Ok(c) => Ok(c),
        Err(ClaimsRejection::Expired) => Err(expired_signature_error()),
        Err(ClaimsRejection::Malformed) => Err(invalid_token_error()),
    }
}

/// Verifies `token` under `secret` and returns its claims, unless it is
/// forged, malformed or expired as of the clock's current time. The result
/// is what `decode_token_at` gives at the time the clock reads; where the
/// outcome does not depend on the time (a forged token, or a valid one that
/// no clock reading has passed), it is that outcome.
pub fn decode_token(token: &str, secret: &str) -> (r: Result<Claims, jsonwebtoken::errors::Error>)
    ensures
        r matches Ok(c) ==> (token_fields(token@, secret@) matches Some(f) && f.0 == Some(c.sub@)
            && f.1 == Some(c.exp as u64) && f.2 == Some(c.token_version as i64)),
        exists|now: i64| claims_of(r) == #[trigger] decoded_claims(token@, secret@, now),
        (forall|t: i64| #[trigger] decoded_claims(token@, secret@, t) == decoded_claims(
            token@,
            secret@,
            0,
        )) ==> claims_of(r) == decoded_claims(token@, secret@, 0),
        forall|sub: Seq<char>, exp: usize, v: i32|
            #[trigger] signed_token(sub, exp, v, secret@) == token@ ==> exists|now: i64|
                #[trigger] reads_back(claims_of(r), sub, exp, v, now),
{
    let now = now_unix_seconds();
    let r = decode_token_at(token, secret, now);
    assert(claims_of(r) == decoded_claims(token@, secret@, now));
    assert forall|sub: Seq<char>, exp: usize, v: i32|
        #[trigger] signed_token(sub, exp, v, secret@) == token@ implies exists|t: i64|
            #[trigger] reads_back(claims_of(r), sub, exp, v, t) by {
        assert(reads_back(claims_of(r), sub, exp, v, now));
    }
    r
}

/// The user an access token names: a token that does not verify, or whose
/// subject is not an object id, is `Unauthenticated`.
pub fn user_id_from_token(token: &str, secret: &str) -> (r: Result<Oid, ApiError>)
    ensures
        r matches Err(e) ==> e is Unauthenticated,
        r matches Ok(o) ==> (token_fields(token@, secret@) matches Some(f) && f.0 matches Some(
            s,
        ) && is_oid_text(s) && o.value == hex_value(s)),
        r matches Ok(o) ==> exists|now: i64| #[trigger]
            decoded_claims(token@, secret@, now) matches Some(c) && is_oid_text(c.0) && o.value
                == hex_value(c.0),
        (forall|t: i64| #[trigger] decoded_claims(token@, secret@, t) == decoded_claims(
            token@,
            secret@,
            0,
        )) ==> (r is Ok <==> (decoded_claims(token@, secret@, 0) matches Some(c) && is_oid_text(
            c.0,
        ))),
{
    let decoded = decode_token(token, secret);
    let ghost now = choose|now: i64| claims_of(decoded) == #[trigger] decoded_claims(
        token@,
        secret@,
        now,
    );
    let claims = match decoded {
        Ok(c) => c,
        Err(_) => return Err(ApiError::Unauthenticated),
    };
    match parse_oid(claims.sub.as_str()) {
        Some(o) => {
            assert(decoded_claims(token@, secret@, now) matches Some(c) && is_oid_text(c.0)
                && o.value == hex_value(c.0));
            Ok(o)
        },
        None => Err(ApiError::Unauthenticated),
    }
}

/// The API error a token failure surfaces as where it is not an
/// authentication check (issuing a session).
pub fn api_error_from_jwt(err: &jsonwebtoken::errors::Error) -> (e: ApiError)
    ensures
        e is Internal,
{
    ApiError::Internal
}

} // verus!
