//! The session token service: signed, time-bound tokens that say which
//! account a request acts for. A token carries its own expiry; nothing is
//! kept on the server, so a token's validity depends on the token, the secret
//! and the time alone.

use vstd::prelude::*;
use chrono::Utc;
use jsonwebtoken::errors::ErrorKind;
use jsonwebtoken::{decode, encode, DecodingKey, EncodingKey, Header, Validation};
use serde_json::Value;
use crate::account::opt_view;
use crate::errors::{AppError, TokenFailure};
use crate::ids::{format_uuid, uuid_text};

verus! {

// ---------------------------------------------------------------------
// Claims
// ---------------------------------------------------------------------

/// What a session token says.
#[derive(Clone, Debug)]
pub struct Claims {
    /// The account's id, as a hyphenated UUID.
    pub sub: String,
    /// The account's email when the token was issued.
    pub email: String,
    /// The time after which the token is refused, in seconds since 1970.
    pub exp: i64,
    /// The time at which the token was issued, in seconds since 1970.
    pub iat: i64,
}

/// [`Claims`] as a mathematical value.
pub struct ClaimsView {
    pub sub: Seq<char>,
    pub email: Seq<char>,
    pub exp: int,
    pub iat: int,
}

impl View for Claims {
    type V = ClaimsView;

    open spec fn view(&self) -> ClaimsView {
        ClaimsView { sub: self.sub@, email: self.email@, exp: self.exp as int, iat: self.iat as int }
    }
}

/// The claims of a token that is issued at `issued_at` for `ttl` seconds.
pub open spec fn issued_claims(user_id: u128, email: Seq<char>, issued_at: int, ttl: int) -> ClaimsView {
    ClaimsView { sub: uuid_text(user_id), email, exp: issued_at + ttl, iat: issued_at }
}

impl Claims {
    /// The claims of a token for the account `user_id`, issued at
    /// `issued_at` and valid for `ttl_seconds`.
    pub fn new(user_id: u128, email: String, issued_at: i64, ttl_seconds: i64) -> (c: Claims)
        requires
            i64::MIN <= issued_at + ttl_seconds <= i64::MAX,
        ensures
            c@ == issued_claims(user_id, email@, issued_at as int, ttl_seconds as int),
    {
        Claims { sub: format_uuid(user_id), email, exp: issued_at + ttl_seconds, iat: issued_at }
    }
}

// ---------------------------------------------------------------------
// What the token codec hands back
// ---------------------------------------------------------------------

/// The claims as they were found in a token: each one present or not.
#[derive(Clone, Debug)]
pub struct RawClaims {
    pub sub: Option<String>,
    pub email: Option<String>,
    pub exp: Option<i64>,
    pub iat: Option<i64>,
}

/// [`RawClaims`] as a mathematical value.
pub struct RawClaimsView {
    pub sub: Option<Seq<char>>,
    pub email: Option<Seq<char>>,
    pub exp: Option<i64>,
    pub iat: Option<i64>,
}

impl View for RawClaims {
    type V = RawClaimsView;

    open spec fn view(&self) -> RawClaimsView {
        RawClaimsView {
            sub: opt_view(self.sub),
            email: opt_view(self.email),
            exp: self.exp,
            iat: self.iat,
        }
    }
}

/// What decoding a token gave.
#[derive(Clone, Debug)]
pub enum Decoded {
    /// The signature is right; these are the claims of the payload.
    Payload(RawClaims),
    /// The token has the shape of a token, and its signature is wrong.
    SignatureMismatch,
    /// The token cannot be read.
    Unreadable,
}

/// [`Decoded`] as a mathematical value.
pub enum DecodedView {
    Payload(RawClaimsView),
    SignatureMismatch,
    Unreadable,
}

impl View for Decoded {
    type V = DecodedView;

    open spec fn view(&self) -> DecodedView {
        match self {
            Decoded::Payload(raw) => DecodedView::Payload(raw@),
            Decoded::SignatureMismatch => DecodedView::SignatureMismatch,
            Decoded::Unreadable => DecodedView::Unreadable,
        }
    }
}

/// The token that carries `claims`, signed with `secret`; `None` where the
/// claims cannot be encoded.
pub uninterp spec fn jwt_encoded(claims: ClaimsView, secret: Seq<char>) -> Option<Seq<char>>;

/// What decoding `token` with `secret` gives.
pub uninterp spec fn jwt_decoded(token: Seq<char>, secret: Seq<char>) -> DecodedView;

/// Encodes and signs claims.
///
/// Trusted: `jsonwebtoken::encode` with the default header (HS256), a JSON
/// object that holds the four claims under the names `sub`, `email`, `exp`
/// and `iat`, and the secret's bytes as the key. The result depends on the
/// claims and the secret alone; an error becomes `None`.
#[verifier::external_body]
fn jwt_encode(claims: &Claims, secret: &str) -> (r: Option<String>)
    ensures
        opt_view(r) == jwt_encoded(claims@, secret@),
{
    let mut payload = serde_json::Map::new();
    payload.insert("sub".to_string(), Value::from(claims.sub.as_str()));
    payload.insert("email".to_string(), Value::from(claims.email.as_str()));
    payload.insert("exp".to_string(), Value::from(claims.exp));
    payload.insert("iat".to_string(), Value::from(claims.iat));
    encode(&Header::default(), &payload, &EncodingKey::from_secret(secret.as_bytes())).ok()
}

/// Checks a token's signature and reads its payload.
///
/// Trusted: `jsonwebtoken::decode` for HS256 with the secret's bytes as the
/// key. The crate's own expiry check is switched off and no claim is
/// required, so that the result depends on the token and the secret alone
/// and the clock is not read. A payload is handed back claim by claim: a
/// claim is `None` where it is absent or of another JSON type. The error
/// kind `InvalidSignature` becomes `SignatureMismatch`, every other error
/// `Unreadable`.
#[verifier::external_body]
fn jwt_decode(token: &str, secret: &str) -> (r: Decoded)
    ensures
        r@ == jwt_decoded(token@, secret@),
{
    let mut rules = Validation::default();
    rules.validate_exp = false;
    rules.required_spec_claims.clear();
    match decode::<Value>(token, &DecodingKey::from_secret(secret.as_bytes()), &rules) {
        Ok(data) => Decoded::Payload(RawClaims {
            sub: data.claims.get("sub").and_then(Value::as_str).map(String::from),
            email: data.claims.get("email").and_then(Value::as_str).map(String::from),
            exp: data.claims.get("exp").and_then(Value::as_i64),
            iat: data.claims.get("iat").and_then(Value::as_i64),
        }),
        Err(e) => match e.kind() {
            ErrorKind::InvalidSignature => Decoded::SignatureMismatch,
            _ => Decoded::Unreadable,
        },
    }
}

/// The current time, in seconds since 1970.
///
/// Trusted: `chrono::Utc::now().timestamp()`. Nothing is claimed of the value.
#[verifier::external_body]
pub(crate) fn unix_now() -> (t: i64) {
    Utc::now().timestamp()
}

// ---------------------------------------------------------------------
// Issuing
// ---------------------------------------------------------------------

/// The text of a result that holds a string.
pub open spec fn text_result<E>(r: Result<String, E>) -> Result<Seq<char>, E> {
    match r {
        Ok(s) => Ok(s@),
        Err(e) => Err(e),
    }
}

/// The answer of issuing for what the codec gave: a token, or an internal error.
pub open spec fn issue_outcome(encoded: Option<Seq<char>>) -> Result<Seq<char>, AppError> {
    match encoded {
        Some(token) => Ok(token),
        None => Err(AppError::InternalServerError),
    }
}

/// The answer of issuing a token at the time `now`: the encoded claims with
/// `exp = now + ttl`; an internal error where that time cannot be written
/// in 64 bits or the codec fails.
pub open spec fn issued(
    user_id: u128,
    email: Seq<char>,
    secret: Seq<char>,
    ttl: int,
    now: int,
) -> Result<Seq<char>, AppError> {
    if i64::MIN <= now + ttl <= i64::MAX {
        issue_outcome(jwt_encoded(issued_claims(user_id, email, now, ttl), secret))
    } else {
        Err(AppError::InternalServerError)
    }
}

/// Turns what the codec gave into the answer of issuing.
pub fn token_or_error(encoded: Option<String>) -> (r: Result<String, AppError>)
    ensures
        text_result(r) == issue_outcome(opt_view(encoded)),
{
    match encoded {
        Some(token) => Ok(token),
        None => Err(AppError::InternalServerError),
    }
}

/// Issues a token for the account `user_id` at the time `now`, valid for
/// `expiration` seconds and signed with `secret`.
pub fn create_jwt_at(user_id: u128, email: String, secret: &str, expiration: i64, now: i64) -> (r: Result<
    String,
    AppError,
>)
    ensures
        text_result(r) == issued(user_id, email@, secret@, expiration as int, now as int),
{
    match now.checked_add(expiration) {
        None => Err(AppError::InternalServerError),
        Some(_) => {
            let claims = Claims::new(user_id, email, now, expiration);
            token_or_error(jwt_encode(&claims, secret))
        },
    }
}

/// Issues a token for the account `user_id` at the current time, valid for
/// `expiration` seconds and signed with `secret`.
pub fn create_jwt(user_id: u128, email: String, secret: &str, expiration: i64) -> (r: Result<
    String,
    AppError,
>)
    ensures
        exists|now: i64| text_result(r) == #[trigger] issued(user_id, email@, secret@, expiration as int, now as int),
{
    let now = unix_now();
    create_jwt_at(user_id, email, secret, expiration, now)
}

// ---------------------------------------------------------------------
// Validating
// ---------------------------------------------------------------------

/// The claims that a payload holds, where all four are present.
pub open spec fn complete(raw: RawClaimsView) -> Option<ClaimsView> {
    if raw.sub is Some && raw.email is Some && raw.exp is Some && raw.iat is Some {
        Some(
            ClaimsView {
                sub: raw.sub->0,
                email: raw.email->0,
                exp: raw.exp->0 as int,
                iat: raw.iat->0 as int,
            },
        )
    } else {
        None
    }
}

/// The answer of validating at the time `now`, for what decoding gave:
/// a wrong signature is `BadSignature`; a token that cannot be read, or a
/// payload that lacks a claim, is `Malformed`; claims whose expiry lies
/// before `now` are `Expired`; all other claims are accepted.
pub open spec fn validated(decoded: DecodedView, now: int) -> Result<ClaimsView, TokenFailure> {
    match decoded {
        DecodedView::SignatureMismatch => Err(TokenFailure::BadSignature),
        DecodedView::Unreadable => Err(TokenFailure::Malformed),
        DecodedView::Payload(raw) => match complete(raw) {
            None => Err(TokenFailure::Malformed),
            Some(claims) => if now > claims.exp {
                Err(TokenFailure::Expired)
            } else {
                Ok(claims)
            },
        },
    }
}

/// The view of a result that holds claims.
pub open spec fn claims_result(r: Result<Claims, TokenFailure>) -> Result<ClaimsView, TokenFailure> {
    match r {
        Ok(c) => Ok(c@),
        Err(e) => Err(e),
    }
}

/// Decides on a decoded token at the time `now`.
pub fn validate_decoded(decoded: Decoded, now: i64) -> (r: Result<Claims, TokenFailure>)
    ensures
        claims_result(r) == validated(decoded@, now as int),
{
    match decoded {
        Decoded::SignatureMismatch => Err(TokenFailure::BadSignature),
        Decoded::Unreadable => Err(TokenFailure::Malformed),
        Decoded::Payload(raw) => match (raw.sub, raw.email, raw.exp, raw.iat) {
            (Some(sub), Some(email), Some(exp), Some(iat)) => {
                if now > exp {
                    Err(TokenFailure::Expired)
                } else {
                    Ok(Claims { sub, email, exp, iat })
                }
            },
            _ => Err(TokenFailure::Malformed),
        },
    }
}

/// Validates `token` against `secret` at the time `now`: checks the
/// signature, reads the claims, and refuses them once `now` is past their
/// expiry.
pub fn verify_jwt_at(token: &str, secret: &str, now: i64) -> (r: Result<Claims, TokenFailure>)
    ensures
        claims_result(r) == validated(jwt_decoded(token@, secret@), now as int),
{
    validate_decoded(jwt_decode(token, secret), now)
}

/// Validates `token` against `secret` at the current time.
pub fn verify_jwt(token: &str, secret: &str) -> (r: Result<Claims, TokenFailure>)
    ensures
        exists|now: i64| claims_result(r) == #[trigger] validated(jwt_decoded(token@, secret@), now as int),
{
    let now = unix_now();
    verify_jwt_at(token, secret, now)
}

// ---------------------------------------------------------------------
// What holds of tokens
// ---------------------------------------------------------------------

/// A payload that holds exactly the claims `c`.
pub open spec fn payload_of(c: ClaimsView) -> DecodedView {
    DecodedView::Payload(
        RawClaimsView {
            sub: Some(c.sub),
            email: Some(c.email),
            exp: Some(c.exp as i64),
            iat: Some(c.iat as i64),
        },
    )
}

/// The claims of a token that was issued at `issued_at` for `ttl` seconds
/// are accepted up to and at `issued_at + ttl`, so one second before it,
/// and refused as expired at every later time, so one second after it.
pub proof fn lemma_expiry_boundary(user_id: u128, email: Seq<char>, issued_at: i64, ttl: i64, now: int)
    requires
        i64::MIN <= issued_at + ttl <= i64::MAX,
    ensures
        ({
            let c = issued_claims(user_id, email, issued_at as int, ttl as int);
            &&& c.exp == c.iat + ttl
            &&& validated(payload_of(c), issued_at + ttl - 1) == Ok::<ClaimsView, TokenFailure>(c)
            &&& validated(payload_of(c), issued_at + ttl + 1) == Err::<ClaimsView, TokenFailure>(
                TokenFailure::Expired,
            )
            &&& (now <= issued_at + ttl ==> validated(payload_of(c), now) == Ok::<
                ClaimsView,
                TokenFailure,
            >(c))
            &&& (now > issued_at + ttl ==> validated(payload_of(c), now) == Err::<
                ClaimsView,
                TokenFailure,
            >(TokenFailure::Expired))
        }),
{
}

/// A token's validity depends on the time through its expiry alone: what
/// is accepted at some time is accepted, with the same claims, at every
/// earlier time, and what is refused as expired stays expired.
pub proof fn lemma_validity_over_time(decoded: DecodedView, earlier: int, later: int)
    requires
        earlier <= later,
    ensures
        validated(decoded, later) is Ok ==> validated(decoded, earlier) == validated(decoded, later),
        validated(decoded, earlier) == Err::<ClaimsView, TokenFailure>(TokenFailure::Expired)
            ==> validated(decoded, later) == Err::<ClaimsView, TokenFailure>(TokenFailure::Expired),
        !(validated(decoded, earlier) is Ok) && validated(decoded, earlier) != Err::<
            ClaimsView,
            TokenFailure,
        >(TokenFailure::Expired) ==> validated(decoded, later) == validated(decoded, earlier),
{
}

/// A token whose signature is wrong is refused with `BadSignature` at every
/// time: never as malformed, and never as expired.
pub proof fn lemma_bad_signature(now: int)
    ensures
        validated(DecodedView::SignatureMismatch, now) == Err::<ClaimsView, TokenFailure>(
            TokenFailure::BadSignature,
        ),
{
}

} // verus!
