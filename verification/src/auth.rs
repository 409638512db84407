//! Who a request acts for: the bearer token of its `Authorization` header,
//! validated, and the account id that it names.

use vstd::prelude::*;
use vstd::string::*;
use crate::errors::AppError;
use crate::ids::{parse_uuid, uuid_parsed, uuid_text};
use crate::text::{has_prefix, strip_prefix};
use crate::token::{
    Claims, ClaimsView, issued_claims, jwt_decoded, payload_of, unix_now, validated, verify_jwt_at,
};

verus! {

/// The account that a request acts for.
#[derive(Clone, Debug)]
pub struct AuthUser {
    pub user_id: u128,
    /// The account's email when the token was issued.
    pub email: String,
}

/// An [`AuthUser`] as a mathematical value.
pub struct AuthUserView {
    pub user_id: u128,
    pub email: Seq<char>,
}

impl View for AuthUser {
    type V = AuthUserView;

    open spec fn view(&self) -> AuthUserView {
        AuthUserView { user_id: self.user_id, email: self.email@ }
    }
}

/// The view of a result that holds a user.
pub open spec fn user_result(r: Result<AuthUser, AppError>) -> Result<AuthUserView, AppError> {
    match r {
        Ok(u) => Ok(u@),
        Err(e) => Err(e),
    }
}

/// The token of an `Authorization` header: what follows `Bearer `.
pub open spec fn bearer_of(header: Option<Seq<char>>) -> Option<Seq<char>> {
    match header {
        Some(h) => if has_prefix(h, "Bearer "@) {
            Some(h.subrange("Bearer "@.len() as int, h.len() as int))
        } else {
            None
        },
        None => None,
    }
}

/// The user that validated claims name: the subject must be a UUID.
pub open spec fn user_named(claims: ClaimsView) -> Result<AuthUserView, AppError> {
    match uuid_parsed(claims.sub) {
        Some(id) => Ok(AuthUserView { user_id: id, email: claims.email }),
        None => Err(AppError::Unauthorized),
    }
}

/// The user that a request with the header `header` acts for at the time
/// `now`. A missing header, a header that is no bearer token, a token that
/// is refused for whatever reason and a subject that is no account id are
/// all answered alike.
pub open spec fn authenticated(header: Option<Seq<char>>, secret: Seq<char>, now: int) -> Result<
    AuthUserView,
    AppError,
> {
    match bearer_of(header) {
        None => Err(AppError::Unauthorized),
        Some(token) => match validated(jwt_decoded(token, secret), now) {
            Err(_) => Err(AppError::Unauthorized),
            Ok(claims) => user_named(claims),
        },
    }
}

/// The text of an optional string slice.
pub open spec fn opt_str_view(s: Option<&str>) -> Option<Seq<char>> {
    match s {
        Some(t) => Some(t@),
        None => None,
    }
}

/// The token of an `Authorization` header, where it is a bearer token.
pub fn bearer_token(header: Option<&str>) -> (r: Option<String>)
    ensures
        match r {
            Some(t) => bearer_of(opt_str_view(header)) == Some(t@),
            None => bearer_of(opt_str_view(header)) is None,
        },
{
    match header {
        Some(h) => strip_prefix(h, "Bearer "),
        None => None,
    }
}

/// The user that validated claims name.
pub fn user_of_claims(claims: Claims) -> (r: Result<AuthUser, AppError>)
    ensures
        user_result(r) == user_named(claims@),
{
    match parse_uuid(claims.sub.as_str()) {
        Some(user_id) => Ok(AuthUser { user_id, email: claims.email }),
        None => Err(AppError::Unauthorized),
    }
}

/// Decides at the time `now` which account a request acts for, from its
/// `Authorization` header and the signing secret.
pub fn auth_middleware_at(authorization: Option<&str>, secret: &str, now: i64) -> (r: Result<
    AuthUser,
    AppError,
>)
    ensures
        user_result(r) == authenticated(opt_str_view(authorization), secret@, now as int),
{
    match bearer_token(authorization) {
        None => Err(AppError::Unauthorized),
        Some(token) => match verify_jwt_at(token.as_str(), secret, now) {
            Err(_) => Err(AppError::Unauthorized),
            Ok(claims) => user_of_claims(claims),
        },
    }
}

/// Decides at the current time which account a request acts for.
pub fn auth_middleware(authorization: Option<&str>, secret: &str) -> (r: Result<AuthUser, AppError>)
    ensures
        exists|now: i64|
            user_result(r) == #[trigger] authenticated(
                opt_str_view(authorization),
                secret@,
                now as int,
            ),
{
    let now = unix_now();
    auth_middleware_at(authorization, secret, now)
}

/// What ties issuing to authenticating. Where the codec reads back from
/// `token` the claims that were issued, and the subject's text is read back
/// as the account's id, a request that bears the token acts for that
/// account, with the email of the claims, at every time up to the expiry,
/// and for nobody after it.
pub proof fn lemma_issued_token_authenticates(
    user_id: u128,
    email: Seq<char>,
    secret: Seq<char>,
    issued_at: i64,
    ttl: i64,
    token: Seq<char>,
    now: int,
)
    requires
        i64::MIN <= issued_at + ttl <= i64::MAX,
        jwt_decoded(token, secret) == payload_of(
            issued_claims(user_id, email, issued_at as int, ttl as int),
        ),
        uuid_parsed(uuid_text(user_id)) == Some(user_id),
    ensures
        now <= issued_at + ttl ==> authenticated(Some("Bearer "@ + token), secret, now) == Ok::<
            AuthUserView,
            AppError,
        >(AuthUserView { user_id, email }),
        now > issued_at + ttl ==> authenticated(Some("Bearer "@ + token), secret, now) == Err::<
            AuthUserView,
            AppError,
        >(AppError::Unauthorized),
{
    let header = "Bearer "@ + token;
    assert(header.subrange(0, "Bearer "@.len() as int) =~= "Bearer "@);
    assert(header.subrange("Bearer "@.len() as int, header.len() as int) =~= token);
}

} // verus!
