//! The login attempts end to end: a registration, a login with a password,
//! and the callback of a federated login, each from the request to the
//! session token. An attempt that fails leaves the store as it was.

use vstd::prelude::*;
use vstd::pervasive::unreached;
use vstd::string::*;
use crate::account::{Account, AccountView, ExternalIdentity, IdentityView, Provider};
use crate::config::Config;
use crate::credentials::{check_credentials, credentials_checked, registered, verified};
use crate::errors::{AppError, AuthFailure, DatabaseError};
use crate::models::{
    AuthResponse, AuthResponseView, LoginRequest, LoginRequestView, RegisterRequest,
    RegisterRequestView, RegisterResponse, RegisterResponseView, UserResponse, login_faults,
    register_faults, summary_of, valid_email,
};
use crate::oauth::{Action, ActionView, EventView, OAuthExchange, ProviderEvent, StageView, stepped};
use crate::resolver::{
    Resolution, account_email, opt_account_view, plan_resolution, resolve, resolved,
};
use crate::security::{argon2_verified, hash_password};
use crate::store::{AccountStore, email_index, holds_email, holds_link, link_index, link_of};
use crate::text::joined;
use crate::token::{create_jwt_at, issued, text_result, unix_now};

verus! {

// ---------------------------------------------------------------------
// Registration
// ---------------------------------------------------------------------

/// The view of a result that holds the answer to a registration.
pub open spec fn register_result(r: Result<RegisterResponse, AppError>) -> Result<
    RegisterResponseView,
    AppError,
> {
    match r {
        Ok(x) => Ok(x@),
        Err(e) => Err(e),
    }
}

/// The answer to a registration that created, or is about to create, the
/// account `user_id`, at the time `now`: the account's first session token.
pub open spec fn registration_answered(
    user_id: nat,
    req: RegisterRequestView,
    secret: Seq<char>,
    ttl: int,
    now: int,
) -> Result<RegisterResponseView, AppError> {
    match issued(user_id as u128, req.email, secret, ttl, now) {
        Err(e) => Err(e),
        Ok(token) => Ok(
            RegisterResponseView { message: "User registered successfully"@, token, user_id },
        ),
    }
}

/// Answers a registration for the account `user_id` at the time `now`:
/// issues the account's first session token and names the account.
pub fn registration_answer_at(user_id: u128, config: &Config, payload: &RegisterRequest, now: i64) -> (r:
    Result<RegisterResponse, AppError>)
    ensures
        register_result(r) == registration_answered(
            user_id as nat,
            payload@,
            config.jwt_secret@,
            config.jwt_expiration as int,
            now as int,
        ),
{
    match create_jwt_at(
        user_id,
        payload.email.clone(),
        config.jwt_secret.as_str(),
        config.jwt_expiration,
        now,
    ) {
        Err(e) => Err(e),
        Ok(token) => Ok(
            RegisterResponse { message: "User registered successfully".to_string(), token, user_id },
        ),
    }
}

/// Answers a registration for the account `user_id` at the current time.
pub fn registration_answer(user_id: u128, config: &Config, payload: &RegisterRequest) -> (r: Result<
    RegisterResponse,
    AppError,
>)
    ensures
        exists|now: i64|
            register_result(r) == #[trigger] registration_answered(
                user_id as nat,
                payload@,
                config.jwt_secret@,
                config.jwt_expiration as int,
                now as int,
            ),
{
    let now = unix_now();
    registration_answer_at(user_id, config, payload, now)
}

/// The store and the answer after a registration whose fields were accepted,
/// given the hash of the password, if hashing gave one. The email must be
/// present and nobody's; the token is issued for the id that the new account
/// will get, and the account is created only once the token is there.
pub open spec fn registration_completed(
    s: Seq<AccountView>,
    req: RegisterRequestView,
    hash: Option<Seq<char>>,
    secret: Seq<char>,
    ttl: int,
    now: int,
) -> (Seq<AccountView>, Result<RegisterResponseView, AppError>) {
    match hash {
        None => (s, Err(AppError::InternalServerError)),
        Some(h) => if req.email.len() == 0 {
            (s, Err(AppError::InternalServerError))
        } else if email_index(s, req.email) is Some {
            (s, Err(AppError::DatabaseError(DatabaseError::UniqueViolation)))
        } else {
            match registration_answered(s.len(), req, secret, ttl, now) {
                Err(e) => (s, Err(e)),
                Ok(answer) => (registered(s, req.email, req.full_name, h), Ok(answer)),
            }
        },
    }
}

/// The store and the answer after a registration: refused fields are
/// reported before anything else is done.
pub open spec fn registration(
    s: Seq<AccountView>,
    req: RegisterRequestView,
    hash: Option<Seq<char>>,
    secret: Seq<char>,
    ttl: int,
    now: int,
) -> (Seq<AccountView>, Result<RegisterResponseView, AppError>) {
    if register_faults(req).is_empty() {
        registration_completed(s, req, hash, secret, ttl, now)
    } else {
        (s, Err(AppError::ValidationError(register_faults(req))))
    }
}

/// Completes a registration whose fields were accepted, at the time `now`,
/// with the hash of the password where hashing gave one.
pub fn complete_registration_at(
    store: &mut AccountStore,
    config: &Config,
    payload: &RegisterRequest,
    hash: Option<String>,
    now: i64,
) -> (r: Result<RegisterResponse, AppError>)
    requires
        old(store).wf(),
    ensures
        final(store).wf(),
        (final(store)@, register_result(r)) == registration_completed(
            old(store)@,
            payload@,
            crate::account::opt_view(hash),
            config.jwt_secret@,
            config.jwt_expiration as int,
            now as int,
        ),
{
    let hash = match hash {
        Some(h) => h,
        None => {
            return Err(AppError::InternalServerError);
        },
    };
    if payload.email.as_str().unicode_len() == 0 {
        return Err(AppError::InternalServerError);
    }
    if store.find_by_email(payload.email.as_str()).is_some() {
        return Err(AppError::DatabaseError(DatabaseError::UniqueViolation));
    }
    let next_id = store.len() as u128;
    let answer = match registration_answer_at(next_id, config, payload, now) {
        Ok(answer) => answer,
        Err(e) => {
            return Err(e);
        },
    };
    match store.insert_local(payload.email.clone(), payload.full_name.clone(), hash) {
        Ok(_) => Ok(answer),
        Err(_) => unreached(),
    }
}

/// Registers a local account at the time `now` and issues its first session
/// token. The fields are checked, the password is hashed, and the account is
/// created unless the email is some account's.
pub fn register_at(store: &mut AccountStore, config: &Config, payload: &RegisterRequest, now: i64) -> (r:
    Result<RegisterResponse, AppError>)
    requires
        old(store).wf(),
    ensures
        final(store).wf(),
        exists|hash: Option<Seq<char>>|
            (hash matches Some(h) ==> argon2_verified(h, payload.password@) == Some(true)) && (
            final(store)@,
            register_result(r),
        ) == #[trigger] registration(
                old(store)@,
                payload@,
                hash,
                config.jwt_secret@,
                config.jwt_expiration as int,
                now as int,
            ),
{
    match payload.validate() {
        Err(faults) => {
            assert((store@, register_result(Err(AppError::ValidationError(faults))))
                == registration(
                store@,
                payload@,
                None,
                config.jwt_secret@,
                config.jwt_expiration as int,
                now as int,
            ));
            Err(AppError::ValidationError(faults))
        },
        Ok(()) => {
            let hash = match hash_password(payload.password.clone()) {
                Ok(h) => Some(h),
                Err(_) => None,
            };
            let ghost h = crate::account::opt_view(hash);
            let r = complete_registration_at(store, config, payload, hash, now);
            assert((store@, register_result(r)) == registration(
                old(store)@,
                payload@,
                h,
                config.jwt_secret@,
                config.jwt_expiration as int,
                now as int,
            ));
            r
        },
    }
}

/// Registers a local account at the current time.
pub fn register(store: &mut AccountStore, config: &Config, payload: &RegisterRequest) -> (r: Result<
    RegisterResponse,
    AppError,
>)
    requires
        old(store).wf(),
    ensures
        final(store).wf(),
        exists|hash: Option<Seq<char>>, now: i64|
            (hash matches Some(h) ==> argon2_verified(h, payload.password@) == Some(true)) && (
            final(store)@,
            register_result(r),
        ) == #[trigger] registration(
                old(store)@,
                payload@,
                hash,
                config.jwt_secret@,
                config.jwt_expiration as int,
                now as int,
            ),
{
    let now = unix_now();
    register_at(store, config, payload, now)
}

// ---------------------------------------------------------------------
// Login with a password
// ---------------------------------------------------------------------

/// The view of a result that holds the answer to a login.
pub open spec fn auth_result(r: Result<AuthResponse, AppError>) -> Result<AuthResponseView, AppError> {
    match r {
        Ok(x) => Ok(x@),
        Err(e) => Err(e),
    }
}

/// How a refused login is shown.
pub open spec fn shown(f: AuthFailure) -> AppError {
    match f {
        AuthFailure::InvalidCredentials => AppError::Unauthorized,
        AuthFailure::Internal => AppError::InternalServerError,
    }
}

/// The answer to a login at the time `now`, for the account that a lookup
/// by the request's email returned, if any: the email's format is checked,
/// then the credentials; the token is issued for the account, with the email
/// that the account has.
pub open spec fn login_answered(
    found: Option<AccountView>,
    req: LoginRequestView,
    secret: Seq<char>,
    ttl: int,
    now: int,
) -> Result<AuthResponseView, AppError> {
    if !valid_email(req.email) {
        Err(AppError::ValidationError(login_faults(req)))
    } else {
        match credentials_checked(found, req.password) {
            Err(f) => Err(shown(f)),
            Ok(id) => match issued(id as u128, found->0.email, secret, ttl, now) {
                Err(e) => Err(e),
                Ok(token) => Ok(AuthResponseView { token, user: summary_of(found->0) }),
            },
        }
    }
}

/// Answers a login at the time `now`, given the account that a lookup by
/// the request's email returned.
pub fn answer_login_at(found: Option<Account>, config: &Config, payload: &LoginRequest, now: i64) -> (r:
    Result<AuthResponse, AppError>)
    ensures
        auth_result(r) == login_answered(
            opt_account_view(found),
            payload@,
            config.jwt_secret@,
            config.jwt_expiration as int,
            now as int,
        ),
{
    match payload.validate() {
        Err(faults) => Err(AppError::ValidationError(faults)),
        Ok(()) => match check_credentials(&found, payload.password.as_str()) {
            Err(f) => Err(AppError::from_auth(f)),
            Ok(_) => match found {
                None => unreached(),
                Some(account) => match create_jwt_at(
                    account.id,
                    account.email.clone(),
                    config.jwt_secret.as_str(),
                    config.jwt_expiration,
                    now,
                ) {
                    Err(e) => Err(e),
                    Ok(token) => Ok(AuthResponse { token, user: UserResponse::from(account) }),
                },
            },
        },
    }
}

/// Answers a login at the current time, given the account that a lookup by
/// the request's email returned.
pub fn answer_login(found: Option<Account>, config: &Config, payload: &LoginRequest) -> (r: Result<
    AuthResponse,
    AppError,
>)
    ensures
        exists|now: i64|
            auth_result(r) == #[trigger] login_answered(
                opt_account_view(found),
                payload@,
                config.jwt_secret@,
                config.jwt_expiration as int,
                now as int,
            ),
{
    let now = unix_now();
    answer_login_at(found, config, payload, now)
}

/// The answer to a login at the time `now`: the email's format is checked,
/// then the credentials; the token is issued for the account they belong
/// to, with the email that the account has.
pub open spec fn login_outcome(
    s: Seq<AccountView>,
    req: LoginRequestView,
    secret: Seq<char>,
    ttl: int,
    now: int,
) -> Result<AuthResponseView, AppError> {
    if !valid_email(req.email) {
        Err(AppError::ValidationError(login_faults(req)))
    } else {
        match verified(s, req.email, req.password) {
            Err(f) => Err(shown(f)),
            Ok(id) => match issued(id as u128, s[id as int].email, secret, ttl, now) {
                Err(e) => Err(e),
                Ok(token) => Ok(AuthResponseView { token, user: summary_of(s[id as int]) }),
            },
        }
    }
}

/// Logs a user in with an email and a password at the time `now`, and
/// issues a session token.
pub fn login_at(store: &AccountStore, config: &Config, payload: &LoginRequest, now: i64) -> (r: Result<
    AuthResponse,
    AppError,
>)
    requires
        store.wf(),
    ensures
        auth_result(r) == login_outcome(
            store@,
            payload@,
            config.jwt_secret@,
            config.jwt_expiration as int,
            now as int,
        ),
{
    let found = store.find_by_email(payload.email.as_str());
    proof {
        if email_index(store@, payload.email@) is Some {
            let i = email_index(store@, payload.email@)->0;
            assert(holds_email(store@, i, payload.email@));
        }
    }
    answer_login_at(found, config, payload, now)
}

/// Logs a user in with an email and a password at the current time.
pub fn login(store: &AccountStore, config: &Config, payload: &LoginRequest) -> (r: Result<
    AuthResponse,
    AppError,
>)
    requires
        store.wf(),
    ensures
        exists|now: i64|
            auth_result(r) == #[trigger] login_outcome(
                store@,
                payload@,
                config.jwt_secret@,
                config.jwt_expiration as int,
                now as int,
            ),
{
    let now = unix_now();
    login_at(store, config, payload, now)
}

// ---------------------------------------------------------------------
// The end of a federated login
// ---------------------------------------------------------------------

/// `true` or `false`.
pub open spec fn bool_text(b: bool) -> Seq<char> {
    if b {
        "true"@
    } else {
        "false"@
    }
}

/// The URL that hands the token to the frontend.
pub open spec fn redirect_url(frontend_url: Seq<char>, token: Seq<char>, is_new_user: bool) -> Seq<char> {
    frontend_url + "/auth/callback?token="@ + token + "&new_user="@ + bool_text(is_new_user)
}

/// Builds the URL that hands the token to the frontend: the frontend's
/// callback page, with the token and whether the account is new as query
/// parameters.
pub fn callback_redirect(frontend_url: &str, token: &str, is_new_user: bool) -> (r: String)
    ensures
        r@ == redirect_url(frontend_url@, token@, is_new_user),
{
    let mut r = joined(frontend_url, "/auth/callback?token=");
    r.append(token);
    r.append("&new_user=");
    if is_new_user {
        r.append("true");
    } else {
        r.append("false");
    }
    r
}

/// The end of a federated login for the account `user_id` at the time
/// `now`: a session token for the account, handed to the frontend in a URL.
pub open spec fn session_redirected(
    user_id: u128,
    email: Seq<char>,
    is_new_user: bool,
    frontend_url: Seq<char>,
    secret: Seq<char>,
    ttl: int,
    now: int,
) -> Result<Seq<char>, AppError> {
    match issued(user_id, email, secret, ttl, now) {
        Err(e) => Err(e),
        Ok(token) => Ok(redirect_url(frontend_url, token, is_new_user)),
    }
}

/// Issues a session token for the account `user_id` at the time `now` and
/// builds the URL that hands it to the frontend.
pub fn session_redirect_at(config: &Config, user_id: u128, email: String, is_new_user: bool, now: i64) -> (r:
    Result<String, AppError>)
    ensures
        text_result(r) == session_redirected(
            user_id,
            email@,
            is_new_user,
            config.frontend_url@,
            config.jwt_secret@,
            config.jwt_expiration as int,
            now as int,
        ),
{
    match create_jwt_at(user_id, email, config.jwt_secret.as_str(), config.jwt_expiration, now) {
        Err(e) => Err(e),
        Ok(token) => Ok(callback_redirect(config.frontend_url.as_str(), token.as_str(), is_new_user)),
    }
}

/// Issues a session token for the account `user_id` at the current time and
/// builds the URL that hands it to the frontend.
pub fn session_redirect(config: &Config, user_id: u128, email: String, is_new_user: bool) -> (r: Result<
    String,
    AppError,
>)
    ensures
        exists|now: i64|
            text_result(r) == #[trigger] session_redirected(
                user_id,
                email@,
                is_new_user,
                config.frontend_url@,
                config.jwt_secret@,
                config.jwt_expiration as int,
                now as int,
            ),
{
    let now = unix_now();
    session_redirect_at(config, user_id, email, is_new_user, now)
}

/// The store and the answer after `identity` was resolved and a token was
/// issued for its account at the time `now`: the URL that hands the token to
/// the frontend. Where no token can be issued, the store stays as it was.
pub open spec fn login_completed(
    s: Seq<AccountView>,
    identity: IdentityView,
    frontend_url: Seq<char>,
    secret: Seq<char>,
    ttl: int,
    now: int,
) -> (Seq<AccountView>, Result<Seq<char>, AppError>) {
    let r = resolved(s, identity);
    match session_redirected(
        r.id as u128,
        r.store[r.id as int].email,
        r.is_new,
        frontend_url,
        secret,
        ttl,
        now,
    ) {
        Err(e) => (s, Err(e)),
        Ok(url) => (r.store, Ok(url)),
    }
}

/// Ends a federated login at the time `now`: resolves the identity to an
/// account, issues a session token for it, and returns the URL that hands the
/// token to the frontend.
pub fn complete_login_at(store: &mut AccountStore, config: &Config, identity: &ExternalIdentity, now: i64) -> (r:
    Result<String, AppError>)
    requires
        old(store).wf(),
    ensures
        final(store).wf(),
        (final(store)@, text_result(r)) == login_completed(
            old(store)@,
            identity@,
            config.frontend_url@,
            config.jwt_secret@,
            config.jwt_expiration as int,
            now as int,
        ),
{
    let by_link = store.find_by_link(identity.provider, identity.external_id.as_str());
    let by_email = store.find_by_email(identity.email.as_str());
    let ghost expected = resolved(store@, identity@);
    proof {
        if link_index(store@, link_of(identity@)) is Some {
            let i = link_index(store@, link_of(identity@))->0;
            assert(holds_link(store@, i, link_of(identity@)));
        } else if email_index(store@, identity@.email) is Some {
            let i = email_index(store@, identity@.email)->0;
            assert(holds_email(store@, i, identity@.email));
        }
    }
    let (id, is_new_user): (u128, bool) = match plan_resolution(&by_link, &by_email) {
        Resolution::Create => (store.len() as u128, true),
        Resolution::Existing { id } => (id, false),
        Resolution::Link { id } => (id, false),
    };
    let email = account_email(&by_link, &by_email, identity);
    assert(id == expected.id);
    assert(is_new_user == expected.is_new);
    assert(email@ == expected.store[expected.id as int].email);
    let url = match session_redirect_at(config, id, email, is_new_user, now) {
        Ok(url) => url,
        Err(e) => {
            return Err(e);
        },
    };
    let _ = resolve(store, identity);
    Ok(url)
}

// ---------------------------------------------------------------------
// The callback of a federated login, event by event
// ---------------------------------------------------------------------

/// What the callback's caller does next.
#[derive(Clone, Debug)]
pub enum CallbackStep {
    /// Exchange the code for an access token at the provider's token endpoint.
    ExchangeCode { code: String },
    /// Ask the provider to describe the user.
    FetchProfile { access_token: String },
    /// Ask GitHub for the list of the user's emails.
    FetchEmails { access_token: String },
    /// The login is done: send the user to this URL.
    Redirect { url: String },
    /// The login failed: answer with this error.
    Failed(AppError),
}

/// A [`CallbackStep`] as a mathematical value.
pub enum CallbackStepView {
    ExchangeCode { code: Seq<char> },
    FetchProfile { access_token: Seq<char> },
    FetchEmails { access_token: Seq<char> },
    Redirect { url: Seq<char> },
    Failed(AppError),
}

impl View for CallbackStep {
    type V = CallbackStepView;

    open spec fn view(&self) -> CallbackStepView {
        match self {
            CallbackStep::ExchangeCode { code } => CallbackStepView::ExchangeCode { code: code@ },
            CallbackStep::FetchProfile { access_token } => CallbackStepView::FetchProfile {
                access_token: access_token@,
            },
            CallbackStep::FetchEmails { access_token } => CallbackStepView::FetchEmails {
                access_token: access_token@,
            },
            CallbackStep::Redirect { url } => CallbackStepView::Redirect { url: url@ },
            CallbackStep::Failed(e) => CallbackStepView::Failed(*e),
        }
    }
}

/// The stage, the store and the next step after one event of a callback
/// at the time `now`. The exchange decides what the event means; an
/// identity is resolved and given a token at once; a failure of the
/// exchange is shown as "unauthorized".
pub open spec fn callback_stepped(
    s: Seq<AccountView>,
    provider: Provider,
    stage: StageView,
    event: EventView,
    frontend_url: Seq<char>,
    secret: Seq<char>,
    ttl: int,
    now: int,
) -> (StageView, Seq<AccountView>, CallbackStepView) {
    let (next, action) = stepped(provider, stage, event);
    match action {
        ActionView::ExchangeCode { code } => (next, s, CallbackStepView::ExchangeCode { code }),
        ActionView::FetchProfile { access_token } => (
            next,
            s,
            CallbackStepView::FetchProfile { access_token },
        ),
        ActionView::FetchEmails { access_token } => (
            next,
            s,
            CallbackStepView::FetchEmails { access_token },
        ),
        ActionView::Fail(_) => (next, s, CallbackStepView::Failed(AppError::Unauthorized)),
        ActionView::Resolve(identity) => match login_completed(
            s,
            identity,
            frontend_url,
            secret,
            ttl,
            now,
        ) {
            (after, Ok(url)) => (next, after, CallbackStepView::Redirect { url }),
            (after, Err(e)) => (next, after, CallbackStepView::Failed(e)),
        },
    }
}

/// Takes one event of the callback of a federated login at the time `now`
/// and says what to do next.
pub fn oauth_callback_at(
    store: &mut AccountStore,
    config: &Config,
    exchange: OAuthExchange,
    event: ProviderEvent,
    now: i64,
) -> (r: (OAuthExchange, CallbackStep))
    requires
        old(store).wf(),
    ensures
        final(store).wf(),
        r.0.provider == exchange.provider,
        r.0.csrf_token@ == exchange.csrf_token@,
        (r.0.stage@, final(store)@, r.1@) == callback_stepped(
            old(store)@,
            exchange.provider,
            exchange.stage@,
            event@,
            config.frontend_url@,
            config.jwt_secret@,
            config.jwt_expiration as int,
            now as int,
        ),
{
    let (next, action) = exchange.step(event);
    let step = match action {
        Action::ExchangeCode { code } => CallbackStep::ExchangeCode { code },
        Action::FetchProfile { access_token } => CallbackStep::FetchProfile { access_token },
        Action::FetchEmails { access_token } => CallbackStep::FetchEmails { access_token },
        Action::Fail(f) => CallbackStep::Failed(AppError::from_oauth(f)),
        Action::Resolve(identity) => match complete_login_at(store, config, &identity, now) {
            Ok(url) => CallbackStep::Redirect { url },
            Err(e) => CallbackStep::Failed(e),
        },
    };
    (next, step)
}

/// Takes one event of the callback of a federated login at the current time.
pub fn oauth_callback(store: &mut AccountStore, config: &Config, exchange: OAuthExchange, event: ProviderEvent) -> (r:
    (OAuthExchange, CallbackStep))
    requires
        old(store).wf(),
    ensures
        final(store).wf(),
        r.0.provider == exchange.provider,
        r.0.csrf_token@ == exchange.csrf_token@,
        exists|now: i64|
            (r.0.stage@, final(store)@, r.1@) == #[trigger] callback_stepped(
                old(store)@,
                exchange.provider,
                exchange.stage@,
                event@,
                config.frontend_url@,
                config.jwt_secret@,
                config.jwt_expiration as int,
                now as int,
            ),
{
    let now = unix_now();
    oauth_callback_at(store, config, exchange, event, now)
}

// ---------------------------------------------------------------------
// What holds of the attempts
// ---------------------------------------------------------------------

/// At the boundary, a login is refused in one and the same way whether the
/// email is nobody's, the account has no password, or the password is wrong:
/// the answer does not tell which emails exist.
pub proof fn lemma_refused_logins_look_alike(
    s: Seq<AccountView>,
    one: LoginRequestView,
    other: LoginRequestView,
    secret: Seq<char>,
    ttl: int,
    now: int,
)
    requires
        valid_email(one.email),
        valid_email(other.email),
        verified(s, one.email, one.password) == Err::<nat, AuthFailure>(AuthFailure::InvalidCredentials),
        verified(s, other.email, other.password) == Err::<nat, AuthFailure>(
            AuthFailure::InvalidCredentials,
        ),
    ensures
        login_outcome(s, one, secret, ttl, now) == login_outcome(s, other, secret, ttl, now),
        login_outcome(s, one, secret, ttl, now) == Err::<AuthResponseView, AppError>(AppError::Unauthorized),
{
}

/// A registration that fails, for whatever reason, leaves the store as it
/// was; one that succeeds adds exactly the new account, under the id that
/// the answer names.
pub proof fn lemma_registration_is_all_or_nothing(
    s: Seq<AccountView>,
    req: RegisterRequestView,
    hash: Option<Seq<char>>,
    secret: Seq<char>,
    ttl: int,
    now: int,
)
    ensures
        match registration(s, req, hash, secret, ttl, now) {
            (after, Err(_)) => after == s,
            (after, Ok(answer)) => hash is Some && answer.user_id == s.len() && after == registered(
                s,
                req.email,
                req.full_name,
                hash->0,
            ),
        },
{
}

/// An event of a callback that does not end in a redirect leaves the store
/// as it was: a call that is still to be made, a refused event and a failed
/// login create no account and attach no link.
pub proof fn lemma_callback_is_all_or_nothing(
    s: Seq<AccountView>,
    provider: Provider,
    stage: StageView,
    event: EventView,
    frontend_url: Seq<char>,
    secret: Seq<char>,
    ttl: int,
    now: int,
)
    ensures
        ({
            let (_, after, step) = callback_stepped(
                s,
                provider,
                stage,
                event,
                frontend_url,
                secret,
                ttl,
                now,
            );
            !(step is Redirect) ==> after == s
        }),
{
}

} // verus!
