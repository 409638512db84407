//! The client side of a federated login: where to send the user, what to
//! ask the provider for and in which order, and how the provider's answers
//! become one [`ExternalIdentity`] or one [`OAuthFailure`].
//!
//! The calls to the provider are made by the caller. This module decides:
//! [`OAuthExchange::step`] takes what the provider answered and says what to
//! do next.

use vstd::prelude::*;
use vstd::string::*;
use oauth2::basic::BasicClient;
use oauth2::{AuthUrl, ClientId, CsrfToken, RedirectUrl, Scope};
use crate::account::{ExternalIdentity, IdentityView, Provider, clone_opt, opt_view};
use crate::errors::{AppError, OAuthFailure};
use crate::text::{i64_to_decimal, signed_decimal, str_eq};

verus! {

// ---------------------------------------------------------------------
// Providers
// ---------------------------------------------------------------------

/// The credentials of this application at one provider.
#[derive(Clone, Debug)]
pub struct ProviderSettings {
    pub client_id: String,
    pub client_secret: String,
    pub redirect_uri: String,
}

/// The view of a result that holds settings.
pub open spec fn settings_result(r: Result<ProviderSettings, AppError>) -> Result<
    (Seq<char>, Seq<char>, Seq<char>),
    AppError,
> {
    match r {
        Ok(s) => Ok((s.client_id@, s.client_secret@, s.redirect_uri@)),
        Err(e) => Err(e),
    }
}

impl ProviderSettings {
    /// The settings that the environment's variables for one provider give:
    /// its client id, client secret and redirect URI. All three must be set.
    pub fn from_env(client_id: Option<String>, client_secret: Option<String>, redirect_uri: Option<String>) -> (r:
        Result<ProviderSettings, AppError>)
        ensures
            settings_result(r) == (match (opt_view(client_id), opt_view(client_secret), opt_view(redirect_uri)) {
                (Some(id), Some(secret), Some(uri)) => Ok::<(Seq<char>, Seq<char>, Seq<char>), AppError>(
                    (id, secret, uri),
                ),
                _ => Err::<(Seq<char>, Seq<char>, Seq<char>), AppError>(AppError::InternalServerError),
            }),
    {
        match (client_id, client_secret, redirect_uri) {
            (Some(client_id), Some(client_secret), Some(redirect_uri)) => Ok(
                ProviderSettings { client_id, client_secret, redirect_uri },
            ),
            _ => Err(AppError::InternalServerError),
        }
    }
}

/// The URL to which a user is sent to log in at `p`.
pub open spec fn authorize_endpoint(p: Provider) -> Seq<char> {
    match p {
        Provider::Google => "https://accounts.google.com/o/oauth2/v2/auth"@,
        Provider::GitHub => "https://github.com/login/oauth/authorize"@,
    }
}

/// The URL at which `p` exchanges an authorization code for an access token.
pub open spec fn token_endpoint(p: Provider) -> Seq<char> {
    match p {
        Provider::Google => "https://www.googleapis.com/oauth2/v3/token"@,
        Provider::GitHub => "https://github.com/login/oauth/access_token"@,
    }
}

/// The URL at which `p` describes the user that an access token belongs to.
pub open spec fn userinfo_endpoint(p: Provider) -> Seq<char> {
    match p {
        Provider::Google => "https://www.googleapis.com/oauth2/v2/userinfo"@,
        Provider::GitHub => "https://api.github.com/user"@,
    }
}

/// The scopes that are asked of `p`: enough to read the user's email and name.
pub open spec fn scopes_of(p: Provider) -> Seq<Seq<char>> {
    match p {
        Provider::Google => seq!["email"@, "profile"@],
        Provider::GitHub => seq!["user:email"@],
    }
}

/// The texts of a list of strings.
pub open spec fn texts(v: Seq<String>) -> Seq<Seq<char>> {
    Seq::new(v.len(), |i: int| v[i]@)
}

impl Provider {
    /// The URL to which a user is sent to log in.
    pub fn authorize_endpoint(&self) -> (r: String)
        ensures
            r@ == authorize_endpoint(*self),
    {
        match self {
            Provider::Google => "https://accounts.google.com/o/oauth2/v2/auth".to_string(),
            Provider::GitHub => "https://github.com/login/oauth/authorize".to_string(),
        }
    }

    /// The URL at which an authorization code is exchanged for an access token.
    pub fn token_endpoint(&self) -> (r: String)
        ensures
            r@ == token_endpoint(*self),
    {
        match self {
            Provider::Google => "https://www.googleapis.com/oauth2/v3/token".to_string(),
            Provider::GitHub => "https://github.com/login/oauth/access_token".to_string(),
        }
    }

    /// The URL at which the provider describes the user of an access token.
    pub fn userinfo_endpoint(&self) -> (r: String)
        ensures
            r@ == userinfo_endpoint(*self),
    {
        match self {
            Provider::Google => "https://www.googleapis.com/oauth2/v2/userinfo".to_string(),
            Provider::GitHub => "https://api.github.com/user".to_string(),
        }
    }

    /// The scopes to ask for.
    pub fn scopes(&self) -> (r: Vec<String>)
        ensures
            texts(r@) == scopes_of(*self),
    {
        let mut r: Vec<String> = Vec::new();
        match self {
            Provider::Google => {
                r.push("email".to_string());
                r.push("profile".to_string());
            },
            Provider::GitHub => {
                r.push("user:email".to_string());
            },
        }
        assert(texts(r@) =~= scopes_of(*self));
        r
    }
}

// ---------------------------------------------------------------------
// Sending the user to the provider
// ---------------------------------------------------------------------

/// Where to send the user, and the token that the provider will hand back
/// with the callback.
#[derive(Clone, Debug)]
pub struct LoginRedirect {
    pub url: String,
    pub csrf_token: String,
}

/// The authorization URL for an endpoint, a client, a redirect URI, scopes
/// and a state; `None` where the endpoint or the redirect URI is no URL.
pub uninterp spec fn authorize_url_text(
    auth_url: Seq<char>,
    client_id: Seq<char>,
    redirect_uri: Seq<char>,
    scopes: Seq<Seq<char>>,
    state: Seq<char>,
) -> Option<Seq<char>>;

/// Builds an authorization URL.
///
/// Trusted: `oauth2`'s `BasicClient::authorize_url` for a client with the
/// given id, endpoint and redirect URI, the given scopes and the given state,
/// and `url()` on it. The URL depends on these five alone; where
/// `AuthUrl::new` or `RedirectUrl::new` refuses its text the result is `None`.
#[verifier::external_body]
fn oauth2_authorize_url(auth_url: &str, client_id: &str, redirect_uri: &str, scopes: &Vec<String>, state: &str) -> (r:
    Option<String>)
    ensures
        opt_view(r) == authorize_url_text(auth_url@, client_id@, redirect_uri@, texts(scopes@), state@),
{
    let endpoint = AuthUrl::new(auth_url.to_string()).ok()?;
    let redirect = RedirectUrl::new(redirect_uri.to_string()).ok()?;
    let client = BasicClient::new(ClientId::new(client_id.to_string()), None, endpoint, None)
        .set_redirect_uri(redirect);
    let state = CsrfToken::new(state.to_string());
    let request = client.authorize_url(|| state).add_scopes(scopes.iter().cloned().map(Scope::new));
    Some(request.url().0.to_string())
}

/// A fresh token to tell this login's callback from a forged one.
///
/// Trusted: `oauth2::CsrfToken::new_random`. The token is random: nothing
/// is claimed of it.
#[verifier::external_body]
fn random_csrf_token() -> (r: String) {
    CsrfToken::new_random().secret().clone()
}

/// Whether `returned`, the state that a callback brought back, is `sent`,
/// the state that went out with the redirect. An empty state matches
/// nothing: a callback for which no state was sent out, or that brings none,
/// is never taken for the user's own.
pub open spec fn state_matches(sent: Seq<char>, returned: Seq<char>) -> bool {
    sent.len() > 0 && returned == sent
}

/// Compares the state that a callback brought back with the state that was
/// sent out. The caller of a callback does this before anything else, and
/// answers a callback whose state does not match as unauthorized.
pub fn state_accepted(sent: &str, returned: &str) -> (r: bool)
    ensures
        r == state_matches(sent@, returned@),
{
    sent.unicode_len() > 0 && str_eq(sent, returned)
}

/// The redirect for a login at `p` with the state `csrf_token`, or an
/// internal error where the settings give no URL.
pub open spec fn redirect_for(
    p: Provider,
    client_id: Seq<char>,
    redirect_uri: Seq<char>,
    csrf_token: Seq<char>,
) -> Result<Seq<char>, AppError> {
    match authorize_url_text(authorize_endpoint(p), client_id, redirect_uri, scopes_of(p), csrf_token) {
        Some(url) => Ok(url),
        None => Err(AppError::InternalServerError),
    }
}

/// Builds the redirect that starts a login at `provider`, with
/// `csrf_token` as the state that the callback must bring back.
pub fn login_redirect(provider: Provider, settings: &ProviderSettings, csrf_token: String) -> (r: Result<
    LoginRedirect,
    AppError,
>)
    ensures
        match r {
            Ok(redirect) => redirect.csrf_token@ == csrf_token@ && redirect_for(
                provider,
                settings.client_id@,
                settings.redirect_uri@,
                csrf_token@,
            ) == Ok::<Seq<char>, AppError>(redirect.url@),
            Err(e) => redirect_for(provider, settings.client_id@, settings.redirect_uri@, csrf_token@)
                == Err::<Seq<char>, AppError>(e),
        },
{
    let endpoint = provider.authorize_endpoint();
    let scopes = provider.scopes();
    match oauth2_authorize_url(
        endpoint.as_str(),
        settings.client_id.as_str(),
        settings.redirect_uri.as_str(),
        &scopes,
        csrf_token.as_str(),
    ) {
        Some(url) => Ok(LoginRedirect { url, csrf_token }),
        None => Err(AppError::InternalServerError),
    }
}

/// Whether `r` is the answer of starting a login at `p` with some state:
/// a redirect whose URL is the one built for the state that it hands out, or
/// the failure that building the URL for that state ends in. A login fails
/// only where the settings give no URL.
pub open spec fn login_begun(
    p: Provider,
    client_id: Seq<char>,
    redirect_uri: Seq<char>,
    r: Result<LoginRedirect, AppError>,
) -> bool {
    match r {
        Ok(redirect) => redirect_for(p, client_id, redirect_uri, redirect.csrf_token@) == Ok::<
            Seq<char>,
            AppError,
        >(redirect.url@),
        Err(e) => e == AppError::InternalServerError && exists|state: Seq<char>| #[trigger]
            redirect_for(p, client_id, redirect_uri, state) == Err::<Seq<char>, AppError>(e),
    }
}

/// Starts a login at `provider`: a fresh state, and the URL that carries it
/// together with the client id, the redirect URI and the provider's scopes.
/// The state is handed to the caller, who must see it again at the callback.
pub fn begin_login(provider: Provider, settings: &ProviderSettings) -> (r: Result<LoginRedirect, AppError>)
    ensures
        login_begun(provider, settings.client_id@, settings.redirect_uri@, r),
{
    let state = random_csrf_token();
    let ghost sent = state@;
    let r = login_redirect(provider, settings, state);
    proof {
        if r is Err {
            assert(redirect_for(provider, settings.client_id@, settings.redirect_uri@, sent) == Err::<
                Seq<char>,
                AppError,
            >(r->Err_0));
        }
    }
    r
}

/// Starts a login at Google.
pub fn google_login(settings: &ProviderSettings) -> (r: Result<LoginRedirect, AppError>)
    ensures
        login_begun(Provider::Google, settings.client_id@, settings.redirect_uri@, r),
{
    begin_login(Provider::Google, settings)
}

/// Starts a login at GitHub.
pub fn github_login(settings: &ProviderSettings) -> (r: Result<LoginRedirect, AppError>)
    ensures
        login_begun(Provider::GitHub, settings.client_id@, settings.redirect_uri@, r),
{
    begin_login(Provider::GitHub, settings)
}

// ---------------------------------------------------------------------
// What the providers say of a user
// ---------------------------------------------------------------------

/// What Google says of a user.
#[derive(Clone, Debug)]
pub struct GoogleUserInfo {
    pub id: String,
    pub email: String,
    pub name: String,
    pub picture: Option<String>,
}

/// [`GoogleUserInfo`] as a mathematical value.
pub struct GoogleUserView {
    pub id: Seq<char>,
    pub email: Seq<char>,
    pub name: Seq<char>,
    pub picture: Option<Seq<char>>,
}

impl View for GoogleUserInfo {
    type V = GoogleUserView;

    open spec fn view(&self) -> GoogleUserView {
        GoogleUserView {
            id: self.id@,
            email: self.email@,
            name: self.name@,
            picture: opt_view(self.picture),
        }
    }
}

/// What GitHub says of a user. The email is absent where the user keeps it
/// private.
#[derive(Clone, Debug)]
pub struct GitHubUserInfo {
    pub id: i64,
    pub email: Option<String>,
    pub name: Option<String>,
    pub login: String,
    pub avatar_url: Option<String>,
}

/// [`GitHubUserInfo`] as a mathematical value.
pub struct GitHubUserView {
    pub id: i64,
    pub email: Option<Seq<char>>,
    pub name: Option<Seq<char>>,
    pub login: Seq<char>,
    pub avatar_url: Option<Seq<char>>,
}

impl View for GitHubUserInfo {
    type V = GitHubUserView;

    open spec fn view(&self) -> GitHubUserView {
        GitHubUserView {
            id: self.id,
            email: opt_view(self.email),
            name: opt_view(self.name),
            login: self.login@,
            avatar_url: opt_view(self.avatar_url),
        }
    }
}

/// One entry of the list of a GitHub user's emails.
#[derive(Clone, Debug)]
pub struct GitHubEmail {
    pub email: String,
    pub primary: bool,
    pub verified: bool,
}

/// A [`GitHubEmail`] as a mathematical value.
pub struct GitHubEmailView {
    pub email: Seq<char>,
    pub primary: bool,
    pub verified: bool,
}

impl View for GitHubEmail {
    type V = GitHubEmailView;

    open spec fn view(&self) -> GitHubEmailView {
        GitHubEmailView { email: self.email@, primary: self.primary, verified: self.verified }
    }
}

/// The views of a list of emails.
pub open spec fn email_views(v: Seq<GitHubEmail>) -> Seq<GitHubEmailView> {
    Seq::new(v.len(), |i: int| v[i]@)
}

/// The identity that Google's answer stands for.
pub open spec fn google_identity_of(info: GoogleUserView) -> IdentityView {
    IdentityView {
        provider: Provider::Google,
        external_id: info.id,
        email: info.email,
        display_name: info.name,
        avatar_url: info.picture,
    }
}

/// The identity that GitHub's answer stands for, with the email `email`:
/// the id in decimal, and the login where the user has set no name.
pub open spec fn github_identity_of(info: GitHubUserView, email: Seq<char>) -> IdentityView {
    IdentityView {
        provider: Provider::GitHub,
        external_id: signed_decimal(info.id as int),
        email,
        display_name: match info.name {
            Some(name) => name,
            None => info.login,
        },
        avatar_url: info.avatar_url,
    }
}

/// The email of the first entry that is both primary and verified.
pub open spec fn primary_verified(emails: Seq<GitHubEmailView>) -> Option<Seq<char>>
    decreases emails.len(),
{
    if emails.len() == 0 {
        None
    } else if emails[0].primary && emails[0].verified {
        Some(emails[0].email)
    } else {
        primary_verified(emails.drop_first())
    }
}

/// The identity that Google's answer stands for.
pub fn google_identity(info: &GoogleUserInfo) -> (r: ExternalIdentity)
    ensures
        r@ == google_identity_of(info@),
{
    ExternalIdentity {
        provider: Provider::Google,
        external_id: info.id.clone(),
        email: info.email.clone(),
        display_name: info.name.clone(),
        avatar_url: clone_opt(&info.picture),
    }
}

/// The identity that GitHub's answer stands for, with the email `email`.
pub fn github_identity(info: &GitHubUserInfo, email: String) -> (r: ExternalIdentity)
    ensures
        r@ == github_identity_of(info@, email@),
{
    let display_name = match &info.name {
        Some(name) => name.clone(),
        None => info.login.clone(),
    };
    ExternalIdentity {
        provider: Provider::GitHub,
        external_id: i64_to_decimal(info.id),
        email,
        display_name,
        avatar_url: clone_opt(&info.avatar_url),
    }
}

/// Picks the email to know a GitHub user by: the first entry that is both
/// primary and verified. No other entry is ever picked.
pub fn primary_verified_email(emails: &Vec<GitHubEmail>) -> (r: Option<String>)
    ensures
        opt_view(r) == primary_verified(email_views(emails@)),
{
    let ghost all = email_views(emails@);
    let mut i: usize = 0;
    assert(all.skip(0) =~= all);
    while i < emails.len()
        invariant
            0 <= i <= emails.len(),
            all == email_views(emails@),
            primary_verified(all) == primary_verified(all.skip(i as int)),
        decreases emails.len() - i,
    {
        proof {
            assert(all.skip(i as int)[0] == emails@[i as int]@);
            assert(all.skip(i as int).drop_first() =~= all.skip(i + 1));
        }
        if emails[i].primary && emails[i].verified {
            return Some(emails[i].email.clone());
        }
        i = i + 1;
    }
    proof {
        assert(all.skip(i as int).len() == 0);
    }
    None
}

/// Where `primary_verified` finds an email, it is that of an entry that is
/// primary and verified, and every entry before it lacks one of the two;
/// where it finds none, no entry is both.
pub proof fn lemma_primary_verified(emails: Seq<GitHubEmailView>)
    ensures
        match primary_verified(emails) {
            Some(email) => exists|i: int|
                0 <= i < emails.len() && (#[trigger] emails[i]).primary && emails[i].verified
                    && emails[i].email == email && forall|j: int|
                    0 <= j < i ==> !((#[trigger] emails[j]).primary && emails[j].verified),
            None => forall|i: int|
                0 <= i < emails.len() ==> !((#[trigger] emails[i]).primary && emails[i].verified),
        },
    decreases emails.len(),
{
    if emails.len() == 0 {
    } else if emails[0].primary && emails[0].verified {
        assert(emails[0].email == primary_verified(emails)->0);
    } else {
        let rest = emails.drop_first();
        lemma_primary_verified(rest);
        match primary_verified(rest) {
            Some(email) => {
                let i = choose|i: int|
                    0 <= i < rest.len() && (#[trigger] rest[i]).primary && rest[i].verified
                        && rest[i].email == email && forall|j: int|
                        0 <= j < i ==> !((#[trigger] rest[j]).primary && rest[j].verified);
                assert(emails[i + 1] == rest[i]);
                assert forall|j: int| 0 <= j < i + 1 implies !((#[trigger] emails[j]).primary
                    && emails[j].verified) by {
                    if j > 0 {
                        assert(emails[j] == rest[j - 1]);
                    }
                }
            },
            None => {
                assert forall|i: int| 0 <= i < emails.len() implies !((#[trigger] emails[i]).primary
                    && emails[i].verified) by {
                    if i > 0 {
                        assert(emails[i] == rest[i - 1]);
                    }
                }
            },
        }
    }
}

// ---------------------------------------------------------------------
// One login attempt
// ---------------------------------------------------------------------

/// What reaches a login attempt from outside: the callback, and the
/// provider's answers to the calls that the attempt asked for.
#[derive(Clone, Debug)]
pub enum ProviderEvent {
    /// The user came back from the provider with an authorization code.
    Callback { code: String },
    /// The provider exchanged the code for an access token.
    TokenGranted { access_token: String },
    /// The provider refused the code.
    TokenRefused,
    /// Google described the user.
    GoogleProfile(GoogleUserInfo),
    /// GitHub described the user.
    GitHubProfile(GitHubUserInfo),
    /// GitHub listed the user's emails.
    GitHubEmails(Vec<GitHubEmail>),
    /// The provider could not be reached, or did not answer in time.
    Unreachable,
    /// The provider answered with a status that is not a success.
    BadStatus(u16),
    /// The provider answered with a payload that cannot be read.
    Malformed,
}

/// A [`ProviderEvent`] as a mathematical value.
pub enum EventView {
    Callback { code: Seq<char> },
    TokenGranted { access_token: Seq<char> },
    TokenRefused,
    GoogleProfile(GoogleUserView),
    GitHubProfile(GitHubUserView),
    GitHubEmails(Seq<GitHubEmailView>),
    Unreachable,
    BadStatus(u16),
    Malformed,
}

impl View for ProviderEvent {
    type V = EventView;

    open spec fn view(&self) -> EventView {
        match self {
            ProviderEvent::Callback { code } => EventView::Callback { code: code@ },
            ProviderEvent::TokenGranted { access_token } => EventView::TokenGranted {
                access_token: access_token@,
            },
            ProviderEvent::TokenRefused => EventView::TokenRefused,
            ProviderEvent::GoogleProfile(info) => EventView::GoogleProfile(info@),
            ProviderEvent::GitHubProfile(info) => EventView::GitHubProfile(info@),
            ProviderEvent::GitHubEmails(emails) => EventView::GitHubEmails(email_views(emails@)),
            ProviderEvent::Unreachable => EventView::Unreachable,
            ProviderEvent::BadStatus(status) => EventView::BadStatus(*status),
            ProviderEvent::Malformed => EventView::Malformed,
        }
    }
}

/// How a call to the provider's token endpoint ended.
#[derive(Clone, Debug)]
pub enum TokenAnswer {
    /// The provider granted an access token.
    Granted { access_token: String },
    /// The provider answered with an error response.
    ErrorResponse,
    /// The request could not be sent, was not answered, or ran out of time.
    RequestFailed,
    /// The answer is neither a token nor an error response; `names_error`
    /// says whether it is an object with an `error` member all the same, as
    /// GitHub sends for a code that it refuses.
    Unreadable { names_error: bool },
    /// The call ended in some other way.
    Other,
}

/// A [`TokenAnswer`] as a mathematical value.
pub enum TokenAnswerView {
    Granted { access_token: Seq<char> },
    ErrorResponse,
    RequestFailed,
    Unreadable { names_error: bool },
    Other,
}

impl View for TokenAnswer {
    type V = TokenAnswerView;

    open spec fn view(&self) -> TokenAnswerView {
        match self {
            TokenAnswer::Granted { access_token } => TokenAnswerView::Granted {
                access_token: access_token@,
            },
            TokenAnswer::ErrorResponse => TokenAnswerView::ErrorResponse,
            TokenAnswer::RequestFailed => TokenAnswerView::RequestFailed,
            TokenAnswer::Unreadable { names_error } => TokenAnswerView::Unreadable {
                names_error: *names_error,
            },
            TokenAnswer::Other => TokenAnswerView::Other,
        }
    }
}

/// The event that an answer of the token endpoint is: an error response, in
/// either shape, is a refused code; a request that failed is an unreachable
/// provider; everything else that is no token is unreadable.
pub open spec fn token_event_of(answer: TokenAnswerView) -> EventView {
    match answer {
        TokenAnswerView::Granted { access_token } => EventView::TokenGranted { access_token },
        TokenAnswerView::ErrorResponse => EventView::TokenRefused,
        TokenAnswerView::RequestFailed => EventView::Unreachable,
        TokenAnswerView::Unreadable { names_error } => if names_error {
            EventView::TokenRefused
        } else {
            EventView::Malformed
        },
        TokenAnswerView::Other => EventView::Malformed,
    }
}

/// Tells what an answer of the token endpoint means for the login attempt.
pub fn token_event(answer: TokenAnswer) -> (r: ProviderEvent)
    ensures
        r@ == token_event_of(answer@),
{
    match answer {
        TokenAnswer::Granted { access_token } => ProviderEvent::TokenGranted { access_token },
        TokenAnswer::ErrorResponse => ProviderEvent::TokenRefused,
        TokenAnswer::RequestFailed => ProviderEvent::Unreachable,
        TokenAnswer::Unreadable { names_error } => {
            if names_error {
                ProviderEvent::TokenRefused
            } else {
                ProviderEvent::Malformed
            }
        },
        TokenAnswer::Other => ProviderEvent::Malformed,
    }
}

/// How far a login attempt has come.
#[derive(Clone, Debug)]
pub enum Stage {
    /// The user was sent to the provider and has not come back.
    AwaitingCallback,
    /// The code was handed to the provider.
    ExchangingCode,
    /// The provider was asked to describe the user.
    FetchingProfile { access_token: String },
    /// GitHub described the user without an email and was asked for the list.
    FetchingEmails { access_token: String, profile: GitHubUserInfo },
    /// The attempt gave an identity.
    Completed,
    /// The attempt failed.
    Failed(OAuthFailure),
}

/// A [`Stage`] as a mathematical value.
pub enum StageView {
    AwaitingCallback,
    ExchangingCode,
    FetchingProfile { access_token: Seq<char> },
    FetchingEmails { access_token: Seq<char>, profile: GitHubUserView },
    Completed,
    Failed(OAuthFailure),
}

impl View for Stage {
    type V = StageView;

    open spec fn view(&self) -> StageView {
        match self {
            Stage::AwaitingCallback => StageView::AwaitingCallback,
            Stage::ExchangingCode => StageView::ExchangingCode,
            Stage::FetchingProfile { access_token } => StageView::FetchingProfile {
                access_token: access_token@,
            },
            Stage::FetchingEmails { access_token, profile } => StageView::FetchingEmails {
                access_token: access_token@,
                profile: profile@,
            },
            Stage::Completed => StageView::Completed,
            Stage::Failed(f) => StageView::Failed(*f),
        }
    }
}

/// What a login attempt asks its caller to do next.
#[derive(Clone, Debug)]
pub enum Action {
    /// Exchange the code for an access token at the token endpoint.
    ExchangeCode { code: String },
    /// Ask the provider to describe the user.
    FetchProfile { access_token: String },
    /// Ask GitHub for the list of the user's emails.
    FetchEmails { access_token: String },
    /// The provider vouches for this identity: resolve it to an account.
    Resolve(ExternalIdentity),
    /// Answer with this failure.
    Fail(OAuthFailure),
}

/// An [`Action`] as a mathematical value.
pub enum ActionView {
    ExchangeCode { code: Seq<char> },
    FetchProfile { access_token: Seq<char> },
    FetchEmails { access_token: Seq<char> },
    Resolve(IdentityView),
    Fail(OAuthFailure),
}

impl View for Action {
    type V = ActionView;

    open spec fn view(&self) -> ActionView {
        match self {
            Action::ExchangeCode { code } => ActionView::ExchangeCode { code: code@ },
            Action::FetchProfile { access_token } => ActionView::FetchProfile {
                access_token: access_token@,
            },
            Action::FetchEmails { access_token } => ActionView::FetchEmails {
                access_token: access_token@,
            },
            Action::Resolve(identity) => ActionView::Resolve(identity@),
            Action::Fail(f) => ActionView::Fail(*f),
        }
    }
}

/// The attempt fails with `f`.
pub open spec fn failing(f: OAuthFailure) -> (StageView, ActionView) {
    (StageView::Failed(f), ActionView::Fail(f))
}

/// An event that the stage does not await changes nothing and is refused: a
/// callback because the code was used before, anything else as unreadable.
pub open spec fn refused(stage: StageView, event: EventView) -> (StageView, ActionView) {
    match event {
        EventView::Callback { .. } => (stage, ActionView::Fail(OAuthFailure::CodeExchangeFailed)),
        _ => (stage, ActionView::Fail(OAuthFailure::MalformedResponse)),
    }
}

/// The stage after `event`, and what to do next.
///
/// A callback is accepted once. The code is exchanged before the user is
/// asked for, and the user before the emails. A call that fails ends the
/// attempt: `ProviderUnavailable` where the provider could not be reached or
/// answered with an error status, `MalformedResponse` where its payload
/// cannot be read or is that of the other provider, `CodeExchangeFailed`
/// where it refused the code. GitHub's emails are asked for only where the
/// profile has none, and only a primary, verified one is taken.
pub open spec fn stepped(provider: Provider, stage: StageView, event: EventView) -> (StageView, ActionView) {
    match stage {
        StageView::AwaitingCallback => match event {
            EventView::Callback { code } => (StageView::ExchangingCode, ActionView::ExchangeCode { code }),
            _ => refused(stage, event),
        },
        StageView::ExchangingCode => match event {
            EventView::TokenGranted { access_token } => (
                StageView::FetchingProfile { access_token },
                ActionView::FetchProfile { access_token },
            ),
            EventView::TokenRefused => failing(OAuthFailure::CodeExchangeFailed),
            EventView::Unreachable => failing(OAuthFailure::ProviderUnavailable),
            EventView::BadStatus(_) => failing(OAuthFailure::ProviderUnavailable),
            EventView::Malformed => failing(OAuthFailure::MalformedResponse),
            _ => refused(stage, event),
        },
        StageView::FetchingProfile { access_token } => match event {
            EventView::GoogleProfile(info) => if provider == Provider::Google {
                (StageView::Completed, ActionView::Resolve(google_identity_of(info)))
            } else {
                failing(OAuthFailure::MalformedResponse)
            },
            EventView::GitHubProfile(info) => if provider == Provider::GitHub {
                match info.email {
                    Some(email) => (
                        StageView::Completed,
                        ActionView::Resolve(github_identity_of(info, email)),
                    ),
                    None => (
                        StageView::FetchingEmails { access_token, profile: info },
                        ActionView::FetchEmails { access_token },
                    ),
                }
            } else {
                failing(OAuthFailure::MalformedResponse)
            },
            EventView::Unreachable => failing(OAuthFailure::ProviderUnavailable),
            EventView::BadStatus(_) => failing(OAuthFailure::ProviderUnavailable),
            EventView::Malformed => failing(OAuthFailure::MalformedResponse),
            _ => refused(stage, event),
        },
        StageView::FetchingEmails { access_token, profile } => match event {
            EventView::GitHubEmails(emails) => match primary_verified(emails) {
                Some(email) => (
                    StageView::Completed,
                    ActionView::Resolve(github_identity_of(profile, email)),
                ),
                None => failing(OAuthFailure::NoVerifiedEmail),
            },
            EventView::Unreachable => failing(OAuthFailure::ProviderUnavailable),
            EventView::BadStatus(_) => failing(OAuthFailure::ProviderUnavailable),
            EventView::Malformed => failing(OAuthFailure::MalformedResponse),
            _ => refused(stage, event),
        },
        StageView::Completed => refused(stage, event),
        StageView::Failed(_) => refused(stage, event),
    }
}

fn fail(f: OAuthFailure) -> (r: (Stage, Action))
    ensures
        (r.0@, r.1@) == failing(f),
{
    (Stage::Failed(f), Action::Fail(f))
}

fn refuse(stage: Stage, event: ProviderEvent) -> (r: (Stage, Action))
    ensures
        (r.0@, r.1@) == refused(stage@, event@),
{
    match event {
        ProviderEvent::Callback { .. } => (stage, Action::Fail(OAuthFailure::CodeExchangeFailed)),
        _ => (stage, Action::Fail(OAuthFailure::MalformedResponse)),
    }
}

/// Takes one event of a login attempt at `provider` that stands at `stage`,
/// and returns the stage after it and what to do next.
pub fn advance(provider: Provider, stage: Stage, event: ProviderEvent) -> (r: (Stage, Action))
    ensures
        (r.0@, r.1@) == stepped(provider, stage@, event@),
{
    match stage {
        Stage::AwaitingCallback => match event {
            ProviderEvent::Callback { code } => (Stage::ExchangingCode, Action::ExchangeCode { code }),
            other => refuse(Stage::AwaitingCallback, other),
        },
        Stage::ExchangingCode => match event {
            ProviderEvent::TokenGranted { access_token } => {
                let kept = access_token.clone();
                (Stage::FetchingProfile { access_token: kept }, Action::FetchProfile { access_token })
            },
            ProviderEvent::TokenRefused => fail(OAuthFailure::CodeExchangeFailed),
            ProviderEvent::Unreachable => fail(OAuthFailure::ProviderUnavailable),
            ProviderEvent::BadStatus(_) => fail(OAuthFailure::ProviderUnavailable),
            ProviderEvent::Malformed => fail(OAuthFailure::MalformedResponse),
            other => refuse(Stage::ExchangingCode, other),
        },
        Stage::FetchingProfile { access_token } => match event {
            ProviderEvent::GoogleProfile(info) => {
                if provider == Provider::Google {
                    (Stage::Completed, Action::Resolve(google_identity(&info)))
                } else {
                    fail(OAuthFailure::MalformedResponse)
                }
            },
            ProviderEvent::GitHubProfile(info) => {
                if provider == Provider::GitHub {
                    match &info.email {
                        Some(email) => {
                            let identity = github_identity(&info, email.clone());
                            (Stage::Completed, Action::Resolve(identity))
                        },
                        None => {
                            let kept = access_token.clone();
                            (
                                Stage::FetchingEmails { access_token: kept, profile: info },
                                Action::FetchEmails { access_token },
                            )
                        },
                    }
                } else {
                    fail(OAuthFailure::MalformedResponse)
                }
            },
            ProviderEvent::Unreachable => fail(OAuthFailure::ProviderUnavailable),
            ProviderEvent::BadStatus(_) => fail(OAuthFailure::ProviderUnavailable),
            ProviderEvent::Malformed => fail(OAuthFailure::MalformedResponse),
            other => refuse(Stage::FetchingProfile { access_token }, other),
        },
        Stage::FetchingEmails { access_token, profile } => match event {
            ProviderEvent::GitHubEmails(emails) => match primary_verified_email(&emails) {
                Some(email) => (Stage::Completed, Action::Resolve(github_identity(&profile, email))),
                None => fail(OAuthFailure::NoVerifiedEmail),
            },
            ProviderEvent::Unreachable => fail(OAuthFailure::ProviderUnavailable),
            ProviderEvent::BadStatus(_) => fail(OAuthFailure::ProviderUnavailable),
            ProviderEvent::Malformed => fail(OAuthFailure::MalformedResponse),
            other => refuse(Stage::FetchingEmails { access_token, profile }, other),
        },
        Stage::Completed => refuse(Stage::Completed, event),
        Stage::Failed(f) => refuse(Stage::Failed(f), event),
    }
}

/// One login attempt at a provider, from the redirect to the identity.
#[derive(Clone, Debug)]
pub struct OAuthExchange {
    pub provider: Provider,
    /// The state that was sent along with the user.
    pub csrf_token: String,
    pub stage: Stage,
}

impl OAuthExchange {
    /// The attempt that begins when the user is sent to `provider` with the
    /// state `csrf_token`.
    pub fn new(provider: Provider, csrf_token: String) -> (r: OAuthExchange)
        ensures
            r.provider == provider,
            r.csrf_token@ == csrf_token@,
            r.stage@ == StageView::AwaitingCallback,
    {
        OAuthExchange { provider, csrf_token, stage: Stage::AwaitingCallback }
    }


    /// Takes one event and returns the attempt after it and what to do next.
    pub fn step(self, event: ProviderEvent) -> (r: (OAuthExchange, Action))
        ensures
            r.0.provider == self.provider,
            r.0.csrf_token@ == self.csrf_token@,
            (r.0.stage@, r.1@) == stepped(self.provider, self.stage@, event@),
    {
        let provider = self.provider;
        let (stage, action) = advance(provider, self.stage, event);
        (OAuthExchange { provider, csrf_token: self.csrf_token, stage }, action)
    }
}

/// Begins the callback of a login at Google: the attempt for the state
/// `csrf_token`, with the code that the user brought back handed on for
/// exchange.
pub fn google_callback(code: String, csrf_token: String) -> (r: (OAuthExchange, Action))
    ensures
        r.0.provider == Provider::Google,
        r.0.csrf_token@ == csrf_token@,
        r.0.stage@ == StageView::ExchangingCode,
        r.1@ == (ActionView::ExchangeCode { code: code@ }),
{
    OAuthExchange::new(Provider::Google, csrf_token).step(ProviderEvent::Callback { code })
}

/// Begins the callback of a login at GitHub: the attempt for the state
/// `csrf_token`, with the code that the user brought back handed on for
/// exchange.
pub fn github_callback(code: String, csrf_token: String) -> (r: (OAuthExchange, Action))
    ensures
        r.0.provider == Provider::GitHub,
        r.0.csrf_token@ == csrf_token@,
        r.0.stage@ == StageView::ExchangingCode,
        r.1@ == (ActionView::ExchangeCode { code: code@ }),
{
    OAuthExchange::new(Provider::GitHub, csrf_token).step(ProviderEvent::Callback { code })
}

// ---------------------------------------------------------------------
// What holds of a login attempt
// ---------------------------------------------------------------------

/// An authorization code is exchanged once: the first callback of an attempt
/// has its code handed to the provider, and a callback at any later stage,
/// whatever came of the first, fails with `CodeExchangeFailed` and leaves the
/// attempt as it is.
pub proof fn lemma_code_exchanged_once(provider: Provider, stage: StageView, code: Seq<char>)
    ensures
        stage == StageView::AwaitingCallback ==> stepped(
            provider,
            stage,
            EventView::Callback { code },
        ) == (StageView::ExchangingCode, ActionView::ExchangeCode { code }),
        stage != StageView::AwaitingCallback ==> stepped(
            provider,
            stage,
            EventView::Callback { code },
        ) == (stage, ActionView::Fail(OAuthFailure::CodeExchangeFailed)),
        stepped(provider, stage, EventView::Callback { code }).0 != StageView::AwaitingCallback,
{
}

/// An attempt that has given its identity or has failed is over: whatever
/// comes later changes nothing, asks for no call and names no identity.
/// Nothing is tried again.
pub proof fn lemma_ended_attempt_stays_ended(provider: Provider, stage: StageView, event: EventView)
    requires
        stage is Completed || stage is Failed,
    ensures
        stepped(provider, stage, event).0 == stage,
        stepped(provider, stage, event).1 is Fail,
{
}

/// Whether `stage` is a stage of an attempt at `provider`: only GitHub is
/// asked for a list of emails.
pub open spec fn stage_fits(provider: Provider, stage: StageView) -> bool {
    stage is FetchingEmails ==> provider == Provider::GitHub
}

/// An attempt resolves an identity only from the stage that awaits the
/// user's description or the user's emails: the code exchange comes before
/// the user info, and the user info before the resolution. The identity is
/// one of the attempt's own provider.
pub proof fn lemma_resolution_comes_last(provider: Provider, stage: StageView, event: EventView)
    requires
        stage_fits(provider, stage),
    ensures
        stage_fits(provider, stepped(provider, stage, event).0),
        stepped(provider, stage, event).1 matches ActionView::Resolve(identity) ==> {
            &&& (stage is FetchingProfile || stage is FetchingEmails)
            &&& stepped(provider, stage, event).0 == StageView::Completed
            &&& identity.provider == provider
        },
{
}

/// A GitHub identity never carries an email that is not the profile's own or
/// a primary, verified entry of the list.
pub proof fn lemma_github_email_is_verified(stage: StageView, emails: Seq<GitHubEmailView>)
    requires
        stage is FetchingEmails,
    ensures
        match stepped(Provider::GitHub, stage, EventView::GitHubEmails(emails)).1 {
            ActionView::Resolve(identity) => exists|i: int|
                0 <= i < emails.len() && (#[trigger] emails[i]).primary && emails[i].verified
                    && emails[i].email == identity.email,
            ActionView::Fail(f) => f == OAuthFailure::NoVerifiedEmail && forall|i: int|
                0 <= i < emails.len() ==> !((#[trigger] emails[i]).primary && emails[i].verified),
            _ => false,
        },
{
    lemma_primary_verified(emails);
}

} // verus!
