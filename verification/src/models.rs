//! What a client sends to register or log in, and what it gets back.

use vstd::prelude::*;
use vstd::string::*;
use validator::ValidateEmail;
use crate::account::{Account, AccountView};
use crate::errors::ValidationErrors;

verus! {

/// Whether `s` is an email address by the rules of HTML forms.
pub uninterp spec fn valid_email(s: Seq<char>) -> bool;

/// Checks the format of an email address.
///
/// Trusted: `validator::ValidateEmail::validate_email` on the text, which
/// depends on the text alone.
#[verifier::external_body]
pub(crate) fn is_valid_email(s: &str) -> (r: bool)
    ensures
        r == valid_email(s@),
{
    s.validate_email()
}

/// The request to register a local account.
#[derive(Clone, Debug)]
pub struct RegisterRequest {
    pub email: String,
    pub password: String,
    pub full_name: String,
}

/// A [`RegisterRequest`] as a mathematical value.
pub struct RegisterRequestView {
    pub email: Seq<char>,
    pub password: Seq<char>,
    pub full_name: Seq<char>,
}

impl View for RegisterRequest {
    type V = RegisterRequestView;

    open spec fn view(&self) -> RegisterRequestView {
        RegisterRequestView {
            email: self.email@,
            password: self.password@,
            full_name: self.full_name@,
        }
    }
}

/// The faults of a registration: the email must be an email address, the
/// password must have at least 6 characters and the name at least 2.
pub open spec fn register_faults(r: RegisterRequestView) -> ValidationErrors {
    ValidationErrors {
        email: !valid_email(r.email),
        password: r.password.len() < 6,
        full_name: r.full_name.len() < 2,
    }
}

impl RegisterRequest {
    /// Checks every field and reports all that are refused.
    pub fn validate(&self) -> (r: Result<(), ValidationErrors>)
        ensures
            r == (if register_faults(self@).is_empty() {
                Ok::<(), ValidationErrors>(())
            } else {
                Err::<(), ValidationErrors>(register_faults(self@))
            }),
    {
        let faults = ValidationErrors {
            email: !is_valid_email(self.email.as_str()),
            password: self.password.as_str().unicode_len() < 6,
            full_name: self.full_name.as_str().unicode_len() < 2,
        };
        if faults.is_empty() {
            Ok(())
        } else {
            Err(faults)
        }
    }
}

/// The request to log in with a password.
#[derive(Clone, Debug)]
pub struct LoginRequest {
    pub email: String,
    pub password: String,
}

/// A [`LoginRequest`] as a mathematical value.
pub struct LoginRequestView {
    pub email: Seq<char>,
    pub password: Seq<char>,
}

impl View for LoginRequest {
    type V = LoginRequestView;

    open spec fn view(&self) -> LoginRequestView {
        LoginRequestView { email: self.email@, password: self.password@ }
    }
}

/// The faults of a login request: the email must be an email address.
pub open spec fn login_faults(r: LoginRequestView) -> ValidationErrors {
    ValidationErrors { email: !valid_email(r.email), password: false, full_name: false }
}

impl LoginRequest {
    /// Checks the email's format. The password is not looked at.
    pub fn validate(&self) -> (r: Result<(), ValidationErrors>)
        ensures
            r == (if valid_email(self.email@) {
                Ok::<(), ValidationErrors>(())
            } else {
                Err::<(), ValidationErrors>(login_faults(self@))
            }),
    {
        if is_valid_email(self.email.as_str()) {
            Ok(())
        } else {
            Err(ValidationErrors { email: true, password: false, full_name: false })
        }
    }
}

/// What a client is told of an account.
#[derive(Clone, Debug)]
pub struct UserResponse {
    pub id: u128,
    pub email: String,
    pub full_name: String,
}

/// A [`UserResponse`] as a mathematical value.
pub struct UserResponseView {
    pub id: nat,
    pub email: Seq<char>,
    pub full_name: Seq<char>,
}

impl View for UserResponse {
    type V = UserResponseView;

    open spec fn view(&self) -> UserResponseView {
        UserResponseView { id: self.id as nat, email: self.email@, full_name: self.full_name@ }
    }
}

/// What a client is told of the account `a`: its id, email and name, and
/// nothing of its password or its link.
pub open spec fn summary_of(a: AccountView) -> UserResponseView {
    UserResponseView { id: a.id, email: a.email, full_name: a.full_name }
}

impl From<Account> for UserResponse {
    /// The summary of an account: the password's hash and the link are dropped.
    fn from(user: Account) -> (r: UserResponse) {
        UserResponse { id: user.id, email: user.email, full_name: user.full_name }
    }
}

impl vstd::std_specs::convert::FromSpecImpl<Account> for UserResponse {
    open spec fn obeys_from_spec() -> bool {
        true
    }

    open spec fn from_spec(user: Account) -> UserResponse {
        UserResponse { id: user.id, email: user.email, full_name: user.full_name }
    }
}

/// The answer to a login: the session token and the account's summary.
#[derive(Clone, Debug)]
pub struct AuthResponse {
    pub token: String,
    pub user: UserResponse,
}

/// An [`AuthResponse`] as a mathematical value.
pub struct AuthResponseView {
    pub token: Seq<char>,
    pub user: UserResponseView,
}

impl View for AuthResponse {
    type V = AuthResponseView;

    open spec fn view(&self) -> AuthResponseView {
        AuthResponseView { token: self.token@, user: self.user@ }
    }
}

/// The answer to a registration: the new account's id and a session token.
#[derive(Clone, Debug)]
pub struct RegisterResponse {
    pub message: String,
    pub token: String,
    pub user_id: u128,
}

/// A [`RegisterResponse`] as a mathematical value.
pub struct RegisterResponseView {
    pub message: Seq<char>,
    pub token: Seq<char>,
    pub user_id: nat,
}

impl View for RegisterResponse {
    type V = RegisterResponseView;

    open spec fn view(&self) -> RegisterResponseView {
        RegisterResponseView {
            message: self.message@,
            token: self.token@,
            user_id: self.user_id as nat,
        }
    }
}

} // verus!
