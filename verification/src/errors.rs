//! The failures that the core reports, and how each one is shown to a client.

use vstd::prelude::*;

verus! {

/// Why a local login was refused.
#[derive(Clone, Copy, Debug, PartialEq, Eq, Structural)]
pub enum AuthFailure {
    /// Unknown email, an account without a password, or a wrong password:
    /// one answer for all three, so that a caller cannot tell which emails exist.
    InvalidCredentials,
    /// The stored hash could not be checked.
    Internal,
}

/// Why a federated login did not yield an identity.
#[derive(Clone, Copy, Debug, PartialEq, Eq, Structural)]
pub enum OAuthFailure {
    /// The provider refused the authorization code, or the code was used before.
    CodeExchangeFailed,
    /// The provider could not be reached, timed out, or answered with an error status.
    ProviderUnavailable,
    /// The provider answered with a payload that could not be read.
    MalformedResponse,
    /// The provider knows no primary, verified email for the user.
    NoVerifiedEmail,
}

/// Why a registration was refused.
#[derive(Clone, Copy, Debug, PartialEq, Eq, Structural)]
pub enum RegisterFailure {
    /// Another account already has this email.
    EmailTaken,
    /// The password could not be hashed, or the store refused the record.
    Internal,
}

/// Why a session token was refused.
#[derive(Clone, Copy, Debug, PartialEq, Eq, Structural)]
pub enum TokenFailure {
    /// The token is past its expiry time.
    Expired,
    /// The signature does not belong to the token's content and the secret.
    BadSignature,
    /// The token cannot be read.
    Malformed,
}

/// Which fields of a request were refused.
#[derive(Clone, Copy, Debug, PartialEq, Eq, Structural)]
pub struct ValidationErrors {
    /// The email is not an email address.
    pub email: bool,
    /// The password has fewer than 6 characters.
    pub password: bool,
    /// The full name has fewer than 2 characters.
    pub full_name: bool,
}

impl ValidationErrors {
    /// Whether no field was refused.
    pub open spec fn spec_is_empty(&self) -> bool {
        !self.email && !self.password && !self.full_name
    }

    /// Whether no field was refused.
    #[verifier::when_used_as_spec(spec_is_empty)]
    pub fn is_empty(&self) -> (r: bool)
        ensures
            r == self.spec_is_empty(),
    {
        !self.email && !self.password && !self.full_name
    }
}

/// What went wrong in the account store.
#[derive(Clone, Copy, Debug, PartialEq, Eq, Structural)]
pub enum DatabaseError {
    /// A write would have given two accounts the same email or the same external identity.
    UniqueViolation,
    /// Anything else.
    Other,
}

/// A failure as it reaches the HTTP boundary.
#[derive(Clone, Copy, Debug, PartialEq, Eq, Structural)]
pub enum AppError {
    /// An unexpected failure; no detail is shown.
    InternalServerError,
    /// The request's fields were refused.
    ValidationError(ValidationErrors),
    /// The account store failed.
    DatabaseError(DatabaseError),
    /// The caller is not who it claims to be.
    Unauthorized,
    /// There is no such thing.
    NotFound,
}

/// The HTTP status that shows `e`.
pub open spec fn status_of(e: AppError) -> u16 {
    match e {
        AppError::InternalServerError => 500,
        AppError::ValidationError(_) => 400,
        AppError::DatabaseError(DatabaseError::UniqueViolation) => 409,
        AppError::DatabaseError(DatabaseError::Other) => 500,
        AppError::Unauthorized => 401,
        AppError::NotFound => 404,
    }
}

/// The text that shows `e` to a client.
pub open spec fn message_of(e: AppError) -> Seq<char> {
    match e {
        AppError::InternalServerError => "Internal Server Error"@,
        AppError::ValidationError(_) => "Validation failed"@,
        AppError::DatabaseError(DatabaseError::UniqueViolation) => "Email already in use."@,
        AppError::DatabaseError(DatabaseError::Other) => "Internal Server Error"@,
        AppError::Unauthorized => "Unauthorized"@,
        AppError::NotFound => "Not found"@,
    }
}

impl AppError {
    /// The HTTP status of the response for this failure.
    pub fn status_code(&self) -> (r: u16)
        ensures
            r == status_of(*self),
    {
        match self {
            AppError::InternalServerError => 500,
            AppError::ValidationError(_) => 400,
            AppError::DatabaseError(DatabaseError::UniqueViolation) => 409,
            AppError::DatabaseError(DatabaseError::Other) => 500,
            AppError::Unauthorized => 401,
            AppError::NotFound => 404,
        }
    }

    /// The text of the response for this failure. A uniqueness violation is
    /// named, since it is safe to reveal; other store failures are not.
    pub fn message(&self) -> (r: String)
        ensures
            r@ == message_of(*self),
    {
        match self {
            AppError::InternalServerError => "Internal Server Error".to_string(),
            AppError::ValidationError(_) => "Validation failed".to_string(),
            AppError::DatabaseError(DatabaseError::UniqueViolation) => "Email already in use.".to_string(),
            AppError::DatabaseError(DatabaseError::Other) => "Internal Server Error".to_string(),
            AppError::Unauthorized => "Unauthorized".to_string(),
            AppError::NotFound => "Not found".to_string(),
        }
    }

    /// A failed local login: wrong credentials are shown as "unauthorized",
    /// a failure to check them as an internal error.
    pub fn from_auth(f: AuthFailure) -> (r: AppError)
        ensures
            r == (match f {
                AuthFailure::InvalidCredentials => AppError::Unauthorized,
                AuthFailure::Internal => AppError::InternalServerError,
            }),
    {
        match f {
            AuthFailure::InvalidCredentials => AppError::Unauthorized,
            AuthFailure::Internal => AppError::InternalServerError,
        }
    }

    /// A failed federated login is always shown as "unauthorized".
    pub fn from_oauth(f: OAuthFailure) -> (r: AppError)
        ensures
            r == AppError::Unauthorized,
    {
        AppError::Unauthorized
    }

    /// A refused token is always shown as "unauthorized".
    pub fn from_token(f: TokenFailure) -> (r: AppError)
        ensures
            r == AppError::Unauthorized,
    {
        AppError::Unauthorized
    }

    /// A refused registration: a taken email is named as such, anything
    /// else is an internal error.
    pub fn from_register(f: RegisterFailure) -> (r: AppError)
        ensures
            r == (match f {
                RegisterFailure::EmailTaken => AppError::DatabaseError(DatabaseError::UniqueViolation),
                RegisterFailure::Internal => AppError::InternalServerError,
            }),
    {
        match f {
            RegisterFailure::EmailTaken => AppError::DatabaseError(DatabaseError::UniqueViolation),
            RegisterFailure::Internal => AppError::InternalServerError,
        }
    }
}

} // verus!
