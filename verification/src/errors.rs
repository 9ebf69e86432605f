//! Errors of the authentication domain and the HTTP answers they map to.

use vstd::prelude::*;
use vstd::string::*;

verus! {

/// An error from the `sqlx` database layer, carried through unchanged.
#[verifier::external_type_specification]
#[verifier::external_body]
pub struct ExSqlxError(sqlx::Error);

/// An error from the `bcrypt` crate, carried through unchanged.
#[verifier::external_type_specification]
#[verifier::external_body]
pub struct ExBcryptError(bcrypt::BcryptError);

/// Errors of the account domain (registration, login, password changes and
/// resets, sessions).
#[derive(Debug)]
pub enum AuthError {
    MissingCredentials,
    PasswordTooShort,
    InvalidCredentials,
    InvalidToken,
    UserNotFound,
    UserAlreadyExists,
    Database(sqlx::Error),
    Bcrypt(bcrypt::BcryptError),
    Cache,
    /// The operating system's random source failed.
    RandomSource,
}

/// The user-facing text of an [`AuthError`].
pub open spec fn auth_error_text(e: AuthError) -> Seq<char> {
    match e {
        AuthError::MissingCredentials => "Username and password are required"@,
        AuthError::PasswordTooShort => "Password must be at least 6 characters"@,
        AuthError::InvalidCredentials => "Invalid credentials"@,
        AuthError::InvalidToken => "Invalid or expired token"@,
        AuthError::UserNotFound => "User not found"@,
        AuthError::UserAlreadyExists => "Username already exists"@,
        AuthError::Database(_) => "Database error"@,
        AuthError::Bcrypt(_) => "Password hashing failed"@,
        AuthError::Cache => "Cache failed"@,
        AuthError::RandomSource => "Random source failed"@,
    }
}

/// The HTTP status an [`AuthError`] is answered with.
pub open spec fn auth_error_status(e: AuthError) -> u16 {
    match e {
        AuthError::MissingCredentials | AuthError::PasswordTooShort => 400,
        AuthError::InvalidCredentials | AuthError::InvalidToken | AuthError::UserNotFound => 401,
        AuthError::UserAlreadyExists => 409,
        AuthError::Database(_) | AuthError::Bcrypt(_) | AuthError::Cache
        | AuthError::RandomSource => 500,
    }
}

impl AuthError {
    /// The user-facing text of this error.
    pub fn message(&self) -> (m: String)
        ensures
            m@ == auth_error_text(*self),
    {
        match self {
            AuthError::MissingCredentials => String::from_str("Username and password are required"),
            AuthError::PasswordTooShort => String::from_str("Password must be at least 6 characters"),
            AuthError::InvalidCredentials => String::from_str("Invalid credentials"),
            AuthError::InvalidToken => String::from_str("Invalid or expired token"),
            AuthError::UserNotFound => String::from_str("User not found"),
            AuthError::UserAlreadyExists => String::from_str("Username already exists"),
            AuthError::Database(_) => String::from_str("Database error"),
            AuthError::Bcrypt(_) => String::from_str("Password hashing failed"),
            AuthError::Cache => String::from_str("Cache failed"),
            AuthError::RandomSource => String::from_str("Random source failed"),
        }
    }

    /// Whether this error is an internal failure (logged, never shown to clients).
    pub fn is_internal(&self) -> (b: bool)
        ensures
            b == (auth_error_status(*self) == 500),
    {
        match self {
            AuthError::Database(_) | AuthError::Bcrypt(_) | AuthError::Cache
            | AuthError::RandomSource => true,
            _ => false,
        }
    }
}

/// An HTTP error answer: a status and, for client errors, the message shown.
#[derive(Debug)]
pub struct ErrorReply {
    pub status: u16,
    pub message: Option<String>,
}

/// Whether `r` is the answer to `e`: its status, and its text unless the
/// error is internal.
pub open spec fn answers(r: ErrorReply, e: AuthError) -> bool {
    &&& r.status == auth_error_status(e)
    &&& r.status == 500 ==> r.message is None
    &&& r.status != 500 ==> (r.message matches Some(m) && m@ == auth_error_text(e))
}

/// How an [`AuthError`] is answered: client errors carry their text, internal
/// errors are answered 500 with an empty body.
pub fn auth_error_to_response(e: &AuthError) -> (r: ErrorReply)
    ensures
        r.status == auth_error_status(*e),
        r.status == 500 ==> r.message is None,
        r.status != 500 ==> (r.message matches Some(m) && m@ == auth_error_text(*e)),
        answers(r, *e),
{
    match e {
        AuthError::MissingCredentials | AuthError::PasswordTooShort => ErrorReply {
            status: 400,
            message: Some(e.message()),
        },
        AuthError::InvalidCredentials | AuthError::InvalidToken | AuthError::UserNotFound => {
            ErrorReply { status: 401, message: Some(e.message()) }
        },
        AuthError::UserAlreadyExists => ErrorReply { status: 409, message: Some(e.message()) },
        AuthError::Database(_) | AuthError::Bcrypt(_) | AuthError::Cache
        | AuthError::RandomSource => ErrorReply {
            status: 500,
            message: None,
        },
    }
}

/// Errors of the token domain (refresh and logout with refresh tokens).
#[derive(Debug)]
pub enum JwtError {
    MissingRefreshToken,
    InvalidCredentials,
    RefreshTokenNotFound,
    RefreshTokenExpired,
    InvalidToken,
    Bcrypt(bcrypt::BcryptError),
    TokenSigning(String),
    UserNotFound,
    UserAlreadyExists,
    Database(sqlx::Error),
    /// The operating system's random source failed.
    RandomSource,
}

/// The user-facing text of a [`JwtError`].
pub open spec fn jwt_error_text(e: JwtError) -> Seq<char> {
    match e {
        JwtError::MissingRefreshToken => "Refresh token is required"@,
        JwtError::InvalidCredentials => "Invalid credentials"@,
        JwtError::RefreshTokenNotFound => "Refresh token not found or revoked"@,
        JwtError::RefreshTokenExpired => "Refresh token expired"@,
        JwtError::InvalidToken => "Invalid or expired token"@,
        JwtError::Bcrypt(_) => "Password hashing failed"@,
        JwtError::TokenSigning(s) => "Token signing failed: "@ + s@,
        JwtError::UserNotFound => "User not found"@,
        JwtError::UserAlreadyExists => "Username already exists"@,
        JwtError::Database(_) => "Database error"@,
        JwtError::RandomSource => "Random source failed"@,
    }
}

impl JwtError {
    /// The user-facing text of this error.
    pub fn message(&self) -> (m: String)
        ensures
            m@ == jwt_error_text(*self),
    {
        match self {
            JwtError::MissingRefreshToken => String::from_str("Refresh token is required"),
            JwtError::InvalidCredentials => String::from_str("Invalid credentials"),
            JwtError::RefreshTokenNotFound => String::from_str("Refresh token not found or revoked"),
            JwtError::RefreshTokenExpired => String::from_str("Refresh token expired"),
            JwtError::InvalidToken => String::from_str("Invalid or expired token"),
            JwtError::Bcrypt(_) => String::from_str("Password hashing failed"),
            JwtError::TokenSigning(s) => {
                let prefix = String::from_str("Token signing failed: ");
                prefix.concat(s.as_str())
            },
            JwtError::UserNotFound => String::from_str("User not found"),
            JwtError::UserAlreadyExists => String::from_str("Username already exists"),
            JwtError::Database(_) => String::from_str("Database error"),
            JwtError::RandomSource => String::from_str("Random source failed"),
        }
    }
}

} // verus!
