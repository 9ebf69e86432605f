use auth_service::errors::{AuthError, JwtError, auth_error_to_response};
use auth_service::models::User;
use auth_service::account;

#[test]
fn client_errors_carry_their_text() {
    let r = auth_error_to_response(&AuthError::MissingCredentials);
    assert_eq!((r.status, r.message.as_deref()), (400, Some("Username and password are required")));
    let r = auth_error_to_response(&AuthError::InvalidCredentials);
    assert_eq!((r.status, r.message.as_deref()), (401, Some("Invalid credentials")));
    let r = auth_error_to_response(&AuthError::UserAlreadyExists);
    assert_eq!((r.status, r.message.as_deref()), (409, Some("Username already exists")));
}

#[test]
fn internal_errors_are_hidden() {
    for e in [AuthError::Database(sqlx::Error::PoolTimedOut), AuthError::Cache] {
        assert!(e.is_internal());
        let r = auth_error_to_response(&e);
        assert_eq!(r.status, 500);
        assert!(r.message.is_none());
    }
    assert!(!AuthError::InvalidToken.is_internal());
}

#[test]
fn jwt_error_texts() {
    assert_eq!(JwtError::MissingRefreshToken.message(), "Refresh token is required");
    assert_eq!(JwtError::RefreshTokenExpired.message(), "Refresh token expired");
    assert_eq!(JwtError::RefreshTokenNotFound.message(), "Refresh token not found or revoked");
}

#[test]
fn session_user_from_account_row() {
    let row = account::User {
        id: 5,
        username: "u".into(),
        email: "e".into(),
        password_hash: "h".into(),
        created_at: 0,
        updated_at: 0,
        email_confirmed: false,
    };
    let u = User::new(row, 9);
    assert_eq!((u.sub, u.username.as_str(), u.email.as_str(), u.role), (5, "u", "e", 9));
}
