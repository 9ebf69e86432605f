use auth_service::account::{
        ChangeReply, ChangeReplyAction, ChangeReplyEvent, User, change_reply_start, change_reply_step,
    };
use auth_service::account::{current_check_outcome, login_check_outcome, strength_outcome};
use auth_service::account::{
    ChangeAction, ChangeEvent, ChangePasswordCmd, ChangeStage, PasswordLoginCmd,
    change_password_start, change_password_step, check_login_input, check_password_strength,
    hash_password, prepare_registration, user_by_email_result, user_by_id_result,
    user_by_username_result, user_creation_error, verify_current_password, verify_password,
};
use auth_service::errors::AuthError;

const STRONG: &str = "kX9#mQ2$vL7!pR4@zT";

#[test]
fn weak_passwords_are_rejected() {
    assert!(matches!(check_password_strength("password"), Err(AuthError::PasswordTooShort)));
    assert!(matches!(check_password_strength(""), Err(AuthError::PasswordTooShort)));
    assert!(check_password_strength(STRONG).is_ok());
}

#[test]
fn login_input_must_be_complete() {
    let cmd = PasswordLoginCmd { username: String::new(), password: "x".into() };
    assert!(matches!(check_login_input(&cmd), Err(AuthError::MissingCredentials)));
    let cmd = PasswordLoginCmd { username: "a".into(), password: String::new() };
    assert!(matches!(check_login_input(&cmd), Err(AuthError::MissingCredentials)));
    let cmd = PasswordLoginCmd { username: "a".into(), password: "b".into() };
    assert!(check_login_input(&cmd).is_ok());
}

#[test]
fn hashed_password_verifies() {
    let h = hash_password(STRONG).unwrap();
    assert_eq!(h.len(), 60);
    assert!(verify_password(STRONG, &h).is_ok());
    assert!(matches!(verify_password("other", &h), Err(AuthError::InvalidCredentials)));
    assert!(matches!(verify_password(STRONG, "garbage"), Err(AuthError::Bcrypt(_))));
    assert!(verify_current_password(STRONG, &h).is_ok());
    assert!(matches!(verify_current_password(STRONG, "garbage"), Err(AuthError::InvalidCredentials)));
}

#[test]
fn registration_checks_in_order() {
    assert!(matches!(prepare_registration("", "e@x", STRONG), Err(AuthError::MissingCredentials)));
    assert!(matches!(prepare_registration("u", "e@x", ""), Err(AuthError::MissingCredentials)));
    assert!(matches!(prepare_registration("u", "e@x", "abc"), Err(AuthError::PasswordTooShort)));
    let h = prepare_registration("u", "e@x", STRONG).unwrap();
    assert!(verify_password(STRONG, &h).is_ok());
}

#[test]
fn lookup_results_are_masked() {
    assert!(matches!(user_by_username_result::<u8>(Err(sqlx::Error::RowNotFound)), Err(AuthError::InvalidCredentials)));
    assert!(matches!(user_by_username_result(Ok(3u8)), Ok(3)));
    assert!(matches!(user_by_email_result::<u8>(Ok(None)), Err(AuthError::InvalidCredentials)));
    assert!(matches!(user_by_email_result(Ok(Some(4u8))), Ok(4)));
    assert!(matches!(user_by_email_result::<u8>(Err(sqlx::Error::PoolTimedOut)), Err(AuthError::Database(_))));
    assert!(matches!(user_by_id_result::<u8, ()>(Err(())), Err(AuthError::UserNotFound)));
    assert!(matches!(user_creation_error(sqlx::Error::PoolTimedOut, true), AuthError::UserAlreadyExists));
    assert!(matches!(user_creation_error(sqlx::Error::PoolTimedOut, false), AuthError::Database(_)));
    assert!(matches!(auth_service::account::creation_error(sqlx::Error::RowNotFound), AuthError::Database(_)));
}

#[test]
fn password_change_flow() {
    let old = "Old-pass-9#Kq!zz";
    let stored = hash_password(old).unwrap();
    let (stage, action) = change_password_start(ChangePasswordCmd {
        user_id: 9,
        current_password: old.into(),
        new_password: STRONG.into(),
    });
    assert!(matches!(action, ChangeAction::LoadUser { user_id: 9 }));
    let (stage, action) = change_password_step(stage, ChangeEvent::UserLoaded(Ok(stored)));
    let new_hash = match action {
        ChangeAction::StoreHash { user_id: 9, password_hash } => password_hash,
        _ => panic!("expected a new hash to store"),
    };
    assert!(verify_password(STRONG, &new_hash).is_ok());
    let (_, action) = change_password_step(stage, ChangeEvent::Stored(Ok(())));
    assert!(matches!(action, ChangeAction::Finish(Ok(()))));
}

#[test]
fn password_change_rejections() {
    let (_, action) = change_password_start(ChangePasswordCmd {
        user_id: 1,
        current_password: "x".into(),
        new_password: "weak".into(),
    });
    assert!(matches!(action, ChangeAction::Finish(Err(AuthError::PasswordTooShort))));
    let stored = hash_password("Right-pass-9#Kq!").unwrap();
    let stage = ChangeStage::AwaitingUser {
        user_id: 1,
        current_password: "wrong".into(),
        new_password: STRONG.into(),
    };
    let (_, action) = change_password_step(stage, ChangeEvent::UserLoaded(Ok(stored)));
    assert!(matches!(action, ChangeAction::Finish(Err(AuthError::InvalidCredentials))));
}

#[test]
fn outcomes_of_the_outside_checks() {
    assert!(matches!(strength_outcome(2), Err(AuthError::PasswordTooShort)));
    assert!(strength_outcome(3).is_ok());
    assert!(strength_outcome(4).is_ok());
    assert!(login_check_outcome(Ok(true)).is_ok());
    assert!(matches!(login_check_outcome(Ok(false)), Err(AuthError::InvalidCredentials)));
    assert!(matches!(
        login_check_outcome(Err(bcrypt::BcryptError::CostNotAllowed(3))),
        Err(AuthError::Bcrypt(_))
    ));
    assert!(current_check_outcome(Ok(true)).is_ok());
    assert!(matches!(current_check_outcome(Ok(false)), Err(AuthError::InvalidCredentials)));
    assert!(matches!(
        current_check_outcome(Err(bcrypt::BcryptError::CostNotAllowed(3))),
        Err(AuthError::InvalidCredentials)
    ));
}

#[test]
fn hashes_are_made_at_cost_ten() {
    let h = hash_password(STRONG).unwrap();
    assert!(h.starts_with("$2b$10$"));
}

#[test]
fn password_change_revokes_before_issuing() {
    let (stage, a) = change_reply_start(7);
    assert!(matches!(a, ChangeReplyAction::ChangePassword { user_id: 7 }));
    let (stage, a) = change_reply_step(stage, ChangeReplyEvent::Changed(Ok(())));
    assert!(matches!(a, ChangeReplyAction::RevokeAllSessions { user_id: 7 }));
    let (stage, a) = change_reply_step(stage, ChangeReplyEvent::Revoked);
    assert!(matches!(a, ChangeReplyAction::LoadUser { user_id: 7 }));
    let row = User {
        id: 7,
        username: "u".into(),
        email: "e".into(),
        password_hash: "h".into(),
        created_at: 0,
        updated_at: 0,
        email_confirmed: true,
    };
    let (stage, a) = change_reply_step(stage, ChangeReplyEvent::UserLoaded(Ok(row)));
    assert!(matches!(a, ChangeReplyAction::LoadRole { user_id: 7 }));
    let (stage, a) = change_reply_step(stage, ChangeReplyEvent::RoleLoaded(Some(3)));
    match &a {
        ChangeReplyAction::IssueSession { user } => assert_eq!((user.sub, user.role), (7, 3)),
        _ => panic!("expected a session"),
    }
    let (_, a) = change_reply_step(stage, ChangeReplyEvent::SessionIssued(Ok(1)));
    match a {
        ChangeReplyAction::Reply(ChangeReply::Changed(c)) => {
            assert_eq!(c.value, "00000000-0000-0000-0000-000000000001")
        }
        _ => panic!("expected the new cookie"),
    }
    let (stage, _) = change_reply_start(8);
    let (_, a) = change_reply_step(stage, ChangeReplyEvent::Changed(Err(AuthError::InvalidCredentials)));
    match a {
        ChangeReplyAction::Reply(ChangeReply::Failed(r)) => assert_eq!(r.status, 401),
        _ => panic!("expected a failure"),
    }
}

#[test]
fn registration_answers_the_new_id() {
    assert_eq!(auth_service::account::registration_outcome(Ok(12)).unwrap(), 12);
    assert!(matches!(
        auth_service::account::registration_outcome(Err(sqlx::Error::PoolTimedOut)),
        Err(AuthError::Database(_))
    ));
}
