use auth_service::reset::{PasswordResetRequested, pending_reset, reset_event};
use auth_service::reset::{ResetConfirmed, reset_confirm_reply};
use auth_service::account::{ConfirmPasswordResetCmd, RequestPasswordResetCmd, verify_password};
use auth_service::errors::AuthError;
use auth_service::reset::{
    RESET_TOKEN_TTL_NANOS, ResetRequestStep, confirm_reset_after_claim, confirm_reset_start,
    reset_request_after_lookup, reset_request_after_store, reset_request_reply,
};
use auth_service::token::hash_token;

const STRONG: &str = "kX9#mQ2$vL7!pR4@zT";

fn request() -> RequestPasswordResetCmd {
    RequestPasswordResetCmd { email: "a@b.c".into() }
}

#[test]
fn unknown_address_is_silent() {
    assert!(matches!(reset_request_after_lookup(request(), Ok(None), 0), Ok(ResetRequestStep::Silent)));
    assert!(matches!(
        reset_request_after_lookup(request(), Err(sqlx::Error::PoolTimedOut), 0),
        Err(AuthError::Database(_))
    ));
}

#[test]
fn known_address_gets_a_hashed_token() {
    let step = reset_request_after_lookup(request(), Ok(Some(7)), 100).unwrap();
    let pending = match step {
        ResetRequestStep::Store(p) => p,
        ResetRequestStep::Silent => panic!("expected a reset to store"),
    };
    assert_eq!(pending.user_id, 7);
    assert_eq!(pending.event.email, "a@b.c");
    assert_eq!(pending.event.token.len(), 43);
    assert_eq!(pending.token_hash, hash_token(&pending.event.token));
    assert_eq!(pending.expires_at, 100 + RESET_TOKEN_TTL_NANOS);
    assert_eq!(RESET_TOKEN_TTL_NANOS, 30 * 60 * 1_000_000_000);
    let token = pending.event.token.clone();
    let out = reset_request_after_store(pending, Ok(())).unwrap().unwrap();
    assert_eq!(out.token, token);
}

#[test]
fn failed_store_hands_out_nothing() {
    let step = reset_request_after_lookup(request(), Ok(Some(7)), 0).unwrap();
    if let ResetRequestStep::Store(p) = step {
        assert!(matches!(reset_request_after_store(p, Err(sqlx::Error::PoolClosed)), Err(AuthError::Database(_))));
    } else {
        panic!("expected a reset to store");
    }
}

#[test]
fn reset_reply_never_reveals_the_account() {
    let silent: Result<Option<u8>, AuthError> = Ok(None);
    let sent: Result<Option<u8>, AuthError> = Ok(Some(1));
    let failed: Result<Option<u8>, AuthError> = Err(AuthError::Cache);
    for r in [&silent, &sent, &failed] {
        let (status, msg) = reset_request_reply(r);
        assert_eq!(status, 200);
        assert_eq!(msg, "If the account exists, a reset link has been sent");
    }
}

#[test]
fn confirm_rejects_weak_password_then_looks_up_hash() {
    let weak = ConfirmPasswordResetCmd { token: "t".into(), new_password: "abc".into() };
    assert!(matches!(confirm_reset_start(&weak), Err(AuthError::PasswordTooShort)));
    let ok = ConfirmPasswordResetCmd { token: "t".into(), new_password: STRONG.into() };
    assert_eq!(confirm_reset_start(&ok).unwrap(), hash_token("t"));
}

#[test]
fn confirm_after_claim() {
    let cmd = ConfirmPasswordResetCmd { token: "t".into(), new_password: STRONG.into() };
    assert!(matches!(confirm_reset_after_claim(&cmd, Ok(None)), Err(AuthError::InvalidToken)));
    assert!(matches!(
        confirm_reset_after_claim(&cmd, Err(sqlx::Error::PoolTimedOut)),
        Err(AuthError::Database(_))
    ));
    let (id, h) = confirm_reset_after_claim(&cmd, Ok(Some(3))).unwrap();
    assert_eq!(id, 3);
    assert!(verify_password(STRONG, &h).is_ok());
}

#[test]
fn confirmed_reset_revokes_sessions() {
    assert!(matches!(reset_confirm_reply(Ok(4)), ResetConfirmed::RevokeAllThenOk { user_id: 4 }));
    match reset_confirm_reply(Err(AuthError::InvalidToken)) {
        ResetConfirmed::Fail(r) => assert_eq!(r.status, 401),
        _ => panic!("expected a failure"),
    }
}

#[test]
fn pending_reset_and_its_event() {
    let p = pending_reset(3, "x@y".into(), "raw".into(), 5);
    assert_eq!((p.user_id, p.event.email.as_str(), p.event.token.as_str()), (3, "x@y", "raw"));
    assert_eq!(p.token_hash, hash_token("raw"));
    assert_eq!(p.expires_at, 5 + RESET_TOKEN_TTL_NANOS);
    let ev = PasswordResetRequested { email: "e".into(), token: "t".into() };
    assert_eq!(reset_event(Ok(Some(ev))).unwrap().token, "t");
    assert!(reset_event(Ok(None)).is_none());
    assert!(reset_event(Err(AuthError::Cache)).is_none());
}
