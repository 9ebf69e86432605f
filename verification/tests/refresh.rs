use auth_service::refresh::{pair_after_signing, pair_for};
use auth_service::errors::JwtError;
use auth_service::refresh::{
    ACCESS_TOKEN_EXPIRES_IN, REFRESH_TOKEN_TTL_NANOS, LogoutCmd, RefreshAction, RefreshCmd,
    RefreshEvent, RefreshStage, RefreshTokenRow, logout_outcome, prepare_token_pair,
    refresh_start, refresh_step, refresh_token_key, signing_failed,
};
use auth_service::token::hash_token;

fn row(revoked: bool, expires_at: i64) -> RefreshTokenRow {
    RefreshTokenRow { user_id: 42, issuer: "passwd".into(), expires_at, revoked }
}

#[test]
fn blank_refresh_token_is_missing() {
    assert!(matches!(refresh_token_key("   "), Err(JwtError::MissingRefreshToken)));
    assert!(matches!(refresh_token_key(""), Err(JwtError::MissingRefreshToken)));
    let (stage, action) = refresh_start(&RefreshCmd { refresh_token: " \t".into() });
    assert!(matches!(stage, RefreshStage::Done));
    assert!(matches!(action, RefreshAction::Finish(Err(JwtError::MissingRefreshToken))));
}

#[test]
fn refresh_key_is_hash_of_trimmed_token() {
    assert_eq!(refresh_token_key("  abc  ").unwrap(), hash_token("abc"));
    let (stage, action) = refresh_start(&RefreshCmd { refresh_token: "abc".into() });
    assert!(matches!(action, RefreshAction::BeginTransaction));
    match stage {
        RefreshStage::AwaitingTransaction { hash } => assert_eq!(hash, hash_token("abc")),
        _ => panic!("expected a transaction to be opened"),
    }
}

#[test]
fn prepared_pair_stores_only_the_hash() {
    let p = prepare_token_pair("access".into(), 1_000).unwrap();
    assert_eq!(p.result.access_token, "access");
    assert_eq!(p.result.refresh_token.len(), 43);
    assert_eq!(p.token_hash, hash_token(&p.result.refresh_token));
    assert_ne!(p.token_hash, p.result.refresh_token);
    assert_eq!(p.expires_at, 1_000 + REFRESH_TOKEN_TTL_NANOS);
    assert_eq!(p.expires_at, 2_592_000_000_001_000);
    assert_eq!(p.result.expires_in, ACCESS_TOKEN_EXPIRES_IN);
    assert_eq!(ACCESS_TOKEN_EXPIRES_IN, 600);
}

#[test]
fn full_refresh_rotates_the_token() {
    let now = 5_000;
    let (stage, _) = refresh_start(&RefreshCmd { refresh_token: "tok".into() });
    let (stage, action) = refresh_step(stage, RefreshEvent::Begun(Ok(())), now);
    assert!(matches!(action, RefreshAction::LoadRow { .. }));
    let (stage, action) = refresh_step(stage, RefreshEvent::RowLoaded(Some(row(false, now))), now);
    assert!(matches!(action, RefreshAction::LoadUser { user_id: 42 }));
    let (stage, action) = refresh_step(stage, RefreshEvent::UserLoaded(Some(42)), now);
    match &action {
        RefreshAction::DeleteRow { hash } => assert_eq!(*hash, hash_token("tok")),
        _ => panic!("expected the old row to be deleted"),
    }
    let (stage, action) = refresh_step(stage, RefreshEvent::Deleted(Ok(())), now);
    match &action {
        RefreshAction::IssuePair { user_id, issuer } => {
            assert_eq!(*user_id, 42);
            assert_eq!(issuer, "passwd");
        }
        _ => panic!("expected a new pair"),
    }
    let pair = prepare_token_pair("a2".into(), now).unwrap().result;
    let (stage, action) = refresh_step(stage, RefreshEvent::Issued(Ok(pair)), now);
    assert!(matches!(action, RefreshAction::Commit));
    let (stage, action) = refresh_step(stage, RefreshEvent::Committed(Ok(())), now);
    assert!(matches!(stage, RefreshStage::Done));
    match action {
        RefreshAction::Finish(Ok(r)) => assert_eq!(r.access_token, "a2"),
        _ => panic!("expected the new pair"),
    }
}

#[test]
fn revoked_and_expired_rows_are_refused() {
    let stage = RefreshStage::AwaitingRow { hash: "h".into() };
    let (_, a) = refresh_step(stage, RefreshEvent::RowLoaded(Some(row(true, 10))), 0);
    assert!(matches!(a, RefreshAction::Finish(Err(JwtError::RefreshTokenNotFound))));
    let stage = RefreshStage::AwaitingRow { hash: "h".into() };
    let (_, a) = refresh_step(stage, RefreshEvent::RowLoaded(Some(row(false, 9))), 10);
    assert!(matches!(a, RefreshAction::Finish(Err(JwtError::RefreshTokenExpired))));
    let stage = RefreshStage::AwaitingRow { hash: "h".into() };
    let (_, a) = refresh_step(stage, RefreshEvent::RowLoaded(None), 10);
    assert!(matches!(a, RefreshAction::Finish(Err(JwtError::RefreshTokenNotFound))));
    let stage = RefreshStage::AwaitingUser { hash: "h".into(), issuer: "i".into() };
    let (_, a) = refresh_step(stage, RefreshEvent::UserLoaded(None), 10);
    assert!(matches!(a, RefreshAction::Finish(Err(JwtError::UserNotFound))));
}

#[test]
fn storage_failures_abort_the_refresh() {
    let stage = RefreshStage::AwaitingTransaction { hash: "h".into() };
    let (_, a) = refresh_step(stage, RefreshEvent::Begun(Err(sqlx::Error::PoolTimedOut)), 0);
    assert!(matches!(a, RefreshAction::Finish(Err(JwtError::Database(_)))));
    let stage = RefreshStage::AwaitingDeletion { hash: "h".into(), user_id: 1, issuer: "i".into() };
    let (_, a) = refresh_step(stage, RefreshEvent::Deleted(Err(sqlx::Error::PoolClosed)), 0);
    assert!(matches!(a, RefreshAction::Finish(Err(JwtError::Database(_)))));
    let (_, a) = refresh_step(
        RefreshStage::AwaitingIssue,
        RefreshEvent::Issued(Err(signing_failed("bad key".into()))),
        0,
    );
    match a {
        RefreshAction::Finish(Err(e)) => assert_eq!(e.message(), "Token signing failed: bad key"),
        _ => panic!("expected the signing failure"),
    }
}

#[test]
fn stage_expects_only_its_event() {
    let stage = RefreshStage::AwaitingRow { hash: "h".into() };
    assert!(stage.expects(&RefreshEvent::RowLoaded(None)));
    assert!(!stage.expects(&RefreshEvent::Begun(Ok(()))));
    assert!(!RefreshStage::Done.expects(&RefreshEvent::Committed(Ok(()))));
}

#[test]
fn logout_is_idempotent() {
    let _cmd = LogoutCmd { refresh_token: "t".into() };
    assert!(logout_outcome(Ok(0)).is_ok());
    assert!(logout_outcome(Ok(1)).is_ok());
    assert!(matches!(logout_outcome(Err(sqlx::Error::PoolTimedOut)), Err(JwtError::Database(_))));
}

#[test]
fn pair_for_a_drawn_token() {
    let p = pair_for("acc".into(), "raw".into(), 10);
    assert_eq!(p.result.refresh_token, "raw");
    assert_eq!(p.token_hash, hash_token("raw"));
    assert_eq!(p.expires_at, 10 + REFRESH_TOKEN_TTL_NANOS);
    match pair_after_signing(Err("no key".into()), 0) {
        Err(JwtError::TokenSigning(m)) => assert_eq!(m, "no key"),
        _ => panic!("expected the signing failure"),
    }
    assert_eq!(pair_after_signing(Ok("a".into()), 0).unwrap().result.access_token, "a");
}
