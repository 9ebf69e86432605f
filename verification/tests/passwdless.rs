use auth_service::passwdless::record_challenge;
use auth_service::passwdless::{settle_code, settle_link};
use auth_service::passwdless::{
    CHALLENGE_TTL_SECS, Caches, PasswdlessError, confirm_link, confirm_token, release_pair,
    translate_error,
};

#[test]
fn challenge_has_link_nonce_and_code() {
    let mut caches = Caches::new();
    let c = release_pair(11, &mut caches).unwrap();
    assert_eq!(c.link.len(), 43);
    assert_eq!(c.nonce.len(), 43);
    assert!((100000..999999).contains(&c.token));
    assert_eq!(CHALLENGE_TTL_SECS, 120);
}

#[test]
fn link_confirms_once_and_retires_the_code() {
    let mut caches = Caches::new();
    let c = release_pair(11, &mut caches).unwrap();
    assert_eq!(confirm_link(&mut caches, c.link.clone()), Ok(11));
    assert_eq!(confirm_link(&mut caches, c.link.clone()), Err(PasswdlessError::BadToken));
    assert_eq!(confirm_token(&mut caches, c.token, c.nonce.clone()), Err(PasswdlessError::BadToken));
}

#[test]
fn code_confirms_once_and_retires_the_link() {
    let mut caches = Caches::new();
    let c = release_pair(12, &mut caches).unwrap();
    assert_eq!(confirm_token(&mut caches, c.token, c.nonce.clone()), Ok(12));
    assert_eq!(confirm_token(&mut caches, c.token, c.nonce.clone()), Err(PasswdlessError::BadToken));
    assert_eq!(confirm_link(&mut caches, c.link.clone()), Err(PasswdlessError::BadToken));
}

#[test]
fn wrong_code_burns_the_nonce_but_not_the_link() {
    let mut caches = Caches::new();
    let c = release_pair(13, &mut caches).unwrap();
    let wrong = if c.token == 100000 { 100001 } else { c.token - 1 };
    assert_eq!(confirm_token(&mut caches, wrong, c.nonce.clone()), Err(PasswdlessError::BadToken));
    assert_eq!(confirm_token(&mut caches, c.token, c.nonce.clone()), Err(PasswdlessError::BadToken));
    assert_eq!(confirm_link(&mut caches, c.link.clone()), Ok(13));
}

#[test]
fn unknown_link_is_a_bad_token() {
    let mut caches = Caches::new();
    assert_eq!(confirm_link(&mut caches, "nothing".into()), Err(PasswdlessError::BadToken));
}

#[test]
fn errors_translate_to_answers() {
    assert_eq!(translate_error(PasswdlessError::DbError), (500, None));
    assert_eq!(translate_error(PasswdlessError::BadToken), (400, Some("Invalid or expired token".to_string())));
    assert_eq!(translate_error(PasswdlessError::UserNotFound), (404, Some("User not found".to_string())));
    assert_eq!(PasswdlessError::DbError.message(), "service unavailable, please try again later");
}

#[test]
fn settling_what_the_cache_gave_back() {
    let mut caches = Caches::new();
    let c = release_pair(21, &mut caches).unwrap();
    let taken = (c.link.clone(), c.token, 21u128, c.nonce.clone());
    assert_eq!(settle_link(&mut caches, Some(taken.clone())), Ok(21));
    assert_eq!(confirm_token(&mut caches, c.token, c.nonce.clone()), Err(PasswdlessError::BadToken));
    assert_eq!(settle_link(&mut caches, None), Err(PasswdlessError::BadToken));
    let wrong = if c.token == 100000 { 100001 } else { c.token - 1 };
    assert_eq!(settle_code(&mut caches, Some(taken.clone()), wrong), Err(PasswdlessError::BadToken));
    assert_eq!(settle_code(&mut caches, Some(taken), c.token), Ok(21));
    assert_eq!(settle_code(&mut caches, None, c.token), Err(PasswdlessError::BadToken));
    assert_eq!(translate_error(PasswdlessError::RandomSource), (500, None));
}

#[test]
fn recorded_challenge_confirms_by_link() {
    let mut caches = Caches::new();
    let c = record_challenge(31, "L".into(), "N".into(), 123456, &mut caches);
    assert_eq!((c.link.as_str(), c.nonce.as_str(), c.token), ("L", "N", 123456));
    assert_eq!(confirm_token(&mut caches, 123456, "N".into()), Ok(31));
    assert_eq!(confirm_link(&mut caches, "L".into()), Err(PasswdlessError::BadToken));
}
