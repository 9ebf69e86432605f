use auth_service::session::{admit_parsed, logout_target};
use auth_service::errors::AuthError;
use auth_service::session::{
    AdmitAction, AdmitEvent, AdmitStage, Refusal, SessionSlot, admit_start, admit_step,
    session_cookie, session_logout_outcome, session_logout_target, user_agent_or_unknown,
};

const ID_TEXT: &str = "67e55044-10b1-426f-9247-bb680e5fe0c8";
const ID: u128 = 0x67e5504410b1426f9247bb680e5fe0c8;

#[test]
fn cookie_carries_the_session_id() {
    let c = session_cookie(ID);
    assert_eq!(c.name, "session");
    assert_eq!(c.value, ID_TEXT);
    assert_eq!(c.path, "/");
    assert!(c.http_only && c.secure && c.same_site_strict);
}

#[test]
fn logout_target_must_be_a_uuid() {
    assert_eq!(session_logout_target(ID_TEXT).unwrap(), ID);
    assert!(matches!(session_logout_target("nope"), Err(AuthError::InvalidToken)));
    assert!(session_logout_outcome::<()>(Ok(())).is_ok());
    assert!(matches!(session_logout_outcome(Err("redis down")), Err(AuthError::Cache)));
}

#[test]
fn user_agent_defaults_to_unknown() {
    assert_eq!(user_agent_or_unknown(Some("curl/8")), "curl/8");
    assert_eq!(user_agent_or_unknown(None), "unknown");
}

#[test]
fn slot_is_dirty_only_after_write() {
    let mut slot = SessionSlot::new(5u32);
    assert!(!slot.is_dirty());
    assert_eq!(*slot.read(), 5);
    assert!(!slot.is_dirty());
    *slot.write() = 6;
    assert!(slot.is_dirty());
    assert_eq!(*slot.read(), 6);
    slot.set_clean();
    assert!(!slot.is_dirty());
    let _ = slot.write();
    assert!(slot.is_dirty());
}

#[test]
fn requests_without_a_session_are_refused() {
    let (_, a) = admit_start(None);
    assert!(a == AdmitAction::Refuse(Refusal::NoSession));
    let (_, a) = admit_start(Some("garbage"));
    assert!(a == AdmitAction::Refuse(Refusal::NoSession));
    let (stage, a) = admit_start(Some(ID_TEXT));
    assert!(a == AdmitAction::LoadSession { id: ID });
    let (_, a) = admit_step(stage, AdmitEvent::Loaded(None), 0);
    assert!(a == AdmitAction::Refuse(Refusal::NoSession));
    assert_eq!(Refusal::NoSession.message(), "no session");
}

#[test]
fn expired_sessions_are_refused() {
    let (_, a) = admit_step(AdmitStage::Loading { id: 1 }, AdmitEvent::Loaded(Some(99)), 100);
    assert!(a == AdmitAction::Refuse(Refusal::Expired));
    assert_eq!(Refusal::Expired.message(), "session expired");
    let (stage, a) = admit_step(AdmitStage::Loading { id: 1 }, AdmitEvent::Loaded(Some(100)), 100);
    assert!(a == AdmitAction::RunHandler);
    assert!(stage.expects(&AdmitEvent::HandlerFinished { dirty: false }));
}

#[test]
fn only_written_sessions_are_saved() {
    let (_, a) = admit_step(AdmitStage::Running { id: 4 }, AdmitEvent::HandlerFinished { dirty: true }, 0);
    assert!(a == AdmitAction::Save { id: 4 });
    let (_, a) = admit_step(AdmitStage::Running { id: 4 }, AdmitEvent::HandlerFinished { dirty: false }, 0);
    assert!(a == AdmitAction::Pass);
}

#[test]
fn decisions_once_the_id_is_read() {
    let (stage, a) = admit_parsed(Some(9));
    assert!(a == AdmitAction::LoadSession { id: 9 });
    assert!(matches!(stage, AdmitStage::Loading { id: 9 }));
    let (stage, a) = admit_parsed(None);
    assert!(a == AdmitAction::Refuse(Refusal::NoSession));
    assert!(matches!(stage, AdmitStage::Done));
    assert_eq!(logout_target(Some(4)).unwrap(), 4);
    assert!(matches!(logout_target(None), Err(AuthError::InvalidToken)));
}

#[test]
fn failed_handler_saves_nothing() {
    let (_, a) = admit_step(AdmitStage::Running { id: 4 }, AdmitEvent::HandlerFailed, 0);
    assert!(a == AdmitAction::PassError);
}
