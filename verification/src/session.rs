//! Cookie-based sessions: the cookie handed out, the admission of a request
//! by its cookie, and the dirty flag that decides whether a session is saved.

use vstd::prelude::*;
use vstd::string::*;
use crate::errors::AuthError;
use crate::ident::{parse_uuid, uuid_parse, uuid_text, uuid_to_string};

verus! {

/// The session cookie handed to a browser after login.
pub struct SessionCookie {
    pub name: String,
    pub value: String,
    pub path: String,
    pub http_only: bool,
    pub secure: bool,
    /// `SameSite=Strict`.
    pub same_site_strict: bool,
}

/// Whether `c` is the cookie of session `session`: named `session`, valued
/// with the session's UUID text, for path `/`, HTTP-only, secure and
/// same-site strict.
pub open spec fn is_session_cookie(c: SessionCookie, session: u128) -> bool {
    &&& c.name@ == "session"@
    &&& c.value@ == uuid_text(session)
    &&& c.path@ == "/"@
    &&& c.http_only
    &&& c.secure
    &&& c.same_site_strict
}

/// The cookie for session `session`: named `session`, valued with the
/// session's UUID text, for path `/`, HTTP-only, secure and same-site strict.
pub fn session_cookie(session: u128) -> (c: SessionCookie)
    ensures
        is_session_cookie(c, session),
        c.name@ == "session"@,
        c.value@ == uuid_text(session),
        uuid_parse(c.value@) == Some(session),
        c.path@ == "/"@,
        c.http_only,
        c.secure,
        c.same_site_strict,
{
    SessionCookie {
        name: String::from_str("session"),
        value: uuid_to_string(session),
        path: String::from_str("/"),
        http_only: true,
        secure: true,
        same_site_strict: true,
    }
}

/// The session a logout names: the UUID in `session_id`, or `InvalidToken`.
pub fn session_logout_target(session_id: &str) -> (r: Result<u128, AuthError>)
    ensures
        uuid_parse(session_id@) matches Some(id) ==> r == Ok::<u128, AuthError>(id),
        uuid_parse(session_id@) is None ==> r matches Err(AuthError::InvalidToken),
{
    logout_target(parse_uuid(session_id))
}

/// The session a logout names once its id was read as a UUID (`None` when
/// it is not one): an unreadable id is `InvalidToken`.
pub fn logout_target(parsed: Option<u128>) -> (r: Result<u128, AuthError>)
    ensures
        parsed matches Some(id) ==> r == Ok::<u128, AuthError>(id),
        parsed is None ==> r matches Err(AuthError::InvalidToken),
{
    match parsed {
        Some(id) => Ok(id),
        None => Err(AuthError::InvalidToken),
    }
}

/// The stored sessions after logging out of session `id`.
pub open spec fn sessions_after_logout(store: Set<u128>, id: u128) -> Set<u128> {
    store.remove(id)
}

/// Session logout is idempotent: logging out of a session twice leaves the
/// store as logging out once does, and the session is gone either way.
pub proof fn law_session_logout_idempotent(store: Set<u128>, id: u128)
    ensures
        !sessions_after_logout(store, id).contains(id),
        sessions_after_logout(sessions_after_logout(store, id), id) == sessions_after_logout(store, id),
{
    assert(sessions_after_logout(sessions_after_logout(store, id), id) =~= sessions_after_logout(
        store,
        id,
    ));
}

/// The answer to a logout once the session was deleted from the store:
/// a failed deletion is `Cache`.
pub fn session_logout_outcome<E>(deleted: Result<(), E>) -> (r: Result<(), AuthError>)
    ensures
        deleted is Ok ==> r is Ok,
        deleted is Err ==> r matches Err(AuthError::Cache),
{
    match deleted {
        Ok(_) => Ok(()),
        Err(_) => Err(AuthError::Cache),
    }
}

/// The `User-Agent` recorded for a session: the header's text, or `unknown`.
pub fn user_agent_or_unknown(header: Option<&str>) -> (ua: String)
    ensures
        header matches Some(h) ==> ua@ == h@,
        header is None ==> ua@ == "unknown"@,
{
    match header {
        Some(h) => String::from_str(h),
        None => String::from_str("unknown"),
    }
}

// ── Session values and the dirty flag ─────────────────────────────────────────

/// A session value and whether it was opened for writing since it was last
/// saved.
pub struct SessionSlot<T> {
    value: T,
    dirty: bool,
}

impl<T> SessionSlot<T> {
    /// The current value.
    pub closed spec fn value(&self) -> T {
        self.value
    }

    /// Whether the value must be saved.
    pub closed spec fn dirty(&self) -> bool {
        self.dirty
    }

    /// Wraps a value fresh from the store; it starts out clean.
    pub fn new(session: T) -> (s: Self)
        ensures
            s.value() == session,
            !s.dirty(),
    {
        SessionSlot { value: session, dirty: false }
    }

    /// Read-only view of the value.
    pub fn read(&self) -> (v: &T)
        ensures
            *v == self.value(),
    {
        &self.value
    }

    /// Opens the value for writing; this marks the session dirty whether or
    /// not the value is then changed.
    pub fn write(&mut self) -> (v: &mut T)
        ensures
            *v == old(self).value(),
            final(self).value() == *final(v),
            final(self).dirty(),
    {
        self.dirty = true;
        &mut self.value
    }

    /// Whether the session was written since it was created or last saved.
    pub fn is_dirty(&self) -> (b: bool)
        ensures
            b == self.dirty(),
    {
        self.dirty
    }

    /// Clears the dirty flag once the value has been saved.
    pub fn set_clean(&mut self)
        ensures
            final(self).value() == old(self).value(),
            !final(self).dirty(),
    {
        self.dirty = false;
    }
}

// ── Admitting a request ───────────────────────────────────────────────────────

/// Why a request is refused a session (answered 401 Unauthorized).
#[derive(PartialEq, Eq, Structural, Clone, Copy)]
pub enum Refusal {
    /// No cookie, a cookie that is not a UUID, or no stored session.
    NoSession,
    /// The stored session has expired.
    Expired,
}

impl Refusal {
    /// The text the 401 answer carries.
    pub fn message(&self) -> (m: String)
        ensures
            *self == Refusal::NoSession ==> m@ == "no session"@,
            *self == Refusal::Expired ==> m@ == "session expired"@,
    {
        match self {
            Refusal::NoSession => String::from_str("no session"),
            Refusal::Expired => String::from_str("session expired"),
        }
    }
}

/// Where the admission of a request stands.
pub enum AdmitStage {
    Loading { id: u128 },
    Running { id: u128 },
    Done,
}

/// What the caller reports back to admission.
pub enum AdmitEvent {
    /// The stored session's expiry time (nanoseconds since the epoch), if a
    /// session is stored under the cookie's id.
    Loaded(Option<i64>),
    /// The handler ran; whether the session was written meanwhile.
    HandlerFinished { dirty: bool },
    /// The handler failed.
    HandlerFailed,
}

/// What admission asks the caller to do.
#[derive(PartialEq, Eq, Structural, Clone, Copy)]
pub enum AdmitAction {
    Refuse(Refusal),
    LoadSession { id: u128 },
    RunHandler,
    Save { id: u128 },
    Pass,
    /// Pass the handler's failure on, saving nothing.
    PassError,
}

/// The first action for a request carrying `cookie` (the session cookie's
/// value, if any).
pub open spec fn admit_open(cookie: Option<Seq<char>>) -> AdmitAction {
    match cookie {
        None => AdmitAction::Refuse(Refusal::NoSession),
        Some(v) => match uuid_parse(v) {
            None => AdmitAction::Refuse(Refusal::NoSession),
            Some(id) => AdmitAction::LoadSession { id },
        },
    }
}

/// Starts admitting a request by its session cookie.
pub fn admit_start(cookie: Option<&str>) -> (r: (AdmitStage, AdmitAction))
    ensures
        r.1 == admit_open(
            match cookie {
                Some(c) => Some(c@),
                None => None,
            },
        ),
        r.1 matches AdmitAction::LoadSession { id } ==> r.0 == (AdmitStage::Loading { id }),
        !(r.1 is LoadSession) ==> r.0 is Done,
{
    let value = match cookie {
        Some(v) => v,
        None => return (AdmitStage::Done, AdmitAction::Refuse(Refusal::NoSession)),
    };
    admit_parsed(parse_uuid(value))
}

/// Admission once the cookie's value was read as a UUID (`None` when it is
/// not one): an unreadable cookie is refused, a readable one names the
/// session to load.
pub fn admit_parsed(parsed: Option<u128>) -> (r: (AdmitStage, AdmitAction))
    ensures
        parsed is None ==> r.0 is Done && r.1 == AdmitAction::Refuse(Refusal::NoSession),
        parsed matches Some(id) ==> r.0 == (AdmitStage::Loading { id }) && r.1 == (
        AdmitAction::LoadSession { id }),
{
    match parsed {
        Some(id) => (AdmitStage::Loading { id }, AdmitAction::LoadSession { id }),
        None => (AdmitStage::Done, AdmitAction::Refuse(Refusal::NoSession)),
    }
}

/// The transition of admission on an event, at time `now`.
pub open spec fn admit_next(stage: AdmitStage, event: AdmitEvent, now: i64) -> (AdmitStage, AdmitAction) {
    match (stage, event) {
        (AdmitStage::Loading { id }, AdmitEvent::Loaded(found)) => match found {
            None => (AdmitStage::Done, AdmitAction::Refuse(Refusal::NoSession)),
            Some(expires_at) => if expires_at < now {
                (AdmitStage::Done, AdmitAction::Refuse(Refusal::Expired))
            } else {
                (AdmitStage::Running { id }, AdmitAction::RunHandler)
            },
        },
        (AdmitStage::Running { id }, AdmitEvent::HandlerFinished { dirty }) => if dirty {
            (AdmitStage::Done, AdmitAction::Save { id })
        } else {
            (AdmitStage::Done, AdmitAction::Pass)
        },
        (AdmitStage::Running { .. }, AdmitEvent::HandlerFailed) => (
            AdmitStage::Done,
            AdmitAction::PassError,
        ),
        _ => (AdmitStage::Done, AdmitAction::Pass),
    }
}

/// Whether `event` is what `stage` waits for.
pub open spec fn admit_expects(stage: AdmitStage, event: AdmitEvent) -> bool {
    match stage {
        AdmitStage::Loading { .. } => event is Loaded,
        AdmitStage::Running { .. } => event is HandlerFinished || event is HandlerFailed,
        AdmitStage::Done => false,
    }
}

impl AdmitStage {
    /// Whether `event` is what this stage waits for.
    pub fn expects(&self, event: &AdmitEvent) -> (b: bool)
        ensures
            b == admit_expects(*self, *event),
    {
        match (self, event) {
            (AdmitStage::Loading { .. }, AdmitEvent::Loaded(_)) => true,
            (AdmitStage::Running { .. }, AdmitEvent::HandlerFinished { .. }) => true,
            (AdmitStage::Running { .. }, AdmitEvent::HandlerFailed) => true,
            _ => false,
        }
    }
}

/// Advances admission: a missing or expired session is refused; after the
/// handler, a dirty session is saved under the cookie's id.
pub fn admit_step(stage: AdmitStage, event: AdmitEvent, now: i64) -> (r: (AdmitStage, AdmitAction))
    requires
        admit_expects(stage, event),
    ensures
        r == admit_next(stage, event, now),
        stage matches AdmitStage::Loading { id } ==> (event matches AdmitEvent::Loaded(Some(e)) ==> (
        !(e < now) ==> r == (AdmitStage::Running { id }, AdmitAction::RunHandler))),
        stage matches AdmitStage::Running { id } ==> (event == (AdmitEvent::HandlerFinished {
            dirty: true,
        }) ==> r.1 == (AdmitAction::Save { id })),
{
    match (stage, event) {
        (AdmitStage::Loading { id }, AdmitEvent::Loaded(found)) => match found {
            None => (AdmitStage::Done, AdmitAction::Refuse(Refusal::NoSession)),
            Some(expires_at) => {
                if expires_at < now {
                    (AdmitStage::Done, AdmitAction::Refuse(Refusal::Expired))
                } else {
                    (AdmitStage::Running { id }, AdmitAction::RunHandler)
                }
            },
        },
        (AdmitStage::Running { id }, AdmitEvent::HandlerFinished { dirty }) => {
            if dirty {
                (AdmitStage::Done, AdmitAction::Save { id })
            } else {
                (AdmitStage::Done, AdmitAction::Pass)
            }
        },
        (AdmitStage::Running { .. }, AdmitEvent::HandlerFailed) => (
            AdmitStage::Done,
            AdmitAction::PassError,
        ),
        _ => (AdmitStage::Done, AdmitAction::Pass),
    }
}

/// A handler only runs for a request whose cookie names a stored session
/// that has not expired.
pub proof fn law_handler_runs_only_for_live_sessions(stage: AdmitStage, event: AdmitEvent, now: i64)
    requires
        admit_expects(stage, event),
        admit_next(stage, event, now).1 is RunHandler,
    ensures
        stage is Loading,
        (event matches AdmitEvent::Loaded(Some(expires_at)) && !(expires_at < now)),
{
}

/// A session is saved only when the handler wrote it, and only under the id
/// its cookie named.
pub proof fn law_saved_only_when_written(stage: AdmitStage, event: AdmitEvent, now: i64)
    requires
        admit_expects(stage, event),
        admit_next(stage, event, now).1 is Save,
    ensures
        stage matches AdmitStage::Running { id } && admit_next(stage, event, now).1 == (
        AdmitAction::Save { id }),
        (event matches AdmitEvent::HandlerFinished { dirty } && dirty),
{
}

/// A live session is handled, and saved when written, under exactly the id
/// its cookie named: loading a session that has not expired runs the
/// handler for that id, and a handler that wrote it makes it saved under
/// that same id.
pub proof fn law_session_saved_under_cookie_id(id: u128, expires_at: i64, now: i64, later: i64)
    requires
        !(expires_at < now),
    ensures
        admit_next(AdmitStage::Loading { id }, AdmitEvent::Loaded(Some(expires_at)), now) == (
        AdmitStage::Running { id }, AdmitAction::RunHandler),
        admit_next(
            admit_next(AdmitStage::Loading { id }, AdmitEvent::Loaded(Some(expires_at)), now).0,
            AdmitEvent::HandlerFinished { dirty: true },
            later,
        ).1 == (AdmitAction::Save { id }),
        admit_next(
            admit_next(AdmitStage::Loading { id }, AdmitEvent::Loaded(Some(expires_at)), now).0,
            AdmitEvent::HandlerFinished { dirty: false },
            later,
        ).1 == AdmitAction::Pass,
{
}

/// A handler's failure is passed on and nothing is saved, whether or not the
/// session was written before the failure.
pub proof fn law_failed_handler_saves_nothing(id: u128, now: i64)
    ensures
        admit_next(AdmitStage::Running { id }, AdmitEvent::HandlerFailed, now) == (
        AdmitStage::Done, AdmitAction::PassError),
{
}

/// A cookie handed out for a session opens that session, and logging out
/// with it names that session.
pub proof fn law_cookie_opens_its_session(value: Seq<char>, id: u128)
    requires
        uuid_parse(value) == Some(id),
    ensures
        admit_open(Some(value)) == (AdmitAction::LoadSession { id }),
{
}

} // verus!
