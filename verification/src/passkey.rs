//! Passkey (WebAuthn) ceremonies: the short-lived ceremony state kept between
//! the two halves of a ceremony, the request bodies, the error answers, and
//! the order of decisions in the passkey handlers.
//!
//! The WebAuthn computations themselves are made by the caller; their results
//! reach the handlers' decisions as events.

use vstd::prelude::*;
use vstd::string::*;
use crate::account;
use crate::models;
use crate::errors::{AuthError, ErrorReply, answers, auth_error_to_response};
use crate::session::{SessionCookie, is_session_cookie, session_cookie};
use crate::text::{trim, trimmed};
use crate::token::{b64_url_nopad, base64_url_nopad_encode};

verus! {

/// Seconds a ceremony state stays usable after it was issued.
pub const CHALLENGE_TTL_SECS: u64 = 300;

// ── Time ──────────────────────────────────────────────────────────────────────

#[verifier::external_type_specification]
#[verifier::external_body]
pub struct ExSystemTime(std::time::SystemTime);

#[verifier::external_type_specification]
#[verifier::external_body]
pub struct ExSystemTimeError(std::time::SystemTimeError);

/// Calls `std::time::SystemTime::now`. Nothing is claimed of the time read.
#[verifier::external_body]
fn system_now() -> std::time::SystemTime {
    std::time::SystemTime::now()
}

/// Calls `SystemTime::duration_since(UNIX_EPOCH)`. Nothing is claimed: it
/// fails for a clock set before 1970.
#[verifier::external_body]
fn since_unix_epoch(t: std::time::SystemTime) -> Result<core::time::Duration, std::time::SystemTimeError> {
    t.duration_since(std::time::UNIX_EPOCH)
}

/// Calls `Duration::as_secs`. Nothing is claimed of the whole seconds.
#[verifier::external_body]
fn whole_secs(d: core::time::Duration) -> u64 {
    d.as_secs()
}

/// Whole seconds since the Unix epoch, or 0 when the clock reads earlier.
/// Nothing is claimed of the value: it is the time read.
pub fn now_secs() -> u64 {
    let since = match since_unix_epoch(system_now()) {
        Ok(d) => Ok(whole_secs(d)),
        Err(_) => Err(()),
    };
    secs_or_zero(since)
}

/// The seconds a clock reading gives: the whole seconds since the epoch, or
/// 0 when the clock read earlier than the epoch.
pub fn secs_or_zero(since: Result<u64, ()>) -> (s: u64)
    ensures
        since matches Ok(x) ==> s == x,
        since is Err ==> s == 0,
{
    match since {
        Ok(x) => x,
        Err(_) => 0,
    }
}

// ── Ceremony state ────────────────────────────────────────────────────────────

/// A ceremony state with the time (whole seconds since the epoch) it was issued.
pub struct TimedState<T> {
    pub issued_at_secs: u64,
    pub state: T,
}

/// Stamps a ceremony state with its issue time.
pub fn timed<T>(state: T, now: u64) -> (t: TimedState<T>)
    ensures
        t.issued_at_secs == now,
        t.state == state,
{
    TimedState { issued_at_secs: now, state }
}

/// Age in seconds of a state issued at `issued` when the time is `now`
/// (zero if `now` reads earlier).
pub open spec fn age(issued: u64, now: u64) -> u64 {
    if now >= issued {
        (now - issued) as u64
    } else {
        0
    }
}

/// The state a take yields for what the store held under the key: a found
/// state at most five minutes old, else nothing.
pub open spec fn taken_state<T>(found: Option<TimedState<T>>, now: u64) -> Option<T> {
    match found {
        Some(t) => if age(t.issued_at_secs, now) > CHALLENGE_TTL_SECS {
            None
        } else {
            Some(t.state)
        },
        None => None,
    }
}

/// What a ceremony state store holds under `key`.
pub open spec fn held<T>(store: Map<Seq<char>, TimedState<T>>, key: Seq<char>) -> Option<TimedState<T>> {
    if store.contains_key(key) {
        Some(store[key])
    } else {
        None
    }
}

/// A ceremony state serves one attempt: a state stored under a key and taken
/// within five minutes is the state stored; the take deletes it, so a second
/// take yields nothing; the states under other keys are untouched.
pub proof fn law_state_serves_one_attempt<T>(
    store: Map<Seq<char>, TimedState<T>>,
    key: Seq<char>,
    state: T,
    issued: u64,
    now: u64,
    later: u64,
)
    ensures
        ({
            let stored = store.insert(key, TimedState { issued_at_secs: issued, state });
            &&& age(issued, now) <= CHALLENGE_TTL_SECS ==> taken_state(held(stored, key), now)
                == Some(state)
            &&& taken_state(held(stored.remove(key), key), later) is None
            &&& forall|k: Seq<char>| k != key ==> #[trigger] held(stored.remove(key), k) == held(
                store,
                k,
            )
        }),
{
}

/// What taking a ceremony state decides: whether the stored entry must be
/// deleted, and the state to use, if any.
pub struct Taken<T> {
    pub delete: bool,
    pub state: Option<T>,
}

/// Takes a ceremony state fetched from the store at time `now`: a found entry
/// is always deleted (each state serves one attempt), and it is used only if
/// it is at most five minutes old.
pub fn take_state<T, E>(fetched: Result<Option<TimedState<T>>, E>, now: u64) -> (r: Taken<T>)
    ensures
        r.delete == (fetched matches Ok(Some(_))),
        match fetched {
            Ok(Some(t)) => if age(t.issued_at_secs, now) > CHALLENGE_TTL_SECS {
                r.state is None
            } else {
                r.state == Some(t.state)
            },
            _ => r.state is None,
        },        r.state == taken_state(
            match fetched {
                Ok(found) => found,
                Err(_) => None,
            },
            now,
        ),
{
    let timed = match fetched {
        Ok(Some(t)) => t,
        _ => return Taken { delete: false, state: None },
    };
    let age = now.saturating_sub(timed.issued_at_secs);
    if age > CHALLENGE_TTL_SECS {
        return Taken { delete: true, state: None };
    }
    Taken { delete: true, state: Some(timed.state) }
}

// ── Requests and error answers ────────────────────────────────────────────────

/// Body naming the account a passkey login is for.
pub struct UsernameRequest {
    pub username: String,
}

/// Optional label for a credential being registered.
pub struct LabelQuery {
    pub label: Option<String>,
}

impl Default for LabelQuery {
    fn default() -> (q: Self)
        ensures
            q.label is None,
    {
        LabelQuery { label: None }
    }
}

/// The JSON body `{"error": ...}` of a passkey error answer.
pub struct ErrorResponse {
    pub error: String,
}

/// A status and its error body.
pub struct ErrorAnswer {
    pub status: u16,
    pub body: ErrorResponse,
}

impl ErrorResponse {
    /// 400 with `msg`.
    pub fn bad_request(msg: String) -> (a: ErrorAnswer)
        ensures
            a.status == 400,
            a.body.error == msg,
    {
        ErrorAnswer { status: 400, body: ErrorResponse { error: msg } }
    }

    /// 404 with `msg`.
    pub fn not_found(msg: String) -> (a: ErrorAnswer)
        ensures
            a.status == 404,
            a.body.error == msg,
    {
        ErrorAnswer { status: 404, body: ErrorResponse { error: msg } }
    }

    /// 401 with `msg`.
    pub fn unauthorized(msg: String) -> (a: ErrorAnswer)
        ensures
            a.status == 401,
            a.body.error == msg,
    {
        ErrorAnswer { status: 401, body: ErrorResponse { error: msg } }
    }

    /// 500 with a fixed text that reveals nothing.
    pub fn internal() -> (a: ErrorAnswer)
        ensures
            a.status == 500,
            a.body.error@ == "Internal server error"@,
    {
        ErrorAnswer { status: 500, body: ErrorResponse { error: String::from_str("Internal server error") } }
    }
}

/// The answer for a WebAuthn failure described by `detail`.
pub fn webauthn_error(detail: &str) -> (a: ErrorAnswer)
    ensures
        a.status == 400,
        a.body.error@ == "WebAuthn error: "@ + detail@,
{
    ErrorResponse::bad_request(String::from_str("WebAuthn error: ").concat(detail))
}

// ── Login: start ──────────────────────────────────────────────────────────────

/// What a passkey login start decides next.
pub enum LoginStartStep {
    /// Look up the account with this (trimmed) username.
    LookupUser { username: String },
    /// Load the account's registered credentials.
    LoadCredentials { user_id: u128 },
    /// Start the WebAuthn authentication over the loaded credentials.
    BeginCeremony,
    /// Keep the ceremony state under the username, then answer 200 with the options.
    StoreStateAndReply { username: String },
    /// Answer with this error.
    Fail(ErrorAnswer),
}

/// Opens a login: the username is trimmed and must not be empty.
pub fn login_start_open(req: &UsernameRequest) -> (s: LoginStartStep)
    ensures
        trimmed(req.username@).len() == 0 ==> (s matches LoginStartStep::Fail(a) && a.status == 400
            && a.body.error@ == "Username is required"@),
        trimmed(req.username@).len() > 0 ==> (s matches LoginStartStep::LookupUser { username }
            && username@ == trimmed(req.username@)),
{
    let username = trim(req.username.as_str());
    if username.is_empty() {
        return LoginStartStep::Fail(ErrorResponse::bad_request(String::from_str("Username is required")));
    }
    LoginStartStep::LookupUser { username: String::from_str(username) }
}

/// The answer given both for an unknown account and for one with no passkeys,
/// so that the two cannot be told apart.
pub fn no_passkeys() -> (a: ErrorAnswer)
    ensures
        a.status == 400,
        a.body.error@ == "No passkeys registered for this account"@,
{
    ErrorResponse::bad_request(String::from_str("No passkeys registered for this account"))
}

/// After the account lookup: an unknown account gets the same answer as one
/// without passkeys.
pub fn login_start_after_user(found: Option<u128>) -> (s: LoginStartStep)
    ensures
        found is None ==> (s matches LoginStartStep::Fail(a) && a.status == 400 && a.body.error@
            == "No passkeys registered for this account"@),
        found matches Some(id) ==> (s matches LoginStartStep::LoadCredentials { user_id }
            && user_id == id),
{
    match found {
        None => LoginStartStep::Fail(no_passkeys()),
        Some(user_id) => LoginStartStep::LoadCredentials { user_id },
    }
}

/// After loading the credentials (their number, or a failure): a failure is
/// an internal error; no credentials is the no-passkeys answer.
pub fn login_start_after_credentials<E>(loaded: Result<usize, E>) -> (s: LoginStartStep)
    ensures
        loaded is Err ==> (s matches LoginStartStep::Fail(a) && a.status == 500 && a.body.error@
            == "Internal server error"@),
        loaded matches Ok(n) && n == 0 ==> (s matches LoginStartStep::Fail(a) && a.status == 400
            && a.body.error@ == "No passkeys registered for this account"@),
        loaded matches Ok(n) && n > 0 ==> s is BeginCeremony,
{
    match loaded {
        Err(_) => LoginStartStep::Fail(ErrorResponse::internal()),
        Ok(0) => LoginStartStep::Fail(no_passkeys()),
        Ok(_) => LoginStartStep::BeginCeremony,
    }
}

/// After starting the ceremony: a WebAuthn failure is answered 400 with its
/// description; otherwise the state is kept under the username.
pub fn login_start_after_ceremony(username: String, begun: Result<(), String>) -> (s: LoginStartStep)
    ensures
        begun matches Err(d) ==> (s matches LoginStartStep::Fail(a) && a.status == 400
            && a.body.error@ == "WebAuthn error: "@ + d@),
        begun is Ok ==> s == (LoginStartStep::StoreStateAndReply { username }),
{
    match begun {
        Err(d) => LoginStartStep::Fail(webauthn_error(d.as_str())),
        Ok(_) => LoginStartStep::StoreStateAndReply { username },
    }
}

// ── Login: finish ─────────────────────────────────────────────────────────────

/// The answer when no login is in progress for the account.
pub fn no_login_in_progress() -> (a: ErrorAnswer)
    ensures
        a.status == 400,
        a.body.error@ == "No authentication in progress for this account"@,
{
    ErrorResponse::bad_request(String::from_str("No authentication in progress for this account"))
}

/// The answer when the ceremony state is missing or expired.
pub fn login_state_missing() -> (a: ErrorAnswer)
    ensures
        a.status == 400,
        a.body.error@
            == "No authentication in progress for this account, or it expired. Please try again."@,
{
    ErrorResponse::bad_request(
        String::from_str(
            "No authentication in progress for this account, or it expired. Please try again.",
        ),
    )
}

/// Whether two byte strings are equal.
fn same_bytes(a: &[u8], b: &[u8]) -> (r: bool)
    ensures
        r == (a@ == b@),
{
    if a.len() != b.len() {
        return false;
    }
    let mut i: usize = 0;
    while i < a.len()
        invariant
            a@.len() == b@.len(),
            i <= a@.len(),
            forall|k: int| 0 <= k < i ==> a@[k] == b@[k],
        decreases a@.len() - i,
    {
        if a[i] != b[i] {
            return false;
        }
        i = i + 1;
    }
    assert(a@ =~= b@);
    true
}

/// Which of the account's stored credentials a login used, by credential id:
/// the first whose id is `used`, if any.
pub fn credential_to_update(ids: &Vec<Vec<u8>>, used: &[u8]) -> (r: Option<usize>)
    ensures
        r matches Some(i) ==> i < ids@.len() && ids@[i as int]@ == used@ && forall|j: int|
            0 <= j < i ==> #[trigger] ids@[j]@ != used@,
        r is None ==> forall|j: int| 0 <= j < ids@.len() ==> #[trigger] ids@[j]@ != used@,
{
    let mut i: usize = 0;
    while i < ids.len()
        invariant
            i <= ids@.len(),
            forall|j: int| 0 <= j < i ==> #[trigger] ids@[j]@ != used@,
        decreases ids@.len() - i,
    {
        if same_bytes(ids[i].as_slice(), used) {
            return Some(i);
        }
        i = i + 1;
    }
    None
}

/// Whether the used credential must be stored again after a login: only when
/// WebAuthn reports that its stored state (such as its signature counter)
/// changed.
pub fn credential_needs_saving(updated: Option<bool>) -> (b: bool)
    ensures
        b == (updated == Some(true)),
{
    match updated {
        Some(true) => true,
        _ => false,
    }
}

/// Where a passkey login finish stands.
pub enum FinishStage {
    LookingUpUser { username: String },
    TakingState { user: account::User },
    Verifying { user: account::User },
    SavingCounter { user: account::User },
    LoadingRole { user: account::User },
    IssuingSession,
    Done,
}

/// What the caller reports back during a login finish.
pub enum FinishEvent {
    /// The account, if the username is known.
    UserFound(Option<account::User>),
    /// Whether a usable ceremony state was taken for the username.
    StateTaken(bool),
    /// The WebAuthn verification of the assertion (failure described).
    Verified(Result<(), String>),
    /// The credential's signature counter was saved where needed (failures
    /// there are only logged).
    CounterSaved,
    /// The account's role, if it could be loaded.
    RoleLoaded(Option<u128>),
    /// The id of the session issued, or why none was.
    SessionIssued(Result<u128, AuthError>),
}

/// The answer to a login finish.
pub enum FinishReply {
    /// A passkey error answer.
    Rejected(ErrorAnswer),
    /// 500 with an empty body.
    Internal,
    /// The answer for a session that could not be issued.
    SessionFailed(ErrorReply),
    /// 200 with the new session's cookie.
    LoggedIn(SessionCookie),
}

/// What a login finish asks the caller to do next.
pub enum FinishAction {
    TakeState { username: String },
    Verify,
    SaveCounter { user_id: u128 },
    LoadRole { user_id: u128 },
    /// Issue a session for this user.
    IssueSession { user: models::User },
    Reply(FinishReply),
}

/// Opens a login finish: the account is looked up by the trimmed username.
pub fn login_finish_open(query: &UsernameRequest) -> (r: (FinishStage, String))
    ensures
        r.1@ == trimmed(query.username@),
        r.0 == (FinishStage::LookingUpUser { username: r.1 }),
{
    let username = String::from_str(trim(query.username.as_str()));
    let u2 = username.clone();
    (FinishStage::LookingUpUser { username }, u2)
}

/// Whether `event` is what `stage` waits for.
pub open spec fn finish_expects(stage: FinishStage, event: FinishEvent) -> bool {
    match stage {
        FinishStage::LookingUpUser { .. } => event is UserFound,
        FinishStage::TakingState { .. } => event is StateTaken,
        FinishStage::Verifying { .. } => event is Verified,
        FinishStage::SavingCounter { .. } => event is CounterSaved,
        FinishStage::LoadingRole { .. } => event is RoleLoaded,
        FinishStage::IssuingSession => event is SessionIssued,
        FinishStage::Done => false,
    }
}

impl FinishStage {
    /// Whether `event` is what this stage waits for.
    pub fn expects(&self, event: &FinishEvent) -> (b: bool)
        ensures
            b == finish_expects(*self, *event),
    {
        match (self, event) {
            (FinishStage::LookingUpUser { .. }, FinishEvent::UserFound(_)) => true,
            (FinishStage::TakingState { .. }, FinishEvent::StateTaken(_)) => true,
            (FinishStage::Verifying { .. }, FinishEvent::Verified(_)) => true,
            (FinishStage::SavingCounter { .. }, FinishEvent::CounterSaved) => true,
            (FinishStage::LoadingRole { .. }, FinishEvent::RoleLoaded(_)) => true,
            (FinishStage::IssuingSession, FinishEvent::SessionIssued(_)) => true,
            _ => false,
        }
    }
}

/// Advances a login finish. The order is: account, ceremony state, WebAuthn
/// verification, counter, role, session; the first failure answers.
pub fn login_finish_step(stage: FinishStage, event: FinishEvent) -> (r: (FinishStage, FinishAction))
    requires
        finish_expects(stage, event),
    ensures
        stage matches FinishStage::LookingUpUser { username } ==> match event {
            FinishEvent::UserFound(None) => (r.1 matches FinishAction::Reply(FinishReply::Rejected(a))
                && a.status == 400 && a.body.error@
                == "No authentication in progress for this account"@),
            FinishEvent::UserFound(Some(u)) => r.0 == (FinishStage::TakingState { user: u })
                && r.1 == (FinishAction::TakeState { username }),
            _ => false,
        },
        stage matches FinishStage::TakingState { user } ==> match event {
            FinishEvent::StateTaken(false) => (r.1 matches FinishAction::Reply(FinishReply::Rejected(a))
                && a.status == 400 && a.body.error@
                == "No authentication in progress for this account, or it expired. Please try again."@),
            FinishEvent::StateTaken(true) => r.0 == (FinishStage::Verifying { user })
                && r.1 is Verify,
            _ => false,
        },
        stage matches FinishStage::Verifying { user } ==> match event {
            FinishEvent::Verified(Err(d)) => (r.1 matches FinishAction::Reply(FinishReply::Rejected(a))
                && a.status == 400 && a.body.error@ == "WebAuthn error: "@ + d@),
            FinishEvent::Verified(Ok(_)) => r.0 == (FinishStage::SavingCounter { user })
                && r.1 == (FinishAction::SaveCounter { user_id: user.id }),
            _ => false,
        },
        stage matches FinishStage::SavingCounter { user } ==> (r.0 == (FinishStage::LoadingRole {
            user,
        }) && r.1 == (FinishAction::LoadRole { user_id: user.id })),
        stage matches FinishStage::LoadingRole { user } ==> match event {
            FinishEvent::RoleLoaded(None) => r.1 matches FinishAction::Reply(FinishReply::Internal),
            FinishEvent::RoleLoaded(Some(role)) => r.0 is IssuingSession && (r.1 matches FinishAction::IssueSession {
                user: s,
            } && s.sub == user.id && s.username == user.username && s.email == user.email
                && s.role == role),
            _ => false,
        },
        stage is IssuingSession ==> match event {
            FinishEvent::SessionIssued(Err(e)) => (r.1 matches FinishAction::Reply(
                FinishReply::SessionFailed(a),
            ) && answers(a, e)),
            FinishEvent::SessionIssued(Ok(id)) => (r.1 matches FinishAction::Reply(
                FinishReply::LoggedIn(c),
            ) && is_session_cookie(c, id)),
            _ => false,
        },
        (r.1 is Reply) ==> r.0 is Done,
{
    match (stage, event) {
        (FinishStage::LookingUpUser { username }, FinishEvent::UserFound(found)) => match found {
            None => (FinishStage::Done, FinishAction::Reply(FinishReply::Rejected(no_login_in_progress()))),
            Some(user) => (FinishStage::TakingState { user }, FinishAction::TakeState { username }),
        },
        (FinishStage::TakingState { user }, FinishEvent::StateTaken(taken)) => {
            if taken {
                (FinishStage::Verifying { user }, FinishAction::Verify)
            } else {
                (FinishStage::Done, FinishAction::Reply(FinishReply::Rejected(login_state_missing())))
            }
        },
        (FinishStage::Verifying { user }, FinishEvent::Verified(v)) => match v {
            Err(d) => (FinishStage::Done, FinishAction::Reply(FinishReply::Rejected(webauthn_error(d.as_str())))),
            Ok(_) => {
                let user_id = user.id;
                (FinishStage::SavingCounter { user }, FinishAction::SaveCounter { user_id })
            },
        },
        (FinishStage::SavingCounter { user }, _) => {
            let user_id = user.id;
            (FinishStage::LoadingRole { user }, FinishAction::LoadRole { user_id })
        },
        (FinishStage::LoadingRole { user }, FinishEvent::RoleLoaded(role)) => match role {
            None => (FinishStage::Done, FinishAction::Reply(FinishReply::Internal)),
            Some(role) => (
                FinishStage::IssuingSession,
                FinishAction::IssueSession { user: models::User::new(user, role) },
            ),
        },
        (FinishStage::IssuingSession, FinishEvent::SessionIssued(issued)) => match issued {
            Err(e) => {
                let reply = auth_error_to_response(&e);
                (FinishStage::Done, FinishAction::Reply(FinishReply::SessionFailed(reply)))
            },
            Ok(id) => (FinishStage::Done, FinishAction::Reply(FinishReply::LoggedIn(session_cookie(id)))),
        },
        (_, _) => (FinishStage::Done, FinishAction::Reply(FinishReply::Internal)),
    }
}

// ── Stored credentials ────────────────────────────────────────────────────────

/// The text a credential is stored under: its id bytes, base64url-encoded
/// without padding.
pub fn credential_id_b64(cred_id: &[u8]) -> (text: String)
    requires
        cred_id@.len() <= isize::MAX,
    ensures
        text@ == b64_url_nopad(cred_id@),
{
    base64_url_nopad_encode(cred_id)
}

// ── Registration ──────────────────────────────────────────────────────────────

/// Where the start of a passkey registration stands. The account is the one
/// of the current session.
pub enum RegStartStage {
    LoadingUser { user_id: u128 },
    LoadingCredentials { user_id: u128, username: String },
    Beginning { user_id: u128 },
    Done,
}

/// What the caller reports back while a registration starts.
pub enum RegStartEvent {
    /// The account's username, or `None` when the account could not be loaded.
    UserLoaded(Option<String>),
    /// The number of credentials the account already has, or `None` when
    /// they could not be loaded.
    CredentialsLoaded(Option<usize>),
    /// The WebAuthn registration was started (or its failure, described).
    Begun(Result<(), String>),
}

/// What a registration start asks the caller to do next.
pub enum RegStartAction {
    LoadUser { user_id: u128 },
    LoadCredentials { user_id: u128 },
    /// Start the WebAuthn registration for the account, excluding its
    /// already registered credentials when `exclude_existing` holds.
    BeginCeremony { user_id: u128, username: String, exclude_existing: bool },
    /// Keep the registration state under the account, then answer 200 with
    /// the options.
    StoreStateAndReply { user_id: u128 },
    /// Answer with this error.
    Fail(ErrorAnswer),
}

/// Opens a registration start for the session's account `user_id`.
pub fn register_start_open(user_id: u128) -> (r: (RegStartStage, RegStartAction))
    ensures
        r.0 == (RegStartStage::LoadingUser { user_id }),
        r.1 == (RegStartAction::LoadUser { user_id }),
{
    (RegStartStage::LoadingUser { user_id }, RegStartAction::LoadUser { user_id })
}

/// Whether `event` is what `stage` waits for.
pub open spec fn reg_start_expects(stage: RegStartStage, event: RegStartEvent) -> bool {
    match stage {
        RegStartStage::LoadingUser { .. } => event is UserLoaded,
        RegStartStage::LoadingCredentials { .. } => event is CredentialsLoaded,
        RegStartStage::Beginning { .. } => event is Begun,
        RegStartStage::Done => false,
    }
}

impl RegStartStage {
    /// Whether `event` is what this stage waits for.
    pub fn expects(&self, event: &RegStartEvent) -> (b: bool)
        ensures
            b == reg_start_expects(*self, *event),
    {
        match (self, event) {
            (RegStartStage::LoadingUser { .. }, RegStartEvent::UserLoaded(_)) => true,
            (RegStartStage::LoadingCredentials { .. }, RegStartEvent::CredentialsLoaded(_)) => true,
            (RegStartStage::Beginning { .. }, RegStartEvent::Begun(_)) => true,
            _ => false,
        }
    }
}

/// Advances a registration start. The order is: account, its existing
/// credentials (excluded from the new registration when there are any), the
/// WebAuthn start, then storing the state. A failed load is an internal
/// error; a WebAuthn failure is answered 400 with its description.
pub fn register_start_step(stage: RegStartStage, event: RegStartEvent) -> (r: (
    RegStartStage,
    RegStartAction,
))
    requires
        reg_start_expects(stage, event),
    ensures
        stage matches RegStartStage::LoadingUser { user_id } ==> match event {
            RegStartEvent::UserLoaded(None) => (r.1 matches RegStartAction::Fail(a) && a.status
                == 500 && a.body.error@ == "Internal server error"@),
            RegStartEvent::UserLoaded(Some(name)) => r.0 == (RegStartStage::LoadingCredentials {
                user_id,
                username: name,
            }) && r.1 == (RegStartAction::LoadCredentials { user_id }),
            _ => false,
        },
        stage matches RegStartStage::LoadingCredentials { user_id, username } ==> match event {
            RegStartEvent::CredentialsLoaded(None) => (r.1 matches RegStartAction::Fail(a)
                && a.status == 500 && a.body.error@ == "Internal server error"@),
            RegStartEvent::CredentialsLoaded(Some(n)) => r.0 == (RegStartStage::Beginning {
                user_id,
            }) && r.1 == (RegStartAction::BeginCeremony {
                user_id,
                username,
                exclude_existing: n > 0,
            }),
            _ => false,
        },
        stage matches RegStartStage::Beginning { user_id } ==> match event {
            RegStartEvent::Begun(Err(d)) => (r.1 matches RegStartAction::Fail(a) && a.status == 400
                && a.body.error@ == "WebAuthn error: "@ + d@),
            RegStartEvent::Begun(Ok(_)) => r.1 == (RegStartAction::StoreStateAndReply { user_id }),
            _ => false,
        },
        (r.1 is Fail || r.1 is StoreStateAndReply) ==> r.0 is Done,
{
    match (stage, event) {
        (RegStartStage::LoadingUser { user_id }, RegStartEvent::UserLoaded(found)) => match found {
            None => (RegStartStage::Done, RegStartAction::Fail(ErrorResponse::internal())),
            Some(username) => (
                RegStartStage::LoadingCredentials { user_id, username },
                RegStartAction::LoadCredentials { user_id },
            ),
        },
        (
            RegStartStage::LoadingCredentials { user_id, username },
            RegStartEvent::CredentialsLoaded(loaded),
        ) => match loaded {
            None => (RegStartStage::Done, RegStartAction::Fail(ErrorResponse::internal())),
            Some(n) => (
                RegStartStage::Beginning { user_id },
                RegStartAction::BeginCeremony { user_id, username, exclude_existing: exclude_existing(n) },
            ),
        },
        (RegStartStage::Beginning { user_id }, RegStartEvent::Begun(begun)) => match begun {
            Err(d) => (RegStartStage::Done, RegStartAction::Fail(webauthn_error(d.as_str()))),
            Ok(_) => (RegStartStage::Done, RegStartAction::StoreStateAndReply { user_id }),
        },
        (_, _) => (RegStartStage::Done, RegStartAction::Fail(ErrorResponse::internal())),
    }
}

/// The answer when the registration state is missing or expired.
pub fn registration_state_missing() -> (a: ErrorAnswer)
    ensures
        a.status == 400,
        a.body.error@
            == "No registration in progress for this account, or it expired. Please start again."@,
{
    ErrorResponse::bad_request(
        String::from_str(
            "No registration in progress for this account, or it expired. Please start again.",
        ),
    )
}

/// Whether a registration must exclude already registered credentials: only
/// when the account has some.
pub fn exclude_existing(count: usize) -> (b: bool)
    ensures
        b == (count > 0),
{
    count > 0
}

/// The answer to removing a credential: 200 if a row was deleted, 404 if the
/// account holds no such credential, 500 if the deletion failed.
pub fn removal_answer<E>(deleted: Result<bool, E>) -> (r: Result<(), ErrorAnswer>)
    ensures
        deleted matches Ok(true) ==> r is Ok,
        deleted matches Ok(false) ==> (r matches Err(a) && a.status == 404 && a.body.error@
            == "Passkey not found"@),
        deleted is Err ==> (r matches Err(a) && a.status == 500 && a.body.error@
            == "Internal server error"@),
{
    match deleted {
        Ok(true) => Ok(()),
        Ok(false) => Err(ErrorResponse::not_found(String::from_str("Passkey not found"))),
        Err(_) => Err(ErrorResponse::internal()),
    }
}

} // verus!
