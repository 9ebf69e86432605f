//! Account rules: credential checks, password strength, password hashing and
//! the interpretation of account lookups.

use vstd::prelude::*;
use crate::errors::{AuthError, ErrorReply, answers, auth_error_to_response};
use crate::models;
use crate::session::{SessionCookie, is_session_cookie, session_cookie};

verus! {

/// Bcrypt cost used for every stored password hash.
pub const BCRYPT_COST: u32 = 10;

/// Lowest zxcvbn score (0..=4) a new password must reach.
pub const MIN_PASSWORD_SCORE: u8 = 3;

// ── Commands ──────────────────────────────────────────────────────────────────

/// Password-based login (by email or by username).
pub struct PasswordLoginCmd {
    pub username: String,
    pub password: String,
}

/// Change the current user's password.
pub struct ChangePasswordCmd {
    pub user_id: u128,
    pub current_password: String,
    pub new_password: String,
}

/// Request a password-reset email.
pub struct RequestPasswordResetCmd {
    pub email: String,
}

/// Confirm a password reset using the token from the email.
pub struct ConfirmPasswordResetCmd {
    pub token: String,
    pub new_password: String,
}

/// A row of the `users` table; times are nanoseconds since the Unix epoch.
pub struct User {
    pub id: u128,
    pub username: String,
    pub email: String,
    pub password_hash: String,
    pub created_at: i64,
    pub updated_at: i64,
    pub email_confirmed: bool,
}

// ── Outside computations ──────────────────────────────────────────────────────

/// What `bcrypt::verify(password, hash)` returns: `Some(matches)`, or `None`
/// when it fails (for instance on a malformed hash).
pub uninterp spec fn bcrypt_check(password: Seq<char>, hash: Seq<char>) -> Option<bool>;

/// The zxcvbn strength score (0..=4) of a password with no user inputs.
pub uninterp spec fn zxcvbn_score(password: Seq<char>) -> u8;

/// Calls `bcrypt::verify`. Claims the result is the named outcome of that call.
#[verifier::external_body]
fn bcrypt_verify(password: &str, hash: &str) -> (r: Result<bool, bcrypt::BcryptError>)
    ensures
        r is Ok <==> bcrypt_check(password@, hash@) is Some,
        r matches Ok(b) ==> bcrypt_check(password@, hash@) == Some(b),
{
    bcrypt::verify(password, hash)
}

/// The decimal digit character for `d` (0..10).
pub open spec fn digit_char(d: int) -> char {
    ((48 + d) as u8) as char
}

/// The head `$2b$NN$` of a bcrypt hash made with cost `cost`: version `2b`
/// and the cost as two decimal digits.
pub open spec fn bcrypt_head(cost: u32) -> Seq<char> {
    seq!['$', '2', 'b', '$', digit_char(cost as int / 10), digit_char(cost as int % 10), '$']
}

/// The bcrypt head of a cost-10 hash.
pub open spec fn cost10_head() -> Seq<char> {
    "$2b$10$"@
}

/// Calls `bcrypt::hash` (random salt from the operating system). Claims that a
/// produced hash is a 60-character bcrypt string in version `2b`, beginning
/// `$2b$`, the cost as two digits and `$` (the crate writes
/// `${version}${cost:02}$` before salt and digest), and
/// that `bcrypt::verify` accepts it for the same password: `verify` re-hashes
/// with the cost and salt read back from the string. Only costs 4 to 31 are
/// handed to it (the crate rejects every other cost), so a failure can only
/// come from the salt source; nothing is claimed of when that happens.
#[verifier::external_body]
fn bcrypt_hash(password: &str, cost: u32) -> (r: Result<String, bcrypt::BcryptError>)
    requires
        4 <= cost <= 31,
    ensures
        r matches Ok(h) ==> h@.len() == 60 && h@.subrange(0, 7) == bcrypt_head(
            cost,
        ) && bcrypt_check(password@, h@) == Some(true),
{
    bcrypt::hash(password, cost)
}

/// Calls `zxcvbn::zxcvbn(password, &[])` and reads its score. Claims the score
/// is the named score, at most 4, and 0 for the empty password (the crate
/// answers the empty password with `Score::Zero`).
#[verifier::external_body]
fn password_score(password: &str) -> (s: u8)
    ensures
        s == zxcvbn_score(password@),
        s <= 4,
        password@.len() == 0 ==> s == 0,
{
    u8::from(zxcvbn::zxcvbn(password, &[]).score())
}

/// Whether the database reported `e` as a violation of a unique constraint
/// (never so for errors that do not come from the database).
pub uninterp spec fn unique_violation(e: sqlx::Error) -> bool;

/// Calls `is_unique_violation` on a database error reported by `sqlx`
/// (false for errors that do not come from the database). Claims the answer
/// is the named one: it depends on the error value alone.
#[verifier::external_body]
fn is_unique_violation(e: &sqlx::Error) -> (b: bool)
    ensures
        b == unique_violation(*e),
{
    match e {
        sqlx::Error::Database(db) => db.is_unique_violation(),
        _ => false,
    }
}

// ── Rules ─────────────────────────────────────────────────────────────────────

/// Whether a password is strong enough to be set.
pub open spec fn strong_enough(password: Seq<char>) -> bool {
    zxcvbn_score(password) >= MIN_PASSWORD_SCORE
}

/// Rejects a password weaker than zxcvbn score 3 with `PasswordTooShort`.
pub fn check_password_strength(password: &str) -> (r: Result<(), AuthError>)
    ensures
        r is Ok <==> strong_enough(password@),
        r is Err ==> r matches Err(AuthError::PasswordTooShort),
{
    strength_outcome(password_score(password))
}

/// The verdict on a password with zxcvbn score `score`: scores below 3 are
/// `PasswordTooShort`.
pub fn strength_outcome(score: u8) -> (r: Result<(), AuthError>)
    ensures
        r is Ok <==> score >= MIN_PASSWORD_SCORE,
        r is Err ==> r matches Err(AuthError::PasswordTooShort),
{
    if score < MIN_PASSWORD_SCORE {
        Err(AuthError::PasswordTooShort)
    } else {
        Ok(())
    }
}

/// Rejects a login command whose identifier or password is empty.
pub fn check_login_input(cmd: &PasswordLoginCmd) -> (r: Result<(), AuthError>)
    ensures
        r is Ok <==> (cmd.username@.len() > 0 && cmd.password@.len() > 0),
        r is Err ==> r matches Err(AuthError::MissingCredentials),
{
    if cmd.username.as_str().is_empty() || cmd.password.as_str().is_empty() {
        Err(AuthError::MissingCredentials)
    } else {
        Ok(())
    }
}

/// Checks a login password against the stored hash: a mismatch is
/// `InvalidCredentials`, a bcrypt failure is `Bcrypt`.
pub fn verify_password(password: &str, password_hash: &str) -> (r: Result<(), AuthError>)
    ensures
        r is Ok <==> bcrypt_check(password@, password_hash@) == Some(true),
        bcrypt_check(password@, password_hash@) == Some(false) ==> r matches Err(
            AuthError::InvalidCredentials,
        ),
        bcrypt_check(password@, password_hash@) is None ==> r matches Err(AuthError::Bcrypt(_)),
{
    login_check_outcome(bcrypt_verify(password, password_hash))
}

/// The answer to a login once bcrypt compared the password with the stored
/// hash: a match passes, a mismatch is `InvalidCredentials`, a bcrypt
/// failure is `Bcrypt` with that failure.
pub fn login_check_outcome(verified: Result<bool, bcrypt::BcryptError>) -> (r: Result<(), AuthError>)
    ensures
        verified matches Ok(true) ==> r is Ok,
        verified matches Ok(false) ==> r matches Err(AuthError::InvalidCredentials),
        verified matches Err(e) ==> r == Err::<(), AuthError>(AuthError::Bcrypt(e)),
{
    match verified {
        Ok(true) => Ok(()),
        Ok(false) => Err(AuthError::InvalidCredentials),
        Err(e) => Err(AuthError::Bcrypt(e)),
    }
}

/// Checks the current password before a change; any failure to verify counts
/// as `InvalidCredentials`.
pub fn verify_current_password(password: &str, password_hash: &str) -> (r: Result<(), AuthError>)
    ensures
        r is Ok <==> bcrypt_check(password@, password_hash@) == Some(true),
        r is Err ==> r matches Err(AuthError::InvalidCredentials),
{
    current_check_outcome(bcrypt_verify(password, password_hash))
}

/// The answer to a current-password check once bcrypt compared it with the
/// stored hash: only a match passes; a mismatch and a bcrypt failure are both
/// `InvalidCredentials`.
pub fn current_check_outcome(verified: Result<bool, bcrypt::BcryptError>) -> (r: Result<(), AuthError>)
    ensures
        r is Ok <==> verified matches Ok(true),
        r is Err ==> r matches Err(AuthError::InvalidCredentials),
{
    let valid = match verified {
        Ok(b) => b,
        Err(_) => false,
    };
    if !valid {
        Err(AuthError::InvalidCredentials)
    } else {
        Ok(())
    }
}

/// Hashes a new password with bcrypt at cost 10. A produced hash begins
/// `$2b$10$` and verifies against the password.
pub fn hash_password(password: &str) -> (r: Result<String, AuthError>)
    ensures
        r matches Ok(h) ==> h@.len() == 60 && h@.subrange(0, 7) == cost10_head() && bcrypt_check(
            password@,
            h@,
        ) == Some(true),
        r is Err ==> r matches Err(AuthError::Bcrypt(_)),
{
    proof {
        reveal_strlit("$2b$10$");
        assert(bcrypt_head(BCRYPT_COST) =~= cost10_head());
    }
    match bcrypt_hash(password, BCRYPT_COST) {
        Ok(h) => Ok(h),
        Err(e) => Err(AuthError::Bcrypt(e)),
    }
}

/// Validates a registration and hashes its password: an empty username or
/// password is `MissingCredentials`, a weak password `PasswordTooShort`.
pub fn prepare_registration(username: &str, email: &str, password: &str) -> (r: Result<
    String,
    AuthError,
>)
    ensures
        (username@.len() == 0 || password@.len() == 0) ==> r matches Err(
            AuthError::MissingCredentials,
        ),
        (username@.len() > 0 && password@.len() > 0 && !strong_enough(password@)) ==> r matches Err(
            AuthError::PasswordTooShort,
        ),
        (username@.len() > 0 && password@.len() > 0 && strong_enough(password@)) ==> (r matches Ok(
            h,
        ) ==> bcrypt_check(password@, h@) == Some(true) && h@.subrange(0, 7) == cost10_head()) && (
        r is Err ==> r matches Err(
            AuthError::Bcrypt(_),
        )),
{
    if username.is_empty() || password.is_empty() {
        return Err(AuthError::MissingCredentials);
    }
    check_password_strength(password)?;
    hash_password(password)
}

/// The error a failed insertion of a new user maps to: a unique-constraint
/// violation means the user already exists.
pub fn user_creation_error(e: sqlx::Error, unique_violation: bool) -> (r: AuthError)
    ensures
        unique_violation ==> r matches AuthError::UserAlreadyExists,
        !unique_violation ==> r == AuthError::Database(e),
{
    if unique_violation {
        AuthError::UserAlreadyExists
    } else {
        AuthError::Database(e)
    }
}

/// The error a failed insertion of a new user maps to, as the database
/// reported it: `UserAlreadyExists` for a unique-constraint violation, the
/// database error itself otherwise.
pub fn creation_error(e: sqlx::Error) -> (r: AuthError)
    ensures
        unique_violation(e) ==> r matches AuthError::UserAlreadyExists,
        !unique_violation(e) ==> r == AuthError::Database(e),
{
    let unique = is_unique_violation(&e);
    user_creation_error(e, unique)
}

/// The answer to a registration once the new user's row was inserted: the
/// new user's id, so that a caller can log the user in at once; a failed
/// insertion is `UserAlreadyExists` for a unique-constraint violation and the
/// database error otherwise.
pub fn registration_outcome(created: Result<u128, sqlx::Error>) -> (r: Result<u128, AuthError>)
    ensures
        created matches Ok(id) ==> r == Ok::<u128, AuthError>(id),
        created matches Err(e) ==> (unique_violation(e) ==> r matches Err(
            AuthError::UserAlreadyExists,
        )) && (!unique_violation(e) ==> r == Err::<u128, AuthError>(AuthError::Database(e))),
{
    match created {
        Ok(id) => Ok(id),
        Err(e) => Err(creation_error(e)),
    }
}

/// Interprets a lookup of a user by username: any failure is reported as
/// `InvalidCredentials`, so that it does not reveal whether the user exists.
pub fn user_by_username_result<T>(found: Result<T, sqlx::Error>) -> (r: Result<T, AuthError>)
    ensures
        found matches Ok(u) ==> r == Ok::<T, AuthError>(u),
        found is Err ==> r matches Err(AuthError::InvalidCredentials),
{
    match found {
        Ok(u) => Ok(u),
        Err(_) => Err(AuthError::InvalidCredentials),
    }
}

/// Interprets a lookup of a user by email: no such user is
/// `InvalidCredentials`, a database failure is `Database`.
pub fn user_by_email_result<T>(found: Result<Option<T>, sqlx::Error>) -> (r: Result<T, AuthError>)
    ensures
        found matches Ok(Some(u)) ==> r == Ok::<T, AuthError>(u),
        found matches Ok(None) ==> r matches Err(AuthError::InvalidCredentials),
        found matches Err(e) ==> r == Err::<T, AuthError>(AuthError::Database(e)),
{
    match found {
        Ok(Some(u)) => Ok(u),
        Ok(None) => Err(AuthError::InvalidCredentials),
        Err(e) => Err(AuthError::Database(e)),
    }
}

/// Interprets a lookup of a user by id: any failure is `UserNotFound`.
pub fn user_by_id_result<T, E>(found: Result<T, E>) -> (r: Result<T, AuthError>)
    ensures
        found matches Ok(u) ==> r == Ok::<T, AuthError>(u),
        found is Err ==> r matches Err(AuthError::UserNotFound),
{
    match found {
        Ok(u) => Ok(u),
        Err(_) => Err(AuthError::UserNotFound),
    }
}

} // verus!

verus! {

// ── Changing a password ───────────────────────────────────────────────────────

/// Where a password change stands between storage steps.
pub enum ChangeStage {
    AwaitingUser { user_id: u128, current_password: String, new_password: String },
    AwaitingStore,
    Done,
}

/// What a storage step of a password change reports.
pub enum ChangeEvent {
    /// The stored password hash of the user, or why it could not be loaded.
    UserLoaded(Result<String, AuthError>),
    /// The new hash was stored (or storing failed).
    Stored(Result<(), sqlx::Error>),
}

/// The next storage step of a password change, or its answer.
pub enum ChangeAction {
    LoadUser { user_id: u128 },
    StoreHash { user_id: u128, password_hash: String },
    Finish(Result<(), AuthError>),
}

/// Starts a password change: a weak new password is rejected before anything
/// is loaded.
pub fn change_password_start(cmd: ChangePasswordCmd) -> (r: (ChangeStage, ChangeAction))
    ensures
        !strong_enough(cmd.new_password@) ==> (r.0 is Done && r.1 matches ChangeAction::Finish(
            Err(AuthError::PasswordTooShort),
        )),
        strong_enough(cmd.new_password@) ==> (r.1 == (ChangeAction::LoadUser {
            user_id: cmd.user_id,
        }) && r.0 == (ChangeStage::AwaitingUser {
            user_id: cmd.user_id,
            current_password: cmd.current_password,
            new_password: cmd.new_password,
        })),
{
    if let Err(e) = check_password_strength(cmd.new_password.as_str()) {
        return (ChangeStage::Done, ChangeAction::Finish(Err(e)));
    }
    let user_id = cmd.user_id;
    (
        ChangeStage::AwaitingUser {
            user_id,
            current_password: cmd.current_password,
            new_password: cmd.new_password,
        },
        ChangeAction::LoadUser { user_id },
    )
}

/// Whether `event` is what `stage` waits for.
pub open spec fn change_expects(stage: ChangeStage, event: ChangeEvent) -> bool {
    match stage {
        ChangeStage::AwaitingUser { .. } => event is UserLoaded,
        ChangeStage::AwaitingStore => event is Stored,
        ChangeStage::Done => false,
    }
}

impl ChangeStage {
    /// Whether `event` is what this stage waits for.
    pub fn expects(&self, event: &ChangeEvent) -> (b: bool)
        ensures
            b == change_expects(*self, *event),
    {
        match (self, event) {
            (ChangeStage::AwaitingUser { .. }, ChangeEvent::UserLoaded(_)) => true,
            (ChangeStage::AwaitingStore, ChangeEvent::Stored(_)) => true,
            _ => false,
        }
    }
}

/// Advances a password change: the current password must verify against the
/// stored hash before the new password's hash is stored.
pub fn change_password_step(stage: ChangeStage, event: ChangeEvent) -> (r: (ChangeStage, ChangeAction))
    requires
        change_expects(stage, event),
    ensures
        stage matches ChangeStage::AwaitingUser { user_id, current_password, new_password } ==> (
        match event {
            ChangeEvent::UserLoaded(Err(e)) => r.1 == ChangeAction::Finish(Err(e)),
            ChangeEvent::UserLoaded(Ok(stored)) => if bcrypt_check(current_password@, stored@)
                != Some(true) {
                r.1 matches ChangeAction::Finish(Err(AuthError::InvalidCredentials))
            } else {
                (r.1 matches ChangeAction::StoreHash { user_id: u, password_hash: h } && u
                    == user_id && bcrypt_check(new_password@, h@) == Some(true) && h@.subrange(0, 7)
                    == cost10_head() && r.0
                    is AwaitingStore) || r.1 matches ChangeAction::Finish(
                    Err(AuthError::Bcrypt(_)),
                )
            },
            _ => false,
        }),
        stage is AwaitingStore ==> (match event {
            ChangeEvent::Stored(Ok(_)) => r.1 == ChangeAction::Finish(Ok(())),
            ChangeEvent::Stored(Err(e)) => r.1 == ChangeAction::Finish(Err(AuthError::Database(e))),
            _ => false,
        }),
        r.1 is Finish ==> r.0 is Done,
{
    match (stage, event) {
        (
            ChangeStage::AwaitingUser { user_id, current_password, new_password },
            ChangeEvent::UserLoaded(loaded),
        ) => {
            let stored = match loaded {
                Ok(h) => h,
                Err(e) => return (ChangeStage::Done, ChangeAction::Finish(Err(e))),
            };
            if let Err(e) = verify_current_password(current_password.as_str(), stored.as_str()) {
                return (ChangeStage::Done, ChangeAction::Finish(Err(e)));
            }
            match hash_password(new_password.as_str()) {
                Ok(password_hash) => (
                    ChangeStage::AwaitingStore,
                    ChangeAction::StoreHash { user_id, password_hash },
                ),
                Err(e) => (ChangeStage::Done, ChangeAction::Finish(Err(e))),
            }
        },
        (ChangeStage::AwaitingStore, ChangeEvent::Stored(r)) => match r {
            Ok(_) => (ChangeStage::Done, ChangeAction::Finish(Ok(()))),
            Err(e) => (ChangeStage::Done, ChangeAction::Finish(Err(AuthError::Database(e)))),
        },
        (_, _) => (ChangeStage::Done, ChangeAction::Finish(Err(AuthError::InvalidCredentials))),
    }
}

// ── Password change: the answer ───────────────────────────────────────────────

/// Where answering a password change of the session's account stands.
pub enum ChangeReplyStage {
    Changing { user_id: u128 },
    Revoking { user_id: u128 },
    LoadingUser { user_id: u128 },
    LoadingRole { user: User },
    Issuing,
    Done,
}

/// What the caller reports back while a password change is answered.
pub enum ChangeReplyEvent {
    /// The password change itself finished.
    Changed(Result<(), AuthError>),
    /// Every session of the account was revoked (a failure there is only
    /// logged).
    Revoked,
    /// The account was reloaded.
    UserLoaded(Result<User, AuthError>),
    /// The account's role, or `None` when it could not be loaded.
    RoleLoaded(Option<u128>),
    /// The id of the new session, or why none was issued.
    SessionIssued(Result<u128, AuthError>),
}

/// The answer to a password change.
pub enum ChangeReply {
    /// The answer for an error.
    Failed(ErrorReply),
    /// 500 with an empty body.
    Internal,
    /// 200 with the new session's cookie and a success message.
    Changed(SessionCookie),
}

/// What answering a password change asks the caller to do next.
pub enum ChangeReplyAction {
    ChangePassword { user_id: u128 },
    RevokeAllSessions { user_id: u128 },
    LoadUser { user_id: u128 },
    LoadRole { user_id: u128 },
    IssueSession { user: models::User },
    Reply(ChangeReply),
}

/// Opens the answer to a password change for the session's account.
pub fn change_reply_start(user_id: u128) -> (r: (ChangeReplyStage, ChangeReplyAction))
    ensures
        r.0 == (ChangeReplyStage::Changing { user_id }),
        r.1 == (ChangeReplyAction::ChangePassword { user_id }),
{
    (ChangeReplyStage::Changing { user_id }, ChangeReplyAction::ChangePassword { user_id })
}

/// Whether `event` is what `stage` waits for.
pub open spec fn change_reply_expects(stage: ChangeReplyStage, event: ChangeReplyEvent) -> bool {
    match stage {
        ChangeReplyStage::Changing { .. } => event is Changed,
        ChangeReplyStage::Revoking { .. } => event is Revoked,
        ChangeReplyStage::LoadingUser { .. } => event is UserLoaded,
        ChangeReplyStage::LoadingRole { .. } => event is RoleLoaded,
        ChangeReplyStage::Issuing => event is SessionIssued,
        ChangeReplyStage::Done => false,
    }
}

impl ChangeReplyStage {
    /// Whether `event` is what this stage waits for.
    pub fn expects(&self, event: &ChangeReplyEvent) -> (b: bool)
        ensures
            b == change_reply_expects(*self, *event),
    {
        match (self, event) {
            (ChangeReplyStage::Changing { .. }, ChangeReplyEvent::Changed(_)) => true,
            (ChangeReplyStage::Revoking { .. }, ChangeReplyEvent::Revoked) => true,
            (ChangeReplyStage::LoadingUser { .. }, ChangeReplyEvent::UserLoaded(_)) => true,
            (ChangeReplyStage::LoadingRole { .. }, ChangeReplyEvent::RoleLoaded(_)) => true,
            (ChangeReplyStage::Issuing, ChangeReplyEvent::SessionIssued(_)) => true,
            _ => false,
        }
    }
}

/// Advances the answer to a password change. Once the password is changed,
/// every session of the account is revoked, and only then is a fresh session
/// issued for the device that made the change; the first failure answers.
pub fn change_reply_step(stage: ChangeReplyStage, event: ChangeReplyEvent) -> (r: (
    ChangeReplyStage,
    ChangeReplyAction,
))
    requires
        change_reply_expects(stage, event),
    ensures
        stage matches ChangeReplyStage::Changing { user_id } ==> match event {
            ChangeReplyEvent::Changed(Ok(_)) => r.0 == (ChangeReplyStage::Revoking { user_id })
                && r.1 == (ChangeReplyAction::RevokeAllSessions { user_id }),
            ChangeReplyEvent::Changed(Err(e)) => (r.1 matches ChangeReplyAction::Reply(
                ChangeReply::Failed(a),
            ) && answers(a, e)),
            _ => false,
        },
        stage matches ChangeReplyStage::Revoking { user_id } ==> r.0 == (
        ChangeReplyStage::LoadingUser { user_id }) && r.1 == (ChangeReplyAction::LoadUser {
            user_id,
        }),
        stage is LoadingUser ==> match event {
            ChangeReplyEvent::UserLoaded(Ok(u)) => r.0 == (ChangeReplyStage::LoadingRole { user: u })
                && r.1 == (ChangeReplyAction::LoadRole { user_id: u.id }),
            ChangeReplyEvent::UserLoaded(Err(e)) => (r.1 matches ChangeReplyAction::Reply(
                ChangeReply::Failed(a),
            ) && answers(a, e)),
            _ => false,
        },
        stage matches ChangeReplyStage::LoadingRole { user } ==> match event {
            ChangeReplyEvent::RoleLoaded(None) => r.1 matches ChangeReplyAction::Reply(
                ChangeReply::Internal,
            ),
            ChangeReplyEvent::RoleLoaded(Some(role)) => r.0 is Issuing && (r.1 matches ChangeReplyAction::IssueSession {
                user: s,
            } && s.sub == user.id && s.username == user.username && s.email == user.email
                && s.role == role),
            _ => false,
        },
        stage is Issuing ==> match event {
            ChangeReplyEvent::SessionIssued(Err(e)) => (r.1 matches ChangeReplyAction::Reply(
                ChangeReply::Failed(a),
            ) && answers(a, e)),
            ChangeReplyEvent::SessionIssued(Ok(id)) => (r.1 matches ChangeReplyAction::Reply(
                ChangeReply::Changed(c),
            ) && is_session_cookie(c, id)),
            _ => false,
        },
        r.1 is RevokeAllSessions ==> (stage is Changing && (event matches ChangeReplyEvent::Changed(
            Ok(_),
        ))),
        r.1 is IssueSession ==> stage is LoadingRole,
        r.0 is LoadingRole ==> stage is LoadingUser,
        r.0 is LoadingUser ==> stage is Revoking,
        r.1 is Reply ==> r.0 is Done,
{
    match (stage, event) {
        (ChangeReplyStage::Changing { user_id }, ChangeReplyEvent::Changed(changed)) => match changed {
            Ok(_) => (
                ChangeReplyStage::Revoking { user_id },
                ChangeReplyAction::RevokeAllSessions { user_id },
            ),
            Err(e) => (
                ChangeReplyStage::Done,
                ChangeReplyAction::Reply(ChangeReply::Failed(auth_error_to_response(&e))),
            ),
        },
        (ChangeReplyStage::Revoking { user_id }, _) => (
            ChangeReplyStage::LoadingUser { user_id },
            ChangeReplyAction::LoadUser { user_id },
        ),
        (ChangeReplyStage::LoadingUser { .. }, ChangeReplyEvent::UserLoaded(loaded)) => match loaded {
            Ok(u) => {
                let user_id = u.id;
                (ChangeReplyStage::LoadingRole { user: u }, ChangeReplyAction::LoadRole { user_id })
            },
            Err(e) => (
                ChangeReplyStage::Done,
                ChangeReplyAction::Reply(ChangeReply::Failed(auth_error_to_response(&e))),
            ),
        },
        (ChangeReplyStage::LoadingRole { user }, ChangeReplyEvent::RoleLoaded(role)) => match role {
            None => (ChangeReplyStage::Done, ChangeReplyAction::Reply(ChangeReply::Internal)),
            Some(role) => (
                ChangeReplyStage::Issuing,
                ChangeReplyAction::IssueSession { user: models::User::new(user, role) },
            ),
        },
        (ChangeReplyStage::Issuing, ChangeReplyEvent::SessionIssued(issued)) => match issued {
            Ok(id) => (
                ChangeReplyStage::Done,
                ChangeReplyAction::Reply(ChangeReply::Changed(session_cookie(id))),
            ),
            Err(e) => (
                ChangeReplyStage::Done,
                ChangeReplyAction::Reply(ChangeReply::Failed(auth_error_to_response(&e))),
            ),
        },
        (_, _) => (ChangeReplyStage::Done, ChangeReplyAction::Reply(ChangeReply::Internal)),
    }
}

} // verus!
