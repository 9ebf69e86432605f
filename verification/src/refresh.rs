//! Refresh tokens: the token pair handed to clients, rotation on refresh and
//! revocation on logout.
//!
//! A refresh is a sequence of storage steps run by the caller; the decisions
//! between them are made by [`refresh_start`] and [`refresh_step`].

use vstd::prelude::*;
use vstd::string::*;
use crate::errors::JwtError;
use crate::text::{trim, trimmed};
use crate::token::{generate_raw_token, hash_token, is_raw_token, token_hash};

verus! {

/// Lifetime of a refresh token: 30 days, in nanoseconds.
pub const REFRESH_TOKEN_TTL_NANOS: i64 = 2_592_000_000_000_000;

/// Seconds until an access token expires.
pub const ACCESS_TOKEN_EXPIRES_IN: u64 = 600;

/// Refresh an access token using a long-lived refresh token.
pub struct RefreshCmd {
    pub refresh_token: String,
}

/// Revoke a refresh token (logout).
pub struct LogoutCmd {
    pub refresh_token: String,
}

/// Returned after any successful authentication flow.
pub struct AuthResult {
    pub access_token: String,
    pub refresh_token: String,
    /// Seconds until the access token expires.
    pub expires_in: u64,
}

/// A row of the `refresh_tokens` table (times in nanoseconds since the epoch).
/// Only the hash of a raw token is stored, never the raw token.
pub struct RefreshTokenRow {
    pub user_id: u128,
    pub issuer: String,
    pub expires_at: i64,
    pub revoked: bool,
}

/// The stored key for a presented refresh token: the hash of the token with
/// surrounding whitespace removed, or `None` when nothing is left.
pub open spec fn lookup_key(presented: Seq<char>) -> Option<Seq<char>> {
    if trimmed(presented).len() == 0 {
        None
    } else {
        Some(token_hash(trimmed(presented)))
    }
}

/// The storage key for a presented refresh token; `MissingRefreshToken` for a
/// blank token.
pub fn refresh_token_key(presented: &str) -> (r: Result<String, JwtError>)
    ensures
        lookup_key(presented@) is None ==> r matches Err(JwtError::MissingRefreshToken),
        lookup_key(presented@) matches Some(k) ==> (r matches Ok(h) && h@ == k),
{
    let raw = trim(presented);
    if raw.is_empty() {
        return Err(JwtError::MissingRefreshToken);
    }
    Ok(hash_token(raw))
}

// ── Issuing a pair ────────────────────────────────────────────────────────────

/// A token pair ready to hand out, with what must be stored for it.
pub struct PreparedPair {
    /// What the client receives (the only place the raw refresh token appears).
    pub result: AuthResult,
    /// The hash stored in place of the raw refresh token.
    pub token_hash: String,
    /// When the refresh token expires (nanoseconds since the epoch).
    pub expires_at: i64,
}

/// The pair for a signed access token and a drawn raw refresh token: the raw
/// token goes to the client, only its hash is stored, and it expires 30 days
/// after `now`.
pub fn pair_for(access_token: String, raw_refresh: String, now: i64) -> (p: PreparedPair)
    requires
        now <= i64::MAX - REFRESH_TOKEN_TTL_NANOS,
    ensures
        p.result.access_token == access_token,
        p.result.refresh_token == raw_refresh,
        p.token_hash@ == token_hash(raw_refresh@),
        p.expires_at == now + REFRESH_TOKEN_TTL_NANOS,
        p.result.expires_in == ACCESS_TOKEN_EXPIRES_IN,
{
    let token_hash = hash_token(raw_refresh.as_str());
    PreparedPair {
        result: AuthResult { access_token, refresh_token: raw_refresh, expires_in: ACCESS_TOKEN_EXPIRES_IN },
        token_hash,
        expires_at: now + REFRESH_TOKEN_TTL_NANOS,
    }
}

/// Builds a token pair around a signed access token: a fresh raw refresh
/// token for the client, its hash for storage, and an expiry 30 days after
/// `now`. Fails with `RandomSource` when no random token can be drawn.
pub fn prepare_token_pair(access_token: String, now: i64) -> (r: Result<PreparedPair, JwtError>)
    requires
        now <= i64::MAX - REFRESH_TOKEN_TTL_NANOS,
    ensures
        r matches Ok(p) ==> {
            &&& p.result.access_token == access_token
            &&& is_raw_token(p.result.refresh_token@)
            &&& p.token_hash@ == token_hash(p.result.refresh_token@)
            &&& p.expires_at == now + REFRESH_TOKEN_TTL_NANOS
            &&& p.result.expires_in == ACCESS_TOKEN_EXPIRES_IN
        },
        r is Err ==> r matches Err(JwtError::RandomSource),
{
    match generate_raw_token() {
        Some(raw) => Ok(pair_for(access_token, raw, now)),
        None => Err(JwtError::RandomSource),
    }
}

/// What follows an attempt to sign the access token (`Err` carrying the
/// signer's message): a signing failure is `TokenSigning` with that message
/// and leaves nothing to store; a signed token gets its pair.
pub fn pair_after_signing(signed: Result<String, String>, now: i64) -> (r: Result<PreparedPair, JwtError>)
    requires
        now <= i64::MAX - REFRESH_TOKEN_TTL_NANOS,
    ensures
        signed matches Err(m) ==> r == Err::<PreparedPair, JwtError>(JwtError::TokenSigning(m)),
        signed matches Ok(a) ==> (r matches Ok(p) ==> {
            &&& p.result.access_token == a
            &&& is_raw_token(p.result.refresh_token@)
            &&& p.token_hash@ == token_hash(p.result.refresh_token@)
            &&& p.expires_at == now + REFRESH_TOKEN_TTL_NANOS
            &&& p.result.expires_in == ACCESS_TOKEN_EXPIRES_IN
        }) && (r is Err ==> r matches Err(JwtError::RandomSource)),
{
    match signed {
        Err(m) => Err(signing_failed(m)),
        Ok(a) => prepare_token_pair(a, now),
    }
}

/// The error for a signer that failed with `message`.
pub fn signing_failed(message: String) -> (e: JwtError)
    ensures
        e == JwtError::TokenSigning(message),
{
    JwtError::TokenSigning(message)
}

// ── Refresh (with rotation) ───────────────────────────────────────────────────

/// Where a refresh stands between storage steps.
pub enum RefreshStage {
    AwaitingTransaction { hash: String },
    AwaitingRow { hash: String },
    AwaitingUser { hash: String, issuer: String },
    AwaitingDeletion { hash: String, user_id: u128, issuer: String },
    AwaitingIssue,
    AwaitingCommit { result: AuthResult },
    Done,
}

/// What a storage step reports back.
pub enum RefreshEvent {
    /// A transaction was opened (or could not be).
    Begun(Result<(), sqlx::Error>),
    /// The row stored under the hash; `None` if there is none or it could not be read.
    RowLoaded(Option<RefreshTokenRow>),
    /// The id of the token's user if the user still exists.
    UserLoaded(Option<u128>),
    /// The old row was deleted (or the deletion failed).
    Deleted(Result<(), sqlx::Error>),
    /// A new pair was issued and stored (or issuing failed).
    Issued(Result<AuthResult, JwtError>),
    /// The transaction was committed (or the commit failed).
    Committed(Result<(), sqlx::Error>),
}

/// The next storage step to run, or the answer.
pub enum RefreshAction {
    BeginTransaction,
    LoadRow { hash: String },
    LoadUser { user_id: u128 },
    DeleteRow { hash: String },
    IssuePair { user_id: u128, issuer: String },
    Commit,
    Finish(Result<AuthResult, JwtError>),
}

/// Whether `event` is what `stage` waits for.
pub open spec fn refresh_expects(stage: RefreshStage, event: RefreshEvent) -> bool {
    match stage {
        RefreshStage::AwaitingTransaction { .. } => event is Begun,
        RefreshStage::AwaitingRow { .. } => event is RowLoaded,
        RefreshStage::AwaitingUser { .. } => event is UserLoaded,
        RefreshStage::AwaitingDeletion { .. } => event is Deleted,
        RefreshStage::AwaitingIssue => event is Issued,
        RefreshStage::AwaitingCommit { .. } => event is Committed,
        RefreshStage::Done => false,
    }
}

impl RefreshStage {
    /// Whether `event` is what this stage waits for.
    pub fn expects(&self, event: &RefreshEvent) -> (b: bool)
        ensures
            b == refresh_expects(*self, *event),
    {
        match (self, event) {
            (RefreshStage::AwaitingTransaction { .. }, RefreshEvent::Begun(_)) => true,
            (RefreshStage::AwaitingRow { .. }, RefreshEvent::RowLoaded(_)) => true,
            (RefreshStage::AwaitingUser { .. }, RefreshEvent::UserLoaded(_)) => true,
            (RefreshStage::AwaitingDeletion { .. }, RefreshEvent::Deleted(_)) => true,
            (RefreshStage::AwaitingIssue, RefreshEvent::Issued(_)) => true,
            (RefreshStage::AwaitingCommit { .. }, RefreshEvent::Committed(_)) => true,
            _ => false,
        }
    }
}

/// Whether a stored row may still be exchanged at time `now`.
pub open spec fn row_usable(row: RefreshTokenRow, now: i64) -> bool {
    !row.revoked && !(row.expires_at < now)
}

/// The transition of a refresh: next stage and action for an event.
pub open spec fn refresh_next(stage: RefreshStage, event: RefreshEvent, now: i64) -> (
    RefreshStage,
    RefreshAction,
) {
    match (stage, event) {
        (RefreshStage::AwaitingTransaction { hash }, RefreshEvent::Begun(r)) => match r {
            Ok(_) => (RefreshStage::AwaitingRow { hash }, RefreshAction::LoadRow { hash }),
            Err(e) => (RefreshStage::Done, RefreshAction::Finish(Err(JwtError::Database(e)))),
        },
        (RefreshStage::AwaitingRow { hash }, RefreshEvent::RowLoaded(row)) => match row {
            None => (RefreshStage::Done, RefreshAction::Finish(Err(JwtError::RefreshTokenNotFound))),
            Some(row) => if row.revoked {
                (RefreshStage::Done, RefreshAction::Finish(Err(JwtError::RefreshTokenNotFound)))
            } else if row.expires_at < now {
                (RefreshStage::Done, RefreshAction::Finish(Err(JwtError::RefreshTokenExpired)))
            } else {
                (
                    RefreshStage::AwaitingUser { hash, issuer: row.issuer },
                    RefreshAction::LoadUser { user_id: row.user_id },
                )
            },
        },
        (RefreshStage::AwaitingUser { hash, issuer }, RefreshEvent::UserLoaded(user)) => match user {
            None => (RefreshStage::Done, RefreshAction::Finish(Err(JwtError::UserNotFound))),
            Some(user_id) => (
                RefreshStage::AwaitingDeletion { hash, user_id, issuer },
                RefreshAction::DeleteRow { hash },
            ),
        },
        (
            RefreshStage::AwaitingDeletion { hash, user_id, issuer },
            RefreshEvent::Deleted(r),
        ) => match r {
            Ok(_) => (RefreshStage::AwaitingIssue, RefreshAction::IssuePair { user_id, issuer }),
            Err(e) => (RefreshStage::Done, RefreshAction::Finish(Err(JwtError::Database(e)))),
        },
        (RefreshStage::AwaitingIssue, RefreshEvent::Issued(r)) => match r {
            Ok(result) => (RefreshStage::AwaitingCommit { result }, RefreshAction::Commit),
            Err(e) => (RefreshStage::Done, RefreshAction::Finish(Err(e))),
        },
        (RefreshStage::AwaitingCommit { result }, RefreshEvent::Committed(r)) => match r {
            Ok(_) => (RefreshStage::Done, RefreshAction::Finish(Ok(result))),
            Err(e) => (RefreshStage::Done, RefreshAction::Finish(Err(JwtError::Database(e)))),
        },
        _ => (RefreshStage::Done, RefreshAction::Finish(Err(JwtError::RefreshTokenNotFound))),
    }
}

/// Starts a refresh: a blank token is answered `MissingRefreshToken` at once;
/// otherwise a transaction is opened for the token's hash.
pub fn refresh_start(cmd: &RefreshCmd) -> (r: (RefreshStage, RefreshAction))
    ensures
        lookup_key(cmd.refresh_token@) is None ==> (r.0 is Done && r.1 matches RefreshAction::Finish(
            Err(JwtError::MissingRefreshToken),
        )),
        lookup_key(cmd.refresh_token@) matches Some(k) ==> (r.0 matches RefreshStage::AwaitingTransaction {
            hash,
        } && hash@ == k && r.1 is BeginTransaction),
{
    match refresh_token_key(cmd.refresh_token.as_str()) {
        Err(e) => (RefreshStage::Done, RefreshAction::Finish(Err(e))),
        Ok(hash) => (RefreshStage::AwaitingTransaction { hash }, RefreshAction::BeginTransaction),
    }
}

/// Advances a refresh by one storage step (`now` is the current time in
/// nanoseconds since the epoch).
pub fn refresh_step(stage: RefreshStage, event: RefreshEvent, now: i64) -> (r: (
    RefreshStage,
    RefreshAction,
))
    requires
        refresh_expects(stage, event),
    ensures
        r == refresh_next(stage, event, now),
        stage is AwaitingIssue ==> (event matches RefreshEvent::Issued(Ok(p)) ==> r == (
        RefreshStage::AwaitingCommit { result: p }, RefreshAction::Commit)),
        stage matches RefreshStage::AwaitingCommit { result } ==> (event matches RefreshEvent::Committed(
            Ok(_),
        ) ==> r == (RefreshStage::Done, RefreshAction::Finish(Ok(result)))),
{
    match (stage, event) {
        (RefreshStage::AwaitingTransaction { hash }, RefreshEvent::Begun(r)) => match r {
            Ok(_) => {
                let h2 = hash.clone();
                (RefreshStage::AwaitingRow { hash }, RefreshAction::LoadRow { hash: h2 })
            },
            Err(e) => (RefreshStage::Done, RefreshAction::Finish(Err(JwtError::Database(e)))),
        },
        (RefreshStage::AwaitingRow { hash }, RefreshEvent::RowLoaded(row)) => match row {
            None => (RefreshStage::Done, RefreshAction::Finish(Err(JwtError::RefreshTokenNotFound))),
            Some(row) => {
                if row.revoked {
                    (RefreshStage::Done, RefreshAction::Finish(Err(JwtError::RefreshTokenNotFound)))
                } else if row.expires_at < now {
                    (RefreshStage::Done, RefreshAction::Finish(Err(JwtError::RefreshTokenExpired)))
                } else {
                    (
                        RefreshStage::AwaitingUser { hash, issuer: row.issuer },
                        RefreshAction::LoadUser { user_id: row.user_id },
                    )
                }
            },
        },
        (RefreshStage::AwaitingUser { hash, issuer }, RefreshEvent::UserLoaded(user)) => match user {
            None => (RefreshStage::Done, RefreshAction::Finish(Err(JwtError::UserNotFound))),
            Some(user_id) => {
                let h2 = hash.clone();
                (RefreshStage::AwaitingDeletion { hash, user_id, issuer }, RefreshAction::DeleteRow {
                    hash: h2,
                })
            },
        },
        (RefreshStage::AwaitingDeletion { hash, user_id, issuer }, RefreshEvent::Deleted(r)) => {
            match r {
                Ok(_) => (RefreshStage::AwaitingIssue, RefreshAction::IssuePair { user_id, issuer }),
                Err(e) => (RefreshStage::Done, RefreshAction::Finish(Err(JwtError::Database(e)))),
            }
        },
        (RefreshStage::AwaitingIssue, RefreshEvent::Issued(r)) => match r {
            Ok(result) => (RefreshStage::AwaitingCommit { result }, RefreshAction::Commit),
            Err(e) => (RefreshStage::Done, RefreshAction::Finish(Err(e))),
        },
        (RefreshStage::AwaitingCommit { result }, RefreshEvent::Committed(r)) => match r {
            Ok(_) => (RefreshStage::Done, RefreshAction::Finish(Ok(result))),
            Err(e) => (RefreshStage::Done, RefreshAction::Finish(Err(JwtError::Database(e)))),
        },
        _ => (RefreshStage::Done, RefreshAction::Finish(Err(JwtError::RefreshTokenNotFound))),
    }
}

// ── Laws of refresh ───────────────────────────────────────────────────────────

/// A committed refresh answers with exactly the pair that was issued and
/// stored: the pair reported by the issuing step is the one the commit
/// hands to the client, so its refresh token is the one whose hash was
/// stored.
pub proof fn law_commit_answers_the_issued_pair(pair: AuthResult, now: i64, later: i64)
    ensures
        refresh_next(RefreshStage::AwaitingIssue, RefreshEvent::Issued(Ok(pair)), now) == (
        RefreshStage::AwaitingCommit { result: pair }, RefreshAction::Commit),
        refresh_next(RefreshStage::AwaitingCommit { result: pair }, RefreshEvent::Committed(Ok(())), later)
            == (RefreshStage::Done, RefreshAction::Finish(Ok(pair))),
        ({
            let answered = refresh_next(
                refresh_next(RefreshStage::AwaitingIssue, RefreshEvent::Issued(Ok(pair)), now).0,
                RefreshEvent::Committed(Ok(())),
                later,
            ).1;
            answered matches RefreshAction::Finish(Ok(r)) && r.refresh_token == pair.refresh_token
                && r.access_token == pair.access_token && r.expires_in == pair.expires_in
        }),
{
}

/// Rotation: a new pair is only issued in answer to the deletion of the old
/// token's row, for the user and issuer recorded when that row was checked.
pub proof fn law_issue_only_after_deletion(stage: RefreshStage, event: RefreshEvent, now: i64)
    requires
        refresh_expects(stage, event),
        refresh_next(stage, event, now).1 is IssuePair,
    ensures
        stage matches RefreshStage::AwaitingDeletion { user_id, issuer, .. } && refresh_next(
            stage,
            event,
            now,
        ).1 == (RefreshAction::IssuePair { user_id, issuer }),
        (event matches RefreshEvent::Deleted(Ok(_))),
{
}

/// A row is only deleted after its token was found usable and its user still
/// exists; the row deleted is the one that was looked up.
pub proof fn law_delete_only_checked_row(stage: RefreshStage, event: RefreshEvent, now: i64)
    requires
        refresh_expects(stage, event),
        refresh_next(stage, event, now).1 is DeleteRow,
    ensures
        stage matches RefreshStage::AwaitingUser { hash, .. } && refresh_next(stage, event, now).1
            == (RefreshAction::DeleteRow { hash }),
        (event matches RefreshEvent::UserLoaded(Some(_))),
{
}

/// The user is only looked up for a row that is neither revoked nor expired;
/// a revoked row is answered `RefreshTokenNotFound` and an expired one
/// `RefreshTokenExpired`.
pub proof fn law_only_usable_rows_proceed(hash: String, row: RefreshTokenRow, now: i64)
    ensures
        row.revoked ==> refresh_next(
            RefreshStage::AwaitingRow { hash },
            RefreshEvent::RowLoaded(Some(row)),
            now,
        ).1 == RefreshAction::Finish(Err(JwtError::RefreshTokenNotFound)),
        !row.revoked && row.expires_at < now ==> refresh_next(
            RefreshStage::AwaitingRow { hash },
            RefreshEvent::RowLoaded(Some(row)),
            now,
        ).1 == RefreshAction::Finish(Err(JwtError::RefreshTokenExpired)),
        row_usable(row, now) ==> refresh_next(
            RefreshStage::AwaitingRow { hash },
            RefreshEvent::RowLoaded(Some(row)),
            now,
        ).1 == (RefreshAction::LoadUser { user_id: row.user_id }),
{
}

/// A refresh only answers with a pair once the transaction holding both the
/// deletion and the new pair has been committed.
pub proof fn law_answer_only_after_commit(stage: RefreshStage, event: RefreshEvent, now: i64)
    requires
        refresh_expects(stage, event),
        refresh_next(stage, event, now).1 matches RefreshAction::Finish(Ok(_)),
    ensures
        stage is AwaitingCommit,
        (event matches RefreshEvent::Committed(Ok(_))),
{
}

// ── The stored rows ───────────────────────────────────────────────────────────

/// The `refresh_tokens` table: rows by token hash.
pub type RefreshTable = Map<Seq<char>, RefreshTokenRow>;

/// The row stored under `hash`, as a lookup reports it.
pub open spec fn stored_row(table: RefreshTable, hash: Seq<char>) -> Option<RefreshTokenRow> {
    if table.contains_key(hash) {
        Some(table[hash])
    } else {
        None
    }
}

/// The table after a successful rotation: the used row is deleted (not just
/// flagged) and the new pair's row is stored under its own hash.
pub open spec fn rotated(
    table: RefreshTable,
    old_hash: Seq<char>,
    new_hash: Seq<char>,
    new_row: RefreshTokenRow,
) -> RefreshTable {
    table.remove(old_hash).insert(new_hash, new_row)
}

/// The table after a logout: the row under `hash`, if any, is flagged revoked.
pub open spec fn revoked(table: RefreshTable, hash: Seq<char>) -> RefreshTable {
    if table.contains_key(hash) {
        table.insert(hash, RefreshTokenRow { revoked: true, ..table[hash] })
    } else {
        table
    }
}

/// A rotated token cannot be replayed: once a refresh has deleted its row
/// and stored the new pair under another hash, presenting the old token
/// again is answered `RefreshTokenNotFound`, while the new token's row is
/// found usable until it expires.
pub proof fn law_rotated_token_cannot_be_replayed(
    table: RefreshTable,
    old_hash: String,
    new_hash: Seq<char>,
    new_row: RefreshTokenRow,
    now: i64,
)
    requires
        new_hash != old_hash@,
    ensures
        !rotated(table, old_hash@, new_hash, new_row).contains_key(old_hash@),
        refresh_next(
            RefreshStage::AwaitingRow { hash: old_hash },
            RefreshEvent::RowLoaded(stored_row(rotated(table, old_hash@, new_hash, new_row), old_hash@)),
            now,
        ).1 == RefreshAction::Finish(Err(JwtError::RefreshTokenNotFound)),
        !new_row.revoked && !(new_row.expires_at < now) ==> stored_row(
            rotated(table, old_hash@, new_hash, new_row),
            new_hash,
        ) == Some(new_row) && row_usable(new_row, now),
{
}

/// A logged-out token cannot be refreshed: after its row was flagged
/// revoked, presenting it is answered `RefreshTokenNotFound` at once, with no
/// further storage step.
pub proof fn law_revoked_token_cannot_be_refreshed(table: RefreshTable, hash: String, now: i64)
    ensures
        refresh_next(
            RefreshStage::AwaitingRow { hash },
            RefreshEvent::RowLoaded(stored_row(revoked(table, hash@), hash@)),
            now,
        ) == (RefreshStage::Done, RefreshAction::Finish(Err(JwtError::RefreshTokenNotFound))),
{
}

// ── Logout ────────────────────────────────────────────────────────────────────

/// What revoking the row under a hash reported: the number of rows changed,
/// or a database error.
pub fn logout_outcome(revoked: Result<u64, sqlx::Error>) -> (r: Result<(), JwtError>)
    ensures
        revoked is Ok ==> r is Ok,
        revoked matches Err(e) ==> r == Err::<(), JwtError>(JwtError::Database(e)),
{
    match revoked {
        Ok(_) => Ok(()),
        Err(e) => Err(JwtError::Database(e)),
    }
}

/// What logout does to the stored rows: the row under the presented
/// token's hash, if there is one, is flagged revoked and keeps everything
/// else; every other row is untouched; a second logout with the same token
/// changes nothing more, and both are answered `Ok` when the database
/// succeeds (a token with no row included).
pub proof fn law_logout_revokes_only_its_row(table: RefreshTable, hash: Seq<char>, n: u64, m: u64)
    ensures
        table.contains_key(hash) ==> revoked(table, hash)[hash].revoked && revoked(table, hash)[hash]
            == (RefreshTokenRow { revoked: true, ..table[hash] }),
        revoked(table, hash).dom() == table.dom(),
        forall|k: Seq<char>| k != hash && #[trigger] table.contains_key(k) ==> revoked(table, hash)[k]
            == table[k],
        revoked(revoked(table, hash), hash) == revoked(table, hash),
        logout_answer(Ok(n)) is Ok && logout_answer(Ok(m)) == logout_answer(Ok(n)),
{
    if table.contains_key(hash) {
        assert(revoked(table, hash).dom() =~= table.dom());
        assert(revoked(revoked(table, hash), hash) =~= revoked(table, hash));
    }
}

/// Logout is idempotent: revoking a token that is no longer stored (no row
/// changed) is answered exactly like revoking one that is.
pub proof fn law_logout_idempotent(n: u64)
    ensures
        logout_answer(Ok(0)) == logout_answer(Ok(n)),
        logout_answer(Ok(n)) is Ok,
{
}

/// The answer to a logout whose revocation reported `revoked`.
pub open spec fn logout_answer(revoked: Result<u64, sqlx::Error>) -> Result<(), JwtError> {
    match revoked {
        Ok(_) => Ok(()),
        Err(e) => Err(JwtError::Database(e)),
    }
}

} // verus!
