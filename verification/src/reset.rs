//! Password resets: issuing single-use reset tokens and confirming them.

use vstd::prelude::*;
use vstd::string::*;
use crate::account::{
    ConfirmPasswordResetCmd, RequestPasswordResetCmd, bcrypt_check, cost10_head, check_password_strength,
    hash_password, strong_enough,
};
use crate::errors::{AuthError, ErrorReply, answers, auth_error_to_response};
use crate::token::{generate_raw_token, hash_token, is_raw_token, token_hash};

verus! {

/// Lifetime of a password-reset token: 30 minutes, in nanoseconds.
pub const RESET_TOKEN_TTL_NANOS: i64 = 1_800_000_000_000;

/// Emitted when a password-reset token is generated. Carries the raw
/// (unhashed) token exactly once, for delivery to the account's address.
pub struct PasswordResetRequested {
    pub email: String,
    pub token: String,
}

/// A reset to store for `user_id`: the hash of the token the event carries.
pub struct PendingReset {
    pub user_id: u128,
    pub token_hash: String,
    pub expires_at: i64,
    pub event: PasswordResetRequested,
}

/// What a reset request decides once the account lookup by email answered.
pub enum ResetRequestStep {
    /// Store this reset, then hand out its event.
    Store(PendingReset),
    /// Nothing to do: no account has that address.
    Silent,
}

/// Decides a reset request once the account with the requested address was
/// looked up: an unknown address is answered silently, a known one gets a
/// fresh token, stored as its hash and valid for 30 minutes.
pub fn reset_request_after_lookup(
    cmd: RequestPasswordResetCmd,
    found: Result<Option<u128>, sqlx::Error>,
    now: i64,
) -> (r: Result<ResetRequestStep, AuthError>)
    requires
        now <= i64::MAX - RESET_TOKEN_TTL_NANOS,
    ensures
        found matches Err(e) ==> r == Err::<ResetRequestStep, AuthError>(AuthError::Database(e)),
        found matches Ok(None) ==> r matches Ok(ResetRequestStep::Silent),
        found matches Ok(Some(id)) ==> (r matches Ok(ResetRequestStep::Store(p)) && p.user_id == id
            && p.event.email == cmd.email && is_raw_token(p.event.token@) && p.token_hash@
            == token_hash(p.event.token@) && p.expires_at == now + RESET_TOKEN_TTL_NANOS) || r
            matches Err(AuthError::RandomSource),
{
    let user_id = match found {
        Err(e) => return Err(AuthError::Database(e)),
        Ok(None) => return Ok(ResetRequestStep::Silent),
        Ok(Some(id)) => id,
    };
    let raw = match generate_raw_token() {
        Some(t) => t,
        None => return Err(AuthError::RandomSource),
    };
    Ok(ResetRequestStep::Store(pending_reset(user_id, cmd.email, raw, now)))
}

/// The reset to store for `user_id` around a drawn raw token: the event
/// carries the raw token to `email`, only its hash is stored, and it expires
/// 30 minutes after `now`.
pub fn pending_reset(user_id: u128, email: String, raw: String, now: i64) -> (p: PendingReset)
    requires
        now <= i64::MAX - RESET_TOKEN_TTL_NANOS,
    ensures
        p.user_id == user_id,
        p.event.email == email,
        p.event.token == raw,
        p.token_hash@ == token_hash(raw@),
        p.expires_at == now + RESET_TOKEN_TTL_NANOS,
{
    let token_hash = hash_token(raw.as_str());
    PendingReset {
        user_id,
        token_hash,
        expires_at: now + RESET_TOKEN_TTL_NANOS,
        event: PasswordResetRequested { email, token: raw },
    }
}

/// The event to hand to the event bus after a reset request: the one the
/// request produced, if it produced one, and nothing otherwise (no account,
/// or a failure).
pub fn reset_event(outcome: Result<Option<PasswordResetRequested>, AuthError>) -> (r: Option<
    PasswordResetRequested,
>)
    ensures
        outcome matches Ok(Some(e)) ==> r == Some(e),
        !(outcome matches Ok(Some(_))) ==> r is None,
{
    match outcome {
        Ok(Some(e)) => Some(e),
        _ => None,
    }
}

/// Finishes a reset request once the reset was stored: the event is handed
/// out only if storing succeeded.
pub fn reset_request_after_store(pending: PendingReset, stored: Result<(), sqlx::Error>) -> (r: Result<
    Option<PasswordResetRequested>,
    AuthError,
>)
    ensures
        stored is Ok ==> r == Ok::<Option<PasswordResetRequested>, AuthError>(Some(pending.event)),
        stored matches Err(e) ==> r == Err::<Option<PasswordResetRequested>, AuthError>(
            AuthError::Database(e),
        ),
{
    match stored {
        Ok(_) => Ok(Some(pending.event)),
        Err(e) => Err(AuthError::Database(e)),
    }
}

/// The answer to every reset request, whatever happened: status 200 and the
/// same message, so the answer never tells whether an address is registered.
pub fn reset_request_reply<T>(outcome: &Result<Option<T>, AuthError>) -> (r: (u16, String))
    ensures
        r.0 == 200,
        r.1@ == "If the account exists, a reset link has been sent"@,
{
    (200, String::from_str("If the account exists, a reset link has been sent"))
}

/// Starts a reset confirmation: a weak new password is rejected; otherwise
/// the reset is looked up by the hash of the presented token.
pub fn confirm_reset_start(cmd: &ConfirmPasswordResetCmd) -> (r: Result<String, AuthError>)
    ensures
        !strong_enough(cmd.new_password@) ==> r matches Err(AuthError::PasswordTooShort),
        strong_enough(cmd.new_password@) ==> (r matches Ok(h) && h@ == token_hash(cmd.token@)),
{
    check_password_strength(cmd.new_password.as_str())?;
    Ok(hash_token(cmd.token.as_str()))
}

/// Continues a reset confirmation once the reset row was claimed (marked used
/// if it was unused and unexpired): no row means `InvalidToken`; otherwise the
/// new password is hashed for the claimed user.
pub fn confirm_reset_after_claim(
    cmd: &ConfirmPasswordResetCmd,
    claimed: Result<Option<u128>, sqlx::Error>,
) -> (r: Result<(u128, String), AuthError>)
    ensures
        claimed matches Err(e) ==> r == Err::<(u128, String), AuthError>(AuthError::Database(e)),
        claimed matches Ok(None) ==> r matches Err(AuthError::InvalidToken),
        claimed matches Ok(Some(id)) ==> ((r matches Ok(p) && p.0 == id && bcrypt_check(
            cmd.new_password@,
            p.1@,
        ) == Some(true) && p.1@.subrange(0, 7) == cost10_head()) || r matches Err(
            AuthError::Bcrypt(_),
        )),
{
    let user_id = match claimed {
        Err(e) => return Err(AuthError::Database(e)),
        Ok(None) => return Err(AuthError::InvalidToken),
        Ok(Some(id)) => id,
    };
    let new_hash = hash_password(cmd.new_password.as_str())?;
    Ok((user_id, new_hash))
}

/// What follows a reset confirmation.
pub enum ResetConfirmed {
    /// Revoke every session of the account (a failure there is only logged),
    /// then answer 200.
    RevokeAllThenOk { user_id: u128 },
    /// Answer with this error.
    Fail(ErrorReply),
}

/// What a reset confirmation leads to: a confirmed reset revokes every
/// session of its account, including one issued under the old password;
/// a failed one is answered as its error.
pub fn reset_confirm_reply(confirmed: Result<u128, AuthError>) -> (r: ResetConfirmed)
    ensures
        confirmed matches Ok(id) ==> r == (ResetConfirmed::RevokeAllThenOk { user_id: id }),
        confirmed matches Err(e) ==> (r matches ResetConfirmed::Fail(a) && answers(a, e)),
{
    match confirmed {
        Ok(user_id) => ResetConfirmed::RevokeAllThenOk { user_id },
        Err(e) => ResetConfirmed::Fail(auth_error_to_response(&e)),
    }
}

} // verus!
