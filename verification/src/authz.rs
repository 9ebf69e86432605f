//! Authorization: a role is a 128-bit permission bit map.

use vstd::prelude::*;
use crate::ident::{parse_uuid, uuid_parse};

verus! {

/// Permission bit an administrator needs to grant permissions.
pub const GRANT_PERMISSION_BIT: u8 = 106;

/// Permission bit an administrator needs to deny (revoke) permissions.
pub const DENY_PERMISSION_BIT: u8 = 105;

/// Highest permission number a role can hold.
pub const MAX_PERMISSION: u8 = 127;

/// The single-bit mask of permission `p` (for `p <= 127`).
pub open spec fn mask(p: u8) -> u128 {
    1u128 << p
}

/// Whether `role` holds permission `p`.
pub open spec fn holds(role: u128, p: u8) -> bool {
    role & mask(p) == mask(p)
}

/// A request to grant or deny `permission` to the user whose id is `target`.
#[derive(Clone, Copy)]
pub struct PermissionReq {
    pub permission: u8,
    pub target: u128,
}

/// The role after granting `p`: `None` when `p` is out of range.
pub open spec fn granted(role: u128, p: u8) -> Option<u128> {
    if p > 127 {
        None
    } else {
        Some(role | mask(p))
    }
}

/// The role after denying `p`: `None` when `p` is out of range.
pub open spec fn denied(role: u128, p: u8) -> Option<u128> {
    if p > 127 {
        None
    } else {
        Some(role & !mask(p))
    }
}

/// Whether `role` holds permission `bit` (all bits of its mask are set).
pub fn has_permission(role: u128, bit: u8) -> (b: bool)
    requires
        bit <= 127,
    ensures
        b == holds(role, bit),
{
    let required: u128 = 1u128 << bit;
    role & required == required
}

/// Adds `permission` to `current_role`; `None` for a permission above 127.
pub fn grant_role(current_role: u128, permission: u8) -> (r: Option<u128>)
    ensures
        r == granted(current_role, permission),
{
    if permission > 127 {
        return None;
    }
    let perm_value: u128 = 1u128 << permission;
    Some(current_role | perm_value)
}

/// Removes `permission` from `current_role`; `None` for a permission above 127.
pub fn deny_role(current_role: u128, permission: u8) -> (r: Option<u128>)
    ensures
        r == denied(current_role, permission),
{
    if permission > 127 {
        return None;
    }
    let perm_value: u128 = 1u128 << permission;
    Some(current_role & !perm_value)
}

/// Whether a caller with `caller_role` may grant permissions.
pub fn may_grant(caller_role: u128) -> (b: bool)
    ensures
        b == holds(caller_role, GRANT_PERMISSION_BIT),
{
    has_permission(caller_role, GRANT_PERMISSION_BIT)
}

/// Whether a caller with `caller_role` may deny permissions.
pub fn may_deny(caller_role: u128) -> (b: bool)
    ensures
        b == holds(caller_role, DENY_PERMISSION_BIT),
{
    has_permission(caller_role, DENY_PERMISSION_BIT)
}

/// The first decision on an administrator's grant or deny request.
#[derive(PartialEq, Eq, Structural, Clone, Copy)]
pub enum AdminPlan {
    /// The caller lacks the permission to do this (403).
    Forbidden,
    /// The permission number is above 127 (answered as an invalid operation).
    InvalidPermission,
    /// Load the target's current role, then apply the change.
    LoadRole { target: u128 },
}

/// The plan for a grant request by a caller holding `caller_role`.
pub fn plan_grant(caller_role: u128, req: PermissionReq) -> (p: AdminPlan)
    ensures
        !holds(caller_role, GRANT_PERMISSION_BIT) ==> p == AdminPlan::Forbidden,
        holds(caller_role, GRANT_PERMISSION_BIT) && req.permission > 127 ==> p
            == AdminPlan::InvalidPermission,
        holds(caller_role, GRANT_PERMISSION_BIT) && req.permission <= 127 ==> p == (
        AdminPlan::LoadRole { target: req.target }),
{
    if !may_grant(caller_role) {
        return AdminPlan::Forbidden;
    }
    if req.permission > MAX_PERMISSION {
        return AdminPlan::InvalidPermission;
    }
    AdminPlan::LoadRole { target: req.target }
}

/// The plan for a deny request by a caller holding `caller_role`.
pub fn plan_deny(caller_role: u128, req: PermissionReq) -> (p: AdminPlan)
    ensures
        !holds(caller_role, DENY_PERMISSION_BIT) ==> p == AdminPlan::Forbidden,
        holds(caller_role, DENY_PERMISSION_BIT) && req.permission > 127 ==> p
            == AdminPlan::InvalidPermission,
        holds(caller_role, DENY_PERMISSION_BIT) && req.permission <= 127 ==> p == (
        AdminPlan::LoadRole { target: req.target }),
{
    if !may_deny(caller_role) {
        return AdminPlan::Forbidden;
    }
    if req.permission > MAX_PERMISSION {
        return AdminPlan::InvalidPermission;
    }
    AdminPlan::LoadRole { target: req.target }
}

/// The HTTP status answering a grant: 403 forbidden, 400 invalid operation,
/// 500 when the role could not be loaded or stored, 200 with the new role.
pub fn grant_status(plan: AdminPlan, outcome: Option<Option<u128>>) -> (s: u16)
    ensures
        plan == AdminPlan::Forbidden ==> s == 403,
        plan == AdminPlan::InvalidPermission ==> s == 400,
        plan is LoadRole ==> s == match outcome {
            None => 500u16,
            Some(None) => 400u16,
            Some(Some(_)) => 200u16,
        },
{
    match plan {
        AdminPlan::Forbidden => 403,
        AdminPlan::InvalidPermission => 400,
        AdminPlan::LoadRole { .. } => match outcome {
            None => 500,
            Some(None) => 400,
            Some(Some(_)) => 200,
        },
    }
}

/// The HTTP status answering a deny: as for a grant, except that an invalid
/// operation is answered 406.
pub fn deny_status(plan: AdminPlan, outcome: Option<Option<u128>>) -> (s: u16)
    ensures
        plan == AdminPlan::Forbidden ==> s == 403,
        plan == AdminPlan::InvalidPermission ==> s == 406,
        plan is LoadRole ==> s == match outcome {
            None => 500u16,
            Some(None) => 406u16,
            Some(Some(_)) => 200u16,
        },
{
    match plan {
        AdminPlan::Forbidden => 403,
        AdminPlan::InvalidPermission => 406,
        AdminPlan::LoadRole { .. } => match outcome {
            None => 500,
            Some(None) => 406,
            Some(Some(_)) => 200,
        },
    }
}

// ── Laws ──────────────────────────────────────────────────────────────────────

/// Granting a permission makes the role hold it and leaves every other
/// permission as it was.
pub proof fn law_grant_sets_only_its_bit(role: u128, p: u8, q: u8)
    requires
        p <= 127,
        q <= 127,
    ensures
        holds(granted(role, p)->Some_0, p),
        q != p ==> (holds(granted(role, p)->Some_0, q) == holds(role, q)),
{
    assert((role | (1u128 << p)) & (1u128 << p) == (1u128 << p)) by (bit_vector)
        requires p <= 127;
    assert(q != p ==> (((role | (1u128 << p)) & (1u128 << q) == (1u128 << q)) == (role & (1u128
        << q) == (1u128 << q)))) by (bit_vector)
        requires p <= 127, q <= 127;
}

/// Denying a permission makes the role lack it and leaves every other
/// permission as it was.
pub proof fn law_deny_clears_only_its_bit(role: u128, p: u8, q: u8)
    requires
        p <= 127,
        q <= 127,
    ensures
        !holds(denied(role, p)->Some_0, p),
        q != p ==> (holds(denied(role, p)->Some_0, q) == holds(role, q)),
{
    assert((role & !(1u128 << p)) & (1u128 << p) != (1u128 << p)) by (bit_vector)
        requires p <= 127;
    assert(q != p ==> (((role & !(1u128 << p)) & (1u128 << q) == (1u128 << q)) == (role & (1u128
        << q) == (1u128 << q)))) by (bit_vector)
        requires p <= 127, q <= 127;
}

/// Granting or denying the same permission twice is the same as doing it once.
pub proof fn law_grant_deny_idempotent(role: u128, p: u8)
    requires
        p <= 127,
    ensures
        granted(granted(role, p)->Some_0, p) == granted(role, p),
        denied(denied(role, p)->Some_0, p) == denied(role, p),
{
    assert((role | (1u128 << p)) | (1u128 << p) == role | (1u128 << p)) by (bit_vector);
    assert((role & !(1u128 << p)) & !(1u128 << p) == role & !(1u128 << p)) by (bit_vector);
}

/// Denying a permission undoes granting it to a role that lacked it, and
/// granting it undoes denying it from a role that held it.
pub proof fn law_deny_undoes_grant(role: u128, p: u8)
    requires
        p <= 127,
    ensures
        !holds(role, p) ==> denied(granted(role, p)->Some_0, p) == Some(role),
        holds(role, p) ==> granted(denied(role, p)->Some_0, p) == Some(role),
{
    assert(role & (1u128 << p) != (1u128 << p) ==> (role | (1u128 << p)) & !(1u128 << p) == role)
        by (bit_vector)
        requires p <= 127;
    assert(role & (1u128 << p) == (1u128 << p) ==> (role & !(1u128 << p)) | (1u128 << p) == role)
        by (bit_vector)
        requires p <= 127;
}

/// Permissions above 127 are never granted or denied.
pub proof fn law_out_of_range_permission_is_invalid(role: u128, p: u8)
    requires
        p > 127,
    ensures
        granted(role, p) is None,
        denied(role, p) is None,
{
}

// ── Claiming the administrator role ───────────────────────────────────────────

/// What a claim for the administrator role is answered with.
#[derive(PartialEq, Eq, Structural, Clone, Copy)]
pub enum ClaimOutcome {
    /// The administrator id is not configured or is not a UUID (404).
    AdminUnknown,
    /// The caller is not the configured administrator (406).
    NotAdmin,
    /// The caller's role became the full bit map (200).
    Granted,
}

impl ClaimOutcome {
    /// The HTTP status that answers this outcome.
    pub fn status(&self) -> (s: u16)
        ensures
            s == match self {
                ClaimOutcome::AdminUnknown => 404u16,
                ClaimOutcome::NotAdmin => 406u16,
                ClaimOutcome::Granted => 200u16,
            },
    {
        match self {
            ClaimOutcome::AdminUnknown => 404,
            ClaimOutcome::NotAdmin => 406,
            ClaimOutcome::Granted => 200,
        }
    }
}

/// The answer to an administrator claim by the user `sub` when the configured
/// administrator id is `admin` (absent when not configured).
pub open spec fn claim_outcome(admin: Option<Seq<char>>, sub: u128) -> ClaimOutcome {
    match admin {
        None => ClaimOutcome::AdminUnknown,
        Some(text) => match uuid_parse(text) {
            None => ClaimOutcome::AdminUnknown,
            Some(id) => if id == sub {
                ClaimOutcome::Granted
            } else {
                ClaimOutcome::NotAdmin
            },
        },
    }
}

/// Lets the configured administrator claim every permission: on success the
/// session role becomes `u128::MAX`; otherwise it is left unchanged.
pub fn claim_admin(admin: Option<&str>, sub: u128, role: &mut u128) -> (outcome: ClaimOutcome)
    ensures
        outcome == claim_outcome(
            match admin {
                Some(a) => Some(a@),
                None => None,
            },
            sub,
        ),
        outcome == ClaimOutcome::Granted ==> *final(role) == u128::MAX,
        outcome != ClaimOutcome::Granted ==> *final(role) == *old(role),
        admin is None ==> outcome == ClaimOutcome::AdminUnknown,
        admin matches Some(a) ==> (uuid_parse(a@) is None ==> outcome == ClaimOutcome::AdminUnknown)
            && (uuid_parse(a@) == Some(sub) ==> outcome == ClaimOutcome::Granted && *final(role)
            == u128::MAX) && (uuid_parse(a@) matches Some(id) && id != sub ==> outcome
            == ClaimOutcome::NotAdmin && *final(role) == *old(role)),
{
    let text = match admin {
        Some(t) => t,
        None => return ClaimOutcome::AdminUnknown,
    };
    claim_parsed(parse_uuid(text), sub, role)
}

/// The claim decision once the configured administrator id was read as a
/// UUID (`None` when it is not one).
pub fn claim_parsed(admin: Option<u128>, sub: u128, role: &mut u128) -> (outcome: ClaimOutcome)
    ensures
        outcome == match admin {
            None => ClaimOutcome::AdminUnknown,
            Some(id) => if id == sub {
                ClaimOutcome::Granted
            } else {
                ClaimOutcome::NotAdmin
            },
        },
        outcome == ClaimOutcome::Granted ==> *final(role) == u128::MAX,
        outcome != ClaimOutcome::Granted ==> *final(role) == *old(role),
{
    let id = match admin {
        Some(id) => id,
        None => return ClaimOutcome::AdminUnknown,
    };
    if id != sub {
        return ClaimOutcome::NotAdmin;
    }
    *role = u128::MAX;
    ClaimOutcome::Granted
}

/// The claim depends only on the UUID the configured text reads as, not on
/// how it is written: text that reads as the caller's id is granted, text
/// that reads as another id is refused, and text that is no UUID (or no
/// text) leaves the administrator unknown.
pub proof fn law_claim_by_parsed_id(text: Seq<char>, sub: u128)
    ensures
        uuid_parse(text) == Some(sub) ==> claim_outcome(Some(text), sub) == ClaimOutcome::Granted,
        uuid_parse(text) matches Some(id) && id != sub ==> claim_outcome(Some(text), sub)
            == ClaimOutcome::NotAdmin,
        uuid_parse(text) is None ==> claim_outcome(Some(text), sub) == ClaimOutcome::AdminUnknown,
        claim_outcome(None, sub) == ClaimOutcome::AdminUnknown,
{
}

} // verus!
