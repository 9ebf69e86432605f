use auth_service::authz::claim_parsed;
use auth_service::authz::{
    AdminPlan, ClaimOutcome, PermissionReq, claim_admin, deny_role, deny_status, grant_role,
    grant_status, has_permission, may_deny, may_grant, plan_deny, plan_grant,
};

#[test]
fn grant_sets_the_permission_bit() {
    assert_eq!(grant_role(0, 0), Some(1));
    assert_eq!(grant_role(0b100, 1), Some(0b110));
    assert_eq!(grant_role(0, 127), Some(1u128 << 127));
    assert_eq!(grant_role(5, 200), None);
    assert_eq!(grant_role(5, 128), None);
}

#[test]
fn deny_clears_the_permission_bit() {
    assert_eq!(deny_role(0b111, 1), Some(0b101));
    assert_eq!(deny_role(0, 3), Some(0));
    assert_eq!(deny_role(u128::MAX, 127), Some(u128::MAX >> 1));
    assert_eq!(deny_role(1, 128), None);
}

#[test]
fn deny_undoes_grant() {
    let role = 0b1010u128;
    let g = grant_role(role, 0).unwrap();
    assert_eq!(deny_role(g, 0), Some(role));
    assert_eq!(grant_role(g, 0), Some(g));
}

#[test]
fn admin_checks_use_bits_106_and_105() {
    assert!(may_grant(1u128 << 106));
    assert!(!may_grant(1u128 << 105));
    assert!(may_deny(1u128 << 105));
    assert!(!may_deny(0));
    assert!(has_permission(0b1000, 3));
    assert!(!has_permission(0b1000, 2));
}

#[test]
fn grant_and_deny_plans() {
    let req = PermissionReq { permission: 4, target: 77 };
    assert!(plan_grant(0, req) == AdminPlan::Forbidden);
    assert!(plan_grant(1u128 << 106, req) == AdminPlan::LoadRole { target: 77 });
    let bad = PermissionReq { permission: 130, target: 77 };
    assert!(plan_grant(1u128 << 106, bad) == AdminPlan::InvalidPermission);
    assert!(plan_deny(1u128 << 106, req) == AdminPlan::Forbidden);
    assert!(plan_deny(1u128 << 105, req) == AdminPlan::LoadRole { target: 77 });
    assert_eq!(grant_status(AdminPlan::Forbidden, None), 403);
    assert_eq!(grant_status(AdminPlan::InvalidPermission, None), 400);
    assert_eq!(deny_status(AdminPlan::InvalidPermission, None), 406);
    assert_eq!(grant_status(AdminPlan::LoadRole { target: 1 }, Some(Some(3))), 200);
    assert_eq!(deny_status(AdminPlan::LoadRole { target: 1 }, None), 500);
}

#[test]
fn claim_admin_outcomes() {
    let admin = "a1a2a3a4-b1b2-c1c2-d1d2-d3d4d5d6d7d8";
    let id = 0xa1a2a3a4b1b2c1c2d1d2d3d4d5d6d7d8u128;
    let mut role = 5u128;
    assert!(claim_admin(None, id, &mut role) == ClaimOutcome::AdminUnknown);
    assert_eq!(role, 5);
    assert!(claim_admin(Some("not-a-uuid"), id, &mut role) == ClaimOutcome::AdminUnknown);
    assert!(claim_admin(Some(admin), id + 1, &mut role) == ClaimOutcome::NotAdmin);
    assert_eq!(role, 5);
    let outcome = claim_admin(Some(admin), id, &mut role);
    assert!(outcome == ClaimOutcome::Granted);
    assert_eq!(role, u128::MAX);
    assert_eq!(outcome.status(), 200);
    assert_eq!(ClaimOutcome::NotAdmin.status(), 406);
    assert_eq!(ClaimOutcome::AdminUnknown.status(), 404);
}

#[test]
fn claim_once_the_admin_id_is_read() {
    let mut role = 3u128;
    assert!(claim_parsed(None, 1, &mut role) == ClaimOutcome::AdminUnknown);
    assert!(claim_parsed(Some(2), 1, &mut role) == ClaimOutcome::NotAdmin);
    assert_eq!(role, 3);
    assert!(claim_parsed(Some(1), 1, &mut role) == ClaimOutcome::Granted);
    assert_eq!(role, u128::MAX);
}
