use resolve::admin::{
    auto_delete_entry, build_plan, parse_audit_query, parse_successors, succession_entry,
    validate_successors, AuditAction, AuditLogEntryResponse, AuditLogQuery, GroupMembership,
};
use resolve::config::{Config, ConfigError};
use resolve::errors::{api_error_from_group_repo, api_error_from_link_repo, ApiError, GroupRepoError, LinkRepoError};
use resolve::group::{
    check_role_update, guard_sole_admin_removal, member_response, removal_kind, require_changed,
    validate_name, GroupMember, RemovalKind, Role,
};
use resolve::ids::{parse_id, parse_oid, Oid};
use resolve::rbac::RbacService;
use resolve::user::{GlobalRole, UserResponse};
use resolve::utils::{escape_regex, levenshtein_distance};

fn oid(v: u128) -> Oid {
    Oid { value: v }
}

fn member(user: u128, role: Role) -> GroupMember {
    GroupMember { id: Some(oid(100 + user)), group_id: oid(1), user_id: oid(user), role, joined_at: 0 }
}

#[test]
fn object_ids_round_trip_through_hex() {
    let o = parse_oid("507f1f77bcf86cd799439011").unwrap();
    assert_eq!(o.to_hex(), "507f1f77bcf86cd799439011");
    assert_eq!(parse_oid("507F1F77BCF86CD799439011").unwrap(), o);
    assert!(parse_oid("507f1f77bcf86cd79943901").is_none());
    assert!(parse_oid("507f1f77bcf86cd79943901g").is_none());
    assert!(matches!(parse_id(""), Err(ApiError::Validation(_))));
    assert!(Oid::from_u128(1u128 << 96).is_none());
    assert_eq!(Oid::from_u128(255).unwrap().to_hex(), "0000000000000000000000ff");
}

#[test]
fn regex_metacharacters_are_escaped() {
    assert_eq!(escape_regex("a.b*c"), "a\\.b\\*c");
    assert_eq!(escape_regex("(x|y)[z]{1}^$+?\\"), "\\(x\\|y\\)\\[z\\]\\{1\\}\\^\\$\\+\\?\\\\");
    assert_eq!(escape_regex("plain-text"), "plain-text");
}

#[test]
fn edit_distances() {
    assert_eq!(levenshtein_distance("kitten", "sitting"), 3);
    assert_eq!(levenshtein_distance("", "abc"), 3);
    assert_eq!(levenshtein_distance("login", "logn"), 1);
    assert_eq!(levenshtein_distance("same", "same"), 0);
    assert_eq!(levenshtein_distance("flaw", "lawn"), levenshtein_distance("lawn", "flaw"));
}

#[test]
fn errors_carry_code_message_and_status() {
    let e = ApiError::Validation("bad".to_string());
    assert_eq!((e.code(), e.message().as_str(), e.status_code()), ("validation_error", "bad", 400));
    assert_eq!(ApiError::Forbidden.status_code(), 403);
    assert_eq!(ApiError::Forbidden.message(), "you do not have permission to perform this action");
    assert_eq!(ApiError::DuplicateEmail.code(), "duplicate_email");
    assert_eq!(ApiError::AiUnavailable.status_code(), 503);
    assert_eq!(ApiError::RateLimited("slow".to_string()).status_code(), 429);
    assert_eq!(ApiError::Internal.message(), "internal server error");
    match api_error_from_group_repo(GroupRepoError::DuplicateMember) {
        ApiError::Conflict(m) => assert_eq!(m, "user is already a member of this group"),
        other => panic!("unexpected {:?}", other),
    }
    assert!(matches!(api_error_from_link_repo(LinkRepoError::Database), ApiError::Internal));
}

#[test]
fn the_last_group_admin_cannot_leave() {
    let admin = member(1, Role::GroupAdmin);
    let contributor = member(2, Role::Contributor);
    match guard_sole_admin_removal(Some(admin), 1) {
        Err(ApiError::Conflict(m)) => assert_eq!(
            m,
            "a successor Group Admin must be appointed before the sole Group Admin can be removed"
        ),
        other => panic!("unexpected {:?}", other),
    }
    assert!(guard_sole_admin_removal(Some(admin), 2).is_ok());
    assert!(guard_sole_admin_removal(Some(contributor), 1).is_ok());
    assert!(matches!(guard_sole_admin_removal(None, 5), Err(ApiError::NotFound)));
    assert!(matches!(check_role_update(Role::Contributor, Some(admin), 1), Err(ApiError::Conflict(_))));
    assert!(check_role_update(Role::GroupAdmin, Some(contributor), 1).is_ok());
    assert!(matches!(check_role_update(Role::GroupAdmin, None, 1), Err(ApiError::NotFound)));
    assert_eq!(removal_kind(oid(1), oid(1)), RemovalKind::Leave);
    assert_eq!(removal_kind(oid(1), oid(2)), RemovalKind::RemoveOther);
    assert!(matches!(require_changed(false), Err(ApiError::NotFound)));
    assert!(validate_name("Team").is_ok());
    assert!(matches!(validate_name("  "), Err(ApiError::Validation(_))));
}

#[test]
fn access_control_decisions() {
    let admin = member(1, Role::GroupAdmin);
    let contributor = member(2, Role::Contributor);
    assert!(matches!(RbacService::require_member(None), Err(ApiError::Forbidden)));
    assert!(RbacService::require_member(Some(contributor)).is_ok());
    assert!(matches!(RbacService::require_group_admin(Some(contributor)), Err(ApiError::Forbidden)));
    assert!(RbacService::require_group_admin(Some(admin)).is_ok());
    assert!(RbacService::require_owner_or_group_admin(&contributor, oid(2)).is_ok());
    assert!(matches!(RbacService::require_owner_or_group_admin(&contributor, oid(9)), Err(ApiError::Forbidden)));
    assert!(RbacService::require_owner_or_group_admin(&admin, oid(9)).is_ok());
    let sysadmin = UserResponse {
        id: "x".to_string(),
        email: "e".to_string(),
        name: "n".to_string(),
        global_role: Some(GlobalRole::Admin),
        created_at: 0,
    };
    assert!(RbacService::require_system_admin(&Some(sysadmin.clone())).is_ok());
    let plain = UserResponse { global_role: None, ..sysadmin };
    assert!(matches!(RbacService::require_system_admin(&Some(plain)), Err(ApiError::Forbidden)));
    assert!(matches!(RbacService::require_system_admin(&None), Err(ApiError::Forbidden)));
}

#[test]
fn deleting_a_user_classifies_each_group() {
    let target = oid(1);
    let groups = vec![
        GroupMembership { group_id: oid(10), group_name: "plain".to_string(), members: vec![member(1, Role::Contributor), member(2, Role::GroupAdmin)] },
        GroupMembership { group_id: oid(11), group_name: "alone".to_string(), members: vec![member(1, Role::GroupAdmin)] },
        GroupMembership { group_id: oid(12), group_name: "blocked".to_string(), members: vec![member(1, Role::GroupAdmin), member(3, Role::Contributor)] },
        GroupMembership { group_id: oid(13), group_name: "co-admin".to_string(), members: vec![member(1, Role::GroupAdmin), member(4, Role::GroupAdmin)] },
    ];
    let plan = build_plan(target, groups).unwrap();
    assert_eq!(plan.plain_removals, vec![oid(10), oid(13)]);
    assert_eq!(plan.auto_delete.len(), 1);
    assert_eq!(plan.auto_delete[0].0, oid(11));
    assert_eq!(plan.blocked.len(), 1);
    assert_eq!(plan.blocked[0].group_id, oid(12));
    assert_eq!(plan.blocked[0].others, vec![member(3, Role::Contributor)]);

    match validate_successors(&plan.blocked, &vec![]) {
        Err(ApiError::Conflict(m)) => assert_eq!(m, "a successor is required for group 00000000000000000000000c"),
        other => panic!("unexpected {:?}", other),
    }
    match validate_successors(&plan.blocked, &vec![(oid(12), oid(4))]) {
        Err(ApiError::Conflict(m)) => assert_eq!(m, "successor is not a member of group 00000000000000000000000c"),
        other => panic!("unexpected {:?}", other),
    }
    assert_eq!(validate_successors(&plan.blocked, &vec![(oid(12), oid(3))]).unwrap(), vec![oid(3)]);

    let outsider = vec![GroupMembership { group_id: oid(20), group_name: "x".to_string(), members: vec![member(9, Role::GroupAdmin)] }];
    assert!(matches!(build_plan(target, outsider), Err(ApiError::Internal)));
}

#[test]
fn successor_requests_and_audit_entries() {
    let pairs = vec![("00000000000000000000000c".to_string(), "000000000000000000000003".to_string())];
    assert_eq!(parse_successors(&pairs).unwrap(), vec![(oid(12), oid(3))]);
    let bad = vec![("c".to_string(), "3".to_string())];
    assert!(matches!(parse_successors(&bad), Err(ApiError::Validation(_))));
    let e = succession_entry((oid(12), "g".to_string()), (oid(1), "Bob".to_string()), (oid(3), "Cy".to_string()), (oid(9), "Root".to_string()), 5);
    assert_eq!(e.action, AuditAction::Succession);
    assert_eq!(e.successor_user_name.as_deref(), Some("Cy"));
    let r = AuditLogEntryResponse::from_entry(e);
    assert_eq!(r.successor_user_id.as_deref(), Some("000000000000000000000003"));
    assert_eq!(r.performed_by, "000000000000000000000009");
    let a = auto_delete_entry((oid(11), "alone".to_string()), (oid(1), "Bob".to_string()), (oid(9), "Root".to_string()), 6);
    assert_eq!(a.action, AuditAction::GroupAutoDeleted);
    assert!(a.successor_user_id.is_none());
    let q = AuditLogQuery { group_id: Some("00000000000000000000000c".to_string()), user_id: None };
    assert_eq!(parse_audit_query(&q).unwrap(), (Some(oid(12)), None));
    let q = AuditLogQuery { group_id: None, user_id: Some("nope".to_string()) };
    assert!(matches!(parse_audit_query(&q), Err(ApiError::Validation(_))));
}

#[test]
fn members_show_their_account() {
    let r = member_response(member(3, Role::Contributor), None);
    assert_eq!(r.name, "");
    assert_eq!(r.email, "");
    assert_eq!(r.user_id, "000000000000000000000003");
}

#[test]
fn settings_resolve_with_defaults() {
    assert_eq!(
        Config::from_values(None, Some("s".to_string()), None, None, None).unwrap_err(),
        ConfigError::MissingMongoUri
    );
    assert_eq!(
        Config::from_values(Some("m".to_string()), None, None, None, None).unwrap_err(),
        ConfigError::MissingJwtSecret
    );
    let c = Config::from_values(Some("m".to_string()), Some("s".to_string()), None, None, None).unwrap();
    assert!(c.cookie_secure);
    assert_eq!(c.frontend_origin, "http://localhost:5173");
    assert_eq!(c.bind_address(), "127.0.0.1:8080");
    let c = Config::from_values(Some("m".to_string()), Some("s".to_string()), Some("false".to_string()), Some("https://app".to_string()), Some("k".to_string())).unwrap();
    assert!(!c.cookie_secure);
    assert_eq!(c.frontend_origin, "https://app");
    let c = Config::from_values(Some("m".to_string()), Some("s".to_string()), Some("FALSE".to_string()), None, None).unwrap();
    assert!(c.cookie_secure);
}

#[test]
fn edit_distance_is_a_metric_on_examples() {
    let words = ["kitten", "sitting", "mitten", "", "אבג", "abc", "logn"];
    for a in words {
        for b in words {
            let d = levenshtein_distance(a, b);
            assert_eq!(d == 0, a == b);
            let (la, lb) = (a.chars().count(), b.chars().count());
            assert!(la.abs_diff(lb) <= d && d <= la.max(lb));
            for c in words {
                assert!(levenshtein_distance(a, c) <= d + levenshtein_distance(b, c));
            }
        }
    }
}
