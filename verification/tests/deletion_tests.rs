use resolve::admin::{build_plan, deletion_writes, DeletionWrite, GroupMembership};
use resolve::errors::ApiError;
use resolve::group::{group_purge_steps, GroupData, GroupMember, Role};
use resolve::ids::Oid;
use resolve::indexes::{index_table, IndexKind};
use resolve::link::{decide_create_link, RelationType};

fn oid(v: u128) -> Oid {
    Oid { value: v }
}

fn member(user: u128, role: Role) -> GroupMember {
    GroupMember { id: Some(oid(100 + user)), group_id: oid(1), user_id: oid(user), role, joined_at: 0 }
}

fn sample_plan() -> resolve::admin::DeletionPlan {
    let groups = vec![
        GroupMembership { group_id: oid(10), group_name: "plain".to_string(), members: vec![member(1, Role::Contributor)] },
        GroupMembership { group_id: oid(11), group_name: "alone".to_string(), members: vec![member(1, Role::GroupAdmin)] },
        GroupMembership { group_id: oid(12), group_name: "blocked".to_string(), members: vec![member(1, Role::GroupAdmin), member(3, Role::Contributor)] },
    ];
    build_plan(oid(1), groups).unwrap()
}

#[test]
fn deletion_writes_come_in_order() {
    let w = deletion_writes(oid(1), &sample_plan(), &vec![(oid(12), oid(3))]).unwrap();
    assert_eq!(w.len(), 7);
    assert!(matches!(w[0], DeletionWrite::PromoteSuccessor { group_id, successor } if group_id == oid(12) && successor == oid(3)));
    assert!(matches!(w[1], DeletionWrite::RemoveMember { group_id, user_id } if group_id == oid(12) && user_id == oid(1)));
    assert!(matches!(&w[2], DeletionWrite::RecordSuccession { group_id, group_name, successor } if *group_id == oid(12) && group_name == "blocked" && *successor == oid(3)));
    assert!(matches!(w[3], DeletionWrite::PurgeGroup { group_id } if group_id == oid(11)));
    assert!(matches!(&w[4], DeletionWrite::RecordAutoDelete { group_id, group_name } if *group_id == oid(11) && group_name == "alone"));
    assert!(matches!(w[5], DeletionWrite::RemoveMember { group_id, user_id } if group_id == oid(10) && user_id == oid(1)));
    assert!(matches!(w[6], DeletionWrite::DeleteUser { user_id } if user_id == oid(1)));
}

#[test]
fn deletion_without_a_valid_successor_writes_nothing() {
    match deletion_writes(oid(1), &sample_plan(), &vec![]) {
        Err(ApiError::Conflict(m)) => assert_eq!(m, "a successor is required for group 00000000000000000000000c"),
        other => panic!("unexpected {:?}", other),
    }
    match deletion_writes(oid(1), &sample_plan(), &vec![(oid(12), oid(7))]) {
        Err(ApiError::Conflict(m)) => assert_eq!(m, "successor is not a member of group 00000000000000000000000c"),
        other => panic!("unexpected {:?}", other),
    }
}

#[test]
fn a_group_purge_deletes_its_data_then_the_group() {
    let steps = group_purge_steps();
    assert_eq!(steps.len(), 12);
    assert_eq!(steps[0], GroupData::Members);
    assert!(steps.contains(&GroupData::Tickets));
    assert!(steps.contains(&GroupData::Links));
    assert!(steps.contains(&GroupData::TicketCounter));
    assert_eq!(*steps.last().unwrap(), GroupData::Group);
}

#[test]
fn the_index_table_guards_uniqueness() {
    let t = index_table();
    assert_eq!(t.len(), 24);
    let has = |c: &str, keys: &[(&str, i32)], kind: IndexKind| {
        t.iter().any(|e| e.collection == c && e.keys == keys && e.kind == kind)
    };
    assert!(has("users", &[("email", 1)], IndexKind::Unique));
    assert!(has("tickets", &[("group_id", 1), ("ticket_number", 1)], IndexKind::Unique));
    assert!(has("refresh_tokens", &[("expires_at", 1)], IndexKind::Ttl));
    assert!(has("group_members", &[("group_id", 1), ("user_id", 1)], IndexKind::Unique));
}

#[test]
fn a_refused_link_request_is_decided_before_any_write() {
    let r = decide_create_link(oid(1), oid(2), oid(3), oid(4), RelationType::RelatesTo, true, true, false, true);
    assert!(matches!(r, Err(ApiError::Conflict(m)) if m == "this link already exists"));
    let ok = decide_create_link(oid(1), oid(2), oid(3), oid(4), RelationType::Blocks, true, true, false, true).unwrap();
    assert_eq!(ok.source_ticket_id, oid(3));
    assert_eq!(ok.target_ticket_id, oid(4));
}
