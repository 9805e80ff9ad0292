use resolve::activity::{ActivityEventType, LinkKind};
use resolve::errors::ApiError;
use resolve::ids::Oid;
use resolve::link::{
    decide_create_link, link_activity, link_on_ticket, link_response, other_ticket_id,
    parse_link_target, CreateLinkRequest, LinkLabel, RelationType, TicketLink,
};
use resolve::ticket::{Ticket, TicketPriority, TicketStatus};

fn oid(v: u128) -> Oid {
    Oid { value: v }
}

fn ticket(id: u128, number: i64) -> Ticket {
    Ticket {
        id: Some(oid(id)),
        group_id: oid(1),
        ticket_number: number,
        title: format!("ticket {}", number),
        description: "d".to_string(),
        status: TicketStatus::Open,
        priority: TicketPriority::High,
        created_by: oid(2),
        created_at: 0,
        updated_at: 0,
        content_updated_at: 0,
    }
}

fn link(relation: RelationType) -> TicketLink {
    TicketLink {
        id: Some(oid(50)),
        group_id: oid(1),
        source_ticket_id: oid(10),
        target_ticket_id: oid(11),
        relation_type: relation,
        created_by: oid(2),
        created_at: 123,
    }
}

#[test]
fn label_for_resolves_directional_relations() {
    assert_eq!(RelationType::Blocks.label_for(true), LinkLabel::Blocks);
    assert_eq!(RelationType::Blocks.label_for(false), LinkLabel::IsBlockedBy);
    assert_eq!(RelationType::Duplicates.label_for(true), LinkLabel::Duplicates);
    assert_eq!(RelationType::Duplicates.label_for(false), LinkLabel::IsDuplicatedBy);
}

#[test]
fn label_for_relates_to_is_symmetric() {
    assert_eq!(RelationType::RelatesTo.label_for(true), LinkLabel::RelatesTo);
    assert_eq!(RelationType::RelatesTo.label_for(false), LinkLabel::RelatesTo);
}

#[test]
fn labels_describe_themselves() {
    assert_eq!(LinkLabel::Blocks.describe(), "blocks");
    assert_eq!(LinkLabel::IsBlockedBy.describe(), "is blocked by");
    assert_eq!(LinkLabel::RelatesTo.describe(), "relates to");
    assert_eq!(LinkLabel::Duplicates.describe(), "duplicates");
    assert_eq!(LinkLabel::IsDuplicatedBy.describe(), "is duplicated by");
}

#[test]
fn link_targets_are_checked() {
    let req = |t: &str| CreateLinkRequest { target_ticket_id: t.to_string(), relation_type: RelationType::Blocks };
    match parse_link_target(oid(10), &req("nope")) {
        Err(ApiError::Validation(m)) => assert_eq!(m, "invalid target_ticket_id"),
        other => panic!("unexpected {:?}", other),
    }
    match parse_link_target(oid(10), &req("00000000000000000000000a")) {
        Err(ApiError::Validation(m)) => assert_eq!(m, "a ticket cannot be linked to itself"),
        other => panic!("unexpected {:?}", other),
    }
    assert_eq!(parse_link_target(oid(10), &req("00000000000000000000000b")).unwrap(), oid(11));
}

#[test]
fn link_decisions_follow_the_request_order() {
    let d = |s, t, f, r, rel| decide_create_link(oid(1), oid(2), oid(10), oid(11), rel, s, t, f, r);
    assert!(matches!(d(false, false, false, false, RelationType::Blocks), Err(ApiError::NotFound)));
    match d(true, false, false, false, RelationType::Blocks) {
        Err(ApiError::Validation(m)) => assert_eq!(m, "target ticket not found in this group"),
        other => panic!("unexpected {:?}", other),
    }
    match d(true, true, true, false, RelationType::Blocks) {
        Err(ApiError::Conflict(m)) => assert_eq!(m, "this link already exists"),
        other => panic!("unexpected {:?}", other),
    }
    // the reverse direction only matters for the symmetric relation
    assert!(d(true, true, false, true, RelationType::Blocks).is_ok());
    assert!(matches!(d(true, true, false, true, RelationType::RelatesTo), Err(ApiError::Conflict(_))));
    let input = d(true, true, false, false, RelationType::RelatesTo).unwrap();
    assert_eq!(input.source_ticket_id, oid(10));
    assert_eq!(input.target_ticket_id, oid(11));
    assert_eq!(input.created_by, oid(2));
}

#[test]
fn each_side_logs_the_link_as_it_reads_it() {
    let l = link(RelationType::Blocks);
    let (src, tgt) = link_activity(oid(1), &l, &ticket(10, 4), &ticket(11, 9), oid(2), ActivityEventType::LinkAdded);
    assert_eq!(src.ticket_id, oid(10));
    assert_eq!(src.new_value.as_deref(), Some("blocks #9"));
    assert!(src.old_value.is_none());
    assert_eq!(tgt.ticket_id, oid(11));
    assert_eq!(tgt.new_value.as_deref(), Some("is blocked by #4"));
    assert_eq!(src.link_kind, Some(LinkKind::Relation));
    let (src, tgt) = link_activity(oid(1), &l, &ticket(10, 4), &ticket(11, -2), oid(2), ActivityEventType::LinkRemoved);
    assert_eq!(src.old_value.as_deref(), Some("blocks #-2"));
    assert!(src.new_value.is_none());
    assert_eq!(tgt.old_value.as_deref(), Some("is blocked by #4"));
}

#[test]
fn links_are_seen_from_either_end() {
    let l = link(RelationType::Duplicates);
    assert_eq!(other_ticket_id(&l, oid(10)), oid(11));
    assert_eq!(other_ticket_id(&l, oid(11)), oid(10));
    assert!(matches!(link_on_ticket(Some(l), oid(99)), Err(ApiError::NotFound)));
    assert!(link_on_ticket(Some(l), oid(11)).is_ok());
    assert!(matches!(link_on_ticket(None, oid(11)), Err(ApiError::NotFound)));
    let r = link_response(&l, oid(11), ticket(10, 4), "Ada".to_string());
    assert_eq!(r.label, LinkLabel::IsDuplicatedBy);
    assert_eq!(r.other_ticket_id, "00000000000000000000000a");
    assert_eq!(r.other_ticket_number, 4);
    assert_eq!(r.created_by_name, "Ada");
    assert_eq!(r.id, "000000000000000000000032");
}
