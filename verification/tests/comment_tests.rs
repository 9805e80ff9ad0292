use resolve::activity::ActivityEventType;
use resolve::comment::{
    comment_entry, comment_response, decide_create_comment, deletion_mode, parse_parent,
    require_comment, validate_create, Comment, CreateCommentRequest, DeletionMode,
    DELETED_CONTENT_PLACEHOLDER, MAX_CONTENT_LEN,
};
use resolve::errors::ApiError;
use resolve::ids::Oid;
use resolve::ticket::{Ticket, TicketPriority, TicketStatus};

fn oid(v: u128) -> Oid {
    Oid { value: v }
}

fn request(content: &str) -> CreateCommentRequest {
    CreateCommentRequest { content: content.to_string(), parent_comment_id: None }
}

fn ticket(status: TicketStatus) -> Ticket {
    Ticket {
        id: Some(oid(7)),
        group_id: oid(1),
        ticket_number: 3,
        title: "t".to_string(),
        description: "d".to_string(),
        status,
        priority: TicketPriority::Low,
        created_by: oid(2),
        created_at: 0,
        updated_at: 0,
        content_updated_at: 0,
    }
}

#[test]
fn validate_create_rejects_empty_content() {
    let result = validate_create(&request("   "));
    assert!(matches!(result, Err(ApiError::Validation(_))));
}

#[test]
fn validate_create_rejects_over_limit_by_char_count() {
    let too_long = "a".repeat(MAX_CONTENT_LEN + 1);
    let result = validate_create(&request(&too_long));
    assert!(matches!(result, Err(ApiError::Validation(_))));
}

#[test]
fn validate_create_accepts_hebrew_content_at_exact_char_limit() {
    let exactly_at_limit = "א".repeat(MAX_CONTENT_LEN);
    assert_eq!(exactly_at_limit.chars().count(), MAX_CONTENT_LEN);
    let result = validate_create(&request(&exactly_at_limit));
    assert!(result.is_ok());
}

#[test]
fn comment_validation_messages() {
    match validate_create(&request("")) {
        Err(ApiError::Validation(m)) => assert_eq!(m, "content is required"),
        other => panic!("unexpected {:?}", other),
    }
    match validate_create(&request(&"x".repeat(2001))) {
        Err(ApiError::Validation(m)) => assert_eq!(m, "content must be at most 2000 characters"),
        other => panic!("unexpected {:?}", other),
    }
}

#[test]
fn parent_ids_are_parsed() {
    assert_eq!(parse_parent(&request("x")).unwrap(), None);
    let with_parent = CreateCommentRequest {
        content: "x".to_string(),
        parent_comment_id: Some("00000000000000000000000A".to_string()),
    };
    assert_eq!(parse_parent(&with_parent).unwrap(), Some(oid(10)));
    let bad = CreateCommentRequest { content: "x".to_string(), parent_comment_id: Some("zz".to_string()) };
    match parse_parent(&bad) {
        Err(ApiError::Validation(m)) => assert_eq!(m, "invalid id"),
        other => panic!("unexpected {:?}", other),
    }
}

#[test]
fn comments_need_an_open_ticket_and_a_real_parent() {
    let open = ticket(TicketStatus::Open);
    let closed = ticket(TicketStatus::Closed);
    assert!(matches!(
        decide_create_comment(oid(1), oid(7), oid(2), "x".to_string(), None, None, false),
        Err(ApiError::NotFound)
    ));
    match decide_create_comment(oid(1), oid(7), oid(2), "x".to_string(), Some(&closed), None, false) {
        Err(ApiError::Conflict(m)) => assert_eq!(m, "cannot comment on a closed ticket"),
        other => panic!("unexpected {:?}", other),
    }
    match decide_create_comment(oid(1), oid(7), oid(2), "x".to_string(), Some(&open), Some(oid(9)), false) {
        Err(ApiError::Validation(m)) => assert_eq!(m, "parent comment not found on this ticket"),
        other => panic!("unexpected {:?}", other),
    }
    let ok = decide_create_comment(oid(1), oid(7), oid(2), "x".to_string(), Some(&open), Some(oid(9)), true)
        .unwrap();
    assert_eq!(ok.parent_comment_id, Some(oid(9)));
    assert_eq!(ok.content, "x");
    assert_eq!(ok.user_id, oid(2));
}

#[test]
fn replies_keep_their_parent_when_it_is_deleted() {
    assert_eq!(deletion_mode(true), DeletionMode::Soft);
    assert_eq!(deletion_mode(false), DeletionMode::Hard);
    assert_eq!(DELETED_CONTENT_PLACEHOLDER, "[comment deleted]");
}

#[test]
fn comment_log_entries_carry_no_content() {
    let e = comment_entry(oid(1), oid(2), oid(3), ActivityEventType::CommentAdded, Some(oid(4)));
    assert_eq!(e.comment_id, Some(oid(4)));
    assert!(e.old_value.is_none() && e.new_value.is_none() && e.link_kind.is_none());
    assert_eq!(e.event_type, ActivityEventType::CommentAdded);
}

#[test]
fn comment_responses_show_hex_ids() {
    let c = Comment {
        id: Some(oid(255)),
        group_id: oid(1),
        ticket_id: oid(2),
        parent_comment_id: None,
        user_id: oid(3),
        content: "hello".to_string(),
        is_deleted: false,
        created_at: 77,
    };
    let r = comment_response(c.clone(), "Ada".to_string());
    assert_eq!(r.id, "0000000000000000000000ff");
    assert_eq!(r.ticket_id, "000000000000000000000002");
    assert!(r.parent_comment_id.is_none());
    assert_eq!(r.user_name, "Ada");
    assert_eq!(r.created_at, 77);
    assert!(matches!(require_comment(None), Err(ApiError::NotFound)));
    assert_eq!(require_comment(Some(c)).unwrap().content, "hello");
}
