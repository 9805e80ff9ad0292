use resolve::errors::ApiError;
use resolve::ids::Oid;
use resolve::ticket::{
    changes_content, create_input, new_ticket, plan_listing, plan_ticket_update, resolve_paging,
    search_by_title, take_page, ticket_response, validate_create, validate_update,
    CreateTicketRequest, ListTicketsQuery, Ticket, TicketPriority, TicketStatus, UpdateTicketRequest,
};

fn oid(v: u128) -> Oid {
    Oid { value: v }
}

fn ticket_with_title(title: &str) -> Ticket {
    Ticket {
        id: Some(oid(1)),
        group_id: oid(2),
        ticket_number: 1,
        title: title.to_string(),
        description: "description".to_string(),
        status: TicketStatus::Open,
        priority: TicketPriority::Low,
        created_by: oid(3),
        created_at: 0,
        updated_at: 0,
        content_updated_at: 0,
    }
}

#[test]
fn search_by_title_prefers_substring_match() {
    let tickets = vec![ticket_with_title("Login bug"), ticket_with_title("API timeout")];
    let result = search_by_title(tickets, "login");
    assert_eq!(result.len(), 1);
    assert_eq!(result[0].title, "Login bug");
}

#[test]
fn search_by_title_is_case_insensitive() {
    let tickets = vec![ticket_with_title("Login bug")];
    let result = search_by_title(tickets, "LOGIN");
    assert_eq!(result.len(), 1);
}

#[test]
fn search_by_title_falls_back_to_typo_tolerant_match() {
    let tickets = vec![ticket_with_title("Login bug"), ticket_with_title("API timeout")];
    let result = search_by_title(tickets, "logn");
    assert_eq!(result.len(), 1);
    assert_eq!(result[0].title, "Login bug");
}

#[test]
fn search_by_title_returns_nothing_when_too_dissimilar() {
    let tickets = vec![ticket_with_title("Login bug"), ticket_with_title("API timeout")];
    let result = search_by_title(tickets, "zzzzzzzz");
    assert!(result.is_empty());
}

#[test]
fn typo_matches_are_ranked_closest_first() {
    let tickets = vec![
        ticket_with_title("Timeuot on save"),
        ticket_with_title("Timeout on load"),
        ticket_with_title("Crash"),
    ];
    // no title contains "timeoutt"; "timeout" is one edit away, "timeuot"
    // two (the allowed maximum for eight characters), "crash" far more
    let result = search_by_title(tickets, "timeoutt");
    let titles: Vec<&str> = result.iter().map(|t| t.title.as_str()).collect();
    assert_eq!(titles, vec!["Timeout on load", "Timeuot on save"]);
    let tickets = vec![ticket_with_title("Timout there"), ticket_with_title("Timeoutt here")];
    let result = search_by_title(tickets, "timeoutx");
    let titles: Vec<&str> = result.iter().map(|t| t.title.as_str()).collect();
    assert_eq!(titles, vec!["Timeoutt here", "Timout there"]);
}

#[test]
fn ticket_creation_is_validated() {
    let req = |t: &str, d: &str| CreateTicketRequest { title: t.to_string(), description: d.to_string(), priority: TicketPriority::High };
    let msg = |r: Result<(), ApiError>| match r {
        Err(ApiError::Validation(m)) => m,
        other => panic!("unexpected {:?}", other),
    };
    assert_eq!(msg(validate_create(&req(" ", "d"))), "title is required");
    assert_eq!(msg(validate_create(&req(&"a".repeat(201), "d"))), "title must be at most 200 characters");
    // the title limit counts characters: 200 two-byte letters fit, 201 do not
    assert!(validate_create(&req(&"א".repeat(200), "d")).is_ok());
    assert_eq!(msg(validate_create(&req(&"א".repeat(201), "d"))), "title must be at most 200 characters");
    assert_eq!(msg(validate_create(&req("t", "\n"))), "description is required");
}

#[test]
fn updates_must_change_something() {
    let none = UpdateTicketRequest { title: None, description: None, priority: None, status: None };
    match validate_update(&none) {
        Err(ApiError::Validation(m)) => assert_eq!(m, "nothing to update"),
        other => panic!("unexpected {:?}", other),
    }
    let status_only = UpdateTicketRequest { title: None, description: None, priority: None, status: Some(TicketStatus::Closed) };
    assert!(validate_update(&status_only).is_ok());
    assert!(!changes_content(&status_only));
    let c = plan_ticket_update(status_only, 99);
    assert_eq!(c.updated_at, 99);
    assert_eq!(c.content_updated_at, None);
    let retitle = UpdateTicketRequest { title: Some("x".to_string()), description: None, priority: None, status: None };
    assert!(changes_content(&retitle));
    assert_eq!(plan_ticket_update(retitle, 99).content_updated_at, Some(99));
}

#[test]
fn paging_defaults_and_clamps() {
    assert_eq!(resolve_paging(None, None), (1, 20));
    assert_eq!(resolve_paging(Some(0), Some(0)), (1, 1));
    assert_eq!(resolve_paging(Some(3), Some(500)), (3, 100));
    let items: Vec<u32> = (0..45).collect();
    assert_eq!(take_page(items.clone(), 1, 20), (0..20).collect::<Vec<u32>>());
    assert_eq!(take_page(items.clone(), 3, 20), (40..45).collect::<Vec<u32>>());
    assert!(take_page(items.clone(), 4, 20).is_empty());
    assert!(take_page(items, u64::MAX, u64::MAX).is_empty());
}

#[test]
fn listing_queries_are_read() {
    let q = ListTicketsQuery {
        q: Some("  login ".to_string()),
        status: Some(TicketStatus::Open),
        priority: None,
        creator: Some("00000000000000000000000F".to_string()),
        page: None,
        per_page: Some(5),
    };
    let p = plan_listing(&q).unwrap();
    assert_eq!(p.search.as_deref(), Some("login"));
    assert_eq!(p.creator, Some(oid(15)));
    assert_eq!((p.page, p.per_page), (1, 5));
    let blank = ListTicketsQuery { q: Some("   ".to_string()), status: None, priority: None, creator: None, page: None, per_page: None };
    assert!(plan_listing(&blank).unwrap().search.is_none());
    let bad = ListTicketsQuery { q: None, status: None, priority: None, creator: Some("xyz".to_string()), page: None, per_page: None };
    match plan_listing(&bad) {
        Err(ApiError::Validation(m)) => assert_eq!(m, "invalid creator id"),
        other => panic!("unexpected {:?}", other),
    }
}

#[test]
fn new_tickets_start_open() {
    let input = create_input(oid(2), oid(3), 7, CreateTicketRequest {
        title: "t".to_string(),
        description: "d".to_string(),
        priority: TicketPriority::Critical,
    });
    let t = new_ticket(input, 1234);
    assert_eq!(t.status, TicketStatus::Open);
    assert_eq!(t.ticket_number, 7);
    assert_eq!((t.created_at, t.updated_at, t.content_updated_at), (1234, 1234, 1234));
    let r = ticket_response(t, "Ada".to_string());
    assert_eq!(r.id, "");
    assert_eq!(r.group_id, "000000000000000000000002");
    assert_eq!(r.created_by_name, "Ada");
    assert_eq!(TicketStatus::Closed.as_str(), "closed");
    assert_eq!(TicketPriority::Critical.as_str(), "critical");
}
