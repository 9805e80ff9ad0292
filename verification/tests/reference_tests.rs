use resolve::activity::{ActivityEventType, LinkKind};
use resolve::errors::ApiError;
use resolve::ids::Oid;
use resolve::reference::{
    derive_label, plan_reference, reference_entry, reference_response, validate_create,
    CreateReferenceRequest, TicketReference, MAX_LABEL_LEN,
};

fn request(url: &str, label: Option<&str>) -> CreateReferenceRequest {
    CreateReferenceRequest { label: label.map(str::to_string), url: url.to_string() }
}

fn oid(v: u128) -> Oid {
    Oid { value: v }
}

#[test]
fn validate_create_rejects_empty_url() {
    let result = validate_create(&request("   ", None));
    assert!(matches!(result, Err(ApiError::Validation(_))));
}

#[test]
fn validate_create_rejects_non_http_scheme() {
    let result = validate_create(&request("ftp://example.com", None));
    assert!(matches!(result, Err(ApiError::Validation(_))));
}

#[test]
fn validate_create_accepts_https_url() {
    let result = validate_create(&request("https://example.com/doc", Some("Doc")));
    assert!(result.is_ok());
}

#[test]
fn validate_create_rejects_over_limit_label() {
    let too_long = "a".repeat(MAX_LABEL_LEN + 1);
    let result = validate_create(&request("https://example.com", Some(&too_long)));
    assert!(matches!(result, Err(ApiError::Validation(_))));
}

#[test]
fn reference_validation_messages() {
    let msg = |r: Result<(), ApiError>| match r {
        Err(ApiError::Validation(m)) => m,
        other => panic!("unexpected {:?}", other),
    };
    assert_eq!(msg(validate_create(&request("", None))), "url is required");
    assert_eq!(msg(validate_create(&request("example.com", None))), "url must start with http:// or https://");
    let long = format!("http://{}", "a".repeat(1994));
    assert_eq!(msg(validate_create(&request(&long, None))), "url must be at most 2000 characters");
    let at_limit = format!("http://{}", "a".repeat(1993));
    assert!(validate_create(&request(&at_limit, None)).is_ok());
    assert_eq!(
        msg(validate_create(&request("http://x", Some(&"é".repeat(201))))),
        "label must be at most 200 characters"
    );
    assert!(validate_create(&request("  http://x  ", Some(&"é".repeat(200)))).is_ok());
}

#[test]
fn labels_default_to_the_host() {
    assert_eq!(derive_label("https://example.com/doc?x#y"), "example.com");
    assert_eq!(derive_label("http://host:8080?q"), "host:8080");
    assert_eq!(derive_label("https://docs.rs#frag"), "docs.rs");
    assert_eq!(derive_label("ftp://a/b"), "ftp:");
    assert_eq!(derive_label("https://"), "");
    let p = plan_reference(oid(1), oid(2), oid(3), request("https://example.com/doc", Some("   ")));
    assert_eq!(p.label, "example.com");
    assert_eq!(p.url, "https://example.com/doc");
    let p = plan_reference(oid(1), oid(2), oid(3), request(" https://example.com ", Some(" Spec ")));
    assert_eq!(p.label, "Spec");
    assert_eq!(p.url, " https://example.com ");
    assert_eq!(p.created_by, oid(3));
}

#[test]
fn reference_log_entries_and_responses() {
    let e = reference_entry(oid(1), oid(2), oid(3), ActivityEventType::LinkAdded, "Spec");
    assert_eq!(e.new_value.as_deref(), Some("Spec"));
    assert!(e.old_value.is_none());
    assert_eq!(e.link_kind, Some(LinkKind::Reference));
    let e = reference_entry(oid(1), oid(2), oid(3), ActivityEventType::LinkRemoved, "Spec");
    assert_eq!(e.old_value.as_deref(), Some("Spec"));
    assert!(e.new_value.is_none());
    let r = reference_response(
        TicketReference {
            id: None,
            group_id: oid(1),
            ticket_id: oid(2),
            label: "Spec".to_string(),
            url: "https://x".to_string(),
            created_by: oid(3),
            created_at: 5,
        },
        "Ada".to_string(),
    );
    assert_eq!(r.id, "");
    assert_eq!(r.created_by, "000000000000000000000003");
    assert_eq!(r.created_by_name, "Ada");
}
