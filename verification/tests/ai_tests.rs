use resolve::ai::{
    aggregate_stats, ai_error_for_status, analysis_from_fields, analyze_prompt, build_transcript,
    cached_analysis, cached_summary, chat_message_response, chat_prompt, chat_window_start,
    check_chat_rate, extract_text, is_report_fresh, new_chat_message, parse_analysis_response,
    parse_summary_response, report_data, require_ai_key, stats_summary, summarize_prompt, summary_from_text,
    validate_message, AiTicketInsight, ChatMessage, ChatRole, PriorityBreakdown,
    CHAT_HISTORY_LIMIT, MAX_MESSAGE_LEN, RECENT_WINDOW_MILLIS,
};
use resolve::errors::ApiError;
use resolve::ids::Oid;
use resolve::ticket::{plan_ticket_update, Ticket, TicketPriority, TicketStatus, UpdateTicketRequest};

fn oid(v: u128) -> Oid {
    Oid { value: v }
}

fn insight_at(ts: i64) -> AiTicketInsight {
    AiTicketInsight {
        id: Some(oid(1)),
        group_id: oid(2),
        ticket_id: oid(3),
        summary: Some("summary text".to_string()),
        summary_source_updated_at: Some(ts),
        severity_prediction: Some("high".to_string()),
        suggested_fix: Some("fix text".to_string()),
        classification: Some("bug".to_string()),
        analysis_source_updated_at: Some(ts),
        created_at: ts,
        updated_at: ts,
    }
}

fn ticket(status: TicketStatus, priority: TicketPriority, created_at: i64) -> Ticket {
    Ticket {
        id: Some(oid(10)),
        group_id: oid(11),
        ticket_number: 1,
        title: "t".to_string(),
        description: "d".to_string(),
        status,
        priority,
        created_by: oid(12),
        created_at,
        updated_at: created_at,
        content_updated_at: created_at,
    }
}

fn message(role: ChatRole, content: &str) -> ChatMessage {
    ChatMessage {
        id: Some(oid(20)),
        group_id: oid(21),
        ticket_id: oid(22),
        role,
        user_id: match role {
            ChatRole::User => Some(oid(23)),
            ChatRole::Assistant => None,
        },
        content: content.to_string(),
        created_at: 5,
    }
}

#[test]
fn validate_message_rejects_empty() {
    assert!(matches!(validate_message("   "), Err(ApiError::Validation(_))));
}

#[test]
fn validate_message_rejects_over_limit_by_char_count() {
    let too_long = "a".repeat(MAX_MESSAGE_LEN + 1);
    assert!(matches!(validate_message(&too_long), Err(ApiError::Validation(_))));
}

#[test]
fn validate_message_accepts_within_limit() {
    assert!(validate_message("Any workaround for this?").is_ok());
}

#[test]
fn validate_message_counts_characters_not_bytes() {
    let hebrew = "א".repeat(MAX_MESSAGE_LEN);
    assert!(validate_message(&hebrew).is_ok());
    match validate_message(" ") {
        Err(ApiError::Validation(m)) => assert_eq!(m, "message is required"),
        other => panic!("unexpected {:?}", other),
    }
    match validate_message(&"b".repeat(2001)) {
        Err(ApiError::Validation(m)) => assert_eq!(m, "message must be at most 2000 characters"),
        other => panic!("unexpected {:?}", other),
    }
}

#[test]
fn summary_fresh_when_timestamp_matches() {
    let ts = 1_700_000_000_000;
    let insight = insight_at(ts);
    assert!(insight.is_summary_fresh(ts));
    assert!(insight.is_analysis_fresh(ts));
}

#[test]
fn summary_stale_when_ticket_changed_since() {
    let insight = insight_at(1_000);
    assert!(!insight.is_summary_fresh(2_000));
    assert!(!insight.is_analysis_fresh(2_000));
}

#[test]
fn summary_not_fresh_when_never_generated() {
    let ts = 1_700_000_000_000;
    let mut insight = insight_at(ts);
    insight.summary = None;
    insight.summary_source_updated_at = None;
    assert!(!insight.is_summary_fresh(ts));
    assert!(insight.is_analysis_fresh(ts));
}

#[test]
fn analysis_not_fresh_when_only_partially_generated() {
    let ts = 1_700_000_000_000;
    let mut insight = insight_at(ts);
    insight.suggested_fix = None;
    assert!(!insight.is_analysis_fresh(ts));
}

#[test]
fn cached_replies_come_from_a_fresh_insight_only() {
    let ts = 42;
    let stored = Some(insight_at(ts));
    let s = cached_summary(&stored, ts).expect("fresh summary is served");
    assert_eq!(s.summary, "summary text");
    assert!(s.cached);
    assert!(cached_summary(&stored, ts + 1).is_none());
    assert!(cached_summary(&None, ts).is_none());
    let a = cached_analysis(&stored, ts).expect("fresh analysis is served");
    assert_eq!(a.severity_prediction, "high");
    assert_eq!(a.suggested_fix, "fix text");
    assert_eq!(a.classification, "bug");
    assert!(a.cached);
    assert!(cached_analysis(&stored, ts - 1).is_none());
}

#[test]
fn aggregate_stats_counts_status_and_priority() {
    let now = 1_700_000_000_000;
    let tickets = vec![
        ticket(TicketStatus::Open, TicketPriority::Low, now),
        ticket(TicketStatus::Open, TicketPriority::High, now),
        ticket(TicketStatus::Closed, TicketPriority::Critical, now),
    ];
    let stats = aggregate_stats(&tickets, now);
    assert_eq!(stats.total_tickets, 3);
    assert_eq!(stats.open_tickets, 2);
    assert_eq!(stats.closed_tickets, 1);
    assert_eq!(stats.priority_breakdown, PriorityBreakdown { low: 1, high: 1, critical: 1 });
}

#[test]
fn aggregate_stats_counts_recent_tickets_within_7_days() {
    let now = RECENT_WINDOW_MILLIS * 2;
    let recent = RECENT_WINDOW_MILLIS * 2 - 1_000;
    let old = 0;
    let tickets = vec![
        ticket(TicketStatus::Open, TicketPriority::Low, recent),
        ticket(TicketStatus::Open, TicketPriority::Low, old),
    ];
    let stats = aggregate_stats(&tickets, now);
    assert_eq!(stats.recent_tickets_7d, 1);
}

#[test]
fn aggregate_stats_on_empty_group_is_all_zero() {
    let stats = aggregate_stats(&[], 1_700_000_000_000);
    assert_eq!(stats.total_tickets, 0);
    assert_eq!(stats.recent_tickets_7d, 0);
}

#[test]
fn report_counts_add_up_on_a_mixed_group() {
    let now = RECENT_WINDOW_MILLIS * 3;
    let tickets = vec![
        ticket(TicketStatus::Open, TicketPriority::Critical, now - RECENT_WINDOW_MILLIS),
        ticket(TicketStatus::Closed, TicketPriority::Critical, now - RECENT_WINDOW_MILLIS + 1),
        ticket(TicketStatus::Closed, TicketPriority::Low, 0),
        ticket(TicketStatus::Open, TicketPriority::High, now),
    ];
    let s = aggregate_stats(&tickets, now);
    assert_eq!(s.open_tickets + s.closed_tickets, s.total_tickets);
    let b = s.priority_breakdown;
    assert_eq!(b.low + b.high + b.critical, s.total_tickets);
    // exactly seven days old is no longer recent
    assert_eq!(s.recent_tickets_7d, 2);
}

#[test]
fn stats_summary_spells_out_every_count() {
    let now = 10;
    let tickets = vec![ticket(TicketStatus::Open, TicketPriority::High, now)];
    let s = aggregate_stats(&tickets, now);
    assert_eq!(
        stats_summary(&s),
        "Total tickets: 1. Open: 1. Closed: 0. Priority breakdown \u{2014} low: 0, high: 1, critical: 0. Created in the last 7 days: 1."
    );
    let d = report_data(&s, "calm week".to_string());
    assert_eq!(d.total_tickets, 1);
    assert_eq!(d.narrative, "calm week");
}

#[test]
fn build_transcript_on_empty_history_is_empty_string() {
    assert_eq!(build_transcript(&[]), "");
}

#[test]
fn build_transcript_renders_speaker_and_content_oldest_first() {
    let history = vec![message(ChatRole::User, "hi"), message(ChatRole::Assistant, "hello")];
    assert_eq!(build_transcript(&history), "User: hi\nAssistant: hello");
}

#[test]
fn build_transcript_caps_to_last_chat_history_limit_messages() {
    let history: Vec<ChatMessage> = (0..CHAT_HISTORY_LIMIT + 5)
        .map(|i| message(ChatRole::User, &i.to_string()))
        .collect();
    let transcript = build_transcript(&history);
    let lines: Vec<&str> = transcript.lines().collect();
    assert_eq!(lines.len(), CHAT_HISTORY_LIMIT);
    assert_eq!(lines.first(), Some(&"User: 5"));
    assert_eq!(*lines.last().unwrap(), format!("User: {}", CHAT_HISTORY_LIMIT + 4));
}

#[test]
fn prompts_embed_the_ticket() {
    let s = summarize_prompt("Crash", "App dies");
    assert!(s.starts_with("Summarize the following bug ticket in 1-2 concise, plain-language sentences"));
    assert!(s.ends_with("\n\nTitle: Crash\nDescription: App dies"));
    let a = analyze_prompt("Crash", "App dies");
    assert!(a.contains("(one of \"low\", \"medium\", \"high\", \"critical\")"));
    assert!(a.ends_with("Title: Crash\nDescription: App dies"));
    let first = chat_prompt("Crash", "App dies", "", "why?");
    assert!(first.ends_with("Title: Crash\nDescription: App dies\n\nNew message (stay in scope): why?"));
    assert!(!first.contains("Conversation so far"));
    let later = chat_prompt("Crash", "App dies", "User: hi", "why?");
    assert!(later.ends_with(
        "Description: App dies\n\nConversation so far:\nUser: hi\n\nNew message (stay in scope): why?"
    ));
}

#[test]
fn chat_rate_limit_allows_nine_refuses_ten() {
    assert!(check_chat_rate(9).is_ok());
    match check_chat_rate(10) {
        Err(ApiError::RateLimited(m)) => {
            assert_eq!(m, "chat message limit reached (10 per hour) \u{2014} try again later")
        }
        other => panic!("unexpected {:?}", other),
    }
    assert_eq!(chat_window_start(7_200_000), 3_600_000);
}

#[test]
fn report_is_reused_for_an_hour() {
    assert!(is_report_fresh(0, 3_599_999));
    assert!(!is_report_fresh(0, 3_600_000));
}

#[test]
fn provider_status_maps_to_transient_or_internal() {
    for s in [429u16, 500, 502, 503, 504] {
        assert!(matches!(ai_error_for_status(s), ApiError::AiUnavailable));
    }
    for s in [400u16, 401, 403, 404, 501] {
        assert!(matches!(ai_error_for_status(s), ApiError::Internal));
    }
}

fn envelope(text: &str) -> String {
    let quoted = serde_json::to_string(text).unwrap();
    format!("{{\"candidates\": [{{\"content\": {{\"parts\": [{{\"text\": {}}}]}}}}]}}", quoted)
}

#[test]
fn summary_is_read_from_the_envelope_and_trimmed() {
    let body = envelope("  A short summary.\n");
    assert_eq!(extract_text(&body).unwrap(), "  A short summary.\n");
    assert_eq!(parse_summary_response(&body).unwrap(), "A short summary.");
    assert!(matches!(parse_summary_response(&envelope("   ")), Err(ApiError::Internal)));
    assert!(matches!(parse_summary_response("not json"), Err(ApiError::Internal)));
    assert!(matches!(parse_summary_response("{\"candidates\": []}"), Err(ApiError::Internal)));
    assert_eq!(summary_from_text(" x ").unwrap(), "x");
}

#[test]
fn analysis_is_read_from_the_json_text() {
    let inner = "{\"severity\": \"high\", \"suggested_fix\": \"restart\", \"classification\": \"bug\"}";
    let a = parse_analysis_response(&envelope(inner)).unwrap();
    assert_eq!(a.severity_prediction, "high");
    assert_eq!(a.suggested_fix, "restart");
    assert_eq!(a.classification, "bug");
    let blank = "{\"severity\": \" \", \"suggested_fix\": \"x\", \"classification\": \"y\"}".to_string();
    assert!(matches!(parse_analysis_response(&envelope(&blank)), Err(ApiError::Internal)));
    let missing = "{\"severity\": \"low\"}".to_string();
    assert!(matches!(parse_analysis_response(&envelope(&missing)), Err(ApiError::Internal)));
    assert!(matches!(parse_analysis_response(&envelope("plain prose")), Err(ApiError::Internal)));
    assert!(matches!(analysis_from_fields(None), Err(ApiError::Internal)));
}

#[test]
fn chat_messages_show_their_author() {
    let m = new_chat_message(oid(1), oid(2), ChatRole::User, Some(oid(3)), "hi".to_string(), 9);
    let r = chat_message_response(m, Some("Ada".to_string()));
    assert_eq!(r.user_id.as_deref(), Some("000000000000000000000003"));
    assert_eq!(r.user_name.as_deref(), Some("Ada"));
    assert_eq!(r.id, "");
    let reply = new_chat_message(oid(1), oid(2), ChatRole::Assistant, None, "hello".to_string(), 9);
    let r = chat_message_response(reply, Some("ignored".to_string()));
    assert!(r.user_id.is_none());
    assert!(r.user_name.is_none());
}

#[test]
fn closing_a_ticket_keeps_its_ai_cache_but_editing_it_does_not() {
    let t = ticket(TicketStatus::Open, TicketPriority::Low, 500);
    let stored = Some(insight_at(t.content_updated_at));
    let close = plan_ticket_update(
        UpdateTicketRequest { title: None, description: None, priority: None, status: Some(TicketStatus::Closed) },
        900,
    );
    let after_close = close.content_updated_at.unwrap_or(t.content_updated_at);
    assert!(cached_summary(&stored, after_close).is_some());
    assert!(cached_analysis(&stored, after_close).is_some());
    let edit = plan_ticket_update(
        UpdateTicketRequest { title: Some("new".to_string()), description: None, priority: None, status: None },
        900,
    );
    let after_edit = edit.content_updated_at.unwrap_or(t.content_updated_at);
    assert!(cached_summary(&stored, after_edit).is_none());
    assert!(cached_analysis(&stored, after_edit).is_none());
}

#[test]
fn require_ai_key_needs_a_configured_key() {
    assert_eq!(require_ai_key(&Some("k-123".to_string())).unwrap(), "k-123");
    assert!(matches!(require_ai_key(&None), Err(ApiError::Internal)));
}
