//! The AI assistant's own logic: the prompts it sends, how it reads the
//! provider's replies, when a cached result may be reused, the chat rate
//! limit, the transcript fed back as context, and the group report's
//! statistics. The network calls themselves are the caller's.
use vstd::prelude::*;
use crate::errors::{ApiError, validation};
use crate::ids::{Oid, hex_of};
use crate::user::{opt_id_string, opt_id_text};
use crate::text::{chars_of, is_blank, push_signed_decimal, push_str, signed_decimal, trim_chars, trimmed, string_of};
use crate::ticket::{Ticket, TicketPriority, TicketStatus, UpdateTicketRequest, apply_changes, planned_changes};

verus! {

/// What an analysis of a ticket yields.
#[derive(Debug, Clone, PartialEq, Eq)]
pub struct AnalysisResult {
    pub severity_prediction: String,
    pub suggested_fix: String,
    pub classification: String,
}

/// Reply of the summarize endpoint; `cached` tells whether the stored
/// summary was reused.
#[derive(Debug, Clone)]
pub struct TicketSummaryResponse {
    pub summary: String,
    pub cached: bool,
}

/// Reply of the analyze endpoint.
#[derive(Debug, Clone)]
pub struct TicketAnalysisResponse {
    pub severity_prediction: String,
    pub suggested_fix: String,
    pub classification: String,
    pub cached: bool,
}

/// Who wrote a chat message.
#[derive(Debug, Clone, Copy, PartialEq, Eq, Structural)]
pub enum ChatRole {
    User,
    Assistant,
}

/// Body of the chat endpoint.
#[derive(Debug)]
pub struct SendChatMessageRequest {
    pub message: String,
}

/// The stored AI output of one ticket. Each part remembers the ticket's
/// `content_updated_at` (milliseconds) it was generated from.
#[derive(Debug, Clone)]
pub struct AiTicketInsight {
    pub id: Option<Oid>,
    pub group_id: Oid,
    pub ticket_id: Oid,
    pub summary: Option<String>,
    pub summary_source_updated_at: Option<i64>,
    pub severity_prediction: Option<String>,
    pub suggested_fix: Option<String>,
    pub classification: Option<String>,
    pub analysis_source_updated_at: Option<i64>,
    pub created_at: i64,
    pub updated_at: i64,
}

/// One stored chat message; `user_id` is set exactly for user messages.
#[derive(Debug, Clone)]
pub struct ChatMessage {
    pub id: Option<Oid>,
    pub group_id: Oid,
    pub ticket_id: Oid,
    pub role: ChatRole,
    pub user_id: Option<Oid>,
    pub content: String,
    pub created_at: i64,
}

// ---------------------------------------------------------------- prompts

/// The summarize prompt for a ticket.
pub open spec fn summarize_text(title: Seq<char>, description: Seq<char>) -> Seq<char> {
    "Summarize the following bug ticket in 1-2 concise, plain-language sentences for a support engineer skimming a queue. Do not repeat the title verbatim.\n\nTitle: "@
        + title + "\nDescription: "@ + description
}

/// The analyze prompt for a ticket.
pub open spec fn analyze_text(title: Seq<char>, description: Seq<char>) -> Seq<char> {
    "You are triaging a bug ticket. Based on the title and description below, provide: a severity estimate (one of \"low\", \"medium\", \"high\", \"critical\"), a short actionable suggested fix, and a short classification label (e.g. \"bug\", \"feature request\", \"performance\", \"security\").\n\nTitle: "@
        + title + "\nDescription: "@ + description
}

/// The conversation part of the chat prompt: nothing for a first message.
pub open spec fn history_section(transcript: Seq<char>) -> Seq<char> {
    if transcript.len() == 0 {
        seq![]
    } else {
        "\n\nConversation so far:\n"@ + transcript
    }
}

/// The chat prompt: the scope instruction, the ticket, the conversation so
/// far and the new message.
pub open spec fn chat_text(
    title: Seq<char>,
    description: Seq<char>,
    transcript: Seq<char>,
    message: Seq<char>,
) -> Seq<char> {
    "You are a support assistant helping with ONE bug ticket in a bug-tracking tool. Only answer questions about this ticket or about triaging/resolving it. If the new message is unrelated to this ticket or to bug-tracking work in general, do not answer it \u{2014} instead reply that you're here to help with this issue and can't assist with unrelated requests. Use the ticket's title and description as context, and the conversation so far (if any) for continuity. Keep the reply short and conversational, a few sentences at most.\n\nTitle: "@
        + title + "\nDescription: "@ + description + history_section(transcript)
        + "\n\nNew message (stay in scope): "@ + message
}

/// The report prompt: the statistics digest, to be narrated.
pub open spec fn report_text(stats: Seq<char>) -> Seq<char> {
    "Write a short, plain-language status report (a few sentences) for the admin of a bug-tracking group, based only on these statistics. Do not invent numbers.\n\nStatistics: "@
        + stats
}

pub fn report_prompt(stats_summary: &str) -> (p: String)
    ensures
        p@ == report_text(stats_summary@),
{
    let mut p = String::new();
    push_str(
        &mut p,
        "Write a short, plain-language status report (a few sentences) for the admin of a bug-tracking group, based only on these statistics. Do not invent numbers.\n\nStatistics: ",
    );
    push_str(&mut p, stats_summary);
    p
}

pub fn summarize_prompt(title: &str, description: &str) -> (p: String)
    ensures
        p@ == summarize_text(title@, description@),
{
    let mut p = String::new();
    push_str(
        &mut p,
        "Summarize the following bug ticket in 1-2 concise, plain-language sentences for a support engineer skimming a queue. Do not repeat the title verbatim.\n\nTitle: ",
    );
    push_str(&mut p, title);
    push_str(&mut p, "\nDescription: ");
    push_str(&mut p, description);
    p
}

pub fn analyze_prompt(title: &str, description: &str) -> (p: String)
    ensures
        p@ == analyze_text(title@, description@),
{
    let mut p = String::new();
    push_str(
        &mut p,
        "You are triaging a bug ticket. Based on the title and description below, provide: a severity estimate (one of \"low\", \"medium\", \"high\", \"critical\"), a short actionable suggested fix, and a short classification label (e.g. \"bug\", \"feature request\", \"performance\", \"security\").\n\nTitle: ",
    );
    push_str(&mut p, title);
    push_str(&mut p, "\nDescription: ");
    push_str(&mut p, description);
    p
}

pub fn chat_prompt(title: &str, description: &str, transcript: &str, message: &str) -> (p: String)
    ensures
        p@ == chat_text(title@, description@, transcript@, message@),
{
    let mut p = String::new();
    push_str(
        &mut p,
        "You are a support assistant helping with ONE bug ticket in a bug-tracking tool. Only answer questions about this ticket or about triaging/resolving it. If the new message is unrelated to this ticket or to bug-tracking work in general, do not answer it \u{2014} instead reply that you're here to help with this issue and can't assist with unrelated requests. Use the ticket's title and description as context, and the conversation so far (if any) for continuity. Keep the reply short and conversational, a few sentences at most.\n\nTitle: ",
    );
    push_str(&mut p, title);
    push_str(&mut p, "\nDescription: ");
    push_str(&mut p, description);
    let ghost before = p@;
    if !transcript.is_empty() {
        push_str(&mut p, "\n\nConversation so far:\n");
        push_str(&mut p, transcript);
    }
    assert(p@ == before + history_section(transcript@));
    push_str(&mut p, "\n\nNew message (stay in scope): ");
    push_str(&mut p, message);
    p
}

// ------------------------------------------------------------ validation

/// The longest chat message accepted, in characters.
pub const MAX_MESSAGE_LEN: usize = 2000;

/// A chat message must hold more than white space and at most 2000
/// characters (Unicode scalar values, not bytes).
pub fn validate_message(message: &str) -> (r: Result<(), ApiError>)
    ensures
        r is Ok <==> (trimmed(message@).len() > 0 && message@.len() <= 2000),
        trimmed(message@).len() == 0 ==> (r matches Err(e) && e.is_validation(
            "message is required"@,
        )),
        trimmed(message@).len() > 0 && message@.len() > 2000 ==> (r matches Err(e)
            && e.is_validation("message must be at most 2000 characters"@)),
{
    if is_blank(message) {
        return Err(validation("message is required"));
    }
    let chars = chars_of(message);
    if chars.len() > MAX_MESSAGE_LEN {
        return Err(validation("message must be at most 2000 characters"));
    }
    Ok(())
}

// ------------------------------------------------------------ transcript

/// How many earlier messages the chat prompt carries.
pub const CHAT_HISTORY_LIMIT: usize = 20;

pub open spec fn speaker(role: ChatRole) -> Seq<char> {
    match role {
        ChatRole::User => "User"@,
        ChatRole::Assistant => "Assistant"@,
    }
}

/// One message as a transcript line: `Speaker: content`.
pub open spec fn transcript_line(m: ChatMessage) -> Seq<char> {
    speaker(m.role) + ": "@ + m.content@
}

/// The lines of `ms`, joined by newlines.
pub open spec fn joined_lines(ms: Seq<ChatMessage>) -> Seq<char>
    decreases ms.len(),
{
    if ms.len() == 0 {
        seq![]
    } else if ms.len() == 1 {
        transcript_line(ms[0])
    } else {
        joined_lines(ms.drop_last()) + "\n"@ + transcript_line(ms.last())
    }
}

/// The transcript of a history: its last 20 messages, oldest first.
pub open spec fn transcript_of(history: Seq<ChatMessage>) -> Seq<char> {
    let start = if history.len() > 20 {
        history.len() - 20
    } else {
        0
    };
    joined_lines(history.subrange(start, history.len() as int))
}

/// Renders the tail of a conversation for the prompt.
pub fn build_transcript(history: &[ChatMessage]) -> (t: String)
    ensures
        t@ == transcript_of(history@),
{
    let n = history.len();
    let start: usize = if n > CHAT_HISTORY_LIMIT {
        n - CHAT_HISTORY_LIMIT
    } else {
        0
    };
    let mut t = String::new();
    let mut i = start;
    assert(history@.subrange(start as int, start as int) =~= Seq::<ChatMessage>::empty());
    while i < n
        invariant
            start <= i <= n == history@.len(),
            t@ == joined_lines(history@.subrange(start as int, i as int)),
        decreases n - i,
    {
        let m = &history[i];
        let ghost before = history@.subrange(start as int, i as int);
        let ghost after = history@.subrange(start as int, i + 1);
        proof {
            assert(after.drop_last() == before);
            assert(after.last() == history@[i as int]);
        }
        if i > start {
            push_str(&mut t, "\n");
        }
        match m.role {
            ChatRole::User => push_str(&mut t, "User"),
            ChatRole::Assistant => push_str(&mut t, "Assistant"),
        }
        push_str(&mut t, ": ");
        push_str(&mut t, m.content.as_str());
        proof {
            if i == start {
                assert(after.len() == 1);
                assert(t@ =~= joined_lines(after));
            } else {
                assert(t@ =~= joined_lines(after));
            }
        }
        i = i + 1;
    }
    t
}

// -------------------------------------------------------------- caching

impl AiTicketInsight {
    /// The stored summary was generated from content stamped `t`.
    pub open spec fn summary_fresh_at(self, t: i64) -> bool {
        self.summary is Some && self.summary_source_updated_at == Some(t)
    }

    /// All three analysis parts are stored and were generated from content
    /// stamped `t`.
    pub open spec fn analysis_fresh_at(self, t: i64) -> bool {
        &&& self.severity_prediction is Some
        &&& self.suggested_fix is Some
        &&& self.classification is Some
        &&& self.analysis_source_updated_at == Some(t)
    }

    pub fn is_summary_fresh(&self, ticket_content_updated_at: i64) -> (b: bool)
        ensures
            b == self.summary_fresh_at(ticket_content_updated_at),
    {
        self.summary.is_some() && match self.summary_source_updated_at {
            Some(t) => t == ticket_content_updated_at,
            None => false,
        }
    }

    pub fn is_analysis_fresh(&self, ticket_content_updated_at: i64) -> (b: bool)
        ensures
            b == self.analysis_fresh_at(ticket_content_updated_at),
    {
        self.severity_prediction.is_some() && self.suggested_fix.is_some()
            && self.classification.is_some() && match self.analysis_source_updated_at {
            Some(t) => t == ticket_content_updated_at,
            None => false,
        }
    }
}

/// The summary reply served from the cache, when the stored one is still
/// fresh for the ticket's current content; `None` means the AI must run.
pub fn cached_summary(insight: &Option<AiTicketInsight>, content_updated_at: i64) -> (r: Option<
    TicketSummaryResponse,
>)
    ensures
        r is Some <==> (insight matches Some(i) && i.summary_fresh_at(content_updated_at)),
        r matches Some(s) ==> {
            &&& s.cached
            &&& insight matches Some(i)
            &&& i.summary matches Some(t) && s.summary@ == t@
        },
{
    match insight {
        Some(i) => {
            if i.is_summary_fresh(content_updated_at) {
                match &i.summary {
                    Some(t) => Some(TicketSummaryResponse { summary: t.clone(), cached: true }),
                    None => None,
                }
            } else {
                None
            }
        },
        None => None,
    }
}

/// The analysis reply served from the cache, when the stored one is still
/// fresh for the ticket's current content; `None` means the AI must run.
pub fn cached_analysis(insight: &Option<AiTicketInsight>, content_updated_at: i64) -> (r: Option<
    TicketAnalysisResponse,
>)
    ensures
        r is Some <==> (insight matches Some(i) && i.analysis_fresh_at(content_updated_at)),
        r matches Some(a) ==> {
            &&& a.cached
            &&& insight matches Some(i)
            &&& i.severity_prediction matches Some(x) && a.severity_prediction@ == x@
            &&& i.suggested_fix matches Some(y) && a.suggested_fix@ == y@
            &&& i.classification matches Some(z) && a.classification@ == z@
        },
{
    match insight {
        Some(i) => {
            if i.is_analysis_fresh(content_updated_at) {
                match (&i.severity_prediction, &i.suggested_fix, &i.classification) {
                    (Some(x), Some(y), Some(z)) => Some(
                        TicketAnalysisResponse {
                            severity_prediction: x.clone(),
                            suggested_fix: y.clone(),
                            classification: z.clone(),
                            cached: true,
                        },
                    ),
                    _ => None,
                }
            } else {
                None
            }
        },
        None => None,
    }
}

/// How long a generated group report is reused, in milliseconds.
pub const REPORT_TTL_MILLIS: i64 = 3600000;

/// A report generated at `generated_at` may still be served at `now`.
pub open spec fn report_fresh_at(generated_at: i64, now: i64) -> bool {
    now - generated_at < 3600000
}

pub fn is_report_fresh(generated_at: i64, now: i64) -> (b: bool)
    ensures
        b == report_fresh_at(generated_at, now),
{
    (now as i128) - (generated_at as i128) < (REPORT_TTL_MILLIS as i128)
}

// ------------------------------------------------------------ rate limit

/// Chat messages a user may send per window.
pub const CHAT_RATE_LIMIT: u64 = 10;

/// The rate-limit window, in milliseconds.
pub const CHAT_RATE_WINDOW_MILLIS: i64 = 3600000;

/// The start of the window that ends at `now`.
pub fn chat_window_start(now: i64) -> (since: i64)
    requires
        now >= i64::MIN + 3600000,
    ensures
        since == now - 3600000,
{
    now - CHAT_RATE_WINDOW_MILLIS
}

/// A user who sent `recent_count` messages in the window may send another
/// only while under the limit.
pub fn check_chat_rate(recent_count: u64) -> (r: Result<(), ApiError>)
    ensures
        r is Ok <==> recent_count < 10,
        r matches Err(e) ==> e.is_rate_limited(
            "chat message limit reached (10 per hour) \u{2014} try again later"@,
        ),
{
    if recent_count >= CHAT_RATE_LIMIT {
        return Err(
            ApiError::RateLimited(
                "chat message limit reached (10 per hour) \u{2014} try again later".to_string(),
            ),
        );
    }
    Ok(())
}

// -------------------------------------------------------------- provider

/// The AI key the assistant is called with: without one configured, every
/// AI request is an internal error (the rest of the service runs without
/// it).
pub fn require_ai_key(key: &Option<String>) -> (r: Result<String, ApiError>)
    ensures
        r is Err <==> key is None,
        r matches Err(e) ==> e is Internal,
        r matches Ok(k) ==> key matches Some(s) && k@ == s@,
{
    match key {
        Some(k) => Ok(k.clone()),
        None => Err(ApiError::Internal),
    }
}

/// The error a failed provider response surfaces as: quota exhaustion and
/// overload are transient (`AiUnavailable`); anything else is `Internal`.
pub fn ai_error_for_status(status: u16) -> (e: ApiError)
    ensures
        (status == 429 || status == 500 || status == 502 || status == 503 || status == 504)
            ==> e is AiUnavailable,
        !(status == 429 || status == 500 || status == 502 || status == 503 || status == 504)
            ==> e is Internal,
{
    match status {
        429 | 500 | 502 | 503 | 504 => ApiError::AiUnavailable,
        _ => ApiError::Internal,
    }
}

/// The text part of a provider reply, `candidates[0].content.parts[0].text`,
/// or `None` when the body is not JSON or holds no such string.
pub uninterp spec fn reply_text(body: Seq<char>) -> Option<Seq<char>>;

/// Parses `body` with `serde_json::from_str` into a `serde_json::Value` and
/// reads the string at `candidates[0].content.parts[0].text`. Claimed: the
/// result is `reply_text` of the body (a function of the body alone).
#[verifier::external_body]
fn gemini_reply_text(body: &str) -> (r: Option<String>)
    ensures
        match r {
            Some(t) => reply_text(body@) == Some(t@),
            None => reply_text(body@) is None,
        },
{
    let value: serde_json::Value = serde_json::from_str(body).ok()?;
    value["candidates"][0]["content"]["parts"][0]["text"].as_str().map(|t| t.to_string())
}

/// The model's text out of a reply envelope; a body without one is
/// `Internal`.
pub fn extract_text(body: &str) -> (r: Result<String, ApiError>)
    ensures
        match reply_text(body@) {
            Some(t) => r matches Ok(s) && s@ == t,
            None => r matches Err(e) && e is Internal,
        },
{
    match gemini_reply_text(body) {
        Some(t) => Ok(t),
        None => Err(ApiError::Internal),
    }
}

/// A summary (or chat reply) from the model's text: trimmed, and refused
/// as `Internal` when nothing is left.
pub fn summary_from_text(text: &str) -> (r: Result<String, ApiError>)
    ensures
        trimmed(text@).len() == 0 ==> (r matches Err(e) && e is Internal),
        trimmed(text@).len() > 0 ==> (r matches Ok(s) && s@ == trimmed(text@)),
{
    let t = trim_chars(text);
    if t.len() == 0 {
        return Err(ApiError::Internal);
    }
    Ok(string_of(t.as_slice()))
}

/// Reads a summary or chat reply out of a provider body.
pub fn parse_summary_response(body: &str) -> (r: Result<String, ApiError>)
    ensures
        match reply_text(body@) {
            None => r matches Err(e) && e is Internal,
            Some(t) => if trimmed(t).len() == 0 {
                r matches Err(e) && e is Internal
            } else {
                r matches Ok(s) && s@ == trimmed(t)
            },
        },
{
    let text = extract_text(body)?;
    summary_from_text(text.as_str())
}

/// The three string fields `severity`, `suggested_fix` and
/// `classification` of the JSON object `text`, or `None` when `text` is not
/// such an object.
pub uninterp spec fn analysis_fields(text: Seq<char>) -> Option<(Seq<char>, Seq<char>, Seq<char>)>;

/// Parses `text` with `serde_json::from_str` into a `serde_json::Value` and
/// reads its string fields `severity`, `suggested_fix` and
/// `classification`. Claimed: the result is `analysis_fields` of the text.
#[verifier::external_body]
fn parse_analysis_fields(text: &str) -> (r: Option<(String, String, String)>)
    ensures
        match r {
            Some(f) => analysis_fields(text@) == Some((f.0@, f.1@, f.2@)),
            None => analysis_fields(text@) is None,
        },
{
    let value: serde_json::Value = serde_json::from_str(text).ok()?;
    let field = |name: &str| value.get(name).and_then(|v| v.as_str()).map(|v| v.to_string());
    Some((field("severity")?, field("suggested_fix")?, field("classification")?))
}

/// An analysis from its three fields: each must hold more than white space,
/// else the reply is unusable (`Internal`). The fields are kept as sent.
pub fn analysis_from_fields(fields: Option<(String, String, String)>) -> (r: Result<
    AnalysisResult,
    ApiError,
>)
    ensures
        match fields {
            None => r matches Err(e) && e is Internal,
            Some(f) => if trimmed(f.0@).len() == 0 || trimmed(f.1@).len() == 0 || trimmed(
                f.2@,
            ).len() == 0 {
                r matches Err(e) && e is Internal
            } else {
                r matches Ok(a) && a.severity_prediction@ == f.0@ && a.suggested_fix@ == f.1@
                    && a.classification@ == f.2@
            },
        },
{
    match fields {
        None => Err(ApiError::Internal),
        Some((severity, fix, class)) => {
            if is_blank(severity.as_str()) || is_blank(fix.as_str()) || is_blank(class.as_str()) {
                return Err(ApiError::Internal);
            }
            Ok(AnalysisResult { severity_prediction: severity, suggested_fix: fix, classification: class })
        },
    }
}

/// Reads an analysis out of a provider body: the envelope's text must be a
/// JSON object with the three fields, none of them blank.
pub fn parse_analysis_response(body: &str) -> (r: Result<AnalysisResult, ApiError>)
    ensures
        match reply_text(body@) {
            None => r matches Err(e) && e is Internal,
            Some(t) => match analysis_fields(t) {
                None => r matches Err(e) && e is Internal,
                Some(f) => if trimmed(f.0).len() == 0 || trimmed(f.1).len() == 0 || trimmed(
                    f.2,
                ).len() == 0 {
                    r matches Err(e) && e is Internal
                } else {
                    r matches Ok(a) && a.severity_prediction@ == f.0 && a.suggested_fix@ == f.1
                        && a.classification@ == f.2
                },
            },
        },
{
    let text = extract_text(body)?;
    analysis_from_fields(parse_analysis_fields(text.as_str()))
}

// ---------------------------------------------------------- group report

/// How far back "recent" reaches: seven days, in milliseconds.
pub const RECENT_WINDOW_MILLIS: i64 = 604800000;

#[derive(Debug, Clone, Copy, PartialEq, Eq, Structural)]
pub struct PriorityBreakdown {
    pub low: i64,
    pub high: i64,
    pub critical: i64,
}

/// The counts a group report is built from.
#[derive(Debug, Clone, Copy, PartialEq, Eq, Structural)]
pub struct Stats {
    pub total_tickets: i64,
    pub open_tickets: i64,
    pub closed_tickets: i64,
    pub priority_breakdown: PriorityBreakdown,
    pub recent_tickets_7d: i64,
}

/// A generated report: the counts and the model's narrative.
#[derive(Debug, Clone)]
pub struct ReportData {
    pub total_tickets: i64,
    pub open_tickets: i64,
    pub closed_tickets: i64,
    pub priority_breakdown: PriorityBreakdown,
    pub recent_tickets_7d: i64,
    pub narrative: String,
}

/// Reply of the report endpoint; `generated_at` in milliseconds.
#[derive(Debug, Clone)]
pub struct GroupReportResponse {
    pub data: ReportData,
    pub generated_at: i64,
    pub cached: bool,
}

/// How many of `ts` have status `s`.
pub open spec fn count_status(ts: Seq<Ticket>, s: TicketStatus) -> nat
    decreases ts.len(),
{
    if ts.len() == 0 {
        0
    } else {
        count_status(ts.drop_last(), s) + if ts.last().status == s {
            1nat
        } else {
            0nat
        }
    }
}

/// How many of `ts` have priority `p`.
pub open spec fn count_priority(ts: Seq<Ticket>, p: TicketPriority) -> nat
    decreases ts.len(),
{
    if ts.len() == 0 {
        0
    } else {
        count_priority(ts.drop_last(), p) + if ts.last().priority == p {
            1nat
        } else {
            0nat
        }
    }
}

/// A ticket created less than seven days before `now`.
pub open spec fn is_recent(t: Ticket, now: i64) -> bool {
    now - t.created_at < 604800000
}

/// How many of `ts` are recent at `now`.
pub open spec fn count_recent(ts: Seq<Ticket>, now: i64) -> nat
    decreases ts.len(),
{
    if ts.len() == 0 {
        0
    } else {
        count_recent(ts.drop_last(), now) + if is_recent(ts.last(), now) {
            1nat
        } else {
            0nat
        }
    }
}

proof fn lemma_counts_bounded(ts: Seq<Ticket>, now: i64)
    ensures
        count_status(ts, TicketStatus::Open) + count_status(ts, TicketStatus::Closed) == ts.len(),
        count_priority(ts, TicketPriority::Low) + count_priority(ts, TicketPriority::High)
            + count_priority(ts, TicketPriority::Critical) == ts.len(),
        count_recent(ts, now) <= ts.len(),
    decreases ts.len(),
{
    if ts.len() > 0 {
        lemma_counts_bounded(ts.drop_last(), now);
    }
}

/// The counts of a group's tickets at `now`.
pub fn aggregate_stats(tickets: &[Ticket], now: i64) -> (st: Stats)
    requires
        tickets@.len() <= i64::MAX,
    ensures
        st.total_tickets == tickets@.len(),
        st.open_tickets == count_status(tickets@, TicketStatus::Open),
        st.closed_tickets == count_status(tickets@, TicketStatus::Closed),
        st.priority_breakdown.low == count_priority(tickets@, TicketPriority::Low),
        st.priority_breakdown.high == count_priority(tickets@, TicketPriority::High),
        st.priority_breakdown.critical == count_priority(tickets@, TicketPriority::Critical),
        st.recent_tickets_7d == count_recent(tickets@, now),
{
    let n = tickets.len();
    let mut open: i64 = 0;
    let mut closed: i64 = 0;
    let mut low: i64 = 0;
    let mut high: i64 = 0;
    let mut critical: i64 = 0;
    let mut recent: i64 = 0;
    let mut i: usize = 0;
    while i < n
        invariant
            i <= n == tickets@.len() <= i64::MAX,
            open == count_status(tickets@.take(i as int), TicketStatus::Open),
            closed == count_status(tickets@.take(i as int), TicketStatus::Closed),
            low == count_priority(tickets@.take(i as int), TicketPriority::Low),
            high == count_priority(tickets@.take(i as int), TicketPriority::High),
            critical == count_priority(tickets@.take(i as int), TicketPriority::Critical),
            recent == count_recent(tickets@.take(i as int), now),
        decreases n - i,
    {
        let t = &tickets[i];
        proof {
            let pre = tickets@.take(i as int);
            let post = tickets@.take(i + 1);
            assert(post.drop_last() == pre);
            assert(post.last() == tickets@[i as int]);
            lemma_counts_bounded(pre, now);
        }
        match t.status {
            TicketStatus::Open => open = open + 1,
            TicketStatus::Closed => closed = closed + 1,
        }
        match t.priority {
            TicketPriority::Low => low = low + 1,
            TicketPriority::High => high = high + 1,
            TicketPriority::Critical => critical = critical + 1,
        }
        if (now as i128) - (t.created_at as i128) < (RECENT_WINDOW_MILLIS as i128) {
            recent = recent + 1;
        }
        i = i + 1;
    }
    assert(tickets@.take(n as int) == tickets@);
    Stats {
        total_tickets: n as i64,
        open_tickets: open,
        closed_tickets: closed,
        priority_breakdown: PriorityBreakdown { low, high, critical },
        recent_tickets_7d: recent,
    }
}

/// Every ticket is either open or closed, has exactly one priority, and
/// recent ones are among them: the report's counts add up.
pub proof fn law_report_counts_add_up(tickets: Seq<Ticket>, now: i64)
    ensures
        count_status(tickets, TicketStatus::Open) + count_status(tickets, TicketStatus::Closed)
            == tickets.len(),
        count_priority(tickets, TicketPriority::Low) + count_priority(tickets, TicketPriority::High)
            + count_priority(tickets, TicketPriority::Critical) == tickets.len(),
        count_recent(tickets, now) <= tickets.len(),
{
    lemma_counts_bounded(tickets, now);
}

proof fn lemma_counts_filter(ts: Seq<Ticket>, now: i64)
    ensures
        count_recent(ts, now) == ts.filter(|t: Ticket| now - t.created_at < 604800000).len(),
        count_status(ts, TicketStatus::Open) == ts.filter(
            |t: Ticket| t.status == TicketStatus::Open,
        ).len(),
        count_status(ts, TicketStatus::Closed) == ts.filter(
            |t: Ticket| t.status == TicketStatus::Closed,
        ).len(),
        count_priority(ts, TicketPriority::Low) == ts.filter(
            |t: Ticket| t.priority == TicketPriority::Low,
        ).len(),
        count_priority(ts, TicketPriority::High) == ts.filter(
            |t: Ticket| t.priority == TicketPriority::High,
        ).len(),
        count_priority(ts, TicketPriority::Critical) == ts.filter(
            |t: Ticket| t.priority == TicketPriority::Critical,
        ).len(),
    decreases ts.len(),
{
    reveal(Seq::filter);
    if ts.len() > 0 {
        lemma_counts_filter(ts.drop_last(), now);
    }
}

/// The report counts, ticket by ticket: the recent count is the number of
/// tickets created less than seven days (604 800 000 ms) before `now`, and
/// the status and priority counts are the numbers of tickets with that
/// status or priority.
pub proof fn law_report_counts_are_ticket_counts(tickets: Seq<Ticket>, now: i64)
    ensures
        count_recent(tickets, now) == tickets.filter(
            |t: Ticket| now - t.created_at < 604800000,
        ).len(),
        count_status(tickets, TicketStatus::Open) == tickets.filter(
            |t: Ticket| t.status == TicketStatus::Open,
        ).len(),
        count_status(tickets, TicketStatus::Closed) == tickets.filter(
            |t: Ticket| t.status == TicketStatus::Closed,
        ).len(),
        count_priority(tickets, TicketPriority::Low) == tickets.filter(
            |t: Ticket| t.priority == TicketPriority::Low,
        ).len(),
        count_priority(tickets, TicketPriority::High) == tickets.filter(
            |t: Ticket| t.priority == TicketPriority::High,
        ).len(),
        count_priority(tickets, TicketPriority::Critical) == tickets.filter(
            |t: Ticket| t.priority == TicketPriority::Critical,
        ).len(),
{
    lemma_counts_filter(tickets, now);
}

/// Editing tickets does not make them recent: two ticket lists that differ
/// only in when each ticket was last updated have the same recent count.
pub proof fn law_recent_count_ignores_edits(a: Seq<Ticket>, b: Seq<Ticket>, now: i64)
    requires
        a.len() == b.len(),
        forall|i: int| 0 <= i < a.len() ==> (#[trigger] a[i]).created_at == b[i].created_at,
    ensures
        count_recent(a, now) == count_recent(b, now),
    decreases a.len(),
{
    if a.len() > 0 {
        assert(a.last().created_at == b.last().created_at);
        law_recent_count_ignores_edits(a.drop_last(), b.drop_last(), now);
    }
}

/// The plain-text digest of the counts the model narrates.
pub open spec fn stats_text(st: Stats) -> Seq<char> {
    "Total tickets: "@ + signed_decimal(st.total_tickets as int) + ". Open: "@ + signed_decimal(
        st.open_tickets as int,
    ) + ". Closed: "@ + signed_decimal(st.closed_tickets as int)
        + ". Priority breakdown \u{2014} low: "@ + signed_decimal(
        st.priority_breakdown.low as int,
    ) + ", high: "@ + signed_decimal(st.priority_breakdown.high as int) + ", critical: "@
        + signed_decimal(st.priority_breakdown.critical as int)
        + ". Created in the last 7 days: "@ + signed_decimal(st.recent_tickets_7d as int) + "."@
}

pub fn stats_summary(stats: &Stats) -> (s: String)
    ensures
        s@ == stats_text(*stats),
{
    let mut s = String::new();
    push_str(&mut s, "Total tickets: ");
    push_signed_decimal(&mut s, stats.total_tickets);
    push_str(&mut s, ". Open: ");
    push_signed_decimal(&mut s, stats.open_tickets);
    push_str(&mut s, ". Closed: ");
    push_signed_decimal(&mut s, stats.closed_tickets);
    push_str(&mut s, ". Priority breakdown \u{2014} low: ");
    push_signed_decimal(&mut s, stats.priority_breakdown.low);
    push_str(&mut s, ", high: ");
    push_signed_decimal(&mut s, stats.priority_breakdown.high);
    push_str(&mut s, ", critical: ");
    push_signed_decimal(&mut s, stats.priority_breakdown.critical);
    push_str(&mut s, ". Created in the last 7 days: ");
    push_signed_decimal(&mut s, stats.recent_tickets_7d);
    push_str(&mut s, ".");
    s
}

/// The report made of the counts and the model's narrative.
pub fn report_data(stats: &Stats, narrative: String) -> (d: ReportData)
    ensures
        d.total_tickets == stats.total_tickets,
        d.open_tickets == stats.open_tickets,
        d.closed_tickets == stats.closed_tickets,
        d.priority_breakdown == stats.priority_breakdown,
        d.recent_tickets_7d == stats.recent_tickets_7d,
        d.narrative == narrative,
{
    ReportData {
        total_tickets: stats.total_tickets,
        open_tickets: stats.open_tickets,
        closed_tickets: stats.closed_tickets,
        priority_breakdown: stats.priority_breakdown,
        recent_tickets_7d: stats.recent_tickets_7d,
        narrative,
    }
}

/// Opening or closing a ticket leaves its cached summary and analysis
/// fresh: the AI never reads the status.
pub proof fn law_status_change_keeps_ai_cache(
    t: Ticket,
    insight: AiTicketInsight,
    status: TicketStatus,
    now: i64,
)
    ensures
        ({
            let req = UpdateTicketRequest {
                title: None,
                description: None,
                priority: None,
                status: Some(status),
            };
            let after = apply_changes(t, planned_changes(req, now));
            &&& insight.summary_fresh_at(after.content_updated_at) == insight.summary_fresh_at(
                t.content_updated_at,
            )
            &&& insight.analysis_fresh_at(after.content_updated_at)
                == insight.analysis_fresh_at(t.content_updated_at)
        }),
{
}

/// Editing the title, description or priority at a new instant makes a
/// cached summary and analysis stale, so the AI runs again.
pub proof fn law_content_change_invalidates_ai_cache(
    t: Ticket,
    insight: AiTicketInsight,
    req: UpdateTicketRequest,
    now: i64,
)
    requires
        req.title is Some || req.description is Some || req.priority is Some,
        now != t.content_updated_at,
    ensures
        ({
            let after = apply_changes(t, planned_changes(req, now));
            &&& insight.summary_fresh_at(t.content_updated_at) ==> !insight.summary_fresh_at(
                after.content_updated_at,
            )
            &&& insight.analysis_fresh_at(t.content_updated_at) ==> !insight.analysis_fresh_at(
                after.content_updated_at,
            )
        }),
{
}

/// A chat message as clients see it; `user_name` is the author's current
/// name, absent for the assistant.
#[derive(Debug, Clone)]
pub struct ChatMessageResponse {
    pub id: String,
    pub role: ChatRole,
    pub user_id: Option<String>,
    pub user_name: Option<String>,
    pub content: String,
    pub created_at: i64,
}

/// Reply of the chat endpoint: the stored user message and the reply.
#[derive(Debug, Clone)]
pub struct SendChatMessageResponse {
    pub user_message: ChatMessageResponse,
    pub assistant_message: ChatMessageResponse,
}

/// A message to store: the user's own (with their id) or the assistant's.
pub fn new_chat_message(
    group_id: Oid,
    ticket_id: Oid,
    role: ChatRole,
    user_id: Option<Oid>,
    content: String,
    now: i64,
) -> (m: ChatMessage)
    ensures
        m.id is None,
        m.group_id == group_id && m.ticket_id == ticket_id,
        m.role == role && m.user_id == user_id,
        m.content == content,
        m.created_at == now,
{
    ChatMessage { id: None, group_id, ticket_id, role, user_id, content, created_at: now }
}

pub fn chat_message_response(message: ChatMessage, user_name: Option<String>) -> (r:
    ChatMessageResponse)
    ensures
        r.id@ == opt_id_text(message.id),
        r.role == message.role,
        match message.user_id {
            Some(u) => r.user_id matches Some(s) && s@ == hex_of(u.value as nat, 24),
            None => r.user_id is None,
        },
        message.user_id is Some ==> r.user_name == user_name,
        message.user_id is None ==> r.user_name is None,
        r.content == message.content,
        r.created_at == message.created_at,
{
    let (user_id, user_name) = match message.user_id {
        Some(u) => (Some(u.to_hex()), user_name),
        None => (None, None),
    };
    ChatMessageResponse {
        id: opt_id_string(message.id),
        role: message.role,
        user_id,
        user_name,
        content: message.content,
        created_at: message.created_at,
    }
}

} // verus!
