//! Tickets: the request checks, the listing's paging, and the title search
//! with its typo-tolerant fallback.
use vstd::prelude::*;
use crate::errors::{ApiError, validation};
use crate::ids::{Oid, parse_oid, is_oid_text, hex_value, hex_of};
use crate::user::{opt_id_string, opt_id_text};
use crate::text::{chars_of, is_blank, is_space, is_space_char, lowercase, to_lowercase, trim_chars, trimmed, string_of};
use crate::utils::{edit_distance, edit_distance_of};

verus! {

#[derive(Debug, Clone, Copy, PartialEq, Eq, Structural)]
pub enum TicketStatus {
    Open,
    Closed,
}

#[derive(Debug, Clone, Copy, PartialEq, Eq, Structural)]
pub enum TicketPriority {
    Low,
    High,
    Critical,
}

/// The stored (snake_case) name of a status.
pub open spec fn status_name(s: TicketStatus) -> Seq<char> {
    match s {
        TicketStatus::Open => "open"@,
        TicketStatus::Closed => "closed"@,
    }
}

/// The stored (snake_case) name of a priority.
pub open spec fn priority_name(p: TicketPriority) -> Seq<char> {
    match p {
        TicketPriority::Low => "low"@,
        TicketPriority::High => "high"@,
        TicketPriority::Critical => "critical"@,
    }
}

impl TicketStatus {
    pub fn as_str(&self) -> (s: &'static str)
        ensures
            s@ == status_name(*self),
    {
        match self {
            TicketStatus::Open => "open",
            TicketStatus::Closed => "closed",
        }
    }
}

impl TicketPriority {
    pub fn as_str(&self) -> (s: &'static str)
        ensures
            s@ == priority_name(*self),
    {
        match self {
            TicketPriority::Low => "low",
            TicketPriority::High => "high",
            TicketPriority::Critical => "critical",
        }
    }
}

/// A stored ticket. Times are milliseconds since the epoch.
/// `content_updated_at` moves only when title, description or priority
/// change, never on a status-only change; cached AI output is compared
/// against it.
#[derive(Debug, Clone)]
pub struct Ticket {
    pub id: Option<Oid>,
    pub group_id: Oid,
    /// Running number within the group, shown to users.
    pub ticket_number: i64,
    pub title: String,
    pub description: String,
    pub status: TicketStatus,
    pub priority: TicketPriority,
    pub created_by: Oid,
    pub created_at: i64,
    pub updated_at: i64,
    pub content_updated_at: i64,
}

impl Ticket {
    /// An identical copy.
    pub fn duplicate(&self) -> (r: Ticket)
        ensures
            r == *self,
    {
        Ticket {
            id: self.id,
            group_id: self.group_id,
            ticket_number: self.ticket_number,
            title: self.title.clone(),
            description: self.description.clone(),
            status: self.status,
            priority: self.priority,
            created_by: self.created_by,
            created_at: self.created_at,
            updated_at: self.updated_at,
            content_updated_at: self.content_updated_at,
        }
    }
}

/// What a ticket is created from.
#[derive(Debug)]
pub struct CreateTicketInput {
    pub group_id: Oid,
    pub ticket_number: i64,
    pub title: String,
    pub description: String,
    pub priority: TicketPriority,
    pub created_by: Oid,
}

/// Body of `POST /groups/{id}/tickets`.
#[derive(Debug)]
pub struct CreateTicketRequest {
    pub title: String,
    pub description: String,
    pub priority: TicketPriority,
}

/// Body of `PATCH /groups/{id}/tickets/{ticket_id}`; every field optional.
#[derive(Debug)]
pub struct UpdateTicketRequest {
    pub title: Option<String>,
    pub description: Option<String>,
    pub priority: Option<TicketPriority>,
    pub status: Option<TicketStatus>,
}

/// Query of `GET /groups/{id}/tickets`.
#[derive(Debug)]
pub struct ListTicketsQuery {
    pub q: Option<String>,
    pub status: Option<TicketStatus>,
    pub priority: Option<TicketPriority>,
    pub creator: Option<String>,
    pub page: Option<u64>,
    pub per_page: Option<u64>,
}

/// A ticket as clients see it, with its creator's current name.
#[derive(Debug, Clone)]
pub struct TicketResponse {
    pub id: String,
    pub group_id: String,
    pub ticket_number: i64,
    pub title: String,
    pub description: String,
    pub status: TicketStatus,
    pub priority: TicketPriority,
    pub created_by: String,
    pub created_by_name: String,
    pub created_at: i64,
    pub updated_at: i64,
}

/// One page of a ticket listing.
#[derive(Debug)]
pub struct TicketListResponse {
    pub items: Vec<TicketResponse>,
    pub total: u64,
    pub page: u64,
    pub per_page: u64,
}

/// What a create request stores, once the group's next number was taken.
pub fn create_input(group_id: Oid, user_id: Oid, ticket_number: i64, input: CreateTicketRequest) -> (r:
    CreateTicketInput)
    ensures
        r.group_id == group_id,
        r.ticket_number == ticket_number,
        r.title == input.title,
        r.description == input.description,
        r.priority == input.priority,
        r.created_by == user_id,
{
    CreateTicketInput {
        group_id,
        ticket_number,
        title: input.title,
        description: input.description,
        priority: input.priority,
        created_by: user_id,
    }
}

/// A new ticket as stored at `now`: open, with every timestamp at `now`.
pub fn new_ticket(input: CreateTicketInput, now: i64) -> (t: Ticket)
    ensures
        t.id is None,
        t.group_id == input.group_id,
        t.ticket_number == input.ticket_number,
        t.title == input.title,
        t.description == input.description,
        t.status == TicketStatus::Open,
        t.priority == input.priority,
        t.created_by == input.created_by,
        t.created_at == now && t.updated_at == now && t.content_updated_at == now,
{
    Ticket {
        id: None,
        group_id: input.group_id,
        ticket_number: input.ticket_number,
        title: input.title,
        description: input.description,
        status: TicketStatus::Open,
        priority: input.priority,
        created_by: input.created_by,
        created_at: now,
        updated_at: now,
        content_updated_at: now,
    }
}

/// A ticket as clients see it, with its creator's current name.
pub fn ticket_response(ticket: Ticket, created_by_name: String) -> (r: TicketResponse)
    ensures
        r.id@ == opt_id_text(ticket.id),
        r.group_id@ == hex_of(ticket.group_id.value as nat, 24),
        r.ticket_number == ticket.ticket_number,
        r.title == ticket.title,
        r.description == ticket.description,
        r.status == ticket.status,
        r.priority == ticket.priority,
        r.created_by@ == hex_of(ticket.created_by.value as nat, 24),
        r.created_by_name == created_by_name,
        r.created_at == ticket.created_at,
        r.updated_at == ticket.updated_at,
{
    TicketResponse {
        id: opt_id_string(ticket.id),
        group_id: ticket.group_id.to_hex(),
        ticket_number: ticket.ticket_number,
        title: ticket.title,
        description: ticket.description,
        status: ticket.status,
        priority: ticket.priority,
        created_by: ticket.created_by.to_hex(),
        created_by_name,
        created_at: ticket.created_at,
        updated_at: ticket.updated_at,
    }
}

/// The longest title accepted, in characters.
pub const MAX_TITLE_LEN: usize = 200;

/// A new ticket needs a title (at most 200 characters) and a description.
pub fn validate_create(input: &CreateTicketRequest) -> (r: Result<(), ApiError>)
    ensures
        r is Ok <==> (trimmed(input.title@).len() > 0 && input.title@.len() <= 200
            && trimmed(input.description@).len() > 0),
        trimmed(input.title@).len() == 0 ==> (r matches Err(e) && e.is_validation(
            "title is required"@,
        )),
        trimmed(input.title@).len() > 0 && input.title@.len() > 200 ==> (r matches Err(
            e,
        ) && e.is_validation("title must be at most 200 characters"@)),
        trimmed(input.title@).len() > 0 && input.title@.len() <= 200 && trimmed(
            input.description@,
        ).len() == 0 ==> (r matches Err(e) && e.is_validation("description is required"@)),
{
    if is_blank(input.title.as_str()) {
        return Err(validation("title is required"));
    }
    if chars_of(input.title.as_str()).len() > MAX_TITLE_LEN {
        return Err(validation("title must be at most 200 characters"));
    }
    if is_blank(input.description.as_str()) {
        return Err(validation("description is required"));
    }
    Ok(())
}

/// An update must change something.
pub fn validate_update(input: &UpdateTicketRequest) -> (r: Result<(), ApiError>)
    ensures
        r is Ok <==> (input.title is Some || input.description is Some || input.priority is Some
            || input.status is Some),
        r matches Err(e) ==> e.is_validation("nothing to update"@),
{
    if input.title.is_none() && input.description.is_none() && input.priority.is_none()
        && input.status.is_none() {
        return Err(validation("nothing to update"));
    }
    Ok(())
}

/// Whether an update touches what the AI reads (title, description or
/// priority), which is what moves `content_updated_at`.
pub fn changes_content(input: &UpdateTicketRequest) -> (b: bool)
    ensures
        b == (input.title is Some || input.description is Some || input.priority is Some),
{
    input.title.is_some() || input.description.is_some() || input.priority.is_some()
}

/// The fields an update writes. `content_updated_at` is written only when
/// the update touches title, description or priority.
#[derive(Debug)]
pub struct TicketChanges {
    pub title: Option<String>,
    pub description: Option<String>,
    pub priority: Option<TicketPriority>,
    pub status: Option<TicketStatus>,
    pub updated_at: i64,
    pub content_updated_at: Option<i64>,
}

/// What an update at `now` writes.
pub open spec fn planned_changes(input: UpdateTicketRequest, now: i64) -> TicketChanges {
    TicketChanges {
        title: input.title,
        description: input.description,
        priority: input.priority,
        status: input.status,
        updated_at: now,
        content_updated_at: if input.title is Some || input.description is Some
            || input.priority is Some {
            Some(now)
        } else {
            None
        },
    }
}

/// The stored ticket after the changes are written.
pub open spec fn apply_changes(t: Ticket, c: TicketChanges) -> Ticket {
    Ticket {
        title: match c.title {
            Some(x) => x,
            None => t.title,
        },
        description: match c.description {
            Some(x) => x,
            None => t.description,
        },
        priority: match c.priority {
            Some(x) => x,
            None => t.priority,
        },
        status: match c.status {
            Some(x) => x,
            None => t.status,
        },
        updated_at: c.updated_at,
        content_updated_at: match c.content_updated_at {
            Some(x) => x,
            None => t.content_updated_at,
        },
        ..t
    }
}

/// The fields an update at `now` writes: those it carries, `updated_at`,
/// and `content_updated_at` when the content changes.
pub fn plan_ticket_update(input: UpdateTicketRequest, now: i64) -> (c: TicketChanges)
    ensures
        c == planned_changes(input, now),
        c.title == input.title && c.description == input.description,
        c.priority == input.priority && c.status == input.status,
        c.updated_at == now,
{
    let content = changes_content(&input);
    TicketChanges {
        title: input.title,
        description: input.description,
        priority: input.priority,
        status: input.status,
        updated_at: now,
        content_updated_at: if content {
            Some(now)
        } else {
            None
        },
    }
}

/// Writing the planned changes of an update gives the ticket every value
/// the update asks for and keeps every other field: title, description,
/// priority and status become the requested ones where the update carries
/// them, `updated_at` becomes the time of the update, `content_updated_at`
/// moves exactly when the content (title, description or priority) is
/// touched, and identity, number, author and creation time stay.
pub proof fn law_update_writes_what_it_asks(t: Ticket, input: UpdateTicketRequest, now: i64)
    ensures
        ({
            let u = apply_changes(t, planned_changes(input, now));
            &&& u.title == (match input.title {
                Some(x) => x,
                None => t.title,
            })
            &&& u.description == (match input.description {
                Some(x) => x,
                None => t.description,
            })
            &&& u.priority == (match input.priority {
                Some(x) => x,
                None => t.priority,
            })
            &&& u.status == (match input.status {
                Some(x) => x,
                None => t.status,
            })
            &&& u.updated_at == now
            &&& u.content_updated_at == (if input.title is Some || input.description is Some
                || input.priority is Some {
                now
            } else {
                t.content_updated_at
            })
            &&& u.id == t.id && u.group_id == t.group_id && u.ticket_number == t.ticket_number
            &&& u.created_by == t.created_by && u.created_at == t.created_at
        }),
{
}

pub const DEFAULT_PER_PAGE: u64 = 20;

pub const MAX_PER_PAGE: u64 = 100;

/// The page asked for: 1 when absent, at least 1.
pub open spec fn resolved_page(page: Option<u64>) -> u64 {
    match page {
        Some(p) => if p < 1 {
            1
        } else {
            p
        },
        None => 1,
    }
}

/// The page size asked for: 20 when absent, clamped to 1..=100.
pub open spec fn resolved_per_page(per_page: Option<u64>) -> u64 {
    let p = match per_page {
        Some(p) => p,
        None => 20,
    };
    if p < 1 {
        1
    } else if p > 100 {
        100
    } else {
        p
    }
}

/// The page number and page size a listing uses.
pub fn resolve_paging(page: Option<u64>, per_page: Option<u64>) -> (r: (u64, u64))
    ensures
        r.0 == resolved_page(page),
        r.1 == resolved_per_page(per_page),
        r.0 >= 1,
        1 <= r.1 <= 100,
{
    let page = match page {
        Some(p) => if p < 1 {
            1
        } else {
            p
        },
        None => 1,
    };
    let per = match per_page {
        Some(p) => p,
        None => DEFAULT_PER_PAGE,
    };
    let per = if per < 1 {
        1
    } else if per > MAX_PER_PAGE {
        MAX_PER_PAGE
    } else {
        per
    };
    (page, per)
}

/// The items of page `page` (1-based) of size `per_page`: items
/// `(page - 1) * per_page` onwards, at most `per_page` of them.
pub open spec fn page_of<T>(items: Seq<T>, page: nat, per_page: nat) -> Seq<T> {
    let start = (page - 1) * per_page;
    if start >= items.len() {
        Seq::empty()
    } else if start + per_page >= items.len() {
        items.subrange(start, items.len() as int)
    } else {
        items.subrange(start, start + per_page)
    }
}

/// Cuts page `page` out of `items`.
pub fn take_page<T>(items: Vec<T>, page: u64, per_page: u64) -> (r: Vec<T>)
    requires
        page >= 1,
    ensures
        r@ == page_of(items@, page as nat, per_page as nat),
{
    let mut items = items;
    let p: u128 = (page - 1) as u128;
    let q: u128 = per_page as u128;
    assert(p * q <= 0xffff_ffff_ffff_ffffu128 * 0xffff_ffff_ffff_ffffu128) by (nonlinear_arith)
        requires
            p <= 0xffff_ffff_ffff_ffffu128,
            q <= 0xffff_ffff_ffff_ffffu128,
    ;
    let start: u128 = p * q;
    let len = items.len();
    if start >= len as u128 {
        return Vec::new();
    }
    let start = start as usize;
    let rest = items.split_off(start);
    let mut rest = rest;
    if (per_page as u128) < (rest.len() as u128) {
        rest.truncate(per_page as usize);
    }
    rest
}

/// What a listing asks the store for, and what it does with the result.
#[derive(Debug)]
pub struct ListingPlan {
    pub status: Option<TicketStatus>,
    pub priority: Option<TicketPriority>,
    pub creator: Option<Oid>,
    /// The trimmed search text, when there is any.
    pub search: Option<String>,
    pub page: u64,
    pub per_page: u64,
}

/// Reads a listing query: a malformed creator id is
/// `Validation("invalid creator id")`; a blank search text means no search.
pub fn plan_listing(query: &ListTicketsQuery) -> (r: Result<ListingPlan, ApiError>)
    ensures
        r is Err <==> (query.creator matches Some(c) && !is_oid_text(c@)),
        r matches Err(e) ==> e.is_validation("invalid creator id"@),
        r matches Ok(p) ==> {
            &&& p.status == query.status
            &&& p.priority == query.priority
            &&& match query.creator {
                Some(c) => p.creator matches Some(o) && o.value == hex_value(c@),
                None => p.creator is None,
            }
            &&& match query.q {
                Some(q) => if trimmed(q@).len() > 0 {
                    p.search matches Some(t) && t@ == trimmed(q@)
                } else {
                    p.search is None
                },
                None => p.search is None,
            }
            &&& p.page == resolved_page(query.page)
            &&& p.per_page == resolved_per_page(query.per_page)
        },
{
    let creator = match &query.creator {
        Some(c) => match parse_oid(c.as_str()) {
            Some(o) => Some(o),
            None => return Err(validation("invalid creator id")),
        },
        None => None,
    };
    let search = match &query.q {
        Some(q) => {
            let t = trim_chars(q.as_str());
            if t.len() == 0 {
                None
            } else {
                Some(string_of(t.as_slice()))
            }
        },
        None => None,
    };
    let (page, per_page) = resolve_paging(query.page, query.per_page);
    Ok(ListingPlan {
        status: query.status,
        priority: query.priority,
        creator,
        search,
        page,
        per_page,
    })
}

/// Whether `n` occurs in `h` as a contiguous run.
pub open spec fn has_substring(h: Seq<char>, n: Seq<char>) -> bool {
    exists|i: int| 0 <= i && i + n.len() <= h.len() && #[trigger] h.subrange(i, i + n.len()) == n
}

/// Whether `n` occurs in `h` (plain substring search).
pub fn contains_chars(h: &Vec<char>, n: &Vec<char>) -> (b: bool)
    ensures
        b == has_substring(h@, n@),
{
    if n.len() == 0 {
        assert(h@.subrange(0, 0 + n@.len() as int) =~= n@);
        return true;
    }
    if n.len() > h.len() {
        return false;
    }
    let hlen = h.len();
    let nlen = n.len();
    let last = hlen - nlen;
    let mut i: usize = 0;
    while i <= last
        invariant
            hlen == h@.len(),
            nlen == n@.len(),
            1 <= nlen <= hlen,
            last == hlen - nlen,
            i <= last + 1,
            forall|k: int| 0 <= k < i ==> #[trigger] h@.subrange(k, k + n@.len()) != n@,
        decreases last + 1 - i,
    {
        let mut j: usize = 0;
        let mut same = true;
        while j < nlen
            invariant
                hlen == h@.len(),
                nlen == n@.len(),
                i <= last,
                last == hlen - nlen,
                j <= n@.len(),
                same == (forall|k: int| 0 <= k < j ==> h@[i + k] == n@[k]),
            decreases n.len() - j,
        {
            if h[i + j] != n[j] {
                same = false;
            }
            j = j + 1;
        }
        if same {
            assert(h@.subrange(i as int, i + n@.len()) =~= n@);
            return true;
        }
        assert(h@.subrange(i as int, i + n@.len()) != n@) by {
            let k = choose|k: int| 0 <= k < n@.len() && h@[i + k] != n@[k];
            assert(h@.subrange(i as int, i + n@.len())[k] == h@[i + k]);
        }
        i = i + 1;
    }
    proof {
        if has_substring(h@, n@) {
            let k = choose|k: int|
                0 <= k && k + n@.len() <= h@.len() && #[trigger] h@.subrange(k, k + n@.len()) == n@;
            assert(h@.subrange(k, k + n@.len()) != n@);
        }
    }
    false
}

/// The white-space separated words of `s` (what `split_whitespace` yields),
/// given the partial word `cur` already read.
pub open spec fn words_from(s: Seq<char>, cur: Seq<char>) -> Seq<Seq<char>>
    decreases s.len(),
{
    if s.len() == 0 {
        if cur.len() > 0 {
            seq![cur]
        } else {
            seq![]
        }
    } else if is_space(s[0]) {
        (if cur.len() > 0 {
            seq![cur]
        } else {
            seq![]
        }) + words_from(s.skip(1), seq![])
    } else {
        words_from(s.skip(1), cur.push(s[0]))
    }
}

/// The white-space separated words of `s`.
pub open spec fn words(s: Seq<char>) -> Seq<Seq<char>> {
    words_from(s, seq![])
}

/// The least edit distance from `needle` to any of `ws`; `None` when there
/// are no words.
pub open spec fn min_distance(ws: Seq<Seq<char>>, needle: Seq<char>) -> Option<nat>
    decreases ws.len(),
{
    if ws.len() == 0 {
        None
    } else {
        let d = edit_distance(ws.last(), needle);
        match min_distance(ws.drop_last(), needle) {
            None => Some(d),
            Some(m) => Some(if m <= d {
                m
            } else {
                d
            }),
        }
    }
}

/// How far a title is from the search text: its closest word's distance.
pub open spec fn title_score(title: Seq<char>, needle: Seq<char>) -> Option<nat> {
    min_distance(words(lowercase(title)), needle)
}

/// The allowed typo count: one per three characters of the search, at least one.
pub open spec fn max_typos(needle: Seq<char>) -> nat {
    if needle.len() / 3 < 1 {
        1
    } else {
        needle.len() / 3
    }
}

/// The tickets whose lowercased title contains `needle`, in order.
pub open spec fn substring_hits(ts: Seq<Ticket>, needle: Seq<char>) -> Seq<Ticket>
    decreases ts.len(),
{
    if ts.len() == 0 {
        seq![]
    } else if has_substring(lowercase(ts.last().title@), needle) {
        substring_hits(ts.drop_last(), needle).push(ts.last())
    } else {
        substring_hits(ts.drop_last(), needle)
    }
}

/// The tickets whose title scores exactly `d`, in order.
pub open spec fn scored(ts: Seq<Ticket>, needle: Seq<char>, d: nat) -> Seq<Ticket>
    decreases ts.len(),
{
    if ts.len() == 0 {
        seq![]
    } else if title_score(ts.last().title@, needle) == Some(d) {
        scored(ts.drop_last(), needle, d).push(ts.last())
    } else {
        scored(ts.drop_last(), needle, d)
    }
}

/// The tickets scoring below `d`, closest first; equal scores keep their order.
pub open spec fn ranked_below(ts: Seq<Ticket>, needle: Seq<char>, d: nat) -> Seq<Ticket>
    decreases d,
{
    if d == 0 {
        seq![]
    } else {
        ranked_below(ts, needle, (d - 1) as nat) + scored(ts, needle, (d - 1) as nat)
    }
}

/// Title search: case-insensitive substring matches when there are any;
/// otherwise the tickets with a title word within `max_typos` edits of the
/// search, closest first (a stable ordering).
pub open spec fn title_search(ts: Seq<Ticket>, term: Seq<char>) -> Seq<Ticket> {
    let needle = lowercase(term);
    if substring_hits(ts, needle).len() > 0 {
        substring_hits(ts, needle)
    } else {
        ranked_below(ts, needle, max_typos(needle) + 1)
    }
}

/// `t` is a title search hit for `needle`: its lowercased title contains
/// the needle, or one of its words is within the allowed typos of it.
pub open spec fn search_hit(t: Ticket, needle: Seq<char>) -> bool {
    ||| has_substring(lowercase(t.title@), needle)
    ||| (title_score(t.title@, needle) matches Some(d) && d <= max_typos(needle))
}

proof fn lemma_substring_hits(ts: Seq<Ticket>, needle: Seq<char>)
    ensures
        forall|i: int|
            0 <= i < substring_hits(ts, needle).len() ==> ts.contains(
                #[trigger] substring_hits(ts, needle)[i],
            ) && has_substring(lowercase(substring_hits(ts, needle)[i].title@), needle),
    decreases ts.len(),
{
    if ts.len() > 0 {
        lemma_substring_hits(ts.drop_last(), needle);
        let rest = substring_hits(ts.drop_last(), needle);
        assert forall|i: int| 0 <= i < substring_hits(ts, needle).len() implies ts.contains(
            #[trigger] substring_hits(ts, needle)[i],
        ) && has_substring(lowercase(substring_hits(ts, needle)[i].title@), needle) by {
            let x = substring_hits(ts, needle)[i];
            if i < rest.len() {
                assert(x == rest[i]);
                let k = choose|k: int| 0 <= k < ts.drop_last().len() && ts.drop_last()[k] == x;
                assert(ts[k] == x);
            } else {
                assert(x == ts.last());
                assert(ts[ts.len() - 1] == x);
            }
        }
    }
}

proof fn lemma_scored(ts: Seq<Ticket>, needle: Seq<char>, d: nat)
    ensures
        forall|i: int|
            0 <= i < scored(ts, needle, d).len() ==> ts.contains(#[trigger] scored(ts, needle, d)[i])
                && title_score(scored(ts, needle, d)[i].title@, needle) == Some(d),
    decreases ts.len(),
{
    if ts.len() > 0 {
        lemma_scored(ts.drop_last(), needle, d);
        let rest = scored(ts.drop_last(), needle, d);
        assert forall|i: int| 0 <= i < scored(ts, needle, d).len() implies ts.contains(
            #[trigger] scored(ts, needle, d)[i],
        ) && title_score(scored(ts, needle, d)[i].title@, needle) == Some(d) by {
            let x = scored(ts, needle, d)[i];
            if i < rest.len() {
                assert(x == rest[i]);
                let k = choose|k: int| 0 <= k < ts.drop_last().len() && ts.drop_last()[k] == x;
                assert(ts[k] == x);
            } else {
                assert(x == ts.last());
                assert(ts[ts.len() - 1] == x);
            }
        }
    }
}

proof fn lemma_ranked_below(ts: Seq<Ticket>, needle: Seq<char>, d: nat)
    ensures
        forall|i: int|
            0 <= i < ranked_below(ts, needle, d).len() ==> ts.contains(
                #[trigger] ranked_below(ts, needle, d)[i],
            ) && (title_score(ranked_below(ts, needle, d)[i].title@, needle) matches Some(e) && e
                < d),
    decreases d,
{
    if d > 0 {
        let e = (d - 1) as nat;
        lemma_ranked_below(ts, needle, e);
        lemma_scored(ts, needle, e);
        let a = ranked_below(ts, needle, e);
        let b = scored(ts, needle, e);
        assert forall|i: int| 0 <= i < ranked_below(ts, needle, d).len() implies ts.contains(
            #[trigger] ranked_below(ts, needle, d)[i],
        ) && (title_score(ranked_below(ts, needle, d)[i].title@, needle) matches Some(f) && f
            < d) by {
            if i < a.len() {
                assert(ranked_below(ts, needle, d)[i] == a[i]);
            } else {
                assert(ranked_below(ts, needle, d)[i] == b[i - a.len()]);
            }
        }
    }
}

/// Search only picks among the tickets it is given, and every ticket it
/// returns matches: by substring when any title contains the search text,
/// otherwise within the allowed typos.
pub proof fn law_search_returns_only_matching_tickets(ts: Seq<Ticket>, term: Seq<char>)
    ensures
        forall|i: int|
            0 <= i < title_search(ts, term).len() ==> ts.contains(#[trigger] title_search(ts, term)[i])
                && search_hit(title_search(ts, term)[i], lowercase(term)),
{
    let needle = lowercase(term);
    lemma_substring_hits(ts, needle);
    lemma_ranked_below(ts, needle, max_typos(needle) + 1);
}

proof fn lemma_substring_hits_filter(ts: Seq<Ticket>, needle: Seq<char>)
    ensures
        substring_hits(ts, needle) == ts.filter(
            |t: Ticket| has_substring(lowercase(t.title@), needle),
        ),
    decreases ts.len(),
{
    reveal(Seq::filter);
    if ts.len() > 0 {
        lemma_substring_hits_filter(ts.drop_last(), needle);
    }
}

/// Search never misses a substring match: every ticket whose lowercased
/// title contains the lowercased search text is returned, and when any
/// title contains it the result is exactly those tickets, in the order
/// given.
pub proof fn law_search_finds_every_substring_match(ts: Seq<Ticket>, term: Seq<char>)
    ensures
        forall|i: int|
            0 <= i < ts.len() && has_substring(lowercase((#[trigger] ts[i]).title@), lowercase(term))
                ==> title_search(ts, term).contains(ts[i]),
        (exists|i: int|
            0 <= i < ts.len() && has_substring(lowercase((#[trigger] ts[i]).title@), lowercase(term)))
            ==> title_search(ts, term) == ts.filter(
            |t: Ticket| has_substring(lowercase(t.title@), lowercase(term)),
        ),
{
    let needle = lowercase(term);
    let pred = |t: Ticket| has_substring(lowercase(t.title@), needle);
    lemma_substring_hits_filter(ts, needle);
    assert forall|i: int|
        0 <= i < ts.len() && has_substring(lowercase((#[trigger] ts[i]).title@), needle)
            implies title_search(ts, term).contains(ts[i]) by {
        ts.lemma_filter_contains(pred, i);
        let f = ts.filter(pred);
        let k = choose|k: int| 0 <= k < f.len() && f[k] == ts[i];
        assert(substring_hits(ts, needle).len() > 0);
        assert(title_search(ts, term)[k] == ts[i]);
    }
    if exists|i: int|
        0 <= i < ts.len() && has_substring(lowercase((#[trigger] ts[i]).title@), needle) {
        let i = choose|i: int|
            0 <= i < ts.len() && has_substring(lowercase((#[trigger] ts[i]).title@), needle);
        ts.lemma_filter_contains(pred, i);
        assert(substring_hits(ts, needle).len() > 0);
    }
}

fn title_words(s: &Vec<char>) -> (ws: Vec<Vec<char>>)
    ensures
        ws@.map_values(|w: Vec<char>| w@) == words(s@),
{
    let mut ws: Vec<Vec<char>> = Vec::new();
    let mut cur: Vec<char> = Vec::new();
    let mut i: usize = 0;
    assert(s@.skip(0) == s@);
    while i < s.len()
        invariant
            i <= s@.len(),
            words(s@) == ws@.map_values(|w: Vec<char>| w@) + words_from(s@.skip(i as int), cur@),
        decreases s.len() - i,
    {
        let c = s[i];
        let ghost rest = s@.skip(i as int);
        proof {
            assert(rest[0] == c);
            assert(rest.skip(1) == s@.skip(i + 1));
        }
        if is_space_char(c) {
            if cur.len() > 0 {
                let ghost old_ws = ws@;
                let w = cur;
                let ghost wv = w@;
                ws.push(w);
                proof {
                    assert(ws@.map_values(|w: Vec<char>| w@) =~= old_ws.map_values(|w: Vec<char>| w@)
                        + seq![wv]);
                    assert(old_ws.map_values(|w: Vec<char>| w@) + (seq![wv] + words_from(
                        rest.skip(1),
                        seq![],
                    )) == (old_ws.map_values(|w: Vec<char>| w@) + seq![wv]) + words_from(
                        rest.skip(1),
                        seq![],
                    ));
                }
            } else {
                proof {
                    assert(Seq::<Seq<char>>::empty() + words_from(rest.skip(1), seq![]) == words_from(
                        rest.skip(1),
                        seq![],
                    ));
                }
            }
            cur = Vec::new();
            proof {
                assert(cur@ == Seq::<char>::empty());
            }
        } else {
            cur.push(c);
        }
        i = i + 1;
    }
    proof {
        assert(s@.skip(i as int) =~= Seq::<char>::empty());
    }
    if cur.len() > 0 {
        let ghost old_ws = ws@;
        let w = cur;
        let ghost wv = w@;
        ws.push(w);
        proof {
            assert(ws@.map_values(|w: Vec<char>| w@) =~= old_ws.map_values(|w: Vec<char>| w@) + seq![
                wv,
            ]);
        }
    } else {
        proof {
            assert(ws@.map_values(|w: Vec<char>| w@) + Seq::<Seq<char>>::empty() == ws@.map_values(
                |w: Vec<char>| w@,
            ));
        }
    }
    ws
}

fn closest_word(ws: &Vec<Vec<char>>, needle: &Vec<char>) -> (r: Option<usize>)
    ensures
        match min_distance(ws@.map_values(|w: Vec<char>| w@), needle@) {
            None => r is None,
            Some(d) => r matches Some(b) && b == d,
        },
{
    let ghost wsv = ws@.map_values(|w: Vec<char>| w@);
    let mut best: Option<usize> = None;
    let mut i: usize = 0;
    assert(wsv.take(0) =~= Seq::<Seq<char>>::empty());
    while i < ws.len()
        invariant
            i <= ws@.len(),
            wsv == ws@.map_values(|w: Vec<char>| w@),
            match min_distance(wsv.take(i as int), needle@) {
                None => best is None,
                Some(d) => best matches Some(b) && b == d,
            },
        decreases ws.len() - i,
    {
        let d = edit_distance_of(&ws[i], needle);
        proof {
            assert(wsv.take(i + 1).drop_last() == wsv.take(i as int));
            assert(wsv.take(i + 1).last() == ws@[i as int]@);
        }
        best = match best {
            None => Some(d),
            Some(m) => Some(if m <= d {
                m
            } else {
                d
            }),
        };
        i = i + 1;
    }
    assert(wsv.take(ws@.len() as int) == wsv);
    best
}

/// Searches tickets by title, as `title_search` describes: substring
/// matches first, the typo-tolerant ranking only when there are none.
pub fn search_by_title(tickets: Vec<Ticket>, term: &str) -> (r: Vec<Ticket>)
    ensures
        r@ == title_search(tickets@, term@),
{
    let needle_text = to_lowercase(term);
    let needle = chars_of(needle_text.as_str());
    let n = tickets.len();
    let mut lowered: Vec<Vec<char>> = Vec::new();
    let mut hits: Vec<Ticket> = Vec::new();
    let mut i: usize = 0;
    assert(tickets@.take(0) =~= Seq::<Ticket>::empty());
    while i < n
        invariant
            i <= n == tickets@.len(),
            needle@ == lowercase(term@),
            lowered@.len() == i,
            forall|k: int| 0 <= k < i ==> (#[trigger] lowered@[k])@ == lowercase(tickets@[k].title@),
            hits@ == substring_hits(tickets@.take(i as int), needle@),
        decreases n - i,
    {
        let low = to_lowercase(tickets[i].title.as_str());
        let lc = chars_of(low.as_str());
        proof {
            assert(tickets@.take(i + 1).drop_last() == tickets@.take(i as int));
            assert(tickets@.take(i + 1).last() == tickets@[i as int]);
        }
        if contains_chars(&lc, &needle) {
            hits.push(tickets[i].duplicate());
        }
        lowered.push(lc);
        i = i + 1;
    }
    assert(tickets@.take(n as int) == tickets@);
    if hits.len() > 0 {
        return hits;
    }
    let mut scores: Vec<Option<usize>> = Vec::new();
    let mut i: usize = 0;
    while i < n
        invariant
            i <= n == tickets@.len(),
            lowered@.len() == n,
            forall|k: int| 0 <= k < n ==> (#[trigger] lowered@[k])@ == lowercase(tickets@[k].title@),
            scores@.len() == i,
            forall|k: int|
                0 <= k < i ==> match title_score(tickets@[k].title@, needle@) {
                    None => (#[trigger] scores@[k]) is None,
                    Some(d) => scores@[k] matches Some(b) && b == d,
                },
        decreases n - i,
    {
        let ws = title_words(&lowered[i]);
        let s = closest_word(&ws, &needle);
        scores.push(s);
        i = i + 1;
    }
    let third = needle.len() / 3;
    let max_distance: usize = if third < 1 {
        1
    } else {
        third
    };
    let mut out: Vec<Ticket> = Vec::new();
    let mut d: usize = 0;
    while d <= max_distance
        invariant
            n == tickets@.len(),
            scores@.len() == n,
            max_distance == max_typos(needle@),
            max_distance < usize::MAX,
            d <= max_distance + 1,
            forall|k: int|
                0 <= k < n ==> match title_score(tickets@[k].title@, needle@) {
                    None => (#[trigger] scores@[k]) is None,
                    Some(e) => scores@[k] matches Some(b) && b == e,
                },
            out@ == ranked_below(tickets@, needle@, d as nat),
        decreases max_distance + 1 - d,
    {
        let ghost before = out@;
        let mut i: usize = 0;
        assert(tickets@.take(0) =~= Seq::<Ticket>::empty());
        assert(before + Seq::<Ticket>::empty() == before);
        while i < n
            invariant
                i <= n == tickets@.len(),
                scores@.len() == n,
                forall|k: int|
                    0 <= k < n ==> match title_score(tickets@[k].title@, needle@) {
                        None => (#[trigger] scores@[k]) is None,
                        Some(e) => scores@[k] matches Some(b) && b == e,
                    },
                out@ == before + scored(tickets@.take(i as int), needle@, d as nat),
            decreases n - i,
        {
            proof {
                assert(tickets@.take(i + 1).drop_last() == tickets@.take(i as int));
                assert(tickets@.take(i + 1).last() == tickets@[i as int]);
                let _ = scores@[i as int];
            }
            let hit = match scores[i] {
                Some(s) => s == d,
                None => false,
            };
            if hit {
                let ghost prev = out@;
                out.push(tickets[i].duplicate());
                proof {
                    assert(out@ == prev.push(tickets@[i as int]));
                }
            }
            i = i + 1;
        }
        assert(tickets@.take(n as int) == tickets@);
        d = d + 1;
    }
    out
}

} // verus!
