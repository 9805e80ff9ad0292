//! The per-ticket activity log: one entry per discrete change, written as a
//! side effect of the change itself and never accepted from a client.
use vstd::prelude::*;
use crate::ids::{Oid, hex_of};
use crate::user::{opt_id_string, opt_id_text};

verus! {

/// What happened to a ticket.
#[derive(Debug, Clone, Copy, PartialEq, Eq, Structural)]
pub enum ActivityEventType {
    TicketCreated,
    StatusChanged,
    PriorityChanged,
    TitleChanged,
    DescriptionChanged,
    CommentAdded,
    CommentDeleted,
    LinkAdded,
    LinkRemoved,
}

/// What a link event refers to: a relation to another ticket, or an
/// external reference. Set only on link events.
#[derive(Debug, Clone, Copy, PartialEq, Eq, Structural)]
pub enum LinkKind {
    Relation,
    Reference,
}

/// The stored (snake_case) name of an event type.
pub open spec fn event_name(e: ActivityEventType) -> Seq<char> {
    match e {
        ActivityEventType::TicketCreated => "ticket_created"@,
        ActivityEventType::StatusChanged => "status_changed"@,
        ActivityEventType::PriorityChanged => "priority_changed"@,
        ActivityEventType::TitleChanged => "title_changed"@,
        ActivityEventType::DescriptionChanged => "description_changed"@,
        ActivityEventType::CommentAdded => "comment_added"@,
        ActivityEventType::CommentDeleted => "comment_deleted"@,
        ActivityEventType::LinkAdded => "link_added"@,
        ActivityEventType::LinkRemoved => "link_removed"@,
    }
}

impl ActivityEventType {
    pub fn as_str(&self) -> (s: &'static str)
        ensures
            s@ == event_name(*self),
    {
        match self {
            ActivityEventType::TicketCreated => "ticket_created",
            ActivityEventType::StatusChanged => "status_changed",
            ActivityEventType::PriorityChanged => "priority_changed",
            ActivityEventType::TitleChanged => "title_changed",
            ActivityEventType::DescriptionChanged => "description_changed",
            ActivityEventType::CommentAdded => "comment_added",
            ActivityEventType::CommentDeleted => "comment_deleted",
            ActivityEventType::LinkAdded => "link_added",
            ActivityEventType::LinkRemoved => "link_removed",
        }
    }
}

impl LinkKind {
    pub fn as_str(&self) -> (s: &'static str)
        ensures
            s@ == (match *self {
                LinkKind::Relation => "relation"@,
                LinkKind::Reference => "reference"@,
            }),
    {
        match self {
            LinkKind::Relation => "relation",
            LinkKind::Reference => "reference",
        }
    }
}

/// One entry to append to a ticket's log.
#[derive(Debug)]
pub struct CreateActivityInput {
    pub group_id: Oid,
    pub ticket_id: Oid,
    pub actor_id: Oid,
    pub event_type: ActivityEventType,
    pub old_value: Option<String>,
    pub new_value: Option<String>,
    pub comment_id: Option<Oid>,
    pub link_kind: Option<LinkKind>,
}

/// A stored log entry; `occurred_at` is in milliseconds.
#[derive(Debug, Clone)]
pub struct TicketActivity {
    pub id: Option<Oid>,
    pub group_id: Oid,
    pub ticket_id: Oid,
    pub actor_id: Oid,
    pub event_type: ActivityEventType,
    pub old_value: Option<String>,
    pub new_value: Option<String>,
    pub comment_id: Option<Oid>,
    pub link_kind: Option<LinkKind>,
    pub occurred_at: i64,
}

/// A log entry as clients see it, with the actor's current name.
#[derive(Debug, Clone)]
pub struct TicketActivityResponse {
    pub id: String,
    pub group_id: String,
    pub ticket_id: String,
    pub actor_id: String,
    pub actor_name: String,
    pub event_type: ActivityEventType,
    pub old_value: Option<String>,
    pub new_value: Option<String>,
    pub comment_id: Option<String>,
    pub link_kind: Option<LinkKind>,
    pub occurred_at: i64,
}

/// The entry an input becomes when it is written at `now`.
pub fn recorded(input: CreateActivityInput, now: i64) -> (a: TicketActivity)
    ensures
        a.id is None,
        a.group_id == input.group_id && a.ticket_id == input.ticket_id,
        a.actor_id == input.actor_id && a.event_type == input.event_type,
        a.old_value == input.old_value && a.new_value == input.new_value,
        a.comment_id == input.comment_id && a.link_kind == input.link_kind,
        a.occurred_at == now,
{
    TicketActivity {
        id: None,
        group_id: input.group_id,
        ticket_id: input.ticket_id,
        actor_id: input.actor_id,
        event_type: input.event_type,
        old_value: input.old_value,
        new_value: input.new_value,
        comment_id: input.comment_id,
        link_kind: input.link_kind,
        occurred_at: now,
    }
}

/// A log entry as clients see it.
pub fn activity_response(entry: TicketActivity, actor_name: String) -> (r: TicketActivityResponse)
    ensures
        r.id@ == opt_id_text(entry.id),
        r.group_id@ == hex_of(entry.group_id.value as nat, 24),
        r.ticket_id@ == hex_of(entry.ticket_id.value as nat, 24),
        r.actor_id@ == hex_of(entry.actor_id.value as nat, 24),
        r.actor_name == actor_name,
        r.event_type == entry.event_type,
        r.old_value == entry.old_value,
        r.new_value == entry.new_value,
        match entry.comment_id {
            Some(c) => r.comment_id matches Some(s) && s@ == hex_of(c.value as nat, 24),
            None => r.comment_id is None,
        },
        r.link_kind == entry.link_kind,
        r.occurred_at == entry.occurred_at,
{
    TicketActivityResponse {
        id: opt_id_string(entry.id),
        group_id: entry.group_id.to_hex(),
        ticket_id: entry.ticket_id.to_hex(),
        actor_id: entry.actor_id.to_hex(),
        actor_name,
        event_type: entry.event_type,
        old_value: entry.old_value,
        new_value: entry.new_value,
        comment_id: match entry.comment_id {
            Some(c) => Some(c.to_hex()),
            None => None,
        },
        link_kind: entry.link_kind,
        occurred_at: entry.occurred_at,
    }
}

} // verus!
