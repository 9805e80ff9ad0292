//! Threaded comments on tickets: what a comment request must hold, when a
//! ticket accepts one, and how deletion keeps threads intact (a comment
//! with replies is tombstoned, not removed).
use vstd::prelude::*;
use crate::activity::{ActivityEventType, CreateActivityInput};
use crate::errors::{ApiError, conflict, validation};
use crate::ids::{Oid, hex_of, hex_value, is_oid_text, parse_id};
use crate::text::{chars_of, is_blank, trimmed};
use crate::ticket::{Ticket, TicketStatus};
use crate::user::{opt_id_string, opt_id_text};

verus! {

/// A stored comment. `created_at` is in milliseconds.
#[derive(Debug, Clone)]
pub struct Comment {
    pub id: Option<Oid>,
    pub group_id: Oid,
    pub ticket_id: Oid,
    pub parent_comment_id: Option<Oid>,
    pub user_id: Oid,
    pub content: String,
    pub is_deleted: bool,
    pub created_at: i64,
}

/// What a comment is created from.
#[derive(Debug)]
pub struct CreateCommentInput {
    pub group_id: Oid,
    pub ticket_id: Oid,
    pub parent_comment_id: Option<Oid>,
    pub user_id: Oid,
    pub content: String,
}

/// What a tombstoned comment shows in place of its content.
pub const DELETED_CONTENT_PLACEHOLDER: &'static str = "[comment deleted]";

/// Body of `POST /groups/{id}/tickets/{ticket_id}/comments`.
#[derive(Debug)]
pub struct CreateCommentRequest {
    pub content: String,
    pub parent_comment_id: Option<String>,
}

/// A comment as clients see it, with its author's current name.
#[derive(Debug)]
pub struct CommentResponse {
    pub id: String,
    pub group_id: String,
    pub ticket_id: String,
    pub parent_comment_id: Option<String>,
    pub user_id: String,
    pub user_name: String,
    pub content: String,
    pub is_deleted: bool,
    pub created_at: i64,
}

/// The longest comment accepted, in characters.
pub const MAX_CONTENT_LEN: usize = 2000;

/// A comment must hold more than white space and at most 2000 characters
/// (Unicode scalar values, so non-Latin text is not penalised for its
/// UTF-8 length).
pub fn validate_create(input: &CreateCommentRequest) -> (r: Result<(), ApiError>)
    ensures
        r is Ok <==> (trimmed(input.content@).len() > 0 && input.content@.len() <= 2000),
        trimmed(input.content@).len() == 0 ==> (r matches Err(e) && e.is_validation(
            "content is required"@,
        )),
        trimmed(input.content@).len() > 0 && input.content@.len() > 2000 ==> (r matches Err(e)
            && e.is_validation("content must be at most 2000 characters"@)),
{
    if is_blank(input.content.as_str()) {
        return Err(validation("content is required"));
    }
    let chars = chars_of(input.content.as_str());
    if chars.len() > MAX_CONTENT_LEN {
        return Err(validation("content must be at most 2000 characters"));
    }
    Ok(())
}

/// The parent named by a request, when there is one; a malformed id is
/// `Validation("invalid id")`.
pub fn parse_parent(input: &CreateCommentRequest) -> (r: Result<Option<Oid>, ApiError>)
    ensures
        match input.parent_comment_id {
            None => r == Ok::<Option<Oid>, ApiError>(None),
            Some(p) => if is_oid_text(p@) {
                r matches Ok(Some(o)) && o.value == hex_value(p@)
            } else {
                r matches Err(e) && e.is_validation("invalid id"@)
            },
        },
{
    match &input.parent_comment_id {
        None => Ok(None),
        Some(p) => {
            let o = parse_id(p.as_str())?;
            Ok(Some(o))
        },
    }
}

/// Decides a comment once the ticket and the parent were looked up: the
/// ticket must be in the group (`NotFound`) and open (`Conflict`), and a
/// named parent must be on the same ticket (`Validation`).
pub fn decide_create_comment(
    group_id: Oid,
    ticket_id: Oid,
    user_id: Oid,
    content: String,
    ticket: Option<&Ticket>,
    parent_comment_id: Option<Oid>,
    parent_found: bool,
) -> (r: Result<CreateCommentInput, ApiError>)
    ensures
        ticket is None ==> (r matches Err(e) && e is NotFound),
        ticket matches Some(t) && t.status == TicketStatus::Closed ==> (r matches Err(e)
            && e.is_conflict("cannot comment on a closed ticket"@)),
        ticket matches Some(t) && t.status == TicketStatus::Open && parent_comment_id is Some
            && !parent_found ==> (r matches Err(e) && e.is_validation(
            "parent comment not found on this ticket"@,
        )),
        r is Ok <==> (ticket matches Some(t) && t.status == TicketStatus::Open && (
        parent_comment_id is None || parent_found)),
        r matches Ok(c) ==> (c.group_id == group_id && c.ticket_id == ticket_id
            && c.parent_comment_id == parent_comment_id && c.user_id == user_id && c.content
            == content),
{
    let t = match ticket {
        Some(t) => t,
        None => return Err(ApiError::NotFound),
    };
    if t.status == TicketStatus::Closed {
        return Err(conflict("cannot comment on a closed ticket"));
    }
    if parent_comment_id.is_some() && !parent_found {
        return Err(validation("parent comment not found on this ticket"));
    }
    Ok(CreateCommentInput { group_id, ticket_id, parent_comment_id, user_id, content })
}

/// The log entry for a comment event: only the comment's id, never its
/// content.
pub open spec fn is_comment_entry(
    e: CreateActivityInput,
    group_id: Oid,
    ticket_id: Oid,
    actor: Oid,
    event: ActivityEventType,
    comment_id: Option<Oid>,
) -> bool {
    &&& e.group_id == group_id
    &&& e.ticket_id == ticket_id
    &&& e.actor_id == actor
    &&& e.event_type == event
    &&& e.old_value is None
    &&& e.new_value is None
    &&& e.comment_id == comment_id
    &&& e.link_kind is None
}

pub fn comment_entry(
    group_id: Oid,
    ticket_id: Oid,
    actor_id: Oid,
    event_type: ActivityEventType,
    comment_id: Option<Oid>,
) -> (e: CreateActivityInput)
    ensures
        is_comment_entry(e, group_id, ticket_id, actor_id, event_type, comment_id),
{
    CreateActivityInput {
        group_id,
        ticket_id,
        actor_id,
        event_type,
        old_value: None,
        new_value: None,
        comment_id,
        link_kind: None,
    }
}

/// How a comment is deleted.
#[derive(Debug, Clone, Copy, PartialEq, Eq, Structural)]
pub enum DeletionMode {
    /// Kept in place, content replaced by the placeholder, so its replies
    /// still have a parent.
    Soft,
    /// Removed.
    Hard,
}

pub open spec fn mode_for(has_replies: bool) -> DeletionMode {
    if has_replies {
        DeletionMode::Soft
    } else {
        DeletionMode::Hard
    }
}

/// A comment with replies is tombstoned; one without is removed.
pub fn deletion_mode(has_replies: bool) -> (m: DeletionMode)
    ensures
        m == mode_for(has_replies),
{
    if has_replies {
        DeletionMode::Soft
    } else {
        DeletionMode::Hard
    }
}

/// A comment as clients see it.
pub fn comment_response(comment: Comment, user_name: String) -> (r: CommentResponse)
    ensures
        r.id@ == opt_id_text(comment.id),
        r.group_id@ == hex_of(comment.group_id.value as nat, 24),
        r.ticket_id@ == hex_of(comment.ticket_id.value as nat, 24),
        match comment.parent_comment_id {
            Some(p) => r.parent_comment_id matches Some(s) && s@ == hex_of(p.value as nat, 24),
            None => r.parent_comment_id is None,
        },
        r.user_id@ == hex_of(comment.user_id.value as nat, 24),
        r.user_name == user_name,
        r.content == comment.content,
        r.is_deleted == comment.is_deleted,
        r.created_at == comment.created_at,
{
    CommentResponse {
        id: opt_id_string(comment.id),
        group_id: comment.group_id.to_hex(),
        ticket_id: comment.ticket_id.to_hex(),
        parent_comment_id: match comment.parent_comment_id {
            Some(p) => Some(p.to_hex()),
            None => None,
        },
        user_id: comment.user_id.to_hex(),
        user_name,
        content: comment.content,
        is_deleted: comment.is_deleted,
        created_at: comment.created_at,
    }
}

// ------------------------------------------------------------------ threads

/// A comment's place in its thread: its id and its parent's.
pub open spec fn node(c: Comment) -> (Option<Oid>, Option<Oid>) {
    (c.id, c.parent_comment_id)
}

/// The thread structure of a list of comments.
pub open spec fn thread(cs: Seq<Comment>) -> Seq<(Option<Oid>, Option<Oid>)> {
    cs.map_values(|c: Comment| node(c))
}

/// Every reply's parent is present.
pub open spec fn parents_resolved(ns: Seq<(Option<Oid>, Option<Oid>)>) -> bool {
    forall|j: int|
        0 <= j < ns.len() && (#[trigger] ns[j]).1 is Some ==> exists|k: int|
            0 <= k < ns.len() && (#[trigger] ns[k]).0 == ns[j].1
}

/// Some comment replies to `id`.
pub open spec fn has_reply(ns: Seq<(Option<Oid>, Option<Oid>)>, id: Oid) -> bool {
    exists|j: int| 0 <= j < ns.len() && (#[trigger] ns[j]).1 == Some(id)
}

/// The thread with comment `id` removed.
pub open spec fn without_node(ns: Seq<(Option<Oid>, Option<Oid>)>, id: Oid) -> Seq<
    (Option<Oid>, Option<Oid>),
>
    decreases ns.len(),
{
    if ns.len() == 0 {
        ns
    } else if ns.last().0 == Some(id) {
        without_node(ns.drop_last(), id)
    } else {
        without_node(ns.drop_last(), id).push(ns.last())
    }
}

/// The thread after comment `id` is deleted the way `deletion_mode`
/// decides: a tombstone keeps its place; a removed comment leaves.
pub open spec fn thread_after_delete(ns: Seq<(Option<Oid>, Option<Oid>)>, id: Oid) -> Seq<
    (Option<Oid>, Option<Oid>),
> {
    match mode_for(has_reply(ns, id)) {
        DeletionMode::Soft => ns,
        DeletionMode::Hard => without_node(ns, id),
    }
}

proof fn lemma_without_node(ns: Seq<(Option<Oid>, Option<Oid>)>, id: Oid)
    ensures
        forall|x: (Option<Oid>, Option<Oid>)|
            #[trigger] without_node(ns, id).contains(x) <==> (ns.contains(x) && x.0 != Some(id)),
    decreases ns.len(),
{
    if ns.len() > 0 {
        lemma_without_node(ns.drop_last(), id);
        let rest = without_node(ns.drop_last(), id);
        assert forall|x: (Option<Oid>, Option<Oid>)|
            #[trigger] without_node(ns, id).contains(x) <==> (ns.contains(x) && x.0 != Some(id)) by {
            if ns.contains(x) && x.0 != Some(id) {
                let k = choose|k: int| 0 <= k < ns.len() && ns[k] == x;
                if k < ns.len() - 1 {
                    assert(ns.drop_last()[k] == x);
                    assert(ns.drop_last().contains(x));
                    assert(rest.contains(x));
                    if ns.last().0 != Some(id) {
                        let m = choose|m: int| 0 <= m < rest.len() && rest[m] == x;
                        assert(rest.push(ns.last())[m] == x);
                    }
                } else {
                    assert(ns.last() == x);
                    assert(rest.push(ns.last())[rest.len() as int] == x);
                }
            }
            if without_node(ns, id).contains(x) {
                if ns.last().0 == Some(id) {
                    assert(rest.contains(x));
                } else {
                    let m = choose|m: int|
                        0 <= m < rest.push(ns.last()).len() && rest.push(ns.last())[m] == x;
                    if m < rest.len() {
                        assert(rest[m] == x);
                        assert(rest.contains(x));
                    }
                }
                if ns.drop_last().contains(x) {
                    let k = choose|k: int| 0 <= k < ns.drop_last().len() && ns.drop_last()[k] == x;
                    assert(ns[k] == x);
                }
            }
        }
    }
}

/// Deleting a comment never orphans a reply: a comment that has replies
/// is tombstoned in place, and only a comment nobody replies to is removed.
pub proof fn law_deletion_keeps_replies_attached(ns: Seq<(Option<Oid>, Option<Oid>)>, id: Oid)
    requires
        parents_resolved(ns),
    ensures
        parents_resolved(thread_after_delete(ns, id)),
{
    if !has_reply(ns, id) {
        let res = without_node(ns, id);
        lemma_without_node(ns, id);
        assert forall|j: int| 0 <= j < res.len() && (#[trigger] res[j]).1 is Some implies exists|
            k: int,
        | 0 <= k < res.len() && (#[trigger] res[k]).0 == res[j].1 by {
            let x = res[j];
            assert(res.contains(x));
            assert(ns.contains(x));
            let i = choose|i: int| 0 <= i < ns.len() && ns[i] == x;
            assert(ns[i].1 is Some);
            let k = choose|k: int| 0 <= k < ns.len() && (#[trigger] ns[k]).0 == ns[i].1;
            let y = ns[k];
            assert(x.1 != Some(id)) by {
                if x.1 == Some(id) {
                    assert(has_reply(ns, id));
                }
            }
            assert(ns.contains(y));
            assert(res.contains(y));
            let m = choose|m: int| 0 <= m < res.len() && res[m] == y;
            assert(res[m].0 == res[j].1);
        }
    }
}

/// A deletion may go ahead once the comment was found and the caller owns
/// it or administers the group.
pub fn require_comment(found: Option<Comment>) -> (r: Result<Comment, ApiError>)
    ensures
        match found {
            Some(c) => r matches Ok(d) && d == c,
            None => r matches Err(e) && e is NotFound,
        },
{
    match found {
        Some(c) => Ok(c),
        None => Err(ApiError::NotFound),
    }
}

} // verus!
