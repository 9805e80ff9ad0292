//! Relations between tickets of one group. A link is stored once, from its
//! source ticket's point of view; `Blocks` and `Duplicates` read inversely
//! from the target, and `RelatesTo` is symmetric, so a pair of tickets
//! relates at most once whichever side it was added from.
use vstd::prelude::*;
use crate::activity::{ActivityEventType, CreateActivityInput, LinkKind};
use crate::errors::{ApiError, conflict, validation};
use crate::ids::{Oid, hex_of, hex_value, is_oid_text, parse_oid};
use crate::text::{push_signed_decimal, push_str, signed_decimal};
use crate::ticket::{Ticket, TicketPriority, TicketStatus};
use crate::user::{opt_id_string, opt_id_text};

verus! {

/// The relation as stored, from the source ticket's point of view.
#[derive(Debug, Clone, Copy, PartialEq, Eq, Structural)]
pub enum RelationType {
    Blocks,
    RelatesTo,
    Duplicates,
}

/// The relation as one side of it reads.
#[derive(Debug, Clone, Copy, PartialEq, Eq, Structural)]
pub enum LinkLabel {
    Blocks,
    IsBlockedBy,
    RelatesTo,
    Duplicates,
    IsDuplicatedBy,
}

/// How the ticket on the source side (`source_side`) or the target side
/// reads relation `r`.
pub open spec fn label_of(r: RelationType, source_side: bool) -> LinkLabel {
    match r {
        RelationType::Blocks => if source_side {
            LinkLabel::Blocks
        } else {
            LinkLabel::IsBlockedBy
        },
        RelationType::RelatesTo => LinkLabel::RelatesTo,
        RelationType::Duplicates => if source_side {
            LinkLabel::Duplicates
        } else {
            LinkLabel::IsDuplicatedBy
        },
    }
}

/// The short text the activity log shows for a label.
pub open spec fn label_text(l: LinkLabel) -> Seq<char> {
    match l {
        LinkLabel::Blocks => "blocks"@,
        LinkLabel::IsBlockedBy => "is blocked by"@,
        LinkLabel::RelatesTo => "relates to"@,
        LinkLabel::Duplicates => "duplicates"@,
        LinkLabel::IsDuplicatedBy => "is duplicated by"@,
    }
}

/// The same relation read from the other side.
pub open spec fn inverse_label(l: LinkLabel) -> LinkLabel {
    match l {
        LinkLabel::Blocks => LinkLabel::IsBlockedBy,
        LinkLabel::IsBlockedBy => LinkLabel::Blocks,
        LinkLabel::RelatesTo => LinkLabel::RelatesTo,
        LinkLabel::Duplicates => LinkLabel::IsDuplicatedBy,
        LinkLabel::IsDuplicatedBy => LinkLabel::Duplicates,
    }
}

impl RelationType {
    /// The label a viewer sees, given which side of the stored relation
    /// their ticket is on.
    pub fn label_for(self, viewpoint_is_source: bool) -> (l: LinkLabel)
        ensures
            l == label_of(self, viewpoint_is_source),
    {
        match (self, viewpoint_is_source) {
            (RelationType::Blocks, true) => LinkLabel::Blocks,
            (RelationType::Blocks, false) => LinkLabel::IsBlockedBy,
            (RelationType::RelatesTo, _) => LinkLabel::RelatesTo,
            (RelationType::Duplicates, true) => LinkLabel::Duplicates,
            (RelationType::Duplicates, false) => LinkLabel::IsDuplicatedBy,
        }
    }
}

impl LinkLabel {
    pub fn describe(self) -> (s: &'static str)
        ensures
            s@ == label_text(self),
    {
        match self {
            LinkLabel::Blocks => "blocks",
            LinkLabel::IsBlockedBy => "is blocked by",
            LinkLabel::RelatesTo => "relates to",
            LinkLabel::Duplicates => "duplicates",
            LinkLabel::IsDuplicatedBy => "is duplicated by",
        }
    }
}

/// The two sides of one stored relation read as inverses of each other;
/// `RelatesTo` reads the same from both.
pub proof fn law_labels_are_inverse(r: RelationType)
    ensures
        inverse_label(label_of(r, true)) == label_of(r, false),
        inverse_label(label_of(r, false)) == label_of(r, true),
        r == RelationType::RelatesTo <==> label_of(r, true) == label_of(r, false),
{
}

/// A stored link.
#[derive(Debug, Clone, Copy, PartialEq, Eq, Structural)]
pub struct TicketLink {
    pub id: Option<Oid>,
    pub group_id: Oid,
    pub source_ticket_id: Oid,
    pub target_ticket_id: Oid,
    pub relation_type: RelationType,
    pub created_by: Oid,
    /// Milliseconds since the epoch.
    pub created_at: i64,
}

/// What a link is created from.
#[derive(Debug, Clone, Copy, PartialEq, Eq, Structural)]
pub struct CreateLinkInput {
    pub group_id: Oid,
    pub source_ticket_id: Oid,
    pub target_ticket_id: Oid,
    pub relation_type: RelationType,
    pub created_by: Oid,
}

/// Body of `POST /groups/{id}/tickets/{ticket_id}/links`.
#[derive(Debug)]
pub struct CreateLinkRequest {
    pub target_ticket_id: String,
    pub relation_type: RelationType,
}

/// A link as the ticket it was asked about sees it.
#[derive(Debug)]
pub struct TicketLinkResponse {
    pub id: String,
    pub group_id: String,
    pub label: LinkLabel,
    pub other_ticket_id: String,
    pub other_ticket_number: i64,
    pub other_ticket_title: String,
    pub other_ticket_status: TicketStatus,
    pub other_ticket_priority: TicketPriority,
    pub created_by: String,
    pub created_by_name: String,
    /// Milliseconds since the epoch.
    pub created_at: i64,
}

/// The target named by a link request: a malformed id, or the ticket
/// itself, is refused.
pub fn parse_link_target(ticket_id: Oid, input: &CreateLinkRequest) -> (r: Result<Oid, ApiError>)
    ensures
        !is_oid_text(input.target_ticket_id@) ==> (r matches Err(e) && e.is_validation(
            "invalid target_ticket_id"@,
        )),
        is_oid_text(input.target_ticket_id@) && hex_value(input.target_ticket_id@)
            == ticket_id.value ==> (r matches Err(e) && e.is_validation(
            "a ticket cannot be linked to itself"@,
        )),
        is_oid_text(input.target_ticket_id@) && hex_value(input.target_ticket_id@)
            != ticket_id.value ==> (r matches Ok(t) && t.value == hex_value(
            input.target_ticket_id@,
        )),
{
    let target = match parse_oid(input.target_ticket_id.as_str()) {
        Some(t) => t,
        None => return Err(validation("invalid target_ticket_id")),
    };
    if target.value == ticket_id.value {
        return Err(validation("a ticket cannot be linked to itself"));
    }
    Ok(target)
}

/// A new link may be stored: the same relation is not there yet and, for
/// the symmetric `RelatesTo`, neither is its reverse.
pub open spec fn link_allowed(forward_exists: bool, reverse_exists: bool, r: RelationType) -> bool {
    !forward_exists && !(r == RelationType::RelatesTo && reverse_exists)
}

/// The link a request stores, once its parts were looked up: `None` when
/// the request is refused.
pub open spec fn accepted_link(
    group_id: Oid,
    user_id: Oid,
    ticket_id: Oid,
    target_ticket_id: Oid,
    relation: RelationType,
    source_found: bool,
    target_found: bool,
    forward_exists: bool,
    reverse_exists: bool,
) -> Option<CreateLinkInput> {
    if source_found && target_found && link_allowed(forward_exists, reverse_exists, relation) {
        Some(
            CreateLinkInput {
                group_id,
                source_ticket_id: ticket_id,
                target_ticket_id,
                relation_type: relation,
                created_by: user_id,
            },
        )
    } else {
        None
    }
}

/// Decides a link request once its parts were looked up: the source ticket
/// must be in the group (`NotFound`), the target too (a `Validation` error,
/// since it came from the body), and the link must not exist yet
/// (`Conflict`). `reverse_exists` is read only for `RelatesTo`.
pub fn decide_create_link(
    group_id: Oid,
    user_id: Oid,
    ticket_id: Oid,
    target_ticket_id: Oid,
    relation: RelationType,
    source_found: bool,
    target_found: bool,
    forward_exists: bool,
    reverse_exists: bool,
) -> (r: Result<CreateLinkInput, ApiError>)
    ensures
        !source_found ==> (r matches Err(e) && e is NotFound),
        source_found && !target_found ==> (r matches Err(e) && e.is_validation(
            "target ticket not found in this group"@,
        )),
        source_found && target_found && !link_allowed(forward_exists, reverse_exists, relation)
            ==> (r matches Err(e) && e.is_conflict("this link already exists"@)),
        source_found && target_found && link_allowed(forward_exists, reverse_exists, relation)
            ==> r == Ok::<CreateLinkInput, ApiError>(
            CreateLinkInput {
                group_id,
                source_ticket_id: ticket_id,
                target_ticket_id,
                relation_type: relation,
                created_by: user_id,
            },
        ),
        match r {
            Ok(i) => accepted_link(group_id, user_id, ticket_id, target_ticket_id, relation,
                source_found, target_found, forward_exists, reverse_exists) == Some(i),
            Err(_) => accepted_link(group_id, user_id, ticket_id, target_ticket_id, relation,
                source_found, target_found, forward_exists, reverse_exists) is None,
        },
{
    if !source_found {
        return Err(ApiError::NotFound);
    }
    if !target_found {
        return Err(validation("target ticket not found in this group"));
    }
    if forward_exists {
        return Err(conflict("this link already exists"));
    }
    if relation == RelationType::RelatesTo && reverse_exists {
        return Err(conflict("this link already exists"));
    }
    Ok(
        CreateLinkInput {
            group_id,
            source_ticket_id: ticket_id,
            target_ticket_id,
            relation_type: relation,
            created_by: user_id,
        },
    )
}

/// `l` is the relation `r` from `s` to `t` in group `g`.
pub open spec fn same_link(l: TicketLink, g: Oid, s: Oid, t: Oid, r: RelationType) -> bool {
    l.group_id == g && l.source_ticket_id == s && l.target_ticket_id == t && l.relation_type == r
}

/// Some stored link is the relation `r` from `s` to `t` in group `g`.
pub open spec fn link_exists(links: Seq<TicketLink>, g: Oid, s: Oid, t: Oid, r: RelationType) -> bool {
    exists|i: int| 0 <= i < links.len() && same_link(#[trigger] links[i], g, s, t, r)
}

/// The store's invariant: no ticket links to itself, no relation is stored
/// twice, and a `RelatesTo` pair is stored in one direction only.
pub open spec fn links_consistent(links: Seq<TicketLink>) -> bool {
    &&& forall|i: int|
        0 <= i < links.len() ==> (#[trigger] links[i]).source_ticket_id != links[i].target_ticket_id
    &&& forall|i: int, j: int|
        0 <= i < links.len() && 0 <= j < links.len() && i != j ==> !same_link(
            #[trigger] links[j],
            (#[trigger] links[i]).group_id,
            links[i].source_ticket_id,
            links[i].target_ticket_id,
            links[i].relation_type,
        )
    &&& forall|i: int, j: int|
        0 <= i < links.len() && 0 <= j < links.len() && (#[trigger] links[i]).relation_type
            == RelationType::RelatesTo ==> !same_link(
            #[trigger] links[j],
            links[i].group_id,
            links[i].target_ticket_id,
            links[i].source_ticket_id,
            RelationType::RelatesTo,
        )
}

/// The link a create request stores.
pub open spec fn stored_link(input: CreateLinkInput, id: Option<Oid>, at: i64) -> TicketLink {
    TicketLink {
        id,
        group_id: input.group_id,
        source_ticket_id: input.source_ticket_id,
        target_ticket_id: input.target_ticket_id,
        relation_type: input.relation_type,
        created_by: input.created_by,
        created_at: at,
    }
}

/// Storing only what `decide_create_link` accepts keeps the store
/// consistent: no self-links, no duplicate, and a `RelatesTo` pair never
/// stored from both sides.
pub proof fn law_accepted_links_stay_consistent(
    links: Seq<TicketLink>,
    group_id: Oid,
    user_id: Oid,
    ticket_id: Oid,
    target_ticket_id: Oid,
    relation: RelationType,
    id: Option<Oid>,
    at: i64,
)
    requires
        links_consistent(links),
        target_ticket_id != ticket_id,
        link_allowed(
            link_exists(links, group_id, ticket_id, target_ticket_id, relation),
            link_exists(links, group_id, target_ticket_id, ticket_id, RelationType::RelatesTo),
            relation,
        ),
    ensures
        links_consistent(
            links.push(
                stored_link(
                    CreateLinkInput {
                        group_id,
                        source_ticket_id: ticket_id,
                        target_ticket_id,
                        relation_type: relation,
                        created_by: user_id,
                    },
                    id,
                    at,
                ),
            ),
        ),
{
    let l = stored_link(
        CreateLinkInput {
            group_id,
            source_ticket_id: ticket_id,
            target_ticket_id,
            relation_type: relation,
            created_by: user_id,
        },
        id,
        at,
    );
    let all = links.push(l);
    let n = links.len() as int;
    assert forall|i: int, j: int|
        0 <= i < all.len() && 0 <= j < all.len() && i != j implies !same_link(
        #[trigger] all[j],
        (#[trigger] all[i]).group_id,
        all[i].source_ticket_id,
        all[i].target_ticket_id,
        all[i].relation_type,
    ) by {
        if i == n {
            assert(all[j] == links[j]);
            if same_link(links[j], group_id, ticket_id, target_ticket_id, relation) {
                assert(link_exists(links, group_id, ticket_id, target_ticket_id, relation));
            }
        } else if j == n {
            assert(all[i] == links[i]);
            if same_link(l, links[i].group_id, links[i].source_ticket_id, links[i].target_ticket_id, links[i].relation_type) {
                assert(same_link(links[i], group_id, ticket_id, target_ticket_id, relation));
                assert(link_exists(links, group_id, ticket_id, target_ticket_id, relation));
            }
        } else {
            assert(all[i] == links[i] && all[j] == links[j]);
        }
    }
    assert forall|i: int, j: int|
        0 <= i < all.len() && 0 <= j < all.len() && (#[trigger] all[i]).relation_type
            == RelationType::RelatesTo implies !same_link(
        #[trigger] all[j],
        all[i].group_id,
        all[i].target_ticket_id,
        all[i].source_ticket_id,
        RelationType::RelatesTo,
    ) by {
        if i == n && j == n {
        } else if i == n {
            assert(all[j] == links[j]);
            if same_link(links[j], group_id, target_ticket_id, ticket_id, RelationType::RelatesTo) {
                assert(link_exists(links, group_id, target_ticket_id, ticket_id, RelationType::RelatesTo));
            }
        } else if j == n {
            assert(all[i] == links[i]);
            if same_link(l, links[i].group_id, links[i].target_ticket_id, links[i].source_ticket_id, RelationType::RelatesTo) {
                assert(same_link(links[i], group_id, target_ticket_id, ticket_id, RelationType::RelatesTo));
                assert(link_exists(links, group_id, target_ticket_id, ticket_id, RelationType::RelatesTo));
            }
        } else {
            assert(all[i] == links[i] && all[j] == links[j]);
        }
    }
    assert forall|i: int| 0 <= i < all.len() implies (#[trigger] all[i]).source_ticket_id
        != all[i].target_ticket_id by {
        if i < n {
            assert(all[i] == links[i]);
        }
    }
}

/// The store after a create request: the accepted link added, or, for a
/// refused request, the store as it was.
pub open spec fn store_after_create(
    links: Seq<TicketLink>,
    accepted: Option<CreateLinkInput>,
    id: Option<Oid>,
    at: i64,
) -> Seq<TicketLink> {
    match accepted {
        Some(input) => links.push(stored_link(input, id, at)),
        None => links,
    }
}

/// A create request keeps the link store consistent when its duplicate
/// checks read the store itself: a refused request writes nothing, and an
/// accepted one (whose target `parse_link_target` already made differ from
/// the ticket) adds a link that is no self-link, no duplicate and, for
/// `RelatesTo`, not the reverse of a stored one.
pub proof fn law_create_link_keeps_store_consistent(
    links: Seq<TicketLink>,
    group_id: Oid,
    user_id: Oid,
    ticket_id: Oid,
    target_ticket_id: Oid,
    relation: RelationType,
    source_found: bool,
    target_found: bool,
    id: Option<Oid>,
    at: i64,
)
    requires
        links_consistent(links),
        target_ticket_id != ticket_id,
    ensures
        ({
            let accepted = accepted_link(
                group_id,
                user_id,
                ticket_id,
                target_ticket_id,
                relation,
                source_found,
                target_found,
                link_exists(links, group_id, ticket_id, target_ticket_id, relation),
                link_exists(links, group_id, target_ticket_id, ticket_id, RelationType::RelatesTo),
            );
            &&& links_consistent(store_after_create(links, accepted, id, at))
            &&& accepted is None ==> store_after_create(links, accepted, id, at) == links
            &&& accepted is Some ==> store_after_create(links, accepted, id, at).len() == links.len() + 1
        }),
{
    let fwd = link_exists(links, group_id, ticket_id, target_ticket_id, relation);
    let rev = link_exists(links, group_id, target_ticket_id, ticket_id, RelationType::RelatesTo);
    if source_found && target_found && link_allowed(fwd, rev, relation) {
        law_accepted_links_stay_consistent(
            links,
            group_id,
            user_id,
            ticket_id,
            target_ticket_id,
            relation,
            id,
            at,
        );
    }
}

/// The other ticket of a link, seen from `viewpoint`.
pub open spec fn other_end(link: TicketLink, viewpoint: Oid) -> Oid {
    if link.source_ticket_id == viewpoint {
        link.target_ticket_id
    } else {
        link.source_ticket_id
    }
}

pub fn other_ticket_id(link: &TicketLink, viewpoint: Oid) -> (o: Oid)
    ensures
        o == other_end(*link, viewpoint),
{
    if link.source_ticket_id == viewpoint {
        link.target_ticket_id
    } else {
        link.source_ticket_id
    }
}

/// A looked-up link counts only when the ticket in the path is one of its
/// ends; otherwise it is `NotFound`.
pub fn link_on_ticket(found: Option<TicketLink>, ticket_id: Oid) -> (r: Result<TicketLink, ApiError>)
    ensures
        match found {
            Some(l) => if l.source_ticket_id == ticket_id || l.target_ticket_id == ticket_id {
                r == Ok::<TicketLink, ApiError>(l)
            } else {
                r matches Err(e) && e is NotFound
            },
            None => r matches Err(e) && e is NotFound,
        },
{
    match found {
        Some(l) => {
            if l.source_ticket_id == ticket_id || l.target_ticket_id == ticket_id {
                Ok(l)
            } else {
                Err(ApiError::NotFound)
            }
        },
        None => Err(ApiError::NotFound),
    }
}

/// A link as `viewpoint` sees it, with the other ticket's summary and the
/// creator's current name.
pub fn link_response(link: &TicketLink, viewpoint: Oid, other: Ticket, created_by_name: String) -> (r:
    TicketLinkResponse)
    ensures
        r.id@ == opt_id_text(link.id),
        r.group_id@ == hex_of(link.group_id.value as nat, 24),
        r.label == label_of(link.relation_type, link.source_ticket_id == viewpoint),
        r.other_ticket_id@ == opt_id_text(other.id),
        r.other_ticket_number == other.ticket_number,
        r.other_ticket_title == other.title,
        r.other_ticket_status == other.status,
        r.other_ticket_priority == other.priority,
        r.created_by@ == hex_of(link.created_by.value as nat, 24),
        r.created_by_name == created_by_name,
        r.created_at == link.created_at,
{
    let is_source = link.source_ticket_id == viewpoint;
    TicketLinkResponse {
        id: opt_id_string(link.id),
        group_id: link.group_id.to_hex(),
        label: link.relation_type.label_for(is_source),
        other_ticket_id: opt_id_string(other.id),
        other_ticket_number: other.ticket_number,
        other_ticket_title: other.title,
        other_ticket_status: other.status,
        other_ticket_priority: other.priority,
        created_by: link.created_by.to_hex(),
        created_by_name,
        created_at: link.created_at,
    }
}

/// The activity text of one side of a link: its label and the other
/// ticket's number, as `blocks #12`.
pub open spec fn link_text(r: RelationType, source_side: bool, other_number: i64) -> Seq<char> {
    label_text(label_of(r, source_side)) + " #"@ + signed_decimal(other_number as int)
}

fn describe_link(r: RelationType, source_side: bool, other_number: i64) -> (s: String)
    ensures
        s@ == link_text(r, source_side, other_number),
{
    let mut s = String::new();
    push_str(&mut s, r.label_for(source_side).describe());
    push_str(&mut s, " #");
    push_signed_decimal(&mut s, other_number);
    s
}

/// How each side of a link logs it: the source ticket reads the relation
/// forwards ("blocks", "relates to", "duplicates") and the target reads it
/// backwards ("is blocked by", "relates to", "is duplicated by"), each
/// followed by " #" and the other ticket's number. The two sides read the
/// same relation as inverses of each other.
pub proof fn law_each_side_logs_its_own_reading(n: i64)
    ensures
        link_text(RelationType::Blocks, true, n) == "blocks #"@ + signed_decimal(n as int),
        link_text(RelationType::Blocks, false, n) == "is blocked by #"@ + signed_decimal(n as int),
        link_text(RelationType::RelatesTo, true, n) == "relates to #"@ + signed_decimal(n as int),
        link_text(RelationType::RelatesTo, false, n) == "relates to #"@ + signed_decimal(n as int),
        link_text(RelationType::Duplicates, true, n) == "duplicates #"@ + signed_decimal(n as int),
        link_text(RelationType::Duplicates, false, n) == "is duplicated by #"@ + signed_decimal(
            n as int,
        ),
        forall|r: RelationType| #[trigger] link_text(r, false, n) == label_text(
            inverse_label(label_of(r, true)),
        ) + " #"@ + signed_decimal(n as int),
{
    reveal_strlit("blocks");
    reveal_strlit("is blocked by");
    reveal_strlit("relates to");
    reveal_strlit("duplicates");
    reveal_strlit("is duplicated by");
    reveal_strlit(" #");
    reveal_strlit("blocks #");
    reveal_strlit("is blocked by #");
    reveal_strlit("relates to #");
    reveal_strlit("duplicates #");
    reveal_strlit("is duplicated by #");
    let d = signed_decimal(n as int);
    assert("blocks"@ + " #"@ =~= "blocks #"@);
    assert("is blocked by"@ + " #"@ =~= "is blocked by #"@);
    assert("relates to"@ + " #"@ =~= "relates to #"@);
    assert("duplicates"@ + " #"@ =~= "duplicates #"@);
    assert("is duplicated by"@ + " #"@ =~= "is duplicated by #"@);
    assert forall|r: RelationType| #[trigger] link_text(r, false, n) == label_text(
        inverse_label(label_of(r, true)),
    ) + " #"@ + d by {
        law_labels_are_inverse(r);
    }
}

/// `e` logs `event` on `ticket` by `actor`, with `text` as the value the
/// link now has (added) or had (removed).
pub open spec fn is_link_entry(
    e: CreateActivityInput,
    group_id: Oid,
    ticket: Oid,
    actor: Oid,
    event: ActivityEventType,
    text: Seq<char>,
) -> bool {
    &&& e.group_id == group_id
    &&& e.ticket_id == ticket
    &&& e.actor_id == actor
    &&& e.event_type == event
    &&& e.comment_id is None
    &&& e.link_kind == Some(LinkKind::Relation)
    &&& if event == ActivityEventType::LinkAdded {
        e.old_value is None && (e.new_value matches Some(v) && v@ == text)
    } else {
        e.new_value is None && (e.old_value matches Some(v) && v@ == text)
    }
}

/// The two log entries a link change writes, source side first: each
/// ticket's history records the relation as that ticket reads it.
pub fn link_activity(
    group_id: Oid,
    link: &TicketLink,
    source: &Ticket,
    target: &Ticket,
    actor_id: Oid,
    event_type: ActivityEventType,
) -> (r: (CreateActivityInput, CreateActivityInput))
    requires
        source.id is Some,
        target.id is Some,
    ensures
        is_link_entry(
            r.0,
            group_id,
            source.id.unwrap(),
            actor_id,
            event_type,
            link_text(link.relation_type, true, target.ticket_number),
        ),
        is_link_entry(
            r.1,
            group_id,
            target.id.unwrap(),
            actor_id,
            event_type,
            link_text(link.relation_type, false, source.ticket_number),
        ),
{
    let source_text = describe_link(link.relation_type, true, target.ticket_number);
    let target_text = describe_link(link.relation_type, false, source.ticket_number);
    let added = event_type == ActivityEventType::LinkAdded;
    let (source_old, source_new, target_old, target_new) = if added {
        (None, Some(source_text), None, Some(target_text))
    } else {
        (Some(source_text), None, Some(target_text), None)
    };
    let source_id = source.id.unwrap();
    let target_id = target.id.unwrap();
    (
        CreateActivityInput {
            group_id,
            ticket_id: source_id,
            actor_id,
            event_type,
            old_value: source_old,
            new_value: source_new,
            comment_id: None,
            link_kind: Some(LinkKind::Relation),
        },
        CreateActivityInput {
            group_id,
            ticket_id: target_id,
            actor_id,
            event_type,
            old_value: target_old,
            new_value: target_new,
            comment_id: None,
            link_kind: Some(LinkKind::Relation),
        },
    )
}

} // verus!
