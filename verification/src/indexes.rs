//! The indexes the store keeps: the uniqueness rules that guard the
//! duplicate checks against races, the lookups every group-scoped query
//! filters on, and the expiry of refresh tokens.
use vstd::prelude::*;

verus! {

/// What an index enforces besides speeding up lookups.
#[derive(Debug, Clone, Copy, PartialEq, Eq, Structural)]
pub enum IndexKind {
    Plain,
    /// No two documents share the indexed values; the race guard behind the
    /// duplicate checks.
    Unique,
    /// Documents expire once the indexed time has passed.
    Ttl,
}

/// One index: its collection, its keys with their directions (`1`
/// ascending, `-1` descending), and its kind.
#[derive(Debug, Clone)]
pub struct IndexSpec {
    pub collection: &'static str,
    pub keys: Vec<(&'static str, i32)>,
    pub kind: IndexKind,
}

/// An index as plain values.
pub open spec fn index_view(e: IndexSpec) -> (Seq<char>, Seq<(Seq<char>, i32)>, IndexKind) {
    (e.collection@, e.keys@.map_values(|k: (&'static str, i32)| (k.0@, k.1)), e.kind)
}

/// The indexes, in the order they are created.
pub open spec fn index_plan() -> Seq<(Seq<char>, Seq<(Seq<char>, i32)>, IndexKind)> {
    seq![
        (
            "users"@,
            seq![("email"@, 1i32)],
            IndexKind::Unique,
        ),
        (
            "refresh_tokens"@,
            seq![("token_hash"@, 1i32)],
            IndexKind::Unique,
        ),
        (
            "refresh_tokens"@,
            seq![("expires_at"@, 1i32)],
            IndexKind::Ttl,
        ),
        (
            "group_members"@,
            seq![("group_id"@, 1i32), ("user_id"@, 1i32)],
            IndexKind::Unique,
        ),
        (
            "group_members"@,
            seq![("user_id"@, 1i32)],
            IndexKind::Plain,
        ),
        (
            "admin_audit_log"@,
            seq![("group_id"@, 1i32)],
            IndexKind::Plain,
        ),
        (
            "admin_audit_log"@,
            seq![("deleted_user_id"@, 1i32)],
            IndexKind::Plain,
        ),
        (
            "tickets"@,
            seq![("group_id"@, 1i32)],
            IndexKind::Plain,
        ),
        (
            "tickets"@,
            seq![("group_id"@, 1i32), ("status"@, 1i32)],
            IndexKind::Plain,
        ),
        (
            "tickets"@,
            seq![("group_id"@, 1i32), ("created_by"@, 1i32)],
            IndexKind::Plain,
        ),
        (
            "tickets"@,
            seq![("group_id"@, 1i32), ("ticket_number"@, 1i32)],
            IndexKind::Unique,
        ),
        (
            "comments"@,
            seq![("group_id"@, 1i32), ("ticket_id"@, 1i32)],
            IndexKind::Plain,
        ),
        (
            "comments"@,
            seq![("parent_comment_id"@, 1i32)],
            IndexKind::Plain,
        ),
        (
            "ticket_activity"@,
            seq![("group_id"@, 1i32), ("ticket_id"@, 1i32), ("occurred_at"@, -1i32)],
            IndexKind::Plain,
        ),
        (
            "ticket_activity"@,
            seq![("group_id"@, 1i32), ("occurred_at"@, -1i32)],
            IndexKind::Plain,
        ),
        (
            "ticket_links"@,
            seq![("group_id"@, 1i32), ("source_ticket_id"@, 1i32), ("target_ticket_id"@, 1i32), ("relation_type"@, 1i32)],
            IndexKind::Unique,
        ),
        (
            "ticket_links"@,
            seq![("group_id"@, 1i32), ("target_ticket_id"@, 1i32)],
            IndexKind::Plain,
        ),
        (
            "comment_reactions"@,
            seq![("comment_id"@, 1i32), ("user_id"@, 1i32)],
            IndexKind::Unique,
        ),
        (
            "comment_reactions"@,
            seq![("group_id"@, 1i32), ("ticket_id"@, 1i32)],
            IndexKind::Plain,
        ),
        (
            "ticket_references"@,
            seq![("group_id"@, 1i32), ("ticket_id"@, 1i32)],
            IndexKind::Plain,
        ),
        (
            "ai_ticket_insights"@,
            seq![("group_id"@, 1i32), ("ticket_id"@, 1i32)],
            IndexKind::Unique,
        ),
        (
            "ai_chat_messages"@,
            seq![("group_id"@, 1i32), ("ticket_id"@, 1i32)],
            IndexKind::Plain,
        ),
        (
            "ai_chat_messages"@,
            seq![("role"@, 1i32), ("user_id"@, 1i32), ("created_at"@, 1i32)],
            IndexKind::Plain,
        ),
        (
            "ai_group_reports"@,
            seq![("group_id"@, 1i32), ("generated_at"@, -1i32)],
            IndexKind::Plain,
        ),
    ]
}

fn index(collection: &'static str, keys: Vec<(&'static str, i32)>, kind: IndexKind) -> (e: IndexSpec)
    ensures
        e.collection == collection,
        e.keys@ == keys@,
        e.kind == kind,
        index_view(e) == (collection@, keys@.map_values(|k: (&'static str, i32)| (k.0@, k.1)), kind),
{
    IndexSpec { collection, keys, kind }
}

/// Every index the store needs, in creation order (see [`index_plan`]).
pub fn index_table() -> (v: Vec<IndexSpec>)
    ensures
        v@.map_values(|e: IndexSpec| index_view(e)) == index_plan(),
{
    let e0 = index("users", vec![("email", 1i32)], IndexKind::Unique);
    assert(index_view(e0) =~~= index_plan()[0]);
    let e1 = index("refresh_tokens", vec![("token_hash", 1i32)], IndexKind::Unique);
    assert(index_view(e1) =~~= index_plan()[1]);
    let e2 = index("refresh_tokens", vec![("expires_at", 1i32)], IndexKind::Ttl);
    assert(index_view(e2) =~~= index_plan()[2]);
    let e3 = index("group_members", vec![("group_id", 1i32), ("user_id", 1i32)], IndexKind::Unique);
    assert(index_view(e3) =~~= index_plan()[3]);
    let e4 = index("group_members", vec![("user_id", 1i32)], IndexKind::Plain);
    assert(index_view(e4) =~~= index_plan()[4]);
    let e5 = index("admin_audit_log", vec![("group_id", 1i32)], IndexKind::Plain);
    assert(index_view(e5) =~~= index_plan()[5]);
    let e6 = index("admin_audit_log", vec![("deleted_user_id", 1i32)], IndexKind::Plain);
    assert(index_view(e6) =~~= index_plan()[6]);
    let e7 = index("tickets", vec![("group_id", 1i32)], IndexKind::Plain);
    assert(index_view(e7) =~~= index_plan()[7]);
    let e8 = index("tickets", vec![("group_id", 1i32), ("status", 1i32)], IndexKind::Plain);
    assert(index_view(e8) =~~= index_plan()[8]);
    let e9 = index("tickets", vec![("group_id", 1i32), ("created_by", 1i32)], IndexKind::Plain);
    assert(index_view(e9) =~~= index_plan()[9]);
    let e10 = index("tickets", vec![("group_id", 1i32), ("ticket_number", 1i32)], IndexKind::Unique);
    assert(index_view(e10) =~~= index_plan()[10]);
    let e11 = index("comments", vec![("group_id", 1i32), ("ticket_id", 1i32)], IndexKind::Plain);
    assert(index_view(e11) =~~= index_plan()[11]);
    let e12 = index("comments", vec![("parent_comment_id", 1i32)], IndexKind::Plain);
    assert(index_view(e12) =~~= index_plan()[12]);
    let e13 = index("ticket_activity", vec![("group_id", 1i32), ("ticket_id", 1i32), ("occurred_at", -1i32)], IndexKind::Plain);
    assert(index_view(e13) =~~= index_plan()[13]);
    let e14 = index("ticket_activity", vec![("group_id", 1i32), ("occurred_at", -1i32)], IndexKind::Plain);
    assert(index_view(e14) =~~= index_plan()[14]);
    let e15 = index("ticket_links", vec![("group_id", 1i32), ("source_ticket_id", 1i32), ("target_ticket_id", 1i32), ("relation_type", 1i32)], IndexKind::Unique);
    assert(index_view(e15) =~~= index_plan()[15]);
    let e16 = index("ticket_links", vec![("group_id", 1i32), ("target_ticket_id", 1i32)], IndexKind::Plain);
    assert(index_view(e16) =~~= index_plan()[16]);
    let e17 = index("comment_reactions", vec![("comment_id", 1i32), ("user_id", 1i32)], IndexKind::Unique);
    assert(index_view(e17) =~~= index_plan()[17]);
    let e18 = index("comment_reactions", vec![("group_id", 1i32), ("ticket_id", 1i32)], IndexKind::Plain);
    assert(index_view(e18) =~~= index_plan()[18]);
    let e19 = index("ticket_references", vec![("group_id", 1i32), ("ticket_id", 1i32)], IndexKind::Plain);
    assert(index_view(e19) =~~= index_plan()[19]);
    let e20 = index("ai_ticket_insights", vec![("group_id", 1i32), ("ticket_id", 1i32)], IndexKind::Unique);
    assert(index_view(e20) =~~= index_plan()[20]);
    let e21 = index("ai_chat_messages", vec![("group_id", 1i32), ("ticket_id", 1i32)], IndexKind::Plain);
    assert(index_view(e21) =~~= index_plan()[21]);
    let e22 = index("ai_chat_messages", vec![("role", 1i32), ("user_id", 1i32), ("created_at", 1i32)], IndexKind::Plain);
    assert(index_view(e22) =~~= index_plan()[22]);
    let e23 = index("ai_group_reports", vec![("group_id", 1i32), ("generated_at", -1i32)], IndexKind::Plain);
    assert(index_view(e23) =~~= index_plan()[23]);
    let v = vec![
        e0, e1, e2, e3, e4, e5, e6, e7, e8, e9, e10, e11,
        e12, e13, e14, e15, e16, e17, e18, e19, e20, e21, e22, e23,
    ];
    assert(v@.map_values(|e: IndexSpec| index_view(e)) =~= index_plan());
    v
}

} // verus!
