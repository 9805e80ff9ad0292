//! Groups (the tenants) and their memberships, with the rule that a group
//! never loses its last Group Admin.
use vstd::prelude::*;
use crate::errors::{ApiError, validation, conflict};
use crate::ids::{Oid, hex_of};
use crate::user::{User, opt_id_string, opt_id_text};
use crate::text::is_blank;
use crate::text::trimmed;

verus! {

/// A member's role inside one group.
#[derive(Debug, Clone, Copy, PartialEq, Eq, Structural)]
pub enum Role {
    Contributor,
    GroupAdmin,
}

/// A stored group. `created_at` is in milliseconds since the epoch.
#[derive(Debug, Clone)]
pub struct Group {
    pub id: Option<Oid>,
    pub name: String,
    pub owner_id: Oid,
    pub created_at: i64,
}

/// What a group is created from.
#[derive(Debug, Clone)]
pub struct CreateGroupInput {
    pub name: String,
    pub owner_id: Oid,
}

/// One user's membership of one group. At most one exists per (group, user).
#[derive(Debug, Clone, Copy, PartialEq, Eq, Structural)]
pub struct GroupMember {
    pub id: Option<Oid>,
    pub group_id: Oid,
    pub user_id: Oid,
    pub role: Role,
    pub joined_at: i64,
}

/// Body of `POST /groups` and `PATCH /groups/{id}`.
#[derive(Debug, Clone)]
pub struct CreateGroupRequest {
    pub name: String,
}

/// Body of `POST /groups/{id}/users`.
#[derive(Debug, Clone)]
pub struct AddMemberRequest {
    pub user_id: String,
    pub role: Role,
}

/// Body of `PATCH /groups/{id}/users/{user_id}`.
#[derive(Debug, Clone)]
pub struct UpdateMemberRoleRequest {
    pub role: Role,
}

/// A group name must not be blank.
pub fn validate_name(name: &str) -> (r: Result<(), ApiError>)
    ensures
        r is Ok <==> trimmed(name@).len() > 0,
        r matches Err(e) ==> e.is_validation("name is required"@),
{
    if is_blank(name) {
        return Err(validation("name is required"));
    }
    Ok(())
}

/// Query of `GET /groups/{id}/users/lookup`.
#[derive(Debug, Clone)]
pub struct LookupUserQuery {
    pub email: String,
}

/// A lookup needs an email to look for.
pub fn validate_lookup(query: &LookupUserQuery) -> (r: Result<(), ApiError>)
    ensures
        r is Ok <==> trimmed(query.email@).len() > 0,
        r matches Err(e) ==> e.is_validation("email is required"@),
{
    if is_blank(query.email.as_str()) {
        return Err(validation("email is required"));
    }
    Ok(())
}

/// The outcome of the sole-Group-Admin guard, given the target's membership
/// (if any) and how many Group Admins the group has.
pub open spec fn sole_admin_guard_ok(target: Option<GroupMember>, admin_count: nat) -> bool {
    match target {
        None => false,
        Some(m) => !(m.role == Role::GroupAdmin && admin_count <= 1),
    }
}

/// Blocks removing or demoting a group's last Group Admin: a successor must
/// be appointed first. A missing membership is `NotFound`.
pub fn guard_sole_admin_removal(target: Option<GroupMember>, admin_count: u64) -> (r: Result<
    (),
    ApiError,
>)
    ensures
        r is Ok <==> sole_admin_guard_ok(target, admin_count as nat),
        target is None ==> r matches Err(ApiError::NotFound),
        (target matches Some(m) && m.role == Role::GroupAdmin && admin_count <= 1) ==> (r matches Err(
            e,
        ) && e.is_conflict(
            "a successor Group Admin must be appointed before the sole Group Admin can be removed"@,
        )),
{
    match target {
        None => Err(ApiError::NotFound),
        Some(m) => {
            if m.role == Role::GroupAdmin && admin_count <= 1 {
                Err(
                    conflict(
                        "a successor Group Admin must be appointed before the sole Group Admin can be removed",
                    ),
                )
            } else {
                Ok(())
            }
        },
    }
}

/// Checks before a role change: demoting to Contributor goes through the
/// sole-admin guard; promoting only needs the membership to exist.
pub fn check_role_update(role: Role, target: Option<GroupMember>, admin_count: u64) -> (r: Result<
    (),
    ApiError,
>)
    ensures
        role == Role::Contributor ==> (r is Ok <==> sole_admin_guard_ok(target, admin_count as nat)),
        role == Role::GroupAdmin ==> (r is Ok <==> target is Some),
        target is None ==> r matches Err(ApiError::NotFound),
        role == Role::Contributor ==> ((target matches Some(m) && m.role == Role::GroupAdmin
            && admin_count <= 1) ==> (r matches Err(e) && e is Conflict)),
{
    if role == Role::Contributor {
        guard_sole_admin_removal(target, admin_count)
    } else {
        match target {
            None => Err(ApiError::NotFound),
            Some(_) => Ok(()),
        }
    }
}

/// Which path `DELETE /groups/{id}/users/{user_id}` takes.
#[derive(Debug, Clone, Copy, PartialEq, Eq, Structural)]
pub enum RemovalKind {
    /// The caller removes themselves: no Group Admin role needed.
    Leave,
    /// The caller removes someone else: Group Admin only.
    RemoveOther,
}

/// Removing yourself is leaving; removing anyone else is an admin action.
pub fn removal_kind(caller: Oid, target: Oid) -> (k: RemovalKind)
    ensures
        k == (if caller == target {
            RemovalKind::Leave
        } else {
            RemovalKind::RemoveOther
        }),
{
    if target == caller {
        RemovalKind::Leave
    } else {
        RemovalKind::RemoveOther
    }
}

/// A write that must have touched a document; `false` means it was not there.
pub fn require_changed(changed: bool) -> (r: Result<(), ApiError>)
    ensures
        r is Ok <==> changed,
        !changed ==> r matches Err(ApiError::NotFound),
{
    if changed {
        Ok(())
    } else {
        Err(ApiError::NotFound)
    }
}

/// Where a group's data is kept, each deleted by the group's id.
#[derive(Debug, Clone, Copy, PartialEq, Eq, Structural)]
pub enum GroupData {
    Members,
    Tickets,
    Comments,
    Reactions,
    AiInsights,
    ChatMessages,
    Reports,
    Activity,
    Links,
    References,
    TicketCounter,
    /// The group document itself.
    Group,
}

/// The order a group is purged in: every collection holding its data, its
/// ticket-number counter, and the group document last, so that a purge cut
/// short leaves the group in place to purge again.
pub open spec fn purge_order() -> Seq<GroupData> {
    seq![
        GroupData::Members,
        GroupData::Tickets,
        GroupData::Comments,
        GroupData::Reactions,
        GroupData::AiInsights,
        GroupData::ChatMessages,
        GroupData::Reports,
        GroupData::Activity,
        GroupData::Links,
        GroupData::References,
        GroupData::TicketCounter,
        GroupData::Group,
    ]
}

/// A purge deletes every kind of group data, each exactly once, and the
/// group document after everything else.
pub proof fn law_purge_covers_all_group_data()
    ensures
        forall|d: GroupData| #[trigger] purge_order().contains(d),
        forall|i: int, j: int|
            0 <= i < j < purge_order().len() ==> #[trigger] purge_order()[i] != #[trigger] purge_order()[j],
        purge_order().last() == GroupData::Group,
{
    let p = purge_order();
    assert forall|d: GroupData| #[trigger] p.contains(d) by {
        let k: int = match d {
            GroupData::Members => 0,
            GroupData::Tickets => 1,
            GroupData::Comments => 2,
            GroupData::Reactions => 3,
            GroupData::AiInsights => 4,
            GroupData::ChatMessages => 5,
            GroupData::Reports => 6,
            GroupData::Activity => 7,
            GroupData::Links => 8,
            GroupData::References => 9,
            GroupData::TicketCounter => 10,
            GroupData::Group => 11,
        };
        assert(p[k] == d);
    }
}

/// The deletions that purge a group, in order (see [`purge_order`]).
pub fn group_purge_steps() -> (v: Vec<GroupData>)
    ensures
        v@ == purge_order(),
{
    let v = vec![
        GroupData::Members,
        GroupData::Tickets,
        GroupData::Comments,
        GroupData::Reactions,
        GroupData::AiInsights,
        GroupData::ChatMessages,
        GroupData::Reports,
        GroupData::Activity,
        GroupData::Links,
        GroupData::References,
        GroupData::TicketCounter,
        GroupData::Group,
    ];
    assert(v@ =~= purge_order());
    v
}

/// The Group Admins in a group's membership list.
pub open spec fn count_admins(ms: Seq<GroupMember>) -> nat
    decreases ms.len(),
{
    if ms.len() == 0 {
        0
    } else {
        count_admins(ms.drop_last()) + if ms.last().role == Role::GroupAdmin {
            1nat
        } else {
            0nat
        }
    }
}

/// The membership of user `u` in `ms`, if any.
pub open spec fn find_member(ms: Seq<GroupMember>, u: Oid) -> Option<GroupMember>
    decreases ms.len(),
{
    if ms.len() == 0 {
        None
    } else if ms.last().user_id == u {
        Some(ms.last())
    } else {
        find_member(ms.drop_last(), u)
    }
}

/// `ms` without user `u`'s membership.
pub open spec fn without_user(ms: Seq<GroupMember>, u: Oid) -> Seq<GroupMember>
    decreases ms.len(),
{
    if ms.len() == 0 {
        ms
    } else if ms.last().user_id == u {
        without_user(ms.drop_last(), u)
    } else {
        without_user(ms.drop_last(), u).push(ms.last())
    }
}

/// `ms` with user `u`'s role set to `role`.
pub open spec fn with_role(ms: Seq<GroupMember>, u: Oid, role: Role) -> Seq<GroupMember>
    decreases ms.len(),
{
    if ms.len() == 0 {
        ms
    } else if ms.last().user_id == u {
        with_role(ms.drop_last(), u, role).push(GroupMember { role: role, ..ms.last() })
    } else {
        with_role(ms.drop_last(), u, role).push(ms.last())
    }
}

/// The membership of user `u` in the list `ms`, if any.
pub fn find_member_in(ms: &Vec<GroupMember>, u: Oid) -> (r: Option<GroupMember>)
    ensures
        r == find_member(ms@, u),
{
    let mut found: Option<GroupMember> = None;
    let mut i: usize = 0;
    assert(ms@.take(0) =~= Seq::<GroupMember>::empty());
    while i < ms.len()
        invariant
            i <= ms@.len(),
            found == find_member(ms@.take(i as int), u),
        decreases ms.len() - i,
    {
        let m = ms[i];
        proof {
            assert(ms@.take(i + 1).drop_last() == ms@.take(i as int));
            assert(ms@.take(i + 1).last() == m);
        }
        if m.user_id == u {
            found = Some(m);
        }
        i = i + 1;
    }
    assert(ms@.take(ms@.len() as int) == ms@);
    found
}

/// How many Group Admins the list `ms` holds.
pub fn count_group_admins(ms: &Vec<GroupMember>) -> (n: u64)
    ensures
        n == count_admins(ms@),
{
    let mut n: u64 = 0;
    let mut i: usize = 0;
    assert(ms@.take(0) =~= Seq::<GroupMember>::empty());
    while i < ms.len()
        invariant
            i <= ms@.len(),
            n == count_admins(ms@.take(i as int)),
            n <= i,
        decreases ms.len() - i,
    {
        let m = ms[i];
        proof {
            assert(ms@.take(i + 1).drop_last() == ms@.take(i as int));
            assert(ms@.take(i + 1).last() == m);
        }
        if m.role == Role::GroupAdmin {
            n = n + 1;
        }
        i = i + 1;
    }
    assert(ms@.take(ms@.len() as int) == ms@);
    n
}

/// The list `ms` without user `u`'s membership.
pub fn members_without(ms: &Vec<GroupMember>, u: Oid) -> (r: Vec<GroupMember>)
    ensures
        r@ == without_user(ms@, u),
{
    let mut r: Vec<GroupMember> = Vec::new();
    let mut i: usize = 0;
    assert(ms@.take(0) =~= Seq::<GroupMember>::empty());
    while i < ms.len()
        invariant
            i <= ms@.len(),
            r@ == without_user(ms@.take(i as int), u),
        decreases ms.len() - i,
    {
        let m = ms[i];
        proof {
            assert(ms@.take(i + 1).drop_last() == ms@.take(i as int));
            assert(ms@.take(i + 1).last() == m);
        }
        if m.user_id != u {
            r.push(m);
        }
        i = i + 1;
    }
    assert(ms@.take(ms@.len() as int) == ms@);
    r
}

/// No user holds two memberships of the same group.
pub open spec fn distinct_users(ms: Seq<GroupMember>) -> bool {
    forall|i: int, j: int|
        0 <= i < ms.len() && 0 <= j < ms.len() && i != j ==> ms[i].user_id != ms[j].user_id
}

proof fn lemma_distinct_drop_last(ms: Seq<GroupMember>)
    requires
        distinct_users(ms),
        ms.len() > 0,
    ensures
        distinct_users(ms.drop_last()),
        find_member(ms.drop_last(), ms.last().user_id) is None,
{
    lemma_find_member_in(ms.drop_last(), ms.last().user_id);
    if find_member(ms.drop_last(), ms.last().user_id) is Some {
        let k = choose|k: int|
            0 <= k < ms.drop_last().len() && ms.drop_last()[k].user_id == ms.last().user_id;
        assert(ms[k].user_id == ms[ms.len() - 1].user_id);
    }
}

pub proof fn lemma_find_member_in(ms: Seq<GroupMember>, u: Oid)
    ensures
        find_member(ms, u) is Some <==> exists|k: int| 0 <= k < ms.len() && ms[k].user_id == u,
        find_member(ms, u) matches Some(m) ==> m.user_id == u,
    decreases ms.len(),
{
    if ms.len() > 0 {
        lemma_find_member_in(ms.drop_last(), u);
        if exists|k: int| 0 <= k < ms.len() && ms[k].user_id == u {
            let k = choose|k: int| 0 <= k < ms.len() && ms[k].user_id == u;
            if k < ms.len() - 1 {
                assert(ms.drop_last()[k].user_id == u);
            }
        }
        if exists|k: int| 0 <= k < ms.drop_last().len() && ms.drop_last()[k].user_id == u {
            let k = choose|k: int| 0 <= k < ms.drop_last().len() && ms.drop_last()[k].user_id == u;
            assert(ms[k].user_id == u);
        }
    }
}

proof fn lemma_count_without_user(ms: Seq<GroupMember>, u: Oid)
    requires
        distinct_users(ms),
    ensures
        count_admins(without_user(ms, u)) + (if find_member(ms, u) matches Some(m) && m.role
            == Role::GroupAdmin {
            1nat
        } else {
            0nat
        }) == count_admins(ms),
    decreases ms.len(),
{
    if ms.len() > 0 {
        lemma_distinct_drop_last(ms);
        lemma_count_without_user(ms.drop_last(), u);
        if ms.last().user_id == u {
        } else {
            let w = without_user(ms.drop_last(), u);
            assert(w.push(ms.last()).drop_last() == w);
        }
    }
}

proof fn lemma_with_role_admin(ms: Seq<GroupMember>, u: Oid)
    requires
        find_member(ms, u) is Some,
    ensures
        count_admins(with_role(ms, u, Role::GroupAdmin)) >= 1,
        find_member(with_role(ms, u, Role::GroupAdmin), u) matches Some(m) && m.role
            == Role::GroupAdmin,
    decreases ms.len(),
{
    let ms2 = with_role(ms, u, Role::GroupAdmin);
    if ms.last().user_id == u {
        let w = with_role(ms.drop_last(), u, Role::GroupAdmin);
        assert(ms2.drop_last() == w);
        assert(ms2.last().role == Role::GroupAdmin);
    } else {
        lemma_with_role_admin(ms.drop_last(), u);
        let w = with_role(ms.drop_last(), u, Role::GroupAdmin);
        assert(ms2.drop_last() == w);
        assert(ms2.last().user_id != u);
    }
}

proof fn lemma_with_role_distinct(ms: Seq<GroupMember>, u: Oid, role: Role)
    ensures
        with_role(ms, u, role).len() == ms.len(),
        forall|k: int|
            0 <= k < ms.len() ==> (#[trigger] with_role(ms, u, role)[k]).user_id == ms[k].user_id,
    decreases ms.len(),
{
    if ms.len() > 0 {
        lemma_with_role_distinct(ms.drop_last(), u, role);
        let w = with_role(ms.drop_last(), u, role);
        let ms2 = with_role(ms, u, role);
        assert forall|k: int| 0 <= k < ms.len() implies (#[trigger] ms2[k]).user_id
            == ms[k].user_id by {
            if k < ms.len() - 1 {
                assert(ms2[k] == w[k]);
                assert(ms.drop_last()[k] == ms[k]);
            }
        }
    }
}

/// A group keeps a Group Admin through any removal or departure the
/// sole-admin guard lets through: if the group had an admin and the guard
/// passes for the target (with the group's real admin count), the remaining
/// members still include an admin.
pub proof fn law_removal_keeps_an_admin(ms: Seq<GroupMember>, target: Oid)
    requires
        distinct_users(ms),
        count_admins(ms) >= 1,
        sole_admin_guard_ok(find_member(ms, target), count_admins(ms)),
    ensures
        count_admins(without_user(ms, target)) >= 1,
{
    lemma_count_without_user(ms, target);
}

/// The same for a demotion to Contributor that the guard lets through: the
/// group still has a Group Admin afterwards.
pub proof fn law_demotion_keeps_an_admin(ms: Seq<GroupMember>, target: Oid)
    requires
        distinct_users(ms),
        count_admins(ms) >= 1,
        sole_admin_guard_ok(find_member(ms, target), count_admins(ms)),
    ensures
        count_admins(with_role(ms, target, Role::Contributor)) >= 1,
{
    lemma_count_with_contributor(ms, target);
}

proof fn lemma_count_with_contributor(ms: Seq<GroupMember>, u: Oid)
    requires
        distinct_users(ms),
    ensures
        count_admins(with_role(ms, u, Role::Contributor)) + (if find_member(ms, u) matches Some(m)
            && m.role == Role::GroupAdmin {
            1nat
        } else {
            0nat
        }) == count_admins(ms),
    decreases ms.len(),
{
    if ms.len() > 0 {
        lemma_distinct_drop_last(ms);
        lemma_count_with_contributor(ms.drop_last(), u);
        let w = with_role(ms.drop_last(), u, Role::Contributor);
        let ms2 = with_role(ms, u, Role::Contributor);
        assert(ms2.drop_last() == w);
    }
}

/// Handing a group to a successor who is a member and then removing the
/// departing user leaves the group with a Group Admin: the successor.
pub proof fn law_succession_keeps_an_admin(ms: Seq<GroupMember>, departing: Oid, successor: Oid)
    requires
        distinct_users(ms),
        successor != departing,
        find_member(ms, successor) is Some,
    ensures
        count_admins(without_user(with_role(ms, successor, Role::GroupAdmin), departing)) >= 1,
{
    let ms2 = with_role(ms, successor, Role::GroupAdmin);
    lemma_with_role_admin(ms, successor);
    lemma_with_role_distinct(ms, successor, Role::GroupAdmin);
    assert(distinct_users(ms2)) by {
        assert forall|i: int, j: int|
            0 <= i < ms2.len() && 0 <= j < ms2.len() && i != j implies ms2[i].user_id
            != ms2[j].user_id by {
            assert(ms2[i].user_id == ms[i].user_id);
            assert(ms2[j].user_id == ms[j].user_id);
        }
    }
    lemma_count_without_user(ms2, departing);
    lemma_find_member_in(ms2, departing);
    lemma_find_member_in(ms2, successor);
    lemma_without_keeps_admin(ms2, departing, successor);
}

proof fn lemma_without_keeps_admin(ms: Seq<GroupMember>, gone: Oid, stays: Oid)
    requires
        gone != stays,
        find_member(ms, stays) matches Some(m) && m.role == Role::GroupAdmin,
    ensures
        count_admins(without_user(ms, gone)) >= 1,
    decreases ms.len(),
{
    let w = without_user(ms.drop_last(), gone);
    if ms.last().user_id == stays {
        assert(without_user(ms, gone) == w.push(ms.last()));
        assert(without_user(ms, gone).drop_last() == w);
    } else {
        lemma_without_keeps_admin(ms.drop_last(), gone, stays);
        if ms.last().user_id != gone {
            assert(without_user(ms, gone).drop_last() == w);
        }
    }
}

/// A group as clients see it. `created_at` is in milliseconds since the epoch.
#[derive(Debug, Clone)]
pub struct GroupResponse {
    pub id: String,
    pub name: String,
    pub owner_id: String,
    pub created_at: i64,
}

/// A membership as clients see it, with the member's current name and email.
#[derive(Debug, Clone)]
pub struct MemberResponse {
    pub id: String,
    pub user_id: String,
    pub name: String,
    pub email: String,
    pub role: Role,
    pub joined_at: i64,
}

/// One row of "my groups".
#[derive(Debug, Clone)]
pub struct GroupSummaryResponse {
    pub id: String,
    pub name: String,
    pub role: Role,
    pub member_count: u64,
    pub open_ticket_count: u64,
    pub created_at: i64,
}

/// The result of looking a user up by email before adding them.
#[derive(Debug, Clone)]
pub struct UserLookupResponse {
    pub id: String,
    pub name: String,
    pub email: String,
}

impl GroupResponse {
    /// The public shape of a group.
    pub fn from_group(group: Group) -> (r: GroupResponse)
        ensures
            r.id@ == opt_id_text(group.id),
            r.name == group.name,
            r.owner_id@ == hex_of(group.owner_id.value as nat, 24),
            r.created_at == group.created_at,
    {
        GroupResponse {
            id: opt_id_string(group.id),
            name: group.name,
            owner_id: group.owner_id.to_hex(),
            created_at: group.created_at,
        }
    }
}

/// A membership with its member's current name and email; both are empty
/// when the account is gone.
pub fn member_response(member: GroupMember, user: Option<User>) -> (r: MemberResponse)
    ensures
        r.id@ == opt_id_text(member.id),
        r.user_id@ == hex_of(member.user_id.value as nat, 24),
        match user {
            Some(u) => r.name == u.name && r.email == u.email,
            None => r.name@.len() == 0 && r.email@.len() == 0,
        },
        r.role == member.role,
        r.joined_at == member.joined_at,
{
    let (name, email) = match user {
        Some(u) => (u.name, u.email),
        None => (String::new(), String::new()),
    };
    MemberResponse {
        id: opt_id_string(member.id),
        user_id: member.user_id.to_hex(),
        name,
        email,
        role: member.role,
        joined_at: member.joined_at,
    }
}

/// One row of "my groups": the group, the caller's role in it, and its
/// member and open-ticket counts.
pub fn group_summary(group: Group, role: Role, member_count: u64, open_ticket_count: u64) -> (r:
    GroupSummaryResponse)
    ensures
        r.id@ == opt_id_text(group.id),
        r.name == group.name,
        r.role == role,
        r.member_count == member_count,
        r.open_ticket_count == open_ticket_count,
        r.created_at == group.created_at,
{
    GroupSummaryResponse {
        id: opt_id_string(group.id),
        name: group.name,
        role,
        member_count,
        open_ticket_count,
        created_at: group.created_at,
    }
}

/// The account found by email, as a Group Admin sees it before adding it.
pub fn user_lookup(user: User) -> (r: UserLookupResponse)
    ensures
        r.id@ == opt_id_text(user.id),
        r.name == user.name,
        r.email == user.email,
{
    UserLookupResponse { id: opt_id_string(user.id), name: user.name, email: user.email }
}

/// A group's creator joins it as its first Group Admin.
pub fn founding_member(group_id: Oid, user_id: Oid) -> (r: (Oid, Oid, Role))
    ensures
        r == (group_id, user_id, Role::GroupAdmin),
{
    (group_id, user_id, Role::GroupAdmin)
}

} // verus!
