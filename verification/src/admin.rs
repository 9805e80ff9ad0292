//! System-Admin user deletion: which of the user's groups can simply drop
//! them, which are deleted with them, and which need a successor Group Admin
//! first — and the check that every such group was given a valid one.
use vstd::prelude::*;
use crate::errors::ApiError;
use crate::group::{
    distinct_users, law_succession_keeps_an_admin, with_role,
    GroupMember, MemberResponse, Role, count_admins, count_group_admins, find_member,
    find_member_in, members_without, without_user,
};
use crate::ids::{Oid, hex_of, parse_id, is_oid_text, hex_value};
use crate::user::{opt_id_string, opt_id_text};
use crate::text::push_str;

verus! {

/// What an audit entry records.
#[derive(Debug, Clone, Copy, PartialEq, Eq, Structural)]
pub enum AuditAction {
    Succession,
    GroupAutoDeleted,
}

/// One succession or automatic group deletion performed while deleting a
/// user; names are snapshotted while the entities still exist.
#[derive(Debug, Clone)]
pub struct AuditLogEntry {
    pub id: Option<Oid>,
    pub action: AuditAction,
    pub group_id: Oid,
    pub group_name: String,
    pub deleted_user_id: Oid,
    pub deleted_user_name: String,
    pub successor_user_id: Option<Oid>,
    pub successor_user_name: Option<String>,
    pub performed_by: Oid,
    pub performed_by_name: String,
    pub created_at: i64,
}

/// Optional filters of the audit-log view; `user_id` is the deleted user.
#[derive(Debug, Clone)]
pub struct AuditLogQuery {
    pub group_id: Option<String>,
    pub user_id: Option<String>,
}

/// A group that will be deleted along with its sole member.
#[derive(Debug, Clone)]
pub struct AutoDeleteGroupInfo {
    pub group_id: String,
    pub group_name: String,
}

/// A group whose sole Group Admin is being deleted while others remain.
#[derive(Debug, Clone)]
pub struct BlockedGroupInfo {
    pub group_id: String,
    pub group_name: String,
    pub eligible_successors: Vec<MemberResponse>,
}

/// The preview of a user deletion.
#[derive(Debug, Clone)]
pub struct DeletionCheckResponse {
    pub blocked_groups: Vec<BlockedGroupInfo>,
    pub auto_delete_groups: Vec<AutoDeleteGroupInfo>,
}

/// Body of the user-deletion request: group id -> successor user id, both
/// as hex text, one pair per group.
#[derive(Debug, Clone)]
pub struct DeleteUserRequest {
    pub successors: Vec<(String, String)>,
}

/// One of the deleted user's groups with its full membership list.
#[derive(Debug, Clone)]
pub struct GroupMembership {
    pub group_id: Oid,
    pub group_name: String,
    pub members: Vec<GroupMember>,
}

/// What happens to one group when a member is deleted.
#[derive(Debug, Clone)]
pub enum GroupDisposition {
    /// A Contributor, or one of several Group Admins: just drop the membership.
    PlainRemoval,
    /// The sole Group Admin and nobody else: the group goes too.
    AutoDelete,
    /// The sole Group Admin among other members, who are the eligible successors.
    Blocked(Vec<GroupMember>),
}

/// Whether deleting `target` only removes their membership of `ms`.
pub open spec fn is_plain_removal(target: Oid, ms: Seq<GroupMember>) -> bool {
    find_member(ms, target) matches Some(m) && (m.role != Role::GroupAdmin || count_admins(ms) > 1)
}

/// Whether deleting `target` deletes the group `ms` too.
pub open spec fn is_auto_delete(target: Oid, ms: Seq<GroupMember>) -> bool {
    find_member(ms, target) is Some && !is_plain_removal(target, ms) && without_user(ms, target).len()
        == 0
}

/// Whether deleting `target` needs a successor for the group `ms`.
pub open spec fn is_blocked(target: Oid, ms: Seq<GroupMember>) -> bool {
    find_member(ms, target) is Some && !is_plain_removal(target, ms) && without_user(ms, target).len()
        > 0
}

/// Classifies one group of a user who is about to be deleted. The user not
/// being a member of a group listed as theirs is an internal inconsistency.
pub fn classify_membership(target: Oid, members: &Vec<GroupMember>) -> (r: Result<
    GroupDisposition,
    ApiError,
>)
    ensures
        find_member(members@, target) is None <==> r is Err,
        r matches Err(e) ==> e is Internal,
        r matches Ok(d) ==> match d {
            GroupDisposition::PlainRemoval => is_plain_removal(target, members@),
            GroupDisposition::AutoDelete => is_auto_delete(target, members@),
            GroupDisposition::Blocked(others) => is_blocked(target, members@) && others@
                == without_user(members@, target),
        },
{
    let membership = match find_member_in(members, target) {
        Some(m) => m,
        None => return Err(ApiError::Internal),
    };
    if membership.role != Role::GroupAdmin {
        return Ok(GroupDisposition::PlainRemoval);
    }
    let admin_count = count_group_admins(members);
    if admin_count > 1 {
        return Ok(GroupDisposition::PlainRemoval);
    }
    let others = members_without(members, target);
    if others.len() == 0 {
        Ok(GroupDisposition::AutoDelete)
    } else {
        Ok(GroupDisposition::Blocked(others))
    }
}

/// A group needing a successor, with its eligible successors.
#[derive(Debug, Clone)]
pub struct BlockedGroup {
    pub group_id: Oid,
    pub group_name: String,
    pub others: Vec<GroupMember>,
}

/// The classified groups of a user about to be deleted, each list in the
/// order the groups were given.
#[derive(Debug, Clone)]
pub struct DeletionPlan {
    pub blocked: Vec<BlockedGroup>,
    pub auto_delete: Vec<(Oid, String)>,
    pub plain_removals: Vec<Oid>,
}

/// Whether `target` is a member of every group in `gs`.
pub open spec fn member_of_all(target: Oid, gs: Seq<GroupMembership>) -> bool {
    forall|i: int| 0 <= i < gs.len() ==> find_member(#[trigger] gs[i].members@, target) is Some
}

/// The ids of the groups of `gs` that only lose the membership.
pub open spec fn plain_ids(target: Oid, gs: Seq<GroupMembership>) -> Seq<Oid>
    decreases gs.len(),
{
    if gs.len() == 0 {
        seq![]
    } else if is_plain_removal(target, gs.last().members@) {
        plain_ids(target, gs.drop_last()).push(gs.last().group_id)
    } else {
        plain_ids(target, gs.drop_last())
    }
}

/// The (id, name) of the groups of `gs` deleted along with `target`.
pub open spec fn auto_delete_groups(target: Oid, gs: Seq<GroupMembership>) -> Seq<(Oid, Seq<char>)>
    decreases gs.len(),
{
    if gs.len() == 0 {
        seq![]
    } else if is_auto_delete(target, gs.last().members@) {
        auto_delete_groups(target, gs.drop_last()).push((gs.last().group_id, gs.last().group_name@))
    } else {
        auto_delete_groups(target, gs.drop_last())
    }
}

/// The (id, name, eligible successors) of the groups of `gs` that need a
/// successor before `target` can go.
pub open spec fn blocked_groups(target: Oid, gs: Seq<GroupMembership>) -> Seq<
    (Oid, Seq<char>, Seq<GroupMember>),
>
    decreases gs.len(),
{
    if gs.len() == 0 {
        seq![]
    } else if is_blocked(target, gs.last().members@) {
        blocked_groups(target, gs.drop_last()).push(
            (gs.last().group_id, gs.last().group_name@, without_user(gs.last().members@, target)),
        )
    } else {
        blocked_groups(target, gs.drop_last())
    }
}

/// The view of a blocked group as plain values.
pub open spec fn blocked_view(b: BlockedGroup) -> (Oid, Seq<char>, Seq<GroupMember>) {
    (b.group_id, b.group_name@, b.others@)
}

/// The view of an auto-deleted group as plain values.
pub open spec fn auto_view(a: (Oid, String)) -> (Oid, Seq<char>) {
    (a.0, a.1@)
}

/// Walks every group of the user about to be deleted and classifies each:
/// shared by the deletion preview and by the deletion itself, which re-runs
/// it rather than trust an earlier preview.
pub fn build_plan(target: Oid, groups: Vec<GroupMembership>) -> (r: Result<DeletionPlan, ApiError>)
    ensures
        r is Ok <==> member_of_all(target, groups@),
        r matches Err(e) ==> e is Internal,
        r matches Ok(p) ==> {
            &&& p.plain_removals@ == plain_ids(target, groups@)
            &&& p.auto_delete@.map_values(|a: (Oid, String)| auto_view(a)) == auto_delete_groups(
                target,
                groups@,
            )
            &&& p.blocked@.map_values(|b: BlockedGroup| blocked_view(b)) == blocked_groups(
                target,
                groups@,
            )
        },
{
    let mut plan = DeletionPlan {
        blocked: Vec::new(),
        auto_delete: Vec::new(),
        plain_removals: Vec::new(),
    };
    let n = groups.len();
    let mut i: usize = 0;
    assert(groups@.take(0) =~= Seq::<GroupMembership>::empty());
    while i < n
        invariant
            i <= n == groups@.len(),
            member_of_all(target, groups@.take(i as int)),
            plan.plain_removals@ == plain_ids(target, groups@.take(i as int)),
            plan.auto_delete@.map_values(|a: (Oid, String)| auto_view(a)) == auto_delete_groups(
                target,
                groups@.take(i as int),
            ),
            plan.blocked@.map_values(|b: BlockedGroup| blocked_view(b)) == blocked_groups(
                target,
                groups@.take(i as int),
            ),
        decreases n - i,
    {
        let g = &groups[i];
        let ghost pre = groups@.take(i as int);
        let ghost cur = groups@.take(i + 1);
        proof {
            assert(cur.drop_last() == pre);
            assert(cur.last() == groups@[i as int]);
        }
        let d = classify_membership(target, &g.members);
        match d {
            Err(e) => {
                proof {
                    assert(find_member(groups@[i as int].members@, target) is None);
                }
                return Err(e);
            },
            Ok(GroupDisposition::PlainRemoval) => {
                plan.plain_removals.push(g.group_id);
            },
            Ok(GroupDisposition::AutoDelete) => {
                let ghost old_auto = plan.auto_delete@;
                plan.auto_delete.push((g.group_id, g.group_name.clone()));
                proof {
                    assert(plan.auto_delete@ == old_auto.push((g.group_id, plan.auto_delete@.last().1)));
                    assert(plan.auto_delete@.map_values(|a: (Oid, String)| auto_view(a))
                        =~= old_auto.map_values(|a: (Oid, String)| auto_view(a)).push(
                        auto_view(plan.auto_delete@.last()),
                    ));
                }
            },
            Ok(GroupDisposition::Blocked(others)) => {
                let ghost old_blocked = plan.blocked@;
                let b = BlockedGroup { group_id: g.group_id, group_name: g.group_name.clone(), others };
                let ghost bv = b;
                plan.blocked.push(b);
                proof {
                    assert(plan.blocked@.map_values(|b: BlockedGroup| blocked_view(b))
                        =~= old_blocked.map_values(|b: BlockedGroup| blocked_view(b)).push(
                        blocked_view(bv),
                    ));
                }
            },
        }
        proof {
            assert forall|k: int| 0 <= k < cur.len() implies find_member(
                #[trigger] cur[k].members@,
                target,
            ) is Some by {
                if k < i {
                    assert(cur[k] == pre[k]);
                }
            }
        }
        i = i + 1;
    }
    proof {
        assert(groups@.take(n as int) == groups@);
    }
    Ok(plan)
}

/// The successor named for group `g`, the first pair keyed by `g`.
pub open spec fn lookup_successor(pairs: Seq<(Oid, Oid)>, g: Oid) -> Option<Oid>
    decreases pairs.len(),
{
    if pairs.len() == 0 {
        None
    } else if pairs[0].0 == g {
        Some(pairs[0].1)
    } else {
        lookup_successor(pairs.skip(1), g)
    }
}

fn find_successor(pairs: &Vec<(Oid, Oid)>, g: Oid) -> (r: Option<Oid>)
    ensures
        r == lookup_successor(pairs@, g),
{
    let mut i: usize = 0;
    assert(pairs@.skip(0) == pairs@);
    while i < pairs.len()
        invariant
            i <= pairs@.len(),
            lookup_successor(pairs@, g) == lookup_successor(pairs@.skip(i as int), g),
        decreases pairs.len() - i,
    {
        let (k, v) = pairs[i];
        proof {
            let rest = pairs@.skip(i as int);
            assert(rest[0] == pairs@[i as int]);
            assert(rest.skip(1) == pairs@.skip(i + 1));
        }
        if k == g {
            return Some(v);
        }
        i = i + 1;
    }
    None
}

/// Whether group `b`'s named successor exists and is one of its other members.
pub open spec fn successor_ok(b: BlockedGroup, pairs: Seq<(Oid, Oid)>) -> bool {
    lookup_successor(pairs, b.group_id) matches Some(s) && find_member(b.others@, s) is Some
}

/// The message for a blocked group with no successor named.
pub open spec fn missing_successor_message(g: Oid) -> Seq<char> {
    "a successor is required for group "@ + hex_of(g.value as nat, 24)
}

/// The message for a blocked group whose named successor isn't a member.
pub open spec fn non_member_successor_message(g: Oid) -> Seq<char> {
    "successor is not a member of group "@ + hex_of(g.value as nat, 24)
}

/// The error for the first blocked group whose successor check fails.
pub open spec fn successor_error_for(b: BlockedGroup, pairs: Seq<(Oid, Oid)>, e: ApiError) -> bool {
    match lookup_successor(pairs, b.group_id) {
        None => e.is_conflict(missing_successor_message(b.group_id)),
        Some(s) => find_member(b.others@, s) is None && e.is_conflict(
            non_member_successor_message(b.group_id),
        ),
    }
}

/// Checks, before any write, that every blocked group has a successor who
/// is one of its other members; returns the successors in group order. The
/// first group that fails the check decides the error.
pub fn validate_successors(blocked: &Vec<BlockedGroup>, successors: &Vec<(Oid, Oid)>) -> (r: Result<
    Vec<Oid>,
    ApiError,
>)
    ensures
        r is Ok <==> forall|i: int| 0 <= i < blocked@.len() ==> successor_ok(#[trigger] blocked@[i], successors@),
        r matches Ok(v) ==> v@.len() == blocked@.len() && forall|i: int|
            0 <= i < v@.len() ==> lookup_successor(successors@, #[trigger] blocked@[i].group_id)
                == Some(v@[i]),
        r matches Err(e) ==> exists|i: int|
            0 <= i < blocked@.len() && (forall|j: int| 0 <= j < i ==> successor_ok(#[trigger] blocked@[j], successors@))
                && successor_error_for(#[trigger] blocked@[i], successors@, e),
{
    let mut chosen: Vec<Oid> = Vec::new();
    let mut i: usize = 0;
    while i < blocked.len()
        invariant
            i <= blocked@.len(),
            chosen@.len() == i,
            forall|j: int| 0 <= j < i ==> successor_ok(#[trigger] blocked@[j], successors@),
            forall|j: int|
                0 <= j < i ==> lookup_successor(successors@, #[trigger] blocked@[j].group_id) == Some(
                    chosen@[j],
                ),
        decreases blocked.len() - i,
    {
        let b = &blocked[i];
        let s = match find_successor(successors, b.group_id) {
            Some(s) => s,
            None => {
                let mut msg = "a successor is required for group ".to_string();
                push_str(&mut msg, b.group_id.to_hex().as_str());
                let e = ApiError::Conflict(msg);
                assert(successor_error_for(blocked@[i as int], successors@, e));
                return Err(e);
            },
        };
        if find_member_in(&b.others, s).is_none() {
            let mut msg = "successor is not a member of group ".to_string();
            push_str(&mut msg, b.group_id.to_hex().as_str());
            let e = ApiError::Conflict(msg);
            assert(successor_error_for(blocked@[i as int], successors@, e));
            return Err(e);
        }
        chosen.push(s);
        i = i + 1;
    }
    Ok(chosen)
}

proof fn lemma_member_of_without(ms: Seq<GroupMember>, gone: Oid, u: Oid)
    requires
        find_member(without_user(ms, gone), u) is Some,
    ensures
        u != gone,
        find_member(ms, u) is Some,
    decreases ms.len(),
{
    if ms.len() > 0 {
        let w = without_user(ms.drop_last(), gone);
        if ms.last().user_id == gone {
            lemma_member_of_without(ms.drop_last(), gone, u);
        } else {
            assert(without_user(ms, gone) == w.push(ms.last()));
            assert(without_user(ms, gone).drop_last() == w);
            if ms.last().user_id != u {
                lemma_member_of_without(ms.drop_last(), gone, u);
            }
        }
    }
}

/// A succession that passed `validate_successors` keeps the group governed:
/// promoting the named successor and then removing the deleted user leaves
/// the group with a Group Admin.
pub proof fn law_validated_succession_keeps_an_admin(
    ms: Seq<GroupMember>,
    target: Oid,
    b: BlockedGroup,
    pairs: Seq<(Oid, Oid)>,
)
    requires
        distinct_users(ms),
        b.others@ == without_user(ms, target),
        successor_ok(b, pairs),
    ensures
        count_admins(
            without_user(with_role(ms, lookup_successor(pairs, b.group_id)->0, Role::GroupAdmin), target),
        ) >= 1,
{
    let s = lookup_successor(pairs, b.group_id)->0;
    lemma_member_of_without(ms, target, s);
    law_succession_keeps_an_admin(ms, target, s);
}

/// One write of a user deletion, in the order the deletion performs them.
#[derive(Debug, Clone)]
pub enum DeletionWrite {
    /// Makes `successor` a Group Admin of `group_id`.
    PromoteSuccessor { group_id: Oid, successor: Oid },
    /// Removes `user_id`'s membership of `group_id`.
    RemoveMember { group_id: Oid, user_id: Oid },
    /// Records the succession in the audit log.
    RecordSuccession { group_id: Oid, group_name: String, successor: Oid },
    /// Purges `group_id` with all its data.
    PurgeGroup { group_id: Oid },
    /// Records the automatic deletion in the audit log.
    RecordAutoDelete { group_id: Oid, group_name: String },
    /// Deletes the user's account.
    DeleteUser { user_id: Oid },
}

/// For each blocked group in turn: promote its named successor, remove the
/// deleted user, record the succession.
pub open spec fn succession_writes(target: Oid, blocked: Seq<BlockedGroup>, pairs: Seq<(Oid, Oid)>) -> Seq<
    DeletionWrite,
>
    decreases blocked.len(),
{
    if blocked.len() == 0 {
        seq![]
    } else {
        let b = blocked.last();
        let s = lookup_successor(pairs, b.group_id)->0;
        succession_writes(target, blocked.drop_last(), pairs) + seq![
            DeletionWrite::PromoteSuccessor { group_id: b.group_id, successor: s },
            DeletionWrite::RemoveMember { group_id: b.group_id, user_id: target },
            DeletionWrite::RecordSuccession { group_id: b.group_id, group_name: b.group_name, successor: s },
        ]
    }
}

/// For each group deleted along with the user: purge it, record it.
pub open spec fn auto_delete_writes(groups: Seq<(Oid, String)>) -> Seq<DeletionWrite>
    decreases groups.len(),
{
    if groups.len() == 0 {
        seq![]
    } else {
        let g = groups.last();
        auto_delete_writes(groups.drop_last()) + seq![
            DeletionWrite::PurgeGroup { group_id: g.0 },
            DeletionWrite::RecordAutoDelete { group_id: g.0, group_name: g.1 },
        ]
    }
}

/// For each group that only loses the user: remove the membership.
pub open spec fn removal_writes(target: Oid, groups: Seq<Oid>) -> Seq<DeletionWrite>
    decreases groups.len(),
{
    if groups.len() == 0 {
        seq![]
    } else {
        removal_writes(target, groups.drop_last()).push(
            DeletionWrite::RemoveMember { group_id: groups.last(), user_id: target },
        )
    }
}

/// Every write of deleting `target` under `plan` with the successors
/// `pairs`: the successions, then the automatic deletions, then the plain
/// removals, and the account last.
pub open spec fn deletion_writes_of(target: Oid, plan: DeletionPlan, pairs: Seq<(Oid, Oid)>) -> Seq<
    DeletionWrite,
> {
    succession_writes(target, plan.blocked@, pairs) + auto_delete_writes(plan.auto_delete@)
        + removal_writes(target, plan.plain_removals@) + seq![DeletionWrite::DeleteUser { user_id: target }]
}

/// The writes that delete `target` under `plan`, or, when a blocked group
/// lacks a valid successor, the error of `validate_successors` and no write
/// at all.
pub fn deletion_writes(target: Oid, plan: &DeletionPlan, successors: &Vec<(Oid, Oid)>) -> (r: Result<
    Vec<DeletionWrite>,
    ApiError,
>)
    ensures
        r is Ok <==> forall|i: int|
            0 <= i < plan.blocked@.len() ==> successor_ok(#[trigger] plan.blocked@[i], successors@),
        r matches Err(e) ==> exists|i: int|
            0 <= i < plan.blocked@.len() && (forall|j: int|
                0 <= j < i ==> successor_ok(#[trigger] plan.blocked@[j], successors@))
                && successor_error_for(#[trigger] plan.blocked@[i], successors@, e),
        r matches Ok(w) ==> w@ == deletion_writes_of(target, *plan, successors@),
{
    let chosen = match validate_successors(&plan.blocked, successors) {
        Ok(c) => c,
        Err(e) => return Err(e),
    };
    let mut w: Vec<DeletionWrite> = Vec::new();
    let nb = plan.blocked.len();
    let mut i: usize = 0;
    assert(plan.blocked@.take(0) =~= Seq::<BlockedGroup>::empty());
    while i < nb
        invariant
            i <= nb == plan.blocked@.len() == chosen@.len(),
            forall|j: int|
                0 <= j < nb ==> lookup_successor(successors@, #[trigger] plan.blocked@[j].group_id)
                    == Some(chosen@[j]),
            w@ == succession_writes(target, plan.blocked@.take(i as int), successors@),
        decreases nb - i,
    {
        let b = &plan.blocked[i];
        let s = chosen[i];
        proof {
            let cur = plan.blocked@.take(i + 1);
            assert(cur.drop_last() =~= plan.blocked@.take(i as int));
            assert(cur.last() == plan.blocked@[i as int]);
            assert(lookup_successor(successors@, plan.blocked@[i as int].group_id) == Some(s));
        }
        let ghost before = w@;
        w.push(DeletionWrite::PromoteSuccessor { group_id: b.group_id, successor: s });
        w.push(DeletionWrite::RemoveMember { group_id: b.group_id, user_id: target });
        w.push(
            DeletionWrite::RecordSuccession {
                group_id: b.group_id,
                group_name: b.group_name.clone(),
                successor: s,
            },
        );
        proof {
            assert(w@ =~= before + seq![
                DeletionWrite::PromoteSuccessor { group_id: b.group_id, successor: s },
                DeletionWrite::RemoveMember { group_id: b.group_id, user_id: target },
                DeletionWrite::RecordSuccession {
                    group_id: b.group_id,
                    group_name: b.group_name,
                    successor: s,
                },
            ]);
        }
        i = i + 1;
    }
    assert(plan.blocked@.take(nb as int) =~= plan.blocked@);
    let ghost succ = w@;
    let na = plan.auto_delete.len();
    let mut k: usize = 0;
    assert(plan.auto_delete@.take(0) =~= Seq::<(Oid, String)>::empty());
    assert(succ + auto_delete_writes(Seq::<(Oid, String)>::empty()) =~= succ);
    while k < na
        invariant
            k <= na == plan.auto_delete@.len(),
            w@ == succ + auto_delete_writes(plan.auto_delete@.take(k as int)),
        decreases na - k,
    {
        let g = &plan.auto_delete[k];
        proof {
            let cur = plan.auto_delete@.take(k + 1);
            assert(cur.drop_last() =~= plan.auto_delete@.take(k as int));
            assert(cur.last() == plan.auto_delete@[k as int]);
        }
        let ghost before = w@;
        w.push(DeletionWrite::PurgeGroup { group_id: g.0 });
        w.push(DeletionWrite::RecordAutoDelete { group_id: g.0, group_name: g.1.clone() });
        proof {
            let ghost ga = plan.auto_delete@[k as int];
            assert(auto_delete_writes(plan.auto_delete@.take(k + 1)) == auto_delete_writes(
                plan.auto_delete@.take(k as int),
            ) + seq![
                DeletionWrite::PurgeGroup { group_id: ga.0 },
                DeletionWrite::RecordAutoDelete { group_id: ga.0, group_name: ga.1 },
            ]);
            assert(w@ =~= succ + auto_delete_writes(plan.auto_delete@.take(k + 1)));
        }
        k = k + 1;
    }
    assert(plan.auto_delete@.take(na as int) =~= plan.auto_delete@);
    let ghost auto = w@;
    let np = plan.plain_removals.len();
    let mut m: usize = 0;
    assert(plan.plain_removals@.take(0) =~= Seq::<Oid>::empty());
    assert(auto + removal_writes(target, Seq::<Oid>::empty()) =~= auto);
    while m < np
        invariant
            m <= np == plan.plain_removals@.len(),
            w@ == auto + removal_writes(target, plan.plain_removals@.take(m as int)),
        decreases np - m,
    {
        let g = plan.plain_removals[m];
        proof {
            let cur = plan.plain_removals@.take(m + 1);
            assert(cur.drop_last() =~= plan.plain_removals@.take(m as int));
            assert(cur.last() == g);
        }
        w.push(DeletionWrite::RemoveMember { group_id: g, user_id: target });
        proof {
            assert(w@ =~= auto + removal_writes(target, plan.plain_removals@.take(m + 1)));
        }
        m = m + 1;
    }
    assert(plan.plain_removals@.take(np as int) =~= plan.plain_removals@);
    w.push(DeletionWrite::DeleteUser { user_id: target });
    assert(w@ =~= deletion_writes_of(target, *plan, successors@));
    Ok(w)
}

/// Reads the successor pairs of a deletion request; a malformed id in any
/// pair is `Validation("invalid id")`.
pub fn parse_successors(pairs: &Vec<(String, String)>) -> (r: Result<Vec<(Oid, Oid)>, ApiError>)
    ensures
        r is Ok <==> forall|i: int|
            0 <= i < pairs@.len() ==> is_oid_text((#[trigger] pairs@[i]).0@) && is_oid_text(pairs@[i].1@),
        r matches Ok(v) ==> v@.len() == pairs@.len() && forall|i: int|
            0 <= i < v@.len() ==> (#[trigger] v@[i]).0.value == hex_value(pairs@[i].0@)
                && v@[i].1.value == hex_value(pairs@[i].1@),
        r matches Err(e) ==> e.is_validation("invalid id"@),
{
    let mut out: Vec<(Oid, Oid)> = Vec::new();
    let mut i: usize = 0;
    while i < pairs.len()
        invariant
            i <= pairs@.len(),
            out@.len() == i,
            forall|j: int|
                0 <= j < i ==> is_oid_text((#[trigger] pairs@[j]).0@) && is_oid_text(pairs@[j].1@),
            forall|j: int|
                0 <= j < i ==> (#[trigger] out@[j]).0.value == hex_value(pairs@[j].0@)
                    && out@[j].1.value == hex_value(pairs@[j].1@),
        decreases pairs.len() - i,
    {
        let g = parse_id(pairs[i].0.as_str())?;
        let s = parse_id(pairs[i].1.as_str())?;
        out.push((g, s));
        i = i + 1;
    }
    Ok(out)
}

/// An audit entry as the audit-log view shows it (ids only; the names
/// stay in the store).
#[derive(Debug, Clone)]
pub struct AuditLogEntryResponse {
    pub id: String,
    pub action: AuditAction,
    pub group_id: String,
    pub deleted_user_id: String,
    pub successor_user_id: Option<String>,
    pub performed_by: String,
    pub created_at: i64,
}

impl AuditLogEntryResponse {
    pub fn from_entry(entry: AuditLogEntry) -> (r: AuditLogEntryResponse)
        ensures
            r.id@ == opt_id_text(entry.id),
            r.action == entry.action,
            r.group_id@ == hex_of(entry.group_id.value as nat, 24),
            r.deleted_user_id@ == hex_of(entry.deleted_user_id.value as nat, 24),
            match entry.successor_user_id {
                Some(s) => r.successor_user_id matches Some(t) && t@ == hex_of(s.value as nat, 24),
                None => r.successor_user_id is None,
            },
            r.performed_by@ == hex_of(entry.performed_by.value as nat, 24),
            r.created_at == entry.created_at,
    {
        AuditLogEntryResponse {
            id: opt_id_string(entry.id),
            action: entry.action,
            group_id: entry.group_id.to_hex(),
            deleted_user_id: entry.deleted_user_id.to_hex(),
            successor_user_id: match entry.successor_user_id {
                Some(s) => Some(s.to_hex()),
                None => None,
            },
            performed_by: entry.performed_by.to_hex(),
            created_at: entry.created_at,
        }
    }
}

/// The audit entry for a succession: `successor` became the Group Admin of
/// `group` when `deleted` was removed, by `performed_by`.
pub fn succession_entry(
    group: (Oid, String),
    deleted: (Oid, String),
    successor: (Oid, String),
    performed_by: (Oid, String),
    at: i64,
) -> (e: AuditLogEntry)
    ensures
        e.id is None,
        e.action == AuditAction::Succession,
        e.group_id == group.0 && e.group_name == group.1,
        e.deleted_user_id == deleted.0 && e.deleted_user_name == deleted.1,
        e.successor_user_id == Some(successor.0) && e.successor_user_name == Some(successor.1),
        e.performed_by == performed_by.0 && e.performed_by_name == performed_by.1,
        e.created_at == at,
{
    AuditLogEntry {
        id: None,
        action: AuditAction::Succession,
        group_id: group.0,
        group_name: group.1,
        deleted_user_id: deleted.0,
        deleted_user_name: deleted.1,
        successor_user_id: Some(successor.0),
        successor_user_name: Some(successor.1),
        performed_by: performed_by.0,
        performed_by_name: performed_by.1,
        created_at: at,
    }
}

/// The audit entry for a group deleted along with its sole member.
pub fn auto_delete_entry(
    group: (Oid, String),
    deleted: (Oid, String),
    performed_by: (Oid, String),
    at: i64,
) -> (e: AuditLogEntry)
    ensures
        e.id is None,
        e.action == AuditAction::GroupAutoDeleted,
        e.group_id == group.0 && e.group_name == group.1,
        e.deleted_user_id == deleted.0 && e.deleted_user_name == deleted.1,
        e.successor_user_id is None && e.successor_user_name is None,
        e.performed_by == performed_by.0 && e.performed_by_name == performed_by.1,
        e.created_at == at,
{
    AuditLogEntry {
        id: None,
        action: AuditAction::GroupAutoDeleted,
        group_id: group.0,
        group_name: group.1,
        deleted_user_id: deleted.0,
        deleted_user_name: deleted.1,
        successor_user_id: None,
        successor_user_name: None,
        performed_by: performed_by.0,
        performed_by_name: performed_by.1,
        created_at: at,
    }
}

/// The filters of an audit-log query; a malformed id is
/// `Validation("invalid id")`.
pub fn parse_audit_query(query: &AuditLogQuery) -> (r: Result<(Option<Oid>, Option<Oid>), ApiError>)
    ensures
        r is Ok <==> ((query.group_id matches Some(g) ==> is_oid_text(g@)) && (query.user_id matches Some(
            u,
        ) ==> is_oid_text(u@))),
        r matches Err(e) ==> e.is_validation("invalid id"@),
        r matches Ok(f) ==> {
            &&& match query.group_id {
                Some(g) => f.0 matches Some(o) && o.value == hex_value(g@),
                None => f.0 is None,
            }
            &&& match query.user_id {
                Some(u) => f.1 matches Some(o) && o.value == hex_value(u@),
                None => f.1 is None,
            }
        },
{
    let group_id = match &query.group_id {
        Some(g) => Some(parse_id(g.as_str())?),
        None => None,
    };
    let user_id = match &query.user_id {
        Some(u) => Some(parse_id(u.as_str())?),
        None => None,
    };
    Ok((group_id, user_id))
}

/// A blocked group as the deletion preview shows it, with its eligible
/// successors already described.
pub fn blocked_info(b: &BlockedGroup, eligible_successors: Vec<MemberResponse>) -> (r: BlockedGroupInfo)
    ensures
        r.group_id@ == hex_of(b.group_id.value as nat, 24),
        r.group_name == b.group_name,
        r.eligible_successors@ == eligible_successors@,
{
    BlockedGroupInfo {
        group_id: b.group_id.to_hex(),
        group_name: b.group_name.clone(),
        eligible_successors,
    }
}

/// An auto-deleted group as the deletion preview shows it.
pub fn auto_delete_info(group: &(Oid, String)) -> (r: AutoDeleteGroupInfo)
    ensures
        r.group_id@ == hex_of(group.0.value as nat, 24),
        r.group_name == group.1,
{
    AutoDeleteGroupInfo { group_id: group.0.to_hex(), group_name: group.1.clone() }
}

} // verus!
