//! Emoji reactions on comments: one per user per comment, summarised per
//! emoji for the viewer.
use vstd::prelude::*;
use crate::errors::{ApiError, validation};
use crate::ids::Oid;
use crate::text::{chars_of, string_of, trim_chars, trimmed};

verus! {

/// A stored reaction. `created_at` is in milliseconds.
#[derive(Debug, Clone)]
pub struct CommentReaction {
    pub id: Option<Oid>,
    pub group_id: Oid,
    pub ticket_id: Oid,
    pub comment_id: Oid,
    pub user_id: Oid,
    pub emoji: String,
    pub created_at: i64,
}

/// What a reaction is set from; it replaces the user's earlier reaction on
/// the comment, if any.
#[derive(Debug)]
pub struct SetReactionInput {
    pub group_id: Oid,
    pub ticket_id: Oid,
    pub comment_id: Oid,
    pub user_id: Oid,
    pub emoji: String,
}

/// Body of `PUT .../comments/{comment_id}/reaction`.
#[derive(Debug)]
pub struct SetReactionRequest {
    pub emoji: String,
}

/// How one emoji stands on a comment, for one viewer.
#[derive(Debug, Clone)]
pub struct ReactionSummary {
    pub emoji: String,
    pub count: i64,
    pub reacted_by_me: bool,
}

/// The longest emoji accepted, in characters (room for joined sequences
/// and modifiers, not for a sentence).
pub const MAX_EMOJI_CHARS: usize = 8;

/// An emoji, trimmed, must be non-empty and at most 8 characters; the
/// trimmed text is what gets stored.
pub fn validate_emoji(input: &SetReactionRequest) -> (r: Result<String, ApiError>)
    ensures
        trimmed(input.emoji@).len() == 0 ==> (r matches Err(e) && e.is_validation(
            "emoji is required"@,
        )),
        trimmed(input.emoji@).len() > 8 ==> (r matches Err(e) && e.is_validation(
            "emoji is too long"@,
        )),
        0 < trimmed(input.emoji@).len() <= 8 ==> (r matches Ok(s) && s@ == trimmed(
            input.emoji@,
        )),
{
    let t = trim_chars(input.emoji.as_str());
    if t.len() == 0 {
        return Err(validation("emoji is required"));
    }
    if t.len() > MAX_EMOJI_CHARS {
        return Err(validation("emoji is too long"));
    }
    Ok(string_of(t.as_slice()))
}

// ------------------------------------------------------------ text order

/// Lexicographic order of texts by Unicode scalar value, which is the
/// order of their UTF-8 bytes and so the order `str` sorts in.
pub open spec fn text_lt(a: Seq<char>, b: Seq<char>) -> bool
    decreases a.len(),
{
    if a.len() == 0 {
        b.len() > 0
    } else if b.len() == 0 {
        false
    } else if a[0] != b[0] {
        (a[0] as int) < (b[0] as int)
    } else {
        text_lt(a.drop_first(), b.drop_first())
    }
}

proof fn lemma_text_lt_irreflexive(a: Seq<char>)
    ensures
        !text_lt(a, a),
    decreases a.len(),
{
    if a.len() > 0 {
        lemma_text_lt_irreflexive(a.drop_first());
    }
}

proof fn lemma_text_lt_transitive(a: Seq<char>, b: Seq<char>, c: Seq<char>)
    requires
        text_lt(a, b),
        text_lt(b, c),
    ensures
        text_lt(a, c),
    decreases a.len(),
{
    if a.len() > 0 && b.len() > 0 && c.len() > 0 {
        if a[0] == b[0] && b[0] == c[0] {
            lemma_text_lt_transitive(a.drop_first(), b.drop_first(), c.drop_first());
        }
    }
}

proof fn lemma_text_lt_total(a: Seq<char>, b: Seq<char>)
    ensures
        a == b || text_lt(a, b) || text_lt(b, a),
    decreases a.len(),
{
    if a.len() > 0 && b.len() > 0 {
        if a[0] == b[0] {
            lemma_text_lt_total(a.drop_first(), b.drop_first());
            if a.drop_first() == b.drop_first() {
                assert(a =~= seq![a[0]] + a.drop_first());
                assert(b =~= seq![b[0]] + b.drop_first());
            }
        } else {
            assert((a[0] as int) != (b[0] as int));
        }
    } else if a.len() == 0 && b.len() == 0 {
        assert(a =~= b);
    }
}

proof fn lemma_char_as_u32(c: char)
    ensures
        (c as u32) as int == c as int,
{
}

/// `text_lt(a, b)`.
fn chars_lt(a: &Vec<char>, b: &Vec<char>) -> (r: bool)
    ensures
        r == text_lt(a@, b@),
{
    let mut i: usize = 0;
    assert(a@.skip(0) =~= a@);
    assert(b@.skip(0) =~= b@);
    while i < a.len() && i < b.len() && a[i] == b[i]
        invariant
            i <= a@.len(),
            i <= b@.len(),
            text_lt(a@, b@) == text_lt(a@.skip(i as int), b@.skip(i as int)),
        decreases a.len() - i,
    {
        proof {
            let sa = a@.skip(i as int);
            let sb = b@.skip(i as int);
            assert(sa.drop_first() =~= a@.skip(i + 1));
            assert(sb.drop_first() =~= b@.skip(i + 1));
            assert(sa[0] == a@[i as int]);
            assert(sb[0] == b@[i as int]);
        }
        i = i + 1;
    }
    proof {
        let sa = a@.skip(i as int);
        let sb = b@.skip(i as int);
        if i < a.len() && i < b.len() {
            assert(sa[0] == a@[i as int]);
            assert(sb[0] == b@[i as int]);
        }
    }
    if i == a.len() {
        i < b.len()
    } else if i == b.len() {
        false
    } else {
        let ca: char = a[i];
        let cb: char = b[i];
        proof {
            assert(ca == a@[i as int] && cb == b@[i as int]);
            lemma_char_as_u32(ca);
            lemma_char_as_u32(cb);
        }
        (ca as u32) < (cb as u32)
    }
}

/// Whether `a` and `b` hold the same characters.
fn chars_eq(a: &Vec<char>, b: &Vec<char>) -> (r: bool)
    ensures
        r == (a@ == b@),
{
    if a.len() != b.len() {
        return false;
    }
    let mut i: usize = 0;
    while i < a.len()
        invariant
            i <= a@.len() == b@.len(),
            forall|k: int| 0 <= k < i ==> a@[k] == b@[k],
        decreases a.len() - i,
    {
        if a[i] != b[i] {
            return false;
        }
        i = i + 1;
    }
    assert(a@ =~= b@);
    true
}

// ------------------------------------------------------------- summaries

/// How many of `rows` carry emoji `e`.
pub open spec fn emoji_count(rows: Seq<CommentReaction>, e: Seq<char>) -> nat
    decreases rows.len(),
{
    if rows.len() == 0 {
        0
    } else {
        emoji_count(rows.drop_last(), e) + if rows.last().emoji@ == e {
            1nat
        } else {
            0nat
        }
    }
}

/// Whether `viewer` is among those who reacted with `e`.
pub open spec fn reacted_with(rows: Seq<CommentReaction>, e: Seq<char>, viewer: Oid) -> bool {
    exists|j: int| 0 <= j < rows.len() && (#[trigger] rows[j]).emoji@ == e && rows[j].user_id == viewer
}

/// Some row carries emoji `e`.
pub open spec fn has_emoji(rows: Seq<CommentReaction>, e: Seq<char>) -> bool {
    exists|j: int| 0 <= j < rows.len() && (#[trigger] rows[j]).emoji@ == e
}

/// `s` is the summary of `rows` for `viewer`: one entry per distinct
/// emoji, in ascending text order, each with its count and whether the
/// viewer used it.
pub open spec fn is_summary_of(s: Seq<ReactionSummary>, rows: Seq<CommentReaction>, viewer: Oid) -> bool {
    &&& forall|i: int, j: int| 0 <= i < j < s.len() ==> text_lt(#[trigger] s[i].emoji@, #[trigger] s[j].emoji@)
    &&& forall|e: Seq<char>| has_emoji(rows, e) <==> exists|k: int| 0 <= k < s.len() && (#[trigger] s[k]).emoji@ == e
    &&& forall|k: int|
        0 <= k < s.len() ==> (#[trigger] s[k]).count == emoji_count(rows, s[k].emoji@)
            && s[k].reacted_by_me == reacted_with(rows, s[k].emoji@, viewer)
}

/// The sum of the counts of `s`.
pub open spec fn total_count(s: Seq<ReactionSummary>) -> int
    decreases s.len(),
{
    if s.len() == 0 {
        0
    } else {
        total_count(s.drop_last()) + s.last().count
    }
}

proof fn lemma_total_count_update(s: Seq<ReactionSummary>, k: int, x: ReactionSummary)
    requires
        0 <= k < s.len(),
    ensures
        total_count(s.update(k, x)) == total_count(s) - s[k].count + x.count,
    decreases s.len(),
{
    if k < s.len() - 1 {
        assert(s.update(k, x).drop_last() =~= s.drop_last().update(k, x));
        lemma_total_count_update(s.drop_last(), k, x);
    } else {
        assert(s.update(k, x).drop_last() =~= s.drop_last());
    }
}

proof fn lemma_total_count_insert(s: Seq<ReactionSummary>, k: int, x: ReactionSummary)
    requires
        0 <= k <= s.len(),
    ensures
        total_count(s.insert(k, x)) == total_count(s) + x.count,
    decreases s.len(),
{
    if k == s.len() {
        assert(s.insert(k, x).drop_last() =~= s);
    } else {
        assert(s.insert(k, x).drop_last() =~= s.drop_last().insert(k, x));
        lemma_total_count_insert(s.drop_last(), k, x);
    }
}

proof fn lemma_count_step(rows: Seq<CommentReaction>, i: int, e: Seq<char>)
    requires
        0 <= i < rows.len(),
    ensures
        emoji_count(rows.take(i + 1), e) == emoji_count(rows.take(i), e) + if rows[i].emoji@ == e {
            1nat
        } else {
            0nat
        },
{
    assert(rows.take(i + 1).drop_last() =~= rows.take(i));
}

/// One entry per distinct emoji in ascending order, with its count and
/// whether `viewer_id` used it.
pub fn summarize_reactions(rows: &[CommentReaction], viewer_id: Oid) -> (s: Vec<ReactionSummary>)
    requires
        rows@.len() <= i64::MAX,
    ensures
        is_summary_of(s@, rows@, viewer_id),
        total_count(s@) == rows@.len(),
{
    let n = rows.len();
    let mut out: Vec<ReactionSummary> = Vec::new();
    let mut keys: Vec<Vec<char>> = Vec::new();
    let mut i: usize = 0;
    assert(rows@.take(0) =~= Seq::<CommentReaction>::empty());
    while i < n
        invariant
            i <= n == rows@.len() <= i64::MAX,
            keys@.len() == out@.len(),
            forall|k: int| 0 <= k < out@.len() ==> (#[trigger] keys@[k])@ == out@[k].emoji@,
            is_summary_of(out@, rows@.take(i as int), viewer_id),
            total_count(out@) == i,
        decreases n - i,
    {
        let row = &rows[i];
        let e = chars_of(row.emoji.as_str());
        let ghost pre = rows@.take(i as int);
        let ghost post = rows@.take(i + 1);
        proof {
            assert(post.drop_last() =~= pre);
            assert(post.last() == rows@[i as int]);
            assert forall|x: Seq<char>| #[trigger] emoji_count(post, x) == emoji_count(pre, x) + if rows@[i as int].emoji@ == x {
                1nat
            } else {
                0nat
            } by {
                lemma_count_step(rows@, i as int, x);
            }
            assert forall|x: Seq<char>| #[trigger] has_emoji(post, x) <==> (has_emoji(pre, x) || rows@[i as int].emoji@ == x) by {
                if has_emoji(post, x) {
                    let j = choose|j: int| 0 <= j < post.len() && (#[trigger] post[j]).emoji@ == x;
                    if j < i {
                        assert(pre[j] == post[j]);
                    }
                }
                if has_emoji(pre, x) {
                    let j = choose|j: int| 0 <= j < pre.len() && (#[trigger] pre[j]).emoji@ == x;
                    assert(post[j] == pre[j]);
                }
                if rows@[i as int].emoji@ == x {
                    assert(post[i as int].emoji@ == x);
                }
            }
            assert forall|x: Seq<char>| #[trigger] reacted_with(post, x, viewer_id) <==> (reacted_with(pre, x, viewer_id)
                || (rows@[i as int].emoji@ == x && rows@[i as int].user_id == viewer_id)) by {
                if reacted_with(post, x, viewer_id) {
                    let j = choose|j: int|
                        0 <= j < post.len() && (#[trigger] post[j]).emoji@ == x && post[j].user_id == viewer_id;
                    if j < i {
                        assert(pre[j] == post[j]);
                    }
                }
                if reacted_with(pre, x, viewer_id) {
                    let j = choose|j: int|
                        0 <= j < pre.len() && (#[trigger] pre[j]).emoji@ == x && pre[j].user_id == viewer_id;
                    assert(post[j] == pre[j]);
                }
                if rows@[i as int].emoji@ == x && rows@[i as int].user_id == viewer_id {
                    assert(post[i as int].emoji@ == x);
                }
            }
        }
        let mine = row.user_id == viewer_id;
        // first position whose key is not below `e`
        let mut k: usize = 0;
        while k < keys.len() && chars_lt(&keys[k], &e)
            invariant
                k <= keys@.len() == out@.len(),
                forall|m: int| 0 <= m < out@.len() ==> (#[trigger] keys@[m])@ == out@[m].emoji@,
                forall|m: int| 0 <= m < k ==> text_lt((#[trigger] out@[m]).emoji@, e@),
            decreases keys.len() - k,
        {
            k = k + 1;
        }
        let ghost old_out = out@;
        if k < keys.len() && chars_eq(&keys[k], &e) {
            proof {
                lemma_counts_le(pre, e@);
                assert(emoji_count(pre, e@) <= pre.len());
            }
            let cur_count = out[k].count;
            let cur_mine = out[k].reacted_by_me;
            let updated = ReactionSummary {
                emoji: row.emoji.clone(),
                count: cur_count + 1,
                reacted_by_me: cur_mine || mine,
            };
            out.set(k, updated);
            proof {
                lemma_total_count_update(old_out, k as int, out@[k as int]);
                assert(out@ == old_out.update(k as int, out@[k as int]));
                assert forall|a: int, b: int| 0 <= a < b < out@.len() implies text_lt(#[trigger] out@[a].emoji@, #[trigger] out@[b].emoji@) by {
                    assert(old_out[a].emoji@ == out@[a].emoji@ || a == k);
                    assert(old_out[b].emoji@ == out@[b].emoji@ || b == k);
                    assert(out@[k as int].emoji@ == old_out[k as int].emoji@);
                }
                assert forall|x: Seq<char>| has_emoji(post, x) <==> exists|m: int| 0 <= m < out@.len() && (#[trigger] out@[m]).emoji@ == x by {
                    if has_emoji(post, x) {
                        if has_emoji(pre, x) {
                            let m = choose|m: int| 0 <= m < old_out.len() && (#[trigger] old_out[m]).emoji@ == x;
                            assert(out@[m].emoji@ == x);
                        } else {
                            assert(out@[k as int].emoji@ == x);
                        }
                    }
                    if exists|m: int| 0 <= m < out@.len() && (#[trigger] out@[m]).emoji@ == x {
                        let m = choose|m: int| 0 <= m < out@.len() && (#[trigger] out@[m]).emoji@ == x;
                        assert(old_out[m].emoji@ == x);
                    }
                }
                assert forall|m: int| 0 <= m < out@.len() implies (#[trigger] out@[m]).count == emoji_count(post, out@[m].emoji@)
                    && out@[m].reacted_by_me == reacted_with(post, out@[m].emoji@, viewer_id) by {
                    assert(old_out[m].emoji@ == out@[m].emoji@);
                    if m != k {
                        assert(old_out[m].emoji@ != e@) by {
                            if old_out[m].emoji@ == e@ {
                                if m < k {
                                    lemma_text_lt_irreflexive(e@);
                                } else {
                                    lemma_text_lt_irreflexive(e@);
                                    assert(text_lt(old_out[k as int].emoji@, old_out[m].emoji@));
                                }
                            }
                        }
                    }
                }
            }
        } else {
            let fresh = ReactionSummary { emoji: row.emoji.clone(), count: 1, reacted_by_me: mine };
            let ghost old_keys = keys@;
            let ghost ev = e@;
            out.insert(k, fresh);
            keys.insert(k, e);
            proof {
                lemma_total_count_insert(old_out, k as int, out@[k as int]);
                assert(out@ == old_out.insert(k as int, out@[k as int]));
                if k < old_out.len() {
                    lemma_text_lt_total(old_out[k as int].emoji@, e@);
                    assert(text_lt(e@, old_out[k as int].emoji@));
                }
                assert forall|a: int, b: int| 0 <= a < b < out@.len() implies text_lt(#[trigger] out@[a].emoji@, #[trigger] out@[b].emoji@) by {
                    if a < k && b == k {
                    } else if a < k && b > k {
                        assert(out@[b] == old_out[b - 1]);
                        if b - 1 > k {
                            lemma_text_lt_transitive(e@, old_out[k as int].emoji@, old_out[b - 1].emoji@);
                        }
                        lemma_text_lt_transitive(old_out[a].emoji@, e@, old_out[b - 1].emoji@);
                    } else if a == k {
                        assert(out@[b] == old_out[b - 1]);
                        if b - 1 > k {
                            lemma_text_lt_transitive(e@, old_out[k as int].emoji@, old_out[b - 1].emoji@);
                        }
                    } else if a < k {
                    } else {
                        assert(out@[a] == old_out[a - 1]);
                        assert(out@[b] == old_out[b - 1]);
                    }
                }
                assert(!has_emoji(pre, e@)) by {
                    if has_emoji(pre, e@) {
                        let m = choose|m: int| 0 <= m < old_out.len() && (#[trigger] old_out[m]).emoji@ == e@;
                        if m < k {
                            lemma_text_lt_irreflexive(e@);
                        } else if m == k {
                        } else {
                            lemma_text_lt_transitive(e@, old_out[k as int].emoji@, old_out[m].emoji@);
                            lemma_text_lt_irreflexive(e@);
                        }
                    }
                }
                assert(emoji_count(pre, e@) == 0) by {
                    lemma_count_zero(pre, e@);
                }
                assert(!reacted_with(pre, e@, viewer_id));
                assert forall|x: Seq<char>| has_emoji(post, x) <==> exists|m: int| 0 <= m < out@.len() && (#[trigger] out@[m]).emoji@ == x by {
                    if has_emoji(post, x) {
                        if has_emoji(pre, x) {
                            let m = choose|m: int| 0 <= m < old_out.len() && (#[trigger] old_out[m]).emoji@ == x;
                            if m < k {
                                assert(out@[m].emoji@ == x);
                            } else {
                                assert(out@[m + 1].emoji@ == x);
                            }
                        } else {
                            assert(out@[k as int].emoji@ == x);
                        }
                    }
                    if exists|m: int| 0 <= m < out@.len() && (#[trigger] out@[m]).emoji@ == x {
                        let m = choose|m: int| 0 <= m < out@.len() && (#[trigger] out@[m]).emoji@ == x;
                        if m < k {
                            assert(old_out[m].emoji@ == x);
                        } else if m > k {
                            assert(old_out[m - 1].emoji@ == x);
                        }
                    }
                }
                assert forall|m: int| 0 <= m < out@.len() implies (#[trigger] out@[m]).count == emoji_count(post, out@[m].emoji@)
                    && out@[m].reacted_by_me == reacted_with(post, out@[m].emoji@, viewer_id) by {
                    if m < k {
                        assert(out@[m] == old_out[m]);
                        assert(old_out[m].emoji@ != e@) by {
                            if old_out[m].emoji@ == e@ {
                                lemma_text_lt_irreflexive(e@);
                            }
                        }
                    } else if m > k {
                        assert(out@[m] == old_out[m - 1]);
                        assert(old_out[m - 1].emoji@ != e@) by {
                            if old_out[m - 1].emoji@ == e@ {
                                if m - 1 > k {
                                    lemma_text_lt_transitive(e@, old_out[k as int].emoji@, old_out[m - 1].emoji@);
                                }
                                lemma_text_lt_irreflexive(e@);
                            }
                        }
                    }
                }
                assert(keys@ == old_keys.insert(k as int, keys@[k as int]));
                assert forall|m: int| 0 <= m < keys@.len() implies (#[trigger] keys@[m])@ == out@[m].emoji@ by {
                    if m > k {
                        assert(keys@[m] == old_keys[m - 1]);
                        assert(out@[m] == old_out[m - 1]);
                    } else if m < k {
                        assert(keys@[m] == old_keys[m]);
                        assert(out@[m] == old_out[m]);
                    }
                }
            }
        }
        i = i + 1;
    }
    assert(rows@.take(n as int) =~= rows@);
    out
}

proof fn lemma_counts_le(rows: Seq<CommentReaction>, e: Seq<char>)
    ensures
        emoji_count(rows, e) <= rows.len(),
    decreases rows.len(),
{
    if rows.len() > 0 {
        lemma_counts_le(rows.drop_last(), e);
    }
}

proof fn lemma_count_zero(rows: Seq<CommentReaction>, e: Seq<char>)
    requires
        !has_emoji(rows, e),
    ensures
        emoji_count(rows, e) == 0,
    decreases rows.len(),
{
    if rows.len() > 0 {
        assert(!has_emoji(rows.drop_last(), e)) by {
            if has_emoji(rows.drop_last(), e) {
                let j = choose|j: int| 0 <= j < rows.drop_last().len() && (#[trigger] rows.drop_last()[j]).emoji@ == e;
                assert(rows[j] == rows.drop_last()[j]);
            }
        }
        assert(rows[rows.len() - 1].emoji@ != e);
        lemma_count_zero(rows.drop_last(), e);
    }
}

} // verus!
