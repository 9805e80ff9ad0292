//! Literal-text escaping for store-side pattern queries, and edit distance
//! for typo-tolerant search.
use vstd::prelude::*;
use crate::text::{chars_of, push_char};

verus! {

/// The characters that carry meaning in a regular expression and so are
/// escaped with a backslash when user text must match literally.
pub open spec fn is_regex_meta(c: char) -> bool {
    c == '\\' || c == '.' || c == '+' || c == '*' || c == '?' || c == '(' || c == ')' || c
        == '|' || c == '[' || c == ']' || c == '{' || c == '}' || c == '^' || c == '$'
}

/// What one character becomes in escaped text.
pub open spec fn escape_piece(c: char) -> Seq<char> {
    if is_regex_meta(c) {
        seq!['\\', c]
    } else {
        seq![c]
    }
}

/// `s` with a backslash in front of every regex metacharacter.
pub open spec fn escaped(s: Seq<char>) -> Seq<char>
    decreases s.len(),
{
    if s.len() == 0 {
        seq![]
    } else {
        escaped(s.drop_last()) + escape_piece(s.last())
    }
}

/// Reads escaped text back: a backslash makes the next character literal.
pub open spec fn unescaped(t: Seq<char>) -> Seq<char>
    decreases t.len(),
{
    if t.len() == 0 {
        seq![]
    } else if t[0] == '\\' && t.len() >= 2 {
        seq![t[1]] + unescaped(t.skip(2))
    } else {
        seq![t[0]] + unescaped(t.skip(1))
    }
}

fn is_meta(c: char) -> (b: bool)
    ensures
        b == is_regex_meta(c),
{
    c == '\\' || c == '.' || c == '+' || c == '*' || c == '?' || c == '(' || c == ')' || c == '|'
        || c == '[' || c == ']' || c == '{' || c == '}' || c == '^' || c == '$'
}

/// Escapes regex metacharacters so that `input` matches literally inside a
/// store-side `$regex` query.
pub fn escape_regex(input: &str) -> (r: String)
    ensures
        r@ == escaped(input@),
{
    let v = chars_of(input);
    let mut out = String::new();
    let mut i: usize = 0;
    while i < v.len()
        invariant
            i <= v@.len(),
            out@ == escaped(v@.take(i as int)),
        decreases v.len() - i,
    {
        let ch = v[i];
        if is_meta(ch) {
            push_char(&mut out, '\\');
        }
        push_char(&mut out, ch);
        proof {
            let t = v@.take(i + 1);
            assert(t.drop_last() == v@.take(i as int));
            assert(t.last() == ch);
        }
        i = i + 1;
    }
    proof {
        assert(v@.take(v@.len() as int) == v@);
    }
    out
}

proof fn lemma_escaped_front(s: Seq<char>)
    requires
        s.len() > 0,
    ensures
        escaped(s) == escape_piece(s[0]) + escaped(s.skip(1)),
    decreases s.len(),
{
    if s.len() == 1 {
        assert(s.drop_last() =~= Seq::<char>::empty());
        assert(s.skip(1) =~= Seq::<char>::empty());
        assert(escaped(s.drop_last()) =~= Seq::<char>::empty());
        assert(escaped(s) =~= escape_piece(s[0]));
    } else {
        lemma_escaped_front(s.drop_last());
        assert(s.drop_last().skip(1) == s.skip(1).drop_last());
        assert(s.skip(1).last() == s.last());
        assert(escaped(s) =~= escape_piece(s[0]) + escaped(s.skip(1)));
    }
}

/// Escaped text reads back as the original: the escaping only adds
/// backslashes, so a pattern built from `escape_regex(t)` stands for `t`
/// itself and nothing else.
pub proof fn law_escape_round_trip(s: Seq<char>)
    ensures
        unescaped(escaped(s)) == s,
    decreases s.len(),
{
    if s.len() == 0 {
    } else {
        lemma_escaped_front(s);
        law_escape_round_trip(s.skip(1));
        let rest = escaped(s.skip(1));
        let t = escape_piece(s[0]) + rest;
        if is_regex_meta(s[0]) {
            assert(t[0] == '\\' && t.len() >= 2 && t[1] == s[0]);
            assert(t.skip(2) =~= rest);
        } else {
            assert(t[0] == s[0]);
            assert(t.skip(1) =~= rest);
        }
        assert(seq![s[0]] + s.skip(1) =~= s);
    }
}

/// Edit (Levenshtein) distance: the fewest single-character insertions,
/// deletions and substitutions that turn `a` into `b`.
pub open spec fn edit_distance(a: Seq<char>, b: Seq<char>) -> nat
    decreases a.len() + b.len(),
{
    if a.len() == 0 {
        b.len()
    } else if b.len() == 0 {
        a.len()
    } else {
        let del = edit_distance(a.drop_last(), b) + 1;
        let ins = edit_distance(a, b.drop_last()) + 1;
        let sub = edit_distance(a.drop_last(), b.drop_last()) + if a.last() == b.last() {
            0nat
        } else {
            1nat
        };
        min3(del, ins, sub)
    }
}

/// The least of three numbers.
pub open spec fn min3(x: nat, y: nat, z: nat) -> nat {
    if x <= y && x <= z {
        x
    } else if y <= z {
        y
    } else {
        z
    }
}

/// Edit distance is at least the difference of the lengths (each edit
/// changes the length by at most one) and at most the longer length
/// (substitute along the shorter text, then insert or delete the rest).
pub proof fn law_edit_distance_bounds(a: Seq<char>, b: Seq<char>)
    ensures
        a.len() - b.len() <= edit_distance(a, b),
        b.len() - a.len() <= edit_distance(a, b),
        edit_distance(a, b) <= if a.len() >= b.len() {
            a.len()
        } else {
            b.len()
        },
    decreases a.len() + b.len(),
{
    if a.len() > 0 && b.len() > 0 {
        law_edit_distance_bounds(a.drop_last(), b);
        law_edit_distance_bounds(a, b.drop_last());
        law_edit_distance_bounds(a.drop_last(), b.drop_last());
    }
}

/// Edit distance between the texts `a` and `b`, counted in characters.
pub fn levenshtein_distance(a: &str, b: &str) -> (d: usize)
    ensures
        d == edit_distance(a@, b@),
{
    let a = chars_of(a);
    let b = chars_of(b);
    edit_distance_of(&a, &b)
}

/// Edit distance between two character sequences.
pub fn edit_distance_of(a: &Vec<char>, b: &Vec<char>) -> (d: usize)
    ensures
        d == edit_distance(a@, b@),
{
    let len_b = b.len();

    let mut prev: Vec<u128> = Vec::new();
    prev.push(0);
    assert(b@.take(0) =~= Seq::<char>::empty());
    let mut j: usize = 0;
    while j < len_b
        invariant
            j <= len_b,
            len_b == b@.len(),
            prev@.len() == j + 1,
            forall|k: int| 0 <= k <= j ==> prev@[k] == edit_distance(Seq::<char>::empty(), b@.take(k)),
        decreases len_b - j,
    {
        prev.push((j + 1) as u128);
        j = j + 1;
    }
    assert(a@.take(0) =~= Seq::<char>::empty());
    let mut i: usize = 0;
    while i < a.len()
        invariant
            i <= a@.len(),
            len_b == b@.len(),
            prev@.len() == len_b + 1,
            forall|k: int|
                0 <= k <= len_b ==> #[trigger] prev@[k] == edit_distance(a@.take(i as int), b@.take(k)),
        decreases a.len() - i,
    {
        let ca = a[i];
        let ghost ai = a@.take(i as int);
        let ghost ai1 = a@.take(i + 1);
        proof {
            assert(ai1.drop_last() == ai);
            assert(ai1.last() == ca);
            assert(b@.take(0) =~= Seq::<char>::empty());
        }
        let mut curr: Vec<u128> = Vec::new();
        curr.push((i + 1) as u128);
        let mut j: usize = 0;
        while j < len_b
            invariant
                i < a@.len(),
                j <= len_b == b@.len(),
                prev@.len() == len_b + 1,
                curr@.len() == j + 1,
                ai == a@.take(i as int),
                ai1 == a@.take(i + 1),
                ai1.drop_last() == ai,
                ai1.last() == ca,
                forall|k: int|
                    0 <= k <= len_b ==> #[trigger] prev@[k] == edit_distance(ai, b@.take(k)),
                forall|k: int|
                    0 <= k <= j ==> #[trigger] curr@[k] == edit_distance(ai1, b@.take(k)),
            decreases len_b - j,
        {
            let cb = b[j];
            let ghost bj = b@.take(j as int);
            let ghost bj1 = b@.take(j + 1);
            proof {
                assert(bj1.drop_last() == bj);
                assert(bj1.last() == cb);
                law_edit_distance_bounds(ai, bj1);
                law_edit_distance_bounds(ai1, bj);
                law_edit_distance_bounds(ai, bj);
                assert(prev@[j + 1] == edit_distance(ai, bj1));
                assert(curr@[j as int] == edit_distance(ai1, bj));
                assert(prev@[j as int] == edit_distance(ai, bj));
            }
            let cost: u128 = if ca == cb {
                0
            } else {
                1
            };
            let del = prev[j + 1] + 1;
            let ins = curr[j] + 1;
            let sub = prev[j] + cost;
            let best = if del <= ins && del <= sub {
                del
            } else if ins <= sub {
                ins
            } else {
                sub
            };
            curr.push(best);
            j = j + 1;
        }
        prev = curr;
        i = i + 1;
    }
    proof {
        assert(a@.take(a@.len() as int) == a@);
        assert(b@.take(len_b as int) == b@);
        law_edit_distance_bounds(a@, b@);
    }
    prev[len_b] as usize
}

/// Edit distance is symmetric: turning `a` into `b` costs what turning `b`
/// into `a` does.
pub proof fn law_edit_distance_symmetric(a: Seq<char>, b: Seq<char>)
    ensures
        edit_distance(a, b) == edit_distance(b, a),
    decreases a.len() + b.len(),
{
    if a.len() > 0 && b.len() > 0 {
        law_edit_distance_symmetric(a.drop_last(), b);
        law_edit_distance_symmetric(a, b.drop_last());
        law_edit_distance_symmetric(a.drop_last(), b.drop_last());
    }
}

/// A text is at distance zero from itself.
pub proof fn law_edit_distance_identity(a: Seq<char>)
    ensures
        edit_distance(a, a) == 0,
    decreases a.len(),
{
    if a.len() > 0 {
        law_edit_distance_identity(a.drop_last());
    }
}

/// Distance zero means the texts are equal, and only then.
pub proof fn law_edit_distance_zero_iff_equal(a: Seq<char>, b: Seq<char>)
    ensures
        edit_distance(a, b) == 0 <==> a == b,
    decreases a.len() + b.len(),
{
    if a == b {
        law_edit_distance_identity(a);
    } else if a.len() > 0 && b.len() > 0 {
        law_edit_distance_zero_iff_equal(a.drop_last(), b.drop_last());
        if edit_distance(a, b) == 0 {
            assert(a.drop_last() == b.drop_last());
            assert(a =~= a.drop_last().push(a.last()));
            assert(b =~= b.drop_last().push(b.last()));
        }
    } else if a.len() == 0 && b.len() == 0 {
        assert(a =~= b);
    }
}

/// The triangle inequality: going from `a` to `c` never costs more than
/// going from `a` to `b` and then from `b` to `c`.
pub proof fn law_edit_distance_triangle(a: Seq<char>, b: Seq<char>, c: Seq<char>)
    ensures
        edit_distance(a, c) <= edit_distance(a, b) + edit_distance(b, c),
    decreases a.len() + b.len() + c.len(),
{
    if a.len() == 0 {
        law_edit_distance_bounds(b, c);
    } else if c.len() == 0 {
        law_edit_distance_bounds(a, b);
    } else if b.len() == 0 {
        law_edit_distance_bounds(a, c);
    } else {
        let a1 = a.drop_last();
        let b1 = b.drop_last();
        let c1 = c.drop_last();
        law_edit_distance_triangle(a1, b, c);
        law_edit_distance_triangle(a, b, c1);
        law_edit_distance_triangle(a, b1, c);
        law_edit_distance_triangle(a, b1, c1);
        law_edit_distance_triangle(a1, b1, c);
        law_edit_distance_triangle(a1, b1, c1);
        let dac = edit_distance(a, c);
        assert(dac <= edit_distance(a1, c) + 1);
        assert(dac <= edit_distance(a, c1) + 1);
        assert(dac <= edit_distance(a1, c1) + if a.last() == c.last() {
            0nat
        } else {
            1nat
        });
    }
}

} // verus!
