//! Sets of texts kept as strictly increasing lists, in the lexicographic
//! order of their characters (the order of `String`'s `Ord`, which compares
//! the UTF-8 bytes, and so the code points, one by one).

use vstd::prelude::*;
use crate::hosts::views;
use crate::text::string_of;

verus! {

/// `a` comes strictly before `b`.
pub open spec fn lex_lt(a: Seq<char>, b: Seq<char>) -> bool
    decreases a.len(),
{
    if a.len() == 0 {
        b.len() > 0
    } else if b.len() == 0 {
        false
    } else if a[0] != b[0] {
        a[0] < b[0]
    } else {
        lex_lt(a.drop_first(), b.drop_first())
    }
}

/// Each text comes strictly before every later one.
pub open spec fn strictly_sorted(s: Seq<Seq<char>>) -> bool {
    forall|i: int, j: int| 0 <= i < j < s.len() ==> lex_lt(#[trigger] s[i], #[trigger] s[j])
}

/// The texts of a list, as a set.
pub open spec fn members(s: Seq<Seq<char>>) -> Set<Seq<char>> {
    s.to_set()
}

pub proof fn lemma_lex_irreflexive(a: Seq<char>)
    ensures
        !lex_lt(a, a),
    decreases a.len(),
{
    if a.len() > 0 {
        lemma_lex_irreflexive(a.drop_first());
    }
}

pub proof fn lemma_lex_total(a: Seq<char>, b: Seq<char>)
    requires
        a != b,
    ensures
        lex_lt(a, b) || lex_lt(b, a),
    decreases a.len(),
{
    if a.len() == 0 && b.len() == 0 {
        assert(a =~= b);
    } else if a.len() > 0 && b.len() > 0 && a[0] == b[0] {
        if a.drop_first() =~= b.drop_first() {
            assert(a =~= b) by {
                assert forall|k: int| 0 <= k < a.len() implies a[k] == b[k] by {
                    if k > 0 {
                        assert(a[k] == a.drop_first()[k - 1]);
                        assert(b[k] == b.drop_first()[k - 1]);
                    }
                }
            }
        } else {
            lemma_lex_total(a.drop_first(), b.drop_first());
        }
    }
}

pub proof fn lemma_lex_asymmetric(a: Seq<char>, b: Seq<char>)
    ensures
        !(lex_lt(a, b) && lex_lt(b, a)),
    decreases a.len(),
{
    if a.len() > 0 && b.len() > 0 && a[0] == b[0] {
        lemma_lex_asymmetric(a.drop_first(), b.drop_first());
    }
}

pub proof fn lemma_lex_transitive(a: Seq<char>, b: Seq<char>, c: Seq<char>)
    requires
        lex_lt(a, b),
        lex_lt(b, c),
    ensures
        lex_lt(a, c),
    decreases a.len(),
{
    if a.len() > 0 && b.len() > 0 && c.len() > 0 && a[0] == b[0] && b[0] == c[0] {
        lemma_lex_transitive(a.drop_first(), b.drop_first(), c.drop_first());
    }
}

/// Whether `a` comes strictly before `b`.
pub fn lex_less(a: &Vec<char>, b: &Vec<char>) -> (r: bool)
    ensures
        r == lex_lt(a@, b@),
{
    let mut i: usize = 0;
    assert(a@.skip(0) =~= a@);
    assert(b@.skip(0) =~= b@);
    while i < a.len() && i < b.len() && a[i] == b[i]
        invariant
            i <= a.len(),
            i <= b.len(),
            lex_lt(a@, b@) == lex_lt(a@.skip(i as int), b@.skip(i as int)),
        decreases a.len() - i,
    {
        assert(a@.skip(i as int).drop_first() =~= a@.skip(i + 1));
        assert(b@.skip(i as int).drop_first() =~= b@.skip(i + 1));
        i = i + 1;
    }
    if i == a.len() {
        i < b.len()
    } else if i == b.len() {
        false
    } else {
        a[i] < b[i]
    }
}

/// Whether two texts are equal.
fn same_text(a: &Vec<char>, b: &Vec<char>) -> (r: bool)
    ensures
        r == (a@ == b@),
{
    crate::text::seq_eq(a, b)
}

/// Adds `x` to a strictly increasing list, keeping it strictly increasing;
/// nothing changes when it is there already.
pub fn insert_sorted(v: &mut Vec<Vec<char>>, x: Vec<char>)
    requires
        strictly_sorted(views(old(v)@)),
    ensures
        strictly_sorted(views(final(v)@)),
        members(views(final(v)@)) == members(views(old(v)@)).insert(x@),
{
    let ghost s = views(v@);
    let mut i: usize = 0;
    while i < v.len() && lex_less(&v[i], &x)
        invariant
            i <= v.len(),
            s == views(v@),
            strictly_sorted(s),
            forall|k: int| 0 <= k < i ==> lex_lt(#[trigger] s[k], x@),
        decreases v.len() - i,
    {
        i = i + 1;
    }
    if i < v.len() && same_text(&v[i], &x) {
        assert(members(s).insert(x@) =~= members(s)) by {
            assert(s[i as int] == x@);
            assert(members(s).contains(x@));
        }
        return;
    }
    proof {
        if i < v.len() {
            lemma_lex_total(s[i as int], x@);
        }
        assert forall|k: int| i <= k < s.len() implies lex_lt(x@, #[trigger] s[k]) by {
            if k > i {
                lemma_lex_transitive(x@, s[i as int], s[k]);
            }
        }
    }
    v.insert(i, x);
    let ghost t = views(v@);
    assert(t =~= s.insert(i as int, x@));
    assert forall|a: int, b: int| 0 <= a < b < t.len() implies lex_lt(#[trigger] t[a], #[trigger] t[b]) by {
        if a < i && b == i {
        } else if a < i && b > i {
            lemma_lex_transitive(s[a], x@, s[b - 1]);
        } else if a == i {
        } else {
        }
    }
    assert(members(t) =~= members(s).insert(x@)) by {
        assert forall|y: Seq<char>| members(t).contains(y) <==> members(s).insert(x@).contains(y) by {
            if members(t).contains(y) {
                let k = choose|k: int| 0 <= k < t.len() && t[k] == y;
                if k < i {
                    assert(s[k] == y);
                } else if k > i {
                    assert(s[k - 1] == y);
                }
            }
            if members(s).contains(y) {
                let k = choose|k: int| 0 <= k < s.len() && s[k] == y;
                if k < i {
                    assert(t[k] == y);
                } else {
                    assert(t[k + 1] == y);
                }
            }
            if y == x@ {
                assert(t[i as int] == y);
            }
        }
    }
}

/// The strings holding the given texts, in order.
pub fn strings_from(v: &Vec<Vec<char>>) -> (r: Vec<String>)
    ensures
        r@.map_values(|s: String| s@) == views(v@),
{
    let mut out: Vec<String> = Vec::new();
    let mut i: usize = 0;
    while i < v.len()
        invariant
            i <= v.len(),
            out@.map_values(|s: String| s@) == views(v@).take(i as int),
        decreases v.len() - i,
    {
        let ghost old_out = out@;
        let s = string_of(&v[i]);
        out.push(s);
        assert(out@ =~= old_out.push(s));
        assert(out@.map_values(|s: String| s@) =~= old_out.map_values(|s: String| s@).push(s@));
        assert(views(v@).take(i + 1) =~= views(v@).take(i as int).push(v@[i as int]@));
        i = i + 1;
    }
    assert(views(v@).take(v.len() as int) =~= views(v@));
    out
}

} // verus!
