//! The order of strings by their characters, as `String`'s `Ord` compares
//! them, and insertion into a sorted list of distinct strings.
use vstd::prelude::*;
use crate::text::chars_of;

verus! {

broadcast use vstd::seq::group_seq_axioms;

/// Lexicographic order on character sequences; a proper prefix comes first.
pub open spec fn lex_lt(a: Seq<char>, b: Seq<char>) -> bool
    decreases a.len(),
{
    if a.len() == 0 {
        b.len() > 0
    } else if b.len() == 0 {
        false
    } else if a[0] != b[0] {
        (a[0] as int) < (b[0] as int)
    } else {
        lex_lt(a.drop_first(), b.drop_first())
    }
}

/// The strings are in strictly increasing order.
pub open spec fn strictly_sorted(s: Seq<Seq<char>>) -> bool {
    forall|i: int, j: int| 0 <= i < j < s.len() ==> lex_lt(#[trigger] s[i], #[trigger] s[j])
}

pub proof fn lemma_lex_irreflexive(a: Seq<char>)
    ensures
        !lex_lt(a, a),
    decreases a.len(),
{
    if a.len() > 0 {
        lemma_lex_irreflexive(a.drop_first());
    }
}

pub proof fn lemma_lex_transitive(a: Seq<char>, b: Seq<char>, c: Seq<char>)
    requires
        lex_lt(a, b),
        lex_lt(b, c),
    ensures
        lex_lt(a, c),
    decreases a.len(),
{
    if a.len() > 0 && b.len() > 0 && c.len() > 0 && a[0] == b[0] && b[0] == c[0] {
        lemma_lex_transitive(a.drop_first(), b.drop_first(), c.drop_first());
    }
}

pub proof fn lemma_lex_total(a: Seq<char>, b: Seq<char>)
    ensures
        a == b || lex_lt(a, b) || lex_lt(b, a),
    decreases a.len(),
{
    if a.len() > 0 && b.len() > 0 {
        if a[0] == b[0] {
            lemma_lex_total(a.drop_first(), b.drop_first());
            if a.drop_first() == b.drop_first() {
                assert(a =~= seq![a[0]] + a.drop_first());
                assert(b =~= seq![b[0]] + b.drop_first());
            }
        } else {
            assert((a[0] as int) != (b[0] as int));
        }
    } else if a.len() == 0 && b.len() == 0 {
        assert(a =~= b);
    }
}

proof fn lemma_lex_step(a: Seq<char>, b: Seq<char>, i: int)
    requires
        0 <= i < a.len(),
        i < b.len(),
        a[i] == b[i],
    ensures
        lex_lt(a.subrange(i, a.len() as int), b.subrange(i, b.len() as int)) == lex_lt(
            a.subrange(i + 1, a.len() as int),
            b.subrange(i + 1, b.len() as int),
        ),
{
    assert(a.subrange(i, a.len() as int).drop_first() =~= a.subrange(i + 1, a.len() as int));
    assert(b.subrange(i, b.len() as int).drop_first() =~= b.subrange(i + 1, b.len() as int));
}

/// Whether `a` comes before `b` in the order of their characters.
pub fn str_lt(a: &str, b: &str) -> (r: bool)
    ensures
        r == lex_lt(a@, b@),
{
    let x = chars_of(a);
    let y = chars_of(b);
    let mut i: usize = 0;
    assert(x@.subrange(0, x.len() as int) =~= x@);
    assert(y@.subrange(0, y.len() as int) =~= y@);
    while i < x.len() && i < y.len() && x[i] == y[i]
        invariant
            i <= x.len(),
            i <= y.len(),
            lex_lt(x@, y@) == lex_lt(
                x@.subrange(i as int, x.len() as int),
                y@.subrange(i as int, y.len() as int),
            ),
            x@ == a@,
            y@ == b@,
        decreases x.len() - i,
    {
        proof {
            lemma_lex_step(x@, y@, i as int);
        }
        i = i + 1;
    }
    let ghost xs = x@.subrange(i as int, x.len() as int);
    let ghost ys = y@.subrange(i as int, y.len() as int);
    if i == x.len() {
        assert(xs.len() == 0);
        i < y.len()
    } else if i == y.len() {
        assert(ys.len() == 0 && xs.len() > 0);
        false
    } else {
        assert(xs[0] == x@[i as int] && ys[0] == y@[i as int]);
        x[i] < y[i]
    }
}

/// The characters of each string of a list.
pub open spec fn string_views(v: Seq<String>) -> Seq<Seq<char>> {
    v.map_values(|t: String| t@)
}

/// Inserts `s` into the strictly sorted list `v`, unless it is already there.
pub fn insert_sorted_unique(v: &mut Vec<String>, s: String)
    requires
        strictly_sorted(string_views(old(v)@)),
    ensures
        strictly_sorted(string_views(final(v)@)),
        forall|t: Seq<char>|
            #[trigger] string_views(final(v)@).contains(t) <==> (string_views(old(v)@).contains(t)
                || t == s@),
{
    let ghost before = string_views(v@);
    let mut p: usize = 0;
    while p < v.len() && str_lt(v[p].as_str(), s.as_str())
        invariant
            p <= v.len(),
            string_views(v@) == before,
            strictly_sorted(before),
            forall|j: int| 0 <= j < p ==> lex_lt(#[trigger] before[j], s@),
        decreases v.len() - p,
    {
        p = p + 1;
    }
    if p < v.len() && v[p] == s {
        assert(before[p as int] == s@);
        assert forall|t: Seq<char>| before.contains(t) || t == s@ implies before.contains(t) by {
            if t == s@ {
                assert(before[p as int] == t);
            }
        }
        return;
    }
    proof {
        if p < v.len() {
            lemma_lex_total(before[p as int], s@);
        }
    }
    v.insert(p, s);
    let ghost after = string_views(v@);
    assert(after =~= before.insert(p as int, s@));
    assert forall|i: int, j: int| 0 <= i < j < after.len() implies lex_lt(
        #[trigger] after[i],
        #[trigger] after[j],
    ) by {
        if j < p {
            assert(lex_lt(before[i], before[j]));
        } else if j == p {
            assert(lex_lt(before[i], s@));
        } else if i < p {
            assert(lex_lt(before[i], s@));
            assert(lex_lt(s@, before[p as int]));
            if j - 1 > p {
                assert(lex_lt(before[p as int], before[j - 1]));
                lemma_lex_transitive(s@, before[p as int], before[j - 1]);
            }
            lemma_lex_transitive(before[i], s@, before[j - 1]);
        } else if i == p {
            assert(lex_lt(s@, before[p as int]));
            if j - 1 > p {
                assert(lex_lt(before[p as int], before[j - 1]));
                lemma_lex_transitive(s@, before[p as int], before[j - 1]);
            }
        } else {
            assert(lex_lt(before[i - 1], before[j - 1]));
        }
    }
    assert forall|t: Seq<char>| after.contains(t) <==> (before.contains(t) || t == s@) by {
        if after.contains(t) {
            let k = choose|k: int| 0 <= k < after.len() && after[k] == t;
            if k < p {
                assert(before[k] == t);
            } else if k > p {
                assert(before[k - 1] == t);
            }
        }
        if before.contains(t) {
            let k = choose|k: int| 0 <= k < before.len() && before[k] == t;
            if k < p {
                assert(after[k] == t);
            } else {
                assert(after[k + 1] == t);
            }
        }
        if t == s@ {
            assert(after[p as int] == t);
        }
    }
}

} // verus!
