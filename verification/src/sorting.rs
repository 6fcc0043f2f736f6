//! Sorting of strings (as `str`'s `Ord`: lexicographic by code point) and
//! of integers, as `slice::sort` orders them.
use crate::text::{lex_lt, str_lt};
use vstd::multiset::Multiset;
use vstd::prelude::*;

verus! {

/// `lex_lt` never holds both ways.
pub proof fn lemma_lex_asym(a: Seq<char>, b: Seq<char>)
    ensures
        !(lex_lt(a, b) && lex_lt(b, a)),
    decreases a.len(),
{
    if a.len() > 0 && b.len() > 0 && a[0] == b[0] {
        lemma_lex_asym(a.drop_first(), b.drop_first());
    }
}

/// `lex_lt` is transitive.
pub proof fn lemma_lex_trans(a: Seq<char>, b: Seq<char>, c: Seq<char>)
    requires
        lex_lt(a, b),
        lex_lt(b, c),
    ensures
        lex_lt(a, c),
    decreases a.len(),
{
    if a.len() > 0 && b.len() > 0 && c.len() > 0 && a[0] == b[0] && b[0] == c[0] {
        lemma_lex_trans(a.drop_first(), b.drop_first(), c.drop_first());
    }
}

/// No string comes after a later one.
pub open spec fn sorted_strs(s: Seq<Seq<char>>) -> bool {
    forall|i: int, j: int| 0 <= i < j < s.len() ==> !lex_lt(#[trigger] s[j], #[trigger] s[i])
}

/// No number comes after a smaller one.
pub open spec fn sorted_u32(s: Seq<u32>) -> bool {
    forall|i: int, j: int| 0 <= i < j < s.len() ==> s[i] <= s[j]
}

/// The views of a sequence of strings.
pub open spec fn str_views(v: Seq<String>) -> Seq<Seq<char>> {
    v.map_values(|s: String| s@)
}

/// Inserting `x` at `p` into a sequence keeps its multiset up to `x`.
pub proof fn lemma_insert_multiset<A>(s: Seq<A>, p: int, x: A)
    requires
        0 <= p <= s.len(),
    ensures
        s.insert(p, x).to_multiset() =~= s.to_multiset().insert(x),
{
    let t = s.insert(p, x);
    s.insert_ensures(p, x);
    assert(t.remove(p) =~= s);
    t.to_multiset_ensures();
    s.to_multiset_ensures();
    assert(t[p] == x);
    assert(t.contains(x));
    assert(t.to_multiset().count(x) > 0);
    assert forall|y: A| #[trigger] t.to_multiset().count(y) == s.to_multiset().insert(x).count(y) by {
        if y == x {
        } else {
        }
    }
}

/// Inserting the next input element keeps the multisets in step.
pub proof fn lemma_step_multiset<A>(v: Seq<A>, i: int, out: Seq<A>, p: int)
    requires
        0 <= i < v.len(),
        0 <= p <= out.len(),
        out.to_multiset() == v.take(i).to_multiset(),
    ensures
        out.insert(p, v[i]).to_multiset() == v.take(i + 1).to_multiset(),
{
    lemma_insert_multiset(out, p, v[i]);
    assert(v.take(i + 1) =~= v.take(i).push(v[i]));
    v.take(i).to_multiset_ensures();
}

/// Inserting `x` after every string it does not precede and before the
/// first one it precedes keeps a sorted sequence sorted.
pub proof fn lemma_insert_sorted_strs(o: Seq<Seq<char>>, p: int, x: Seq<char>)
    requires
        0 <= p <= o.len(),
        sorted_strs(o),
        forall|k: int| 0 <= k < p ==> !lex_lt(x, #[trigger] o[k]),
        p < o.len() ==> lex_lt(x, o[p]),
    ensures
        sorted_strs(o.insert(p, x)),
{
    let t = o.insert(p, x);
    o.insert_ensures(p, x);
    assert forall|a: int, b: int| 0 <= a < b < t.len() implies !lex_lt(#[trigger] t[b], #[trigger] t[a]) by {
        if a < p && b < p {
            assert(t[a] == o[a] && t[b] == o[b]);
        } else if a < p && b == p {
            assert(t[a] == o[a]);
            assert(!lex_lt(x, o[a]));
        } else if a < p && b > p {
            assert(t[a] == o[a] && t[b] == o[b - 1]);
        } else if a == p {
            assert(t[b] == o[b - 1]);
            if lex_lt(o[b - 1], x) {
                lemma_lex_trans(o[b - 1], x, o[p]);
                if b - 1 > p {
                    assert(!lex_lt(o[b - 1], o[p]));
                } else {
                    lemma_lex_asym(o[p], o[p]);
                }
            }
        } else {
            assert(t[a] == o[a - 1] && t[b] == o[b - 1]);
        }
    }
}

/// Inserting `x` after every number not above it and before the first one
/// above it keeps an ascending sequence ascending.
pub proof fn lemma_insert_sorted_u32(o: Seq<u32>, p: int, x: u32)
    requires
        0 <= p <= o.len(),
        sorted_u32(o),
        forall|k: int| 0 <= k < p ==> #[trigger] o[k] <= x,
        p < o.len() ==> o[p] > x,
    ensures
        sorted_u32(o.insert(p, x)),
{
    let t = o.insert(p, x);
    o.insert_ensures(p, x);
    assert forall|a: int, b: int| 0 <= a < b < t.len() implies t[a] <= t[b] by {
        if a < p && b < p {
            assert(t[a] == o[a] && t[b] == o[b]);
        } else if a < p && b == p {
            assert(t[a] == o[a]);
        } else if a < p && b > p {
            assert(t[a] == o[a] && t[b] == o[b - 1]);
        } else if a == p {
            assert(t[b] == o[b - 1]);
        } else {
            assert(t[a] == o[a - 1] && t[b] == o[b - 1]);
        }
    }
}

/// The strings of `v`, sorted (stably) in `str` order.
pub fn sort_strings(v: Vec<String>) -> (r: Vec<String>)
    ensures
        sorted_strs(str_views(r@)),
        r@.to_multiset() == v@.to_multiset(),
{
    let mut out: Vec<String> = Vec::new();
    let mut i: usize = 0;
    assert(v@.take(0) =~= Seq::<String>::empty());
    while i < v.len()
        invariant
            i <= v@.len(),
            sorted_strs(str_views(out@)),
            out@.to_multiset() == v@.take(i as int).to_multiset(),
        decreases v@.len() - i,
    {
        let x = v[i].clone();
        let mut p: usize = 0;
        while p < out.len() && !str_lt(x.as_str(), out[p].as_str())
            invariant
                p <= out@.len(),
                forall|k: int| 0 <= k < p ==> !lex_lt(x@, #[trigger] out@[k]@),
            decreases out@.len() - p,
        {
            p = p + 1;
        }
        let ghost old_out = out@;
        out.insert(p, x);
        proof {
            lemma_step_multiset(v@, i as int, old_out, p as int);
            assert(str_views(out@) =~= str_views(old_out).insert(p as int, x@));
            lemma_insert_sorted_strs(str_views(old_out), p as int, x@);
        }
        i = i + 1;
    }
    assert(v@.take(v@.len() as int) =~= v@);
    out
}


/// The numbers of `v`, in ascending order.
pub fn sort_u32(v: Vec<u32>) -> (r: Vec<u32>)
    ensures
        sorted_u32(r@),
        r@.to_multiset() == v@.to_multiset(),
{
    let mut out: Vec<u32> = Vec::new();
    let mut i: usize = 0;
    assert(v@.take(0) =~= Seq::<u32>::empty());
    while i < v.len()
        invariant
            i <= v@.len(),
            sorted_u32(out@),
            out@.to_multiset() == v@.take(i as int).to_multiset(),
        decreases v@.len() - i,
    {
        let x = v[i];
        let mut p: usize = 0;
        while p < out.len() && out[p] <= x
            invariant
                p <= out@.len(),
                forall|k: int| 0 <= k < p ==> out@[k] <= x,
            decreases out@.len() - p,
        {
            p = p + 1;
        }
        let ghost old_out = out@;
        out.insert(p, x);
        proof {
            lemma_step_multiset(v@, i as int, old_out, p as int);
            lemma_insert_sorted_u32(old_out, p as int, x);
        }
        i = i + 1;
    }
    assert(v@.take(v@.len() as int) =~= v@);
    out
}

} // verus!
