//! The order `String` and `(String, String)` sort by, and sorting under it.
//!
//! Strings compare lexicographically by character; UTF-8 keeps that order,
//! so it is the byte order that `String`'s `Ord` uses.
use crate::text::{to_chars, views};
use vstd::prelude::*;
use vstd::multiset::Multiset;
use vstd::relations::{sorted_by, total_ordering};

verus! {

/// `a` sorts before `b` or equals it.
pub open spec fn chars_le(a: Seq<char>, b: Seq<char>) -> bool
    decreases a.len(),
{
    if a.len() == 0 {
        true
    } else if b.len() == 0 {
        false
    } else if a[0] < b[0] {
        true
    } else if a[0] > b[0] {
        false
    } else {
        chars_le(a.drop_first(), b.drop_first())
    }
}

/// Pairs sort by their first string, then by their second.
pub open spec fn pair_le(p: (Seq<char>, Seq<char>), q: (Seq<char>, Seq<char>)) -> bool {
    (chars_le(p.0, q.0) && p.0 != q.0) || (p.0 == q.0 && chars_le(p.1, q.1))
}

/// [`pair_le`] as a relation.
pub open spec fn pair_order() -> spec_fn((Seq<char>, Seq<char>), (Seq<char>, Seq<char>)) -> bool {
    |p: (Seq<char>, Seq<char>), q: (Seq<char>, Seq<char>)| pair_le(p, q)
}

pub(crate) proof fn lemma_chars_le_refl(a: Seq<char>)
    ensures
        chars_le(a, a),
    decreases a.len(),
{
    if a.len() > 0 {
        lemma_chars_le_refl(a.drop_first());
    }
}

pub(crate) proof fn lemma_chars_le_antisym(a: Seq<char>, b: Seq<char>)
    requires
        chars_le(a, b),
        chars_le(b, a),
    ensures
        a == b,
    decreases a.len(),
{
    if a.len() == 0 {
        if b.len() > 0 {
            assert(!chars_le(b, a));
        }
        assert(a =~= b);
    } else {
        assert(b.len() > 0);
        assert(a[0] == b[0]);
        lemma_chars_le_antisym(a.drop_first(), b.drop_first());
        assert(a =~= seq![a[0]] + a.drop_first());
        assert(b =~= seq![b[0]] + b.drop_first());
    }
}

pub(crate) proof fn lemma_chars_le_trans(a: Seq<char>, b: Seq<char>, c: Seq<char>)
    requires
        chars_le(a, b),
        chars_le(b, c),
    ensures
        chars_le(a, c),
    decreases a.len(),
{
    if a.len() > 0 && b.len() > 0 && c.len() > 0 {
        if a[0] == b[0] && b[0] == c[0] {
            lemma_chars_le_trans(a.drop_first(), b.drop_first(), c.drop_first());
        }
    }
}

pub(crate) proof fn lemma_chars_le_total(a: Seq<char>, b: Seq<char>)
    ensures
        chars_le(a, b) || chars_le(b, a),
    decreases a.len(),
{
    if a.len() > 0 && b.len() > 0 && a[0] == b[0] {
        lemma_chars_le_total(a.drop_first(), b.drop_first());
    }
}

/// The pair order is a total order.
pub proof fn lemma_pair_order_total()
    ensures
        total_ordering(pair_order()),
{
    let r = pair_order();
    assert forall|x: (Seq<char>, Seq<char>)| #[trigger] r(x, x) by {
        lemma_chars_le_refl(x.1);
    }
    assert forall|x: (Seq<char>, Seq<char>), y: (Seq<char>, Seq<char>)|
        #[trigger] r(x, y) && #[trigger] r(y, x) implies x == y by {
        if x.0 == y.0 {
            lemma_chars_le_antisym(x.1, y.1);
        } else {
            lemma_chars_le_antisym(x.0, y.0);
        }
    }
    assert forall|x: (Seq<char>, Seq<char>), y: (Seq<char>, Seq<char>), z: (Seq<char>, Seq<char>)|
        #[trigger] r(x, y) && #[trigger] r(y, z) implies r(x, z) by {
        if x.0 == y.0 && y.0 == z.0 {
            lemma_chars_le_trans(x.1, y.1, z.1);
        } else if x.0 == y.0 || y.0 == z.0 {
        } else {
            lemma_chars_le_trans(x.0, y.0, z.0);
            if x.0 == z.0 {
                lemma_chars_le_antisym(x.0, y.0);
            }
        }
    }
    assert forall|x: (Seq<char>, Seq<char>), y: (Seq<char>, Seq<char>)|
        #[trigger] r(x, y) || #[trigger] r(y, x) by {
        lemma_chars_le_total(x.0, y.0);
        lemma_chars_le_total(x.1, y.1);
    }
}

/// Two sequences sorted under the same total order, with the same
/// elements, are equal.
pub proof fn lemma_sorted_unique<T>(a: Seq<T>, b: Seq<T>, r: spec_fn(T, T) -> bool)
    requires
        total_ordering(r),
        sorted_by(a, r),
        sorted_by(b, r),
        a.to_multiset() == b.to_multiset(),
    ensures
        a == b,
    decreases a.len(),
{
    broadcast use vstd::seq_lib::group_to_multiset_ensures;

    assert(a.len() == b.len()) by {
        assert(a.to_multiset().len() == a.len());
        assert(b.to_multiset().len() == b.len());
    }
    if a.len() == 0 {
        assert(a =~= b);
    } else {
        // both first elements are the least element of the common multiset
        assert(b.to_multiset().count(a[0]) > 0) by {
            assert(a.to_multiset().count(a[0]) > 0);
        }
        assert(b.contains(a[0]));
        let j = choose|j: int| 0 <= j < b.len() && b[j] == a[0];
        assert(a.to_multiset().count(b[0]) > 0) by {
            assert(b.to_multiset().count(b[0]) > 0);
        }
        assert(a.contains(b[0]));
        let k = choose|k: int| 0 <= k < a.len() && a[k] == b[0];
        assert(r(b[0], a[0])) by {
            if j > 0 {
                assert(r(b[0], b[j]));
            }
        }
        assert(r(a[0], b[0])) by {
            if k > 0 {
                assert(r(a[0], a[k]));
            }
        }
        assert(a[0] == b[0]);
        let a1 = a.drop_first();
        let b1 = b.drop_first();
        assert(a =~= seq![a[0]] + a1);
        assert(b =~= seq![b[0]] + b1);
        assert(a1.to_multiset() == b1.to_multiset()) by {
            assert(a.remove(0) == a1);
            assert(b.remove(0) == b1);
            vstd::seq_lib::to_multiset_remove(a, 0);
            vstd::seq_lib::to_multiset_remove(b, 0);
        }
        assert(sorted_by(a1, r)) by {
            assert forall|x: int, y: int| 0 <= x < y < a1.len() implies #[trigger] r(
                a1[x],
                a1[y],
            ) by {
                assert(r(a[x + 1], a[y + 1]));
            }
        }
        assert(sorted_by(b1, r)) by {
            assert forall|x: int, y: int| 0 <= x < y < b1.len() implies #[trigger] r(
                b1[x],
                b1[y],
            ) by {
                assert(r(b[x + 1], b[y + 1]));
            }
        }
        lemma_sorted_unique(a1, b1, r);
    }
}

/// `vstd`'s sort under the pair order is the unique sorted arrangement.
pub proof fn lemma_sort_is(s: Seq<(Seq<char>, Seq<char>)>, t: Seq<(Seq<char>, Seq<char>)>)
    requires
        sorted_by(t, pair_order()),
        t.to_multiset() == s.to_multiset(),
    ensures
        t == s.sort_by(pair_order()),
{
    lemma_pair_order_total();
    s.lemma_sort_by_ensures(pair_order());
    lemma_sorted_unique(t, s.sort_by(pair_order()), pair_order());
}

/// [`chars_le`] as a relation: the order `String`s sort by.
pub open spec fn chars_order() -> spec_fn(Seq<char>, Seq<char>) -> bool {
    |a: Seq<char>, b: Seq<char>| chars_le(a, b)
}

/// The string order is a total order.
pub proof fn lemma_chars_order_total()
    ensures
        total_ordering(chars_order()),
{
    let r = chars_order();
    assert forall|x: Seq<char>| #[trigger] r(x, x) by {
        lemma_chars_le_refl(x);
    }
    assert forall|x: Seq<char>, y: Seq<char>| #[trigger] r(x, y) && #[trigger] r(y, x) implies x
        == y by {
        lemma_chars_le_antisym(x, y);
    }
    assert forall|x: Seq<char>, y: Seq<char>, z: Seq<char>| #[trigger] r(x, y) && #[trigger] r(
        y,
        z,
    ) implies r(x, z) by {
        lemma_chars_le_trans(x, y, z);
    }
    assert forall|x: Seq<char>, y: Seq<char>| #[trigger] r(x, y) || #[trigger] r(y, x) by {
        lemma_chars_le_total(x, y);
    }
}

/// `[String]::sort`: the strings in ascending order.
pub fn sort_strings(items: Vec<String>) -> (r: Vec<String>)
    ensures
        views(r@) == views(items@).sort_by(chars_order()),
{
    broadcast use vstd::seq_lib::group_to_multiset_ensures;

    proof {
        lemma_chars_order_total();
    }
    let ghost ord = chars_order();
    let ghost all = views(items@);
    let mut rest = items;
    let mut out: Vec<String> = Vec::new();
    assert(views(out@) =~= Seq::<Seq<char>>::empty());
    while rest.len() > 0
        invariant
            total_ordering(ord),
            ord == chars_order(),
            all == views(items@),
            sorted_by(views(out@), ord),
            views(out@).to_multiset().add(views(rest@).to_multiset()) == all.to_multiset(),
        decreases rest.len(),
    {
        let ghost rest0 = views(rest@);
        let ghost out0 = views(out@);
        let x = rest.pop().unwrap();
        let ghost xv = x@;
        proof {
            assert(rest0 == views(rest@).push(xv));
            vstd::seq_lib::to_multiset_build(views(rest@), xv);
        }
        let mut pos: usize = 0;
        let xc = to_chars(x.as_str());
        while pos < out.len() && chars_le_exec(to_chars(out[pos].as_str()).as_slice(), xc.as_slice())
            invariant
                pos <= out.len(),
                out0 == views(out@),
                xv == x@,
                xc@ == x@,
                forall|j: int| 0 <= j < pos ==> chars_le(#[trigger] out0[j], xv),
            decreases out.len() - pos,
        {
            assert(out0[pos as int] == out@[pos as int]@);
            pos = pos + 1;
        }
        proof {
            if pos < out0.len() {
                assert(out0[pos as int] == out@[pos as int]@);
                assert(!chars_le(out0[pos as int], xv));
                assert(ord(out0[pos as int], xv) || ord(xv, out0[pos as int]));
                assert forall|k: int| pos <= k < out0.len() implies chars_le(
                    xv,
                    #[trigger] out0[k],
                ) by {
                    if k > pos {
                        assert(ord(out0[pos as int], out0[k]));
                        assert(ord(xv, out0[pos as int]));
                    }
                }
            }
        }
        out.insert(pos, x);
        proof {
            let n = views(out@);
            assert(n =~= out0.insert(pos as int, xv));
            vstd::seq_lib::to_multiset_insert(out0, pos as int, xv);
            assert forall|i: int, j: int| 0 <= i < j < n.len() implies #[trigger] ord(
                n[i],
                n[j],
            ) by {
                if j < pos {
                    assert(ord(out0[i], out0[j]));
                } else if j == pos {
                    assert(chars_le(out0[i], xv));
                } else if i < pos {
                    assert(ord(out0[i], xv));
                    assert(ord(xv, out0[j - 1]));
                } else if i == pos {
                    assert(chars_le(xv, out0[j - 1]));
                } else {
                    assert(ord(out0[i - 1], out0[j - 1]));
                }
            }
            assert(views(out@).to_multiset() == out0.to_multiset().insert(xv));
            assert(rest0.to_multiset() == views(rest@).to_multiset().insert(xv));
            assert(views(out@).to_multiset().add(views(rest@).to_multiset()) =~= out0.to_multiset().add(
                rest0.to_multiset(),
            ));
        }
    }
    assert(views(rest@).to_multiset() =~= Multiset::empty());
    assert(views(out@).to_multiset().add(Multiset::empty()) =~= views(out@).to_multiset());
    proof {
        all.lemma_sort_by_ensures(ord);
        lemma_sorted_unique(views(out@), all.sort_by(ord), ord);
    }
    out
}

/// Compares two character sequences.
pub fn chars_le_exec(a: &[char], b: &[char]) -> (r: bool)
    ensures
        r == chars_le(a@, b@),
{
    let mut i: usize = 0;
    assert(a@.skip(0) == a@);
    assert(b@.skip(0) == b@);
    while i < a.len() && i < b.len() && a[i] == b[i]
        invariant
            i <= a.len(),
            i <= b.len(),
            chars_le(a@, b@) == chars_le(a@.skip(i as int), b@.skip(i as int)),
        decreases a.len() - i,
    {
        assert(a@.skip(i as int).drop_first() == a@.skip(i + 1));
        assert(b@.skip(i as int).drop_first() == b@.skip(i + 1));
        i = i + 1;
    }
    if i == a.len() {
        true
    } else if i == b.len() {
        false
    } else {
        assert(a@.skip(i as int)[0] == a@[i as int]);
        assert(b@.skip(i as int)[0] == b@[i as int]);
        a[i] < b[i]
    }
}

} // verus!
