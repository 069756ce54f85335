use vstd::prelude::*;

verus! {

broadcast use vstd::seq_lib::group_seq_properties;

/// Records that are listed in a display order: by a primary key, then by a
/// tie-breaking key.
pub trait DisplayOrdered {
    /// The (primary, secondary) ordering key.
    spec fn sort_key(&self) -> (int, int);

    /// Computes the ordering key.
    fn display_key(&self) -> (r: (i32, i32))
        ensures
            (r.0 as int, r.1 as int) == self.sort_key(),
    ;
}

/// Lexicographic order of keys.
pub open spec fn key_le(a: (int, int), b: (int, int)) -> bool {
    a.0 < b.0 || (a.0 == b.0 && a.1 <= b.1)
}

/// Tests whether a record carries the given key.
pub open spec fn has_key<T: DisplayOrdered>(k: (int, int)) -> spec_fn(T) -> bool {
    |y: T| y.sort_key() == k
}

/// The items carrying a given key, in their order.
pub open spec fn with_key<T: DisplayOrdered>(s: Seq<T>, k: (int, int)) -> Seq<T> {
    s.filter(has_key(k))
}

/// The sequence is ordered by key.
pub open spec fn sorted_by_key<T: DisplayOrdered>(s: Seq<T>) -> bool {
    forall|i: int, j: int| 0 <= i < j < s.len() ==> key_le(#[trigger] s[i].sort_key(), #[trigger] s[j].sort_key())
}

/// `r` is the stable sort of `s` by key: ordered by key, and the items of
/// each key keep the order they had in `s`.
pub open spec fn stable_sorted<T: DisplayOrdered>(s: Seq<T>, r: Seq<T>) -> bool {
    &&& sorted_by_key(r)
    &&& forall|k: (int, int)| #[trigger] with_key(r, k) == with_key(s, k)
}

proof fn lemma_insert_keeps_groups<T: DisplayOrdered>(out: Seq<T>, p: int, x: T, k: (int, int))
    requires
        0 <= p <= out.len(),
        forall|q: int| 0 <= q < p ==> key_le(#[trigger] out[q].sort_key(), x.sort_key()),
        forall|q: int| p <= q < out.len() ==> !key_le(#[trigger] out[q].sort_key(), x.sort_key()),
    ensures
        with_key(out.insert(p, x), k) == if k == x.sort_key() {
            with_key(out, k).push(x)
        } else {
            with_key(out, k)
        },
{
    let pred = has_key::<T>(k);
    let a = out.subrange(0, p);
    let b = out.subrange(p, out.len() as int);
    assert(out.insert(p, x) =~= a + seq![x] + b);
    assert(out =~= a + b);
    Seq::filter_distributes_over_add(a + seq![x], b, pred);
    Seq::filter_distributes_over_add(a, seq![x], pred);
    Seq::filter_distributes_over_add(a, b, pred);
    reveal_with_fuel(Seq::filter, 2);
    assert(seq![x].drop_last() =~= Seq::<T>::empty());
    if k == x.sort_key() {
        assert forall|q: int| 0 <= q < b.len() implies !pred(#[trigger] b[q]) by {
            assert(b[q] == out[p + q]);
            assert(!key_le(out[p + q].sort_key(), x.sort_key()));
        }
        b.lemma_all_neg_filter_empty(pred);
        assert(seq![x].filter(pred) =~= seq![x]);
        assert(b.filter(pred) =~= Seq::<T>::empty());
        assert(with_key(out, k) =~= a.filter(pred));
        assert(with_key(out.insert(p, x), k) =~= a.filter(pred) + seq![x]);
        assert(with_key(out.insert(p, x), k) =~= with_key(out, k).push(x));
    } else {
        assert(seq![x].filter(pred) =~= Seq::<T>::empty());
        assert(with_key(out.insert(p, x), k) =~= with_key(out, k));
    }
}

/// Sorts records by key, keeping records with equal keys in their original
/// order (as `sort_by_key` does).
pub fn sort_for_display<T: DisplayOrdered>(items: Vec<T>) -> (r: Vec<T>)
    ensures
        r@.len() == items@.len(),
        stable_sorted(items@, r@),
{
    let ghost orig = items@;
    let mut rest = items;
    let mut out: Vec<T> = Vec::new();
    let n = rest.len();
    let mut i: usize = 0;
    while rest.len() > 0
        invariant
            rest@ == orig.subrange(i as int, orig.len() as int),
            i <= orig.len(),
            n == orig.len(),
            out@.len() == i,
            sorted_by_key(out@),
            forall|k: (int, int)| #[trigger] with_key(out@, k) == with_key(orig.subrange(0, i as int), k),
        decreases rest@.len(),
    {
        let x = rest.remove(0);
        let kx = x.display_key();
        let mut p: usize = 0;
        let mut found = false;
        while p < out.len() && !found
            invariant
                p <= out@.len(),
                sorted_by_key(out@),
                (kx.0 as int, kx.1 as int) == x.sort_key(),
                forall|q: int| 0 <= q < p ==> key_le(#[trigger] out@[q].sort_key(), x.sort_key()),
                found ==> p < out@.len() && !key_le(out@[p as int].sort_key(), x.sort_key()),
            decreases (out@.len() - p) + (if found { 0int } else { 1int }),
        {
            let kq = out[p].display_key();
            if kq.0 < kx.0 || (kq.0 == kx.0 && kq.1 <= kx.1) {
                p = p + 1;
            } else {
                found = true;
            }
        }
        proof {
            assert forall|q: int| p <= q < out@.len() implies !key_le(
                #[trigger] out@[q].sort_key(),
                x.sort_key(),
            ) by {
                if q > p {
                    assert(key_le(out@[p as int].sort_key(), out@[q].sort_key()));
                }
            }
            assert forall|k: (int, int)| #[trigger] with_key(out@.insert(p as int, x), k) == with_key(
                orig.subrange(0, i + 1),
                k,
            ) by {
                lemma_insert_keeps_groups(out@, p as int, x, k);
                let pred = has_key::<T>(k);
                assert(orig.subrange(0, i + 1) =~= orig.subrange(0, i as int).push(x));
                orig.subrange(0, i as int).lemma_filter_push(x, pred);
            }
            let ghost ins = out@.insert(p as int, x);
            assert forall|a: int, b: int| 0 <= a < b < ins.len() implies key_le(
                #[trigger] ins[a].sort_key(),
                #[trigger] ins[b].sort_key(),
            ) by {
                if a < p && b < p {
                    assert(ins[a] == out@[a] && ins[b] == out@[b]);
                } else if a < p && b == p {
                    assert(ins[a] == out@[a]);
                } else if a < p {
                    assert(ins[a] == out@[a] && ins[b] == out@[b - 1]);
                } else if a == p {
                    assert(ins[b] == out@[b - 1]);
                } else {
                    assert(ins[a] == out@[a - 1] && ins[b] == out@[b - 1]);
                }
            }
        }
        out.insert(p, x);
        i = i + 1;
    }
    proof {
        assert(orig.subrange(0, i as int) =~= orig);
    }
    out
}

} // verus!
