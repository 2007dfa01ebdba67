//! Orders used to present records: the lexicographic order of strings, and a
//! stable sort by any strict weak order.
use vstd::prelude::*;

verus! {

// ---------------------------------------------------------------------------
// Strings in lexicographic order
// ---------------------------------------------------------------------------

/// `a` sorts before `b` character by character (`str::cmp` is `Less`): at the
/// first difference `a` holds the smaller code point, or `a` is a proper
/// prefix of `b`.
pub open spec fn chars_lt(a: Seq<char>, b: Seq<char>) -> bool
    decreases a.len(),
{
    if a.len() == 0 {
        b.len() > 0
    } else if b.len() == 0 {
        false
    } else if a[0] != b[0] {
        a[0] < b[0]
    } else {
        chars_lt(a.drop_first(), b.drop_first())
    }
}

/// No string sorts before itself, and the order is transitive.
pub proof fn lemma_chars_lt_strict(a: Seq<char>, b: Seq<char>, c: Seq<char>)
    ensures
        !chars_lt(a, a),
        chars_lt(a, b) && chars_lt(b, c) ==> chars_lt(a, c),
    decreases a.len(),
{
    if a.len() > 0 {
        lemma_chars_lt_strict(a.drop_first(), b.drop_first(), c.drop_first());
        if b.len() > 0 && c.len() > 0 && a[0] == b[0] && b[0] == c[0] {
            assert(chars_lt(a, b) == chars_lt(a.drop_first(), b.drop_first()));
        }
    }
}

/// Of two different strings, one sorts before the other.
pub proof fn lemma_chars_lt_total(a: Seq<char>, b: Seq<char>)
    ensures
        a == b || chars_lt(a, b) || chars_lt(b, a),
    decreases a.len(),
{
    if a.len() > 0 && b.len() > 0 {
        lemma_chars_lt_total(a.drop_first(), b.drop_first());
        if a[0] == b[0] && a.drop_first() == b.drop_first() {
            assert(a =~= seq![a[0]] + a.drop_first());
            assert(b =~= seq![b[0]] + b.drop_first());
        }
    } else if a.len() == 0 && b.len() == 0 {
        assert(a =~= b);
    }
}

/// `chars_lt` on character vectors.
pub fn chars_less(a: &Vec<char>, b: &Vec<char>) -> (r: bool)
    ensures
        r == chars_lt(a@, b@),
{
    let mut i: usize = 0;
    assert(a@.skip(0) =~= a@);
    assert(b@.skip(0) =~= b@);
    while i < a.len() && i < b.len() && a[i] == b[i]
        invariant
            i <= a.len(),
            i <= b.len(),
            chars_lt(a@, b@) == chars_lt(a@.skip(i as int), b@.skip(i as int)),
        decreases a.len() - i,
    {
        assert(a@.skip(i as int).drop_first() =~= a@.skip(i + 1));
        assert(b@.skip(i as int).drop_first() =~= b@.skip(i + 1));
        i += 1;
    }
    if i == a.len() {
        i < b.len()
    } else if i == b.len() {
        false
    } else {
        a[i] < b[i]
    }
}

/// `a < b` on strings.
pub fn str_less(a: &str, b: &str) -> (r: bool)
    ensures
        r == chars_lt(a@, b@),
{
    let av = crate::text::chars_of(a);
    let bv = crate::text::chars_of(b);
    chars_less(&av, &bv)
}

// ---------------------------------------------------------------------------
// Stable sorting
// ---------------------------------------------------------------------------

/// A strict weak order on the views of a type of records, with its
/// decision procedure.
pub trait SortOrder: View + Sized {
    /// `a` sorts strictly before `b`.
    spec fn before(a: Self::V, b: Self::V) -> bool;

    /// `before` is irreflexive and transitive, and what sorts before one of
    /// two records sorts before the other too or after it.
    proof fn lemma_strict_weak_order(a: Self::V, b: Self::V, c: Self::V)
        ensures
            !Self::before(a, a),
            Self::before(a, b) && Self::before(b, c) ==> Self::before(a, c),
            Self::before(a, c) ==> Self::before(a, b) || Self::before(b, c),
    ;

    /// Decides `before`.
    fn is_before(&self, other: &Self) -> (r: bool)
        ensures
            r == Self::before(self@, other@),
    ;
}

/// The views of the records of `s`.
pub open spec fn views<T: View>(s: Seq<T>) -> Seq<T::V> {
    s.map_values(|x: T| x@)
}

/// No later record of `s` sorts before an earlier one.
pub open spec fn sorted_by<T: SortOrder>(s: Seq<T::V>) -> bool {
    forall|i: int, j: int| 0 <= i < j < s.len() ==> !T::before(#[trigger] s[j], #[trigger] s[i])
}

/// `out` holds the records of `inp` at the positions `perm` gives, and records
/// of which neither sorts before the other keep their order of `inp`.
pub open spec fn stable_permutation<T: SortOrder>(
    inp: Seq<T::V>,
    out: Seq<T::V>,
    perm: Seq<int>,
) -> bool {
    &&& perm.len() == inp.len()
    &&& out.len() == inp.len()
    &&& forall|k: int| 0 <= k < perm.len() ==> 0 <= #[trigger] perm[k] < inp.len()
    &&& forall|k: int| 0 <= k < perm.len() ==> out[k] == inp[#[trigger] perm[k]]
    &&& forall|k: int, l: int| 0 <= k < l < perm.len() ==> #[trigger] perm[k] != #[trigger] perm[l]
    &&& forall|k: int, l: int|
        0 <= k < l < perm.len() && !T::before(#[trigger] out[k], #[trigger] out[l]) ==> perm[k]
            < perm[l]
}

/// `out` holds the records of `inp` themselves at the positions `perm`
/// gives, in an order where no later record sorts before an earlier one, and
/// records of which neither sorts before the other keep their order of `inp`.
pub open spec fn stable_item_permutation<T: SortOrder>(
    inp: Seq<T>,
    out: Seq<T>,
    perm: Seq<int>,
) -> bool {
    &&& perm.len() == inp.len()
    &&& out.len() == inp.len()
    &&& forall|k: int| 0 <= k < perm.len() ==> 0 <= #[trigger] perm[k] < inp.len()
    &&& forall|k: int| 0 <= k < perm.len() ==> out[k] == inp[#[trigger] perm[k]]
    &&& forall|k: int, l: int| 0 <= k < l < perm.len() ==> #[trigger] perm[k] != #[trigger] perm[l]
    &&& forall|k: int, l: int|
        0 <= k < l < perm.len() && !T::before((#[trigger] out[k])@, (#[trigger] out[l])@)
            ==> perm[k] < perm[l]
}

/// `out` is the stable sort of the records `inp` themselves.
pub open spec fn is_stable_sort_of<T: SortOrder>(inp: Seq<T>, out: Seq<T>) -> bool {
    sorted_by::<T>(views(out)) && exists|perm: Seq<int>| stable_item_permutation::<T>(inp, out, perm)
}

/// `out` is the stable sort of `inp`.
pub open spec fn is_stable_sort<T: SortOrder>(inp: Seq<T::V>, out: Seq<T::V>) -> bool {
    sorted_by::<T>(out) && exists|perm: Seq<int>| stable_permutation::<T>(inp, out, perm)
}

/// Where `x` enters the sorted records `s`, looking from `from` on: ahead of
/// the first record that does not sort before it, else at the end.
pub open spec fn insert_pos<T: SortOrder>(s: Seq<T::V>, x: T::V, from: int) -> int
    decreases s.len() - from,
{
    if from >= s.len() {
        s.len() as int
    } else if !T::before(s[from], x) {
        from
    } else {
        insert_pos::<T>(s, x, from + 1)
    }
}

/// The records of `s` sorted by insertion from the last to the first, each
/// entering ahead of the records it does not sort after: the stable sort of
/// `s` as one sequence.
pub open spec fn stable_sorted<T: SortOrder>(s: Seq<T::V>) -> Seq<T::V>
    decreases s.len(),
{
    if s.len() == 0 {
        s
    } else {
        let rest = stable_sorted::<T>(s.drop_first());
        rest.insert(insert_pos::<T>(rest, s[0], 0), s[0])
    }
}

/// Sorts `v` stably by `T::before`.
pub fn stable_sort<T: SortOrder>(v: Vec<T>) -> (r: Vec<T>)
    ensures
        is_stable_sort::<T>(views(v@), views(r@)),
        is_stable_sort_of::<T>(v@, r@),
        views(r@) == stable_sorted::<T>(views(v@)),
        r@.to_multiset() == v@.to_multiset(),
{
    broadcast use vstd::seq_lib::group_to_multiset_ensures;
    let ghost exec_inp = v@;
    let ghost inp = views(v@);
    let mut rest = v;
    let mut out: Vec<T> = Vec::new();
    let ghost mut perm: Seq<int> = Seq::empty();
    assert(inp.skip(inp.len() as int) =~= Seq::<T::V>::empty());
    assert(views(out@) =~= Seq::<T::V>::empty());
    while rest.len() > 0
        invariant
            rest@ == exec_inp.take(rest.len() as int),
            out@.to_multiset().add(rest@.to_multiset()) == exec_inp.to_multiset(),
            views(out@) == stable_sorted::<T>(inp.skip(rest.len() as int)),
            inp == views(exec_inp),
            rest.len() <= inp.len(),
            sorted_by::<T>(views(out@)),
            perm.len() == out.len(),
            out.len() + rest.len() == inp.len(),
            forall|k: int| 0 <= k < perm.len() ==> rest.len() <= #[trigger] perm[k] < inp.len(),
            forall|k: int| 0 <= k < perm.len() ==> out@[k]@ == inp[#[trigger] perm[k]],
            forall|k: int| 0 <= k < perm.len() ==> out@[k] == exec_inp[#[trigger] perm[k]],
            forall|k: int, l: int|
                0 <= k < l < perm.len() ==> #[trigger] perm[k] != #[trigger] perm[l],
            forall|k: int, l: int|
                0 <= k < l < perm.len() && !T::before((#[trigger] out@[k])@, (#[trigger] out@[l])@)
                    ==> perm[k] < perm[l],
        decreases rest.len(),
    {
        let ghost old_out = out@;
        let ghost old_perm = perm;
        let ghost old_rest = rest@;
        let x = rest.pop().unwrap();
        let ghost i: int = rest.len() as int;
        assert(exec_inp.take(i + 1)[i] == x);
        assert(inp[i] == x@);
        assert(rest@ =~= exec_inp.take(i));
        assert(old_rest =~= rest@.push(x));
        let mut p: usize = 0;
        while p < out.len() && out[p].is_before(&x)
            invariant
                p <= out.len(),
                out@ == old_out,
                forall|k: int| 0 <= k < p ==> T::before((#[trigger] out@[k])@, x@),
                insert_pos::<T>(views(old_out), x@, 0) == insert_pos::<T>(views(old_out), x@, p as int),
            decreases out.len() - p,
        {
            assert(views(old_out)[p as int] == old_out[p as int]@);
            p += 1;
        }
        proof {
            if p < out.len() {
                assert(views(old_out)[p as int] == old_out[p as int]@);
            }
            assert(inp.skip(i).drop_first() =~= inp.skip(i + 1));
            assert(inp.skip(i)[0] == x@);
        }
        proof {
            if p < out.len() {
                assert forall|k: int| p <= k < out.len() implies !T::before(
                    (#[trigger] old_out[k])@,
                    x@,
                ) by {
                    T::lemma_strict_weak_order(old_out[k]@, old_out[p as int]@, x@);
                    if k > p {
                        assert(views(old_out)[k] == old_out[k]@);
                        assert(views(old_out)[p as int] == old_out[p as int]@);
                        assert(!T::before(old_out[k]@, old_out[p as int]@));
                    }
                }
            }
            assert forall|k: int| 0 <= k < p implies !T::before(x@, (#[trigger] old_out[k])@) by {
                T::lemma_strict_weak_order(x@, old_out[k]@, x@);
            }
        }
        out.insert(p, x);
        proof {
            perm = old_perm.insert(p as int, i);
            assert(out@ == old_out.insert(p as int, x));
            assert(views(out@) =~= views(old_out).insert(p as int, x@));
            vstd::seq_lib::to_multiset_insert(old_out, p as int, x);
            vstd::seq_lib::to_multiset_build(rest@, x);
            broadcast use vstd::multiset::group_multiset_axioms;
            assert(out@.to_multiset().add(rest@.to_multiset()) =~= old_out.to_multiset().add(
                old_rest.to_multiset(),
            ));
            assert forall|a: int, b: int| 0 <= a < b < out@.len() implies !T::before(
                #[trigger] views(out@)[b],
                #[trigger] views(out@)[a],
            ) by {
                assert(views(out@)[a] == out@[a]@);
                assert(views(out@)[b] == out@[b]@);
                if a < p && b > p {
                    assert(out@[a] == old_out[a]);
                    assert(out@[b] == old_out[b - 1]);
                    assert(views(old_out)[a] == old_out[a]@);
                    assert(views(old_out)[b - 1] == old_out[b - 1]@);
                } else if a < p && b < p {
                    assert(out@[a] == old_out[a]);
                    assert(out@[b] == old_out[b]);
                    assert(views(old_out)[a] == old_out[a]@);
                    assert(views(old_out)[b] == old_out[b]@);
                } else if a > p && b > p {
                    assert(out@[a] == old_out[a - 1]);
                    assert(out@[b] == old_out[b - 1]);
                    assert(views(old_out)[a - 1] == old_out[a - 1]@);
                    assert(views(old_out)[b - 1] == old_out[b - 1]@);
                } else if a == p {
                    assert(out@[b] == old_out[b - 1]);
                } else {
                    assert(out@[a] == old_out[a]);
                }
            }
            assert forall|k: int| 0 <= k < perm.len() implies rest.len() <= #[trigger] perm[k]
                < inp.len() by {
                if k < p {
                    assert(perm[k] == old_perm[k]);
                } else if k > p {
                    assert(perm[k] == old_perm[k - 1]);
                }
            }
            assert forall|k: int| 0 <= k < perm.len() implies out@[k]@ == inp[#[trigger] perm[k]]
                && out@[k] == exec_inp[perm[k]] by {
                if k < p {
                    assert(perm[k] == old_perm[k]);
                    assert(out@[k] == old_out[k]);
                } else if k > p {
                    assert(perm[k] == old_perm[k - 1]);
                    assert(out@[k] == old_out[k - 1]);
                }
            }
            assert forall|a: int, b: int| 0 <= a < b < perm.len() implies #[trigger] perm[a]
                != #[trigger] perm[b] by {
                if a < p && b < p {
                    assert(perm[a] == old_perm[a] && perm[b] == old_perm[b]);
                } else if a < p && b > p {
                    assert(perm[a] == old_perm[a] && perm[b] == old_perm[b - 1]);
                } else if a > p && b > p {
                    assert(perm[a] == old_perm[a - 1] && perm[b] == old_perm[b - 1]);
                } else if a == p {
                    assert(perm[b] == old_perm[b - 1]);
                } else {
                    assert(perm[a] == old_perm[a]);
                }
            }
            assert forall|a: int, b: int|
                0 <= a < b < perm.len() && !T::before((#[trigger] out@[a])@, (#[trigger] out@[b])@)
                    implies perm[a] < perm[b] by {
                if a < p && b < p {
                    assert(perm[a] == old_perm[a] && perm[b] == old_perm[b]);
                    assert(out@[a] == old_out[a] && out@[b] == old_out[b]);
                } else if a < p && b > p {
                    assert(perm[a] == old_perm[a] && perm[b] == old_perm[b - 1]);
                    assert(out@[a] == old_out[a] && out@[b] == old_out[b - 1]);
                } else if a > p && b > p {
                    assert(perm[a] == old_perm[a - 1] && perm[b] == old_perm[b - 1]);
                    assert(out@[a] == old_out[a - 1] && out@[b] == old_out[b - 1]);
                } else if a == p {
                    assert(perm[b] == old_perm[b - 1]);
                } else {
                    assert(out@[a] == old_out[a]);
                    assert(T::before(out@[a]@, x@));
                }
            }
        }
    }
    assert forall|k: int| 0 <= k < perm.len() implies views(out@)[k] == inp[#[trigger] perm[k]] by {
        assert(views(out@)[k] == out@[k]@);
    }
    assert forall|k: int, l: int|
        0 <= k < l < perm.len() && !T::before(#[trigger] views(out@)[k], #[trigger] views(out@)[l])
            implies perm[k] < perm[l] by {
        assert(views(out@)[k] == out@[k]@);
        assert(views(out@)[l] == out@[l]@);
    }
    assert(stable_permutation::<T>(inp, views(out@), perm));
    assert(stable_item_permutation::<T>(exec_inp, out@, perm));
    assert(inp.skip(0) =~= inp);
    out
}

} // verus!
