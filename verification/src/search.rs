//! The first position in a range where a predicate holds.
use vstd::prelude::*;

verus! {

/// The first index below `len` where `p` holds.
pub open spec fn first_index(len: int, p: spec_fn(int) -> bool) -> Option<int>
    decreases len,
{
    if len <= 0 {
        None
    } else {
        match first_index(len - 1, p) {
            Some(i) => Some(i),
            None => if p(len - 1) {
                Some(len - 1)
            } else {
                None
            },
        }
    }
}

pub proof fn lemma_first_index_bounds(len: int, p: spec_fn(int) -> bool)
    ensures
        first_index(len, p) matches Some(i) ==> 0 <= i < len && p(i) && forall|j: int|
            0 <= j < i ==> !#[trigger] p(j),
        first_index(len, p) is None ==> forall|j: int| 0 <= j < len ==> !#[trigger] p(j),
    decreases len,
{
    if len > 0 {
        lemma_first_index_bounds(len - 1, p);
    }
}

/// A first index stays first as the range grows.
pub proof fn lemma_first_index_extend(m: int, n: int, p: spec_fn(int) -> bool)
    requires
        m <= n,
        first_index(m, p) is Some,
    ensures
        first_index(n, p) == first_index(m, p),
    decreases n - m,
{
    if m < n {
        lemma_first_index_extend(m, n - 1, p);
    }
}

} // verus!
