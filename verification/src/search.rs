//! The first index at which something holds.

use vstd::prelude::*;

verus! {

/// `i` is the least index below `n` at which `p` holds.
pub open spec fn is_least(p: spec_fn(int) -> bool, n: int, i: int) -> bool {
    &&& 0 <= i < n
    &&& p(i)
    &&& forall|k: int| 0 <= k < i ==> !#[trigger] p(k)
}

/// The least index below `n` at which `p` holds. It means something only
/// where `p` holds somewhere below `n`.
pub open spec fn least(p: spec_fn(int) -> bool, n: int) -> int {
    choose|i: int| is_least(p, n, i)
}

/// There is at most one least index.
pub proof fn lemma_least_unique(p: spec_fn(int) -> bool, n: int, i: int)
    requires
        is_least(p, n, i),
    ensures
        least(p, n) == i,
{
    let j = least(p, n);
    assert(is_least(p, n, j));
    if j < i {
        assert(!p(j));
    } else if i < j {
        assert(!p(i));
    }
}

/// Where `p` holds at some index below `n`, it holds at a least one, and
/// that one is not beyond the index given.
pub proof fn lemma_least_exists(p: spec_fn(int) -> bool, n: int, i: int)
    requires
        0 <= i < n,
        p(i),
    ensures
        is_least(p, n, least(p, n)),
        least(p, n) <= i,
    decreases i,
{
    if forall|k: int| 0 <= k < i ==> !#[trigger] p(k) {
        assert(is_least(p, n, i));
    } else {
        let k = choose|k: int| 0 <= k < i && #[trigger] p(k);
        lemma_least_exists(p, n, k);
    }
    let j = least(p, n);
    if i < j {
        assert(!p(i));
    }
}

} // verus!
