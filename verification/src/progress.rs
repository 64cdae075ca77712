//! The run's shared progress counter. It hands out display indices by
//! fetch-and-increment, starting at 1; over a run of `total` jobs the
//! indices handed out are exactly the integers 1 through `total`, each
//! once.

use vstd::prelude::*;

verus! {

/// A fetch-and-increment counter of display indices. The caller that
/// shares it across workers serialises the increments; each increment's
/// effect is stated here.
pub struct ProgressCounter {
    next: usize,
}

impl ProgressCounter {
    /// The index the next call to `fetch_next` will hand out.
    pub closed spec fn next_index(&self) -> int {
        self.next as int
    }

    /// A fresh counter; the first index handed out is 1.
    pub fn new() -> (r: ProgressCounter)
        ensures
            r.next_index() == 1,
    {
        ProgressCounter { next: 1 }
    }

    /// Fetch-and-increment: hands out the current index and steps to the
    /// next, so no two calls observe the same value.
    pub fn fetch_next(&mut self) -> (r: usize)
        requires
            old(self).next_index() < usize::MAX,
        ensures
            r == old(self).next_index(),
            final(self).next_index() == old(self).next_index() + 1,
    {
        let r = self.next;
        self.next = self.next + 1;
        r
    }
}

/// The indices a counter that starts at 1 hands out over `total`
/// increments: the `k`-th increment (counting from 0) observes `k + 1`.
pub open spec fn issued_indices(total: nat) -> Seq<int> {
    Seq::new(total, |k: int| k + 1)
}

/// Sampled across all jobs of a run, the progress counter takes each
/// integer in `1..=total` exactly once: the handed-out indices are
/// pairwise distinct, each lies in `1..=total`, and every value in that
/// range is hit.
pub proof fn lemma_indices_cover_run(total: nat)
    ensures
        issued_indices(total).len() == total,
        forall|i: int, j: int|
            0 <= i < j < total ==> issued_indices(total)[i] != issued_indices(total)[j],
        forall|i: int| 0 <= i < total ==> 1 <= #[trigger] issued_indices(total)[i] <= total,
        forall|v: int| 1 <= v <= total ==> issued_indices(total).contains(v),
{
    assert forall|v: int| 1 <= v <= total implies issued_indices(total).contains(v) by {
        assert(issued_indices(total)[v - 1] == v);
    }
}

} // verus!
