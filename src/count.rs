//! Counting the positions of a sequence that satisfy a predicate.

use vstd::prelude::*;

verus! {

/// How many of the first `n` positions are marked.
pub open spec fn count_marked(marks: spec_fn(int) -> bool, n: int) -> nat
    decreases n,
{
    if n <= 0 {
        0
    } else {
        count_marked(marks, n - 1) + if marks(n - 1) {
            1nat
        } else {
            0nat
        }
    }
}

/// Counting is monotonic, and a marked position is counted before the ones after it.
pub proof fn lemma_count_monotonic(marks: spec_fn(int) -> bool, i: int, j: int)
    requires
        0 <= i <= j,
    ensures
        count_marked(marks, i) <= count_marked(marks, j),
        i < j && marks(i) ==> count_marked(marks, i) < count_marked(marks, j),
    decreases j - i,
{
    if i < j {
        lemma_count_monotonic(marks, i, j - 1);
        if marks(i) && i == j - 1 {
            assert(count_marked(marks, j) == count_marked(marks, i) + 1);
        }
    }
}

/// Counts of two markings that agree are equal.
pub proof fn lemma_count_agree(a: spec_fn(int) -> bool, b: spec_fn(int) -> bool, n: int)
    requires
        forall|i: int| 0 <= i < n ==> #[trigger] a(i) == b(i),
    ensures
        count_marked(a, n) == count_marked(b, n),
    decreases n,
{
    if n > 0 {
        lemma_count_agree(a, b, n - 1);
    }
}

} // verus!
