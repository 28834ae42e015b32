//! Finding the first element of a list that has some property.

use vstd::prelude::*;

verus! {

/// Index of the first `true` in `flags` at or after `from`; the length of
/// `flags` when there is none.
pub open spec fn first_true(flags: Seq<bool>, from: int) -> int
    decreases flags.len() - from,
{
    if from < 0 || from >= flags.len() {
        flags.len() as int
    } else if flags[from] {
        from
    } else {
        first_true(flags, from + 1)
    }
}

/// `first_true` is the one index that ends a run of `false`.
pub proof fn lemma_first_true(flags: Seq<bool>, from: int, at: int)
    requires
        0 <= from <= at <= flags.len(),
        forall|k: int| from <= k < at ==> !#[trigger] flags[k],
        at < flags.len() ==> flags[at],
    ensures
        first_true(flags, from) == at,
    decreases at - from,
{
    if from < at {
        lemma_first_true(flags, from + 1, at);
    }
}

/// What `first_true` returns, stated without recursion.
pub proof fn lemma_first_true_bounds(flags: Seq<bool>, from: int)
    requires
        0 <= from <= flags.len(),
    ensures
        from <= first_true(flags, from) <= flags.len(),
        forall|k: int| from <= k < first_true(flags, from) ==> !#[trigger] flags[k],
        first_true(flags, from) < flags.len() ==> flags[first_true(flags, from)],
    decreases flags.len() - from,
{
    if from < flags.len() && !flags[from] {
        lemma_first_true_bounds(flags, from + 1);
    }
}

} // verus!
