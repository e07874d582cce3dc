//! First-match scans: the index of the first entry of a list that meets a
//! condition, with the entries' answers given as a sequence of flags.

use vstd::prelude::*;

verus! {

/// The index of the first `true` at or after `from`; the length where
/// there is none.
pub open spec fn first_true_from(flags: Seq<bool>, from: int) -> int
    decreases flags.len() - from,
{
    if from < 0 || from >= flags.len() {
        flags.len() as int
    } else if flags[from] {
        from
    } else {
        first_true_from(flags, from + 1)
    }
}

/// What `first_true_from` returns is in range, is `true` unless it is the
/// length, and nothing between `from` and it is `true`.
pub proof fn lemma_first_true(flags: Seq<bool>, from: int)
    requires
        0 <= from <= flags.len(),
    ensures
        from <= first_true_from(flags, from) <= flags.len(),
        first_true_from(flags, from) < flags.len() ==> flags[first_true_from(flags, from)],
        forall|k: int| from <= k < first_true_from(flags, from) ==> !flags[k],
    decreases flags.len() - from,
{
    if from < flags.len() && !flags[from] {
        lemma_first_true(flags, from + 1);
    }
}

/// Where every flag that is set in `low` is set in `high`, the first set
/// flag of `high` stands at or before that of `low`.
pub proof fn lemma_first_true_monotonic(low: Seq<bool>, high: Seq<bool>)
    requires
        low.len() == high.len(),
        forall|k: int| 0 <= k < low.len() && low[k] ==> high[k],
    ensures
        first_true_from(high, 0) <= first_true_from(low, 0),
{
    lemma_first_true(low, 0);
    lemma_first_true(high, 0);
}

} // verus!
