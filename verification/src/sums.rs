use vstd::prelude::*;

verus! {

/// The sum of a log of counts, added up from the front.
pub open spec fn seq_sum(s: Seq<u64>) -> int
    decreases s.len(),
{
    if s.len() == 0 {
        0
    } else {
        seq_sum(s.drop_last()) + s.last()
    }
}

/// Appending one count to a log adds exactly that count to its sum.
pub proof fn lemma_seq_sum_push(s: Seq<u64>, x: u64)
    ensures
        seq_sum(s.push(x)) == seq_sum(s) + x,
{
    assert(s.push(x).drop_last() =~= s);
}

/// A log's sum is never negative.
pub proof fn lemma_seq_sum_nonnegative(s: Seq<u64>)
    ensures
        seq_sum(s) >= 0,
    decreases s.len(),
{
    if s.len() > 0 {
        lemma_seq_sum_nonnegative(s.drop_last());
    }
}

/// Every entry of a log is bounded by the log's sum.
pub proof fn lemma_seq_sum_bounds_entries(s: Seq<u64>, i: int)
    requires
        0 <= i < s.len(),
    ensures
        s[i] <= seq_sum(s),
    decreases s.len(),
{
    lemma_seq_sum_nonnegative(s.drop_last());
    if i < s.len() - 1 {
        lemma_seq_sum_bounds_entries(s.drop_last(), i);
    }
}

} // verus!
