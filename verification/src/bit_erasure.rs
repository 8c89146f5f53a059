use vstd::prelude::*;

use crate::sums::{seq_sum, lemma_seq_sum_push};

verus! {

/// Counts how many belief-state bits were erased by belief updates.
///
/// Its model (`@`) is the per-update log of erased bits, oldest first; the
/// total is the sum of that log.
pub struct BitErasureCounter {
    total_bits_erased: u64,
    per_update_bits: Vec<u64>,
}

impl View for BitErasureCounter {
    type V = Seq<u64>;

    closed spec fn view(&self) -> Seq<u64> {
        self.per_update_bits@
    }
}

impl BitErasureCounter {
    /// The counter's invariant: the running total agrees with the log.
    pub closed spec fn wf(&self) -> bool {
        self.total_bits_erased == seq_sum(self.per_update_bits@)
    }

    /// An empty counter.
    pub fn new() -> (r: Self)
        ensures
            r.wf(),
            r@ == Seq::<u64>::empty(),
    {
        BitErasureCounter { total_bits_erased: 0, per_update_bits: Vec::new() }
    }

    /// Records a bit erasure event: `bits` is appended to the log.
    pub fn record(&mut self, bits: u64)
        requires
            old(self).wf(),
            seq_sum(old(self)@) + bits <= u64::MAX,
        ensures
            final(self).wf(),
            final(self)@ == old(self)@.push(bits),
            seq_sum(final(self)@) == seq_sum(old(self)@) + bits,
    {
        proof {
            lemma_seq_sum_push(self.per_update_bits@, bits);
        }
        self.total_bits_erased = self.total_bits_erased + bits;
        self.per_update_bits.push(bits);
    }

    /// Total bits erased: the sum of the log.
    pub fn total_bits_erased(&self) -> (r: u64)
        requires
            self.wf(),
        ensures
            r == seq_sum(self@),
    {
        self.total_bits_erased
    }

    /// The per-update log of erased bits, oldest first.
    pub fn per_update_bits(&self) -> (r: &[u64])
        ensures
            r@ == self@,
    {
        self.per_update_bits.as_slice()
    }
}

impl Default for BitErasureCounter {
    fn default() -> (r: Self)
        ensures
            r.wf(),
            r@ == Seq::<u64>::empty(),
    {
        Self::new()
    }
}

/// The running total of erased bits equals the sum of the per-update log,
/// and never falls below any single logged update.
pub proof fn law_total_bits_is_sum_of_log(b: BitErasureCounter)
    requires
        b.wf(),
    ensures
        seq_sum(b@) <= u64::MAX,
        forall|i: int| 0 <= i < b@.len() ==> #[trigger] b@[i] <= seq_sum(b@),
{
    assert forall|i: int| 0 <= i < b@.len() implies #[trigger] b@[i] <= seq_sum(b@) by {
        crate::sums::lemma_seq_sum_bounds_entries(b@, i);
    }
}

} // verus!
