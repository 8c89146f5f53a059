use vstd::prelude::*;

use crate::sums::{seq_sum, lemma_seq_sum_push};

verus! {

/// FLOPs of a matrix multiplication `(m × k) · (k × n)`: `2mkn`.
pub open spec fn matmul_flops(m: int, k: int, n: int) -> int {
    2 * m * k * n
}

/// FLOPs of a dot product of dimension `dim`: `2 · dim`.
pub open spec fn dot_flops(dim: int) -> int {
    2 * dim
}

/// FLOPs of inverting an `n × n` matrix: `⌊2n³/3⌋`, capped at `u64::MAX`.
pub open spec fn matrix_inverse_flops(n: int) -> int {
    let e = (2 * n * n * n) / 3;
    if e > u64::MAX { u64::MAX as int } else { e }
}

/// FLOPs of a Cholesky decomposition of an `n × n` matrix: `⌊n³/3⌋`, capped at `u64::MAX`.
pub open spec fn cholesky_flops(n: int) -> int {
    let e = (n * n * n) / 3;
    if e > u64::MAX { u64::MAX as int } else { e }
}

/// Counts floating-point operations for belief update computations.
///
/// Its model (`@`) is the per-update log, oldest first; the total is the sum
/// of that log and the update count is its length.
pub struct FlopCounter {
    total_flops: u64,
    update_count: u64,
    per_update: Vec<u64>,
}

impl View for FlopCounter {
    type V = Seq<u64>;

    closed spec fn view(&self) -> Seq<u64> {
        self.per_update@
    }
}

impl FlopCounter {
    /// The counter's invariant: the running total and count agree with the log.
    pub closed spec fn wf(&self) -> bool {
        &&& self.total_flops == seq_sum(self.per_update@)
        &&& self.update_count == self.per_update@.len()
    }

    /// An empty counter.
    pub fn new() -> (r: Self)
        ensures
            r.wf(),
            r@ == Seq::<u64>::empty(),
    {
        FlopCounter { total_flops: 0, update_count: 0, per_update: Vec::new() }
    }

    /// Records the FLOPs of one update step: the step is appended to the log.
    pub fn record(&mut self, flops: u64)
        requires
            old(self).wf(),
            seq_sum(old(self)@) + flops <= u64::MAX,
        ensures
            final(self).wf(),
            final(self)@ == old(self)@.push(flops),
            seq_sum(final(self)@) == seq_sum(old(self)@) + flops,
    {
        proof {
            lemma_seq_sum_push(self.per_update@, flops);
        }
        self.total_flops = self.total_flops + flops;
        self.per_update.push(flops);
        let len = self.per_update.len();
        assert(self.update_count + 1 == len);
        self.update_count = self.update_count + 1;
    }

    /// Records a matrix multiplication `(m × k) · (k × n)`, costing `2mkn` FLOPs.
    pub fn record_matmul(&mut self, m: usize, k: usize, n: usize)
        requires
            old(self).wf(),
            2 * m <= usize::MAX,
            2 * m * k <= usize::MAX,
            matmul_flops(m as int, k as int, n as int) <= usize::MAX,
            seq_sum(old(self)@) + matmul_flops(m as int, k as int, n as int) <= u64::MAX,
        ensures
            final(self).wf(),
            final(self)@ == old(self)@.push(matmul_flops(m as int, k as int, n as int) as u64),
            seq_sum(final(self)@) == seq_sum(old(self)@) + matmul_flops(m as int, k as int, n as int),
            final(self)@ == old(self)@.push((2 * m * k * n) as u64),
    {
        let flops = 2 * m * k * n;
        self.record(flops as u64);
    }

    /// Records a dot product of dimension `dim`, costing `2 · dim` FLOPs.
    pub fn record_dot(&mut self, dim: usize)
        requires
            old(self).wf(),
            dot_flops(dim as int) <= u64::MAX,
            seq_sum(old(self)@) + dot_flops(dim as int) <= u64::MAX,
        ensures
            final(self).wf(),
            final(self)@ == old(self)@.push(dot_flops(dim as int) as u64),
            seq_sum(final(self)@) == seq_sum(old(self)@) + dot_flops(dim as int),
            final(self)@ == old(self)@.push((2 * dim) as u64),
            seq_sum(final(self)@) == seq_sum(old(self)@) + 2 * dim,
    {
        self.record(2 * dim as u64);
    }

    /// Records the inversion of an `n × n` matrix, costing about `2n³/3` FLOPs.
    pub fn record_matrix_inverse(&mut self, n: usize)
        requires
            old(self).wf(),
            seq_sum(old(self)@) + matrix_inverse_flops(n as int) <= u64::MAX,
        ensures
            final(self).wf(),
            final(self)@ == old(self)@.push(matrix_inverse_flops(n as int) as u64),
            seq_sum(final(self)@) == seq_sum(old(self)@) + matrix_inverse_flops(n as int),
            final(self)@.len() == old(self)@.len() + 1,
            final(self)@.drop_last() == old(self)@,
            2 * n * n * n <= 3 * (u64::MAX as int) + 2 ==> 3 * final(self)@.last() <= 2 * n * n * n
                < 3 * final(self)@.last() + 3,
            2 * n * n * n > 3 * (u64::MAX as int) + 2 ==> final(self)@.last() == u64::MAX,
    {
        let flops = cubic_cost(n, 2);
        proof {
            law_matrix_inverse_cost(n as nat);
        }
        self.record(flops);
        assert(self@.drop_last() =~= old(self)@);
    }

    /// Records an `n`-dimensional gradient computation, costing `n` FLOPs.
    pub fn record_gradient(&mut self, n: usize)
        requires
            old(self).wf(),
            seq_sum(old(self)@) + n <= u64::MAX,
        ensures
            final(self).wf(),
            final(self)@ == old(self)@.push(n as u64),
            seq_sum(final(self)@) == seq_sum(old(self)@) + n,
    {
        self.record(n as u64);
    }

    /// Records a Cholesky decomposition of an `n × n` matrix, costing about `n³/3` FLOPs.
    pub fn record_cholesky(&mut self, n: usize)
        requires
            old(self).wf(),
            seq_sum(old(self)@) + cholesky_flops(n as int) <= u64::MAX,
        ensures
            final(self).wf(),
            final(self)@ == old(self)@.push(cholesky_flops(n as int) as u64),
            seq_sum(final(self)@) == seq_sum(old(self)@) + cholesky_flops(n as int),
            final(self)@.len() == old(self)@.len() + 1,
            final(self)@.drop_last() == old(self)@,
            n * n * n <= 3 * (u64::MAX as int) + 2 ==> 3 * final(self)@.last() <= n * n * n
                < 3 * final(self)@.last() + 3,
            n * n * n > 3 * (u64::MAX as int) + 2 ==> final(self)@.last() == u64::MAX,
    {
        let flops = cubic_cost(n, 1);
        proof {
            law_cholesky_cost(n as nat);
        }
        self.record(flops);
        assert(self@.drop_last() =~= old(self)@);
    }

    /// Total FLOPs recorded: the sum of the log.
    pub fn total_flops(&self) -> (r: u64)
        requires
            self.wf(),
        ensures
            r == seq_sum(self@),
    {
        self.total_flops
    }

    /// Number of updates recorded: the length of the log.
    pub fn update_count(&self) -> (r: u64)
        requires
            self.wf(),
        ensures
            r == self@.len(),
    {
        self.update_count
    }

    /// The per-update log, oldest first.
    pub fn per_update(&self) -> (r: &[u64])
        ensures
            r@ == self@,
    {
        self.per_update.as_slice()
    }
}

impl Default for FlopCounter {
    fn default() -> (r: Self)
        ensures
            r.wf(),
            r@ == Seq::<u64>::empty(),
    {
        Self::new()
    }
}

/// `⌊coeff · n³ / 3⌋`, capped at `u64::MAX`.
fn cubic_cost(n: usize, coeff: u128) -> (r: u64)
    requires
        coeff == 1 || coeff == 2,
    ensures
        r == ({
            let e = (coeff * n * n * n) / 3;
            if e > u64::MAX { u64::MAX as int } else { e }
        }),
{
    let big: u128 = 4_000_000;
    let x = n as u128;
    if x > big {
        assert(coeff * n * n * n > 3 * (u64::MAX as int)) by (nonlinear_arith)
            requires
                n > 4_000_000,
                coeff >= 1,
        ;
        u64::MAX
    } else {
        assert(x * x <= big * big) by (nonlinear_arith)
            requires
                x <= big,
        ;
        assert(x * x * x <= big * big * big) by (nonlinear_arith)
            requires
                x <= big,
                x * x <= big * big,
        ;
        assert(coeff * (x * x * x) == coeff * x * x * x) by (nonlinear_arith);
        let cube = x * x * x;
        let e = coeff * cube / 3;
        if e > u64::MAX as u128 {
            u64::MAX
        } else {
            e as u64
        }
    }
}

/// A matrix product `(m × k) · (k × n)` costs `2mkn` FLOPs, whatever the order
/// of the outer dimensions.
pub proof fn law_matmul_cost(m: nat, k: nat, n: nat)
    ensures
        matmul_flops(m as int, k as int, n as int) == 2 * m * k * n,
        matmul_flops(m as int, k as int, n as int) == matmul_flops(n as int, k as int, m as int),
{
    assert(2 * m * k * n == 2 * n * k * m) by (nonlinear_arith);
}

/// A dot product of dimension `d` costs `2d` FLOPs, so the cost grows with the
/// dimension and a larger dimension never costs less.
pub proof fn law_dot_cost(d: nat, e: nat)
    ensures
        dot_flops(d as int) == 2 * d,
        d <= e ==> dot_flops(d as int) <= dot_flops(e as int),
        dot_flops((d + e) as int) == dot_flops(d as int) + dot_flops(e as int),
{
}

/// Inverting an `n × n` matrix costs `⌊2n³/3⌋` FLOPs whenever that fits in a
/// `u64`: the cost `f` is the unique number with `3f ≤ 2n³ < 3f + 3`. Only
/// where the exact value overflows is the cost capped at `u64::MAX`.
pub proof fn law_matrix_inverse_cost(n: nat)
    ensures
        2 * n * n * n <= 3 * (u64::MAX as int) + 2 ==> {
            &&& 3 * matrix_inverse_flops(n as int) <= 2 * n * n * n
            &&& 2 * n * n * n < 3 * matrix_inverse_flops(n as int) + 3
        },
        2 * n * n * n > 3 * (u64::MAX as int) + 2 ==> matrix_inverse_flops(n as int) == u64::MAX,
{
    let x = 2 * n * n * n;
    assert(3 * (x / 3) <= x < 3 * (x / 3) + 3);
}

/// A Cholesky decomposition of an `n × n` matrix costs `⌊n³/3⌋` FLOPs whenever
/// that fits in a `u64`: the cost `f` satisfies `3f ≤ n³ < 3f + 3`. Only where
/// the exact value overflows is the cost capped at `u64::MAX`.
pub proof fn law_cholesky_cost(n: nat)
    ensures
        n * n * n <= 3 * (u64::MAX as int) + 2 ==> {
            &&& 3 * cholesky_flops(n as int) <= n * n * n
            &&& n * n * n < 3 * cholesky_flops(n as int) + 3
        },
        n * n * n > 3 * (u64::MAX as int) + 2 ==> cholesky_flops(n as int) == u64::MAX,
{
    let x = n * n * n;
    assert(3 * (x / 3) <= x < 3 * (x / 3) + 3);
}

/// The cubic costs never decrease as the matrix grows.
pub proof fn law_cubic_costs_monotone(a: nat, b: nat)
    requires
        a <= b,
    ensures
        matrix_inverse_flops(a as int) <= matrix_inverse_flops(b as int),
        cholesky_flops(a as int) <= cholesky_flops(b as int),
{
    assert(a * a * a <= b * b * b) by (nonlinear_arith)
        requires
            a <= b,
    ;
    let xa = a * a * a;
    let xb = b * b * b;
    assert(xa / 3 <= xb / 3) by (nonlinear_arith)
        requires
            xa <= xb,
            xa >= 0,
    ;
    assert((2 * xa) / 3 <= (2 * xb) / 3) by (nonlinear_arith)
        requires
            xa <= xb,
            xa >= 0,
    ;
    assert(2 * a * a * a == 2 * xa) by (nonlinear_arith)
        requires
            xa == a * a * a,
    ;
    assert(2 * b * b * b == 2 * xb) by (nonlinear_arith)
        requires
            xb == b * b * b,
    ;
}

/// The running total of a counter equals the sum of its per-update log, and
/// never falls below any single logged update.
pub proof fn law_total_is_sum_of_log(c: FlopCounter)
    requires
        c.wf(),
    ensures
        seq_sum(c@) <= u64::MAX,
        forall|i: int| 0 <= i < c@.len() ==> #[trigger] c@[i] <= seq_sum(c@),
{
    assert forall|i: int| 0 <= i < c@.len() implies #[trigger] c@[i] <= seq_sum(c@) by {
        crate::sums::lemma_seq_sum_bounds_entries(c@, i);
    }
}

} // verus!
