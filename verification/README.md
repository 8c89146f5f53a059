# lau-landauer-meter

Counters for the compute side of thermodynamic learning costs, verified with Verus.

- `src/` — the verified library:
  - `flop_counter.rs`: `FlopCounter`, which logs the FLOPs of each belief update
    (matrix products `2mkn`, dot products `2d`, inversions `⌊2n³/3⌋`, Cholesky
    `⌊n³/3⌋`, gradients `n`) and keeps their total and count;
  - `bit_erasure.rs`: `BitErasureCounter`, which logs the bits erased per update;
  - `sums.rs`: the sum of a log, used by both contracts;
  - `fisher_rao.rs`: the `FisherRao` namespace type.
- `app/` — the floating-point measures (Landauer energies, Fisher-Rao distances,
  Varadhan costs, efficiencies, curvature, calibration, audit and monitor), the
  `nalgebra` matrix code and the `serde` forms of the counters.
- `tests/` — tests of the library.
