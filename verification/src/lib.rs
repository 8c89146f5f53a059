//! Bookkeeping for the compute side of thermodynamic learning costs.
//!
//! The library counts floating-point operations spent on belief updates
//! ([`FlopCounter`]) and the bits of belief state erased by them
//! ([`BitErasureCounter`]). Each counter keeps a running total together with
//! the per-update log it was built from; the contracts state the total as the
//! sum of that log.

pub mod sums;
pub mod flop_counter;
pub mod bit_erasure;
pub mod fisher_rao;

pub use flop_counter::FlopCounter;
pub use bit_erasure::BitErasureCounter;
pub use fisher_rao::FisherRao;
