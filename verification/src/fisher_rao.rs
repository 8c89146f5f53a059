use vstd::prelude::*;

verus! {

/// Namespace for Fisher-Rao distances on statistical manifolds.
///
/// The distances themselves are computed in floating point, which this
/// library does not hold; the type carries no state.
pub struct FisherRao;

} // verus!
