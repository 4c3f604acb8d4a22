//! Rejection sampling of points in the unit ball and the unit disk.

use vstd::prelude::*;
use crate::scalar::Scalar;

verus! {

/// Whether a candidate point is kept: it is exactly when the square of its
/// length is less than one. A candidate that is not kept is drawn again.
pub fn accepts(length_squared: Scalar) -> (keep: bool)
    ensures
        keep == length_squared.is_lt(Scalar::one()),
{
    length_squared.lt(Scalar::one())
}

} // verus!
