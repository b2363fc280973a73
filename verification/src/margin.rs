//! Margin engine: how much of the original collateral a position retains.

use vstd::prelude::*;
use crate::numeric::div_toward_zero;

verus! {

/// Scale of the margin ratio: basis points, units of one ten-thousandth.
pub const BASIS_POINTS: i128 = 10000;

/// Margin ratio of a position: its settlement value expressed in basis
/// points of the original collateral, truncated toward zero.
pub open spec fn spec_margin_ratio(settlement: int, value: int) -> int {
    div_toward_zero(settlement * (BASIS_POINTS as int), value)
}

/// Compute the margin ratio.  A position may be liquidated exactly when
/// this ratio is strictly below the configured margin requirement.
pub fn margin_ratio(settlement: i128, value: i128) -> (m: i128)
    requires
        value > 0,
        i128::MIN <= settlement * (BASIS_POINTS as int),
        settlement * (BASIS_POINTS as int) <= i128::MAX,
    ensures
        m == spec_margin_ratio(settlement as int, value as int),
{
    (settlement * BASIS_POINTS) / value
}

} // verus!
