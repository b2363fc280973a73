//! Truncating signed division.
//!
//! Every ratio in the engine — the entry fee, the leverage multiplier, the
//! margin ratio in basis points and the liquidation reward — divides with
//! truncation toward zero, as machine integer division does.  In
//! specifications `/` is Euclidean division, which differs on a negative
//! dividend, so the contracts speak of `div_toward_zero` instead.

use vstd::prelude::*;

verus! {

/// Quotient of `a / b` rounded toward zero, for a positive divisor.
/// Agrees with Euclidean division whenever `a >= 0`.
pub open spec fn div_toward_zero(a: int, b: int) -> int {
    if a >= 0 {
        a / b
    } else {
        -((-a) / b)
    }
}

} // verus!
