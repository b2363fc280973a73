//! Fee model: a charge on trades that increase the order-flow imbalance.

use vstd::prelude::*;
use crate::numeric::div_toward_zero;

verus! {

/// Divisor of the entry fee: one percent of the requested trade size.
pub const FEE_DIVISOR: i128 = 100;

/// Fee owed for a trade of size `value` on the given side: one percent of
/// the size (truncated toward zero) exactly when the chosen side already has
/// strictly greater aggregate notional than the opposite side, and zero in
/// every other case, a balanced market included.
pub open spec fn spec_fee(total_long: int, total_short: int, value: int, long: bool) -> int {
    if (long && total_long > total_short) || (!long && total_short > total_long) {
        div_toward_zero(value, FEE_DIVISOR as int)
    } else {
        0
    }
}

/// Compute the entry fee from the two aggregate notionals.  Reads its
/// inputs only; a trade on the side that would widen an existing imbalance
/// pays one percent of its size, every other trade pays nothing.
pub fn fee(total_long: i128, total_short: i128, value: i128, long: bool) -> (f: i128)
    ensures
        f == spec_fee(total_long as int, total_short as int, value as int, long),
{
    let mut f: i128 = 0;
    if total_long > total_short && long {
        f = value / FEE_DIVISOR;
    }
    if total_short > total_long && !long {
        f = value / FEE_DIVISOR;
    }
    f
}

} // verus!
