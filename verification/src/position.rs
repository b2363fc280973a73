//! A trader's single open leveraged exposure.

use vstd::prelude::*;

verus! {

/// One position: the collateral allocated to it (net of the entry fee), the
/// reference price at which it was opened, the price at which it was closed
/// (zero while it is still open) and its direction.
#[derive(Clone, Copy, Debug, PartialEq, Eq, Structural)]
pub struct Position {
    /// Collateral currently allocated, in the smallest unit of the
    /// settlement currency.  Positive while the position is open.
    pub value: i128,
    /// Reference price at the moment the position was opened.
    pub open_price: i128,
    /// Reference price at which the position was archived; zero while open.
    pub close_price: i128,
    /// Direction: `true` for long, `false` for short.
    pub long: bool,
}

/// Well-formedness of a position that is still open: positive collateral, a
/// positive entry price (so settlement never divides by zero) and no close
/// price recorded yet.
pub open spec fn open_position_ok(p: Position) -> bool {
    &&& p.value > 0
    &&& p.open_price > 0
    &&& p.close_price == 0
}

} // verus!
