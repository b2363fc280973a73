//! Profit-and-loss engine: the current settlement value of an open position.

use vstd::prelude::*;
use crate::position::{open_position_ok, Position};

verus! {

/// How the reference price has moved relative to a position's entry price,
/// seen from the position's side.  Tagging the outcome keeps the long/short
/// symmetry in one place: the settlement below is a single computation over
/// this tag.
#[derive(Clone, Copy, Debug, PartialEq, Eq, Structural)]
pub enum PriceMove {
    /// The price moved in the position's favour by the given amount.
    Gain(i128),
    /// The price moved against the position by the given amount.
    Loss(i128),
    /// The price is exactly the entry price.
    Unchanged,
}

/// The price move of `p` at the given price: for a long, a rise is a gain
/// and a fall is a loss; for a short, mirrored.  The amount is always
/// positive.
pub open spec fn spec_price_move(p: Position, price: int) -> PriceMove {
    if price == p.open_price {
        PriceMove::Unchanged
    } else if (price > p.open_price) == p.long {
        PriceMove::Gain(if p.long {
            (price - p.open_price) as i128
        } else {
            (p.open_price - price) as i128
        })
    } else {
        PriceMove::Loss(if p.long {
            (p.open_price - price) as i128
        } else {
            (price - p.open_price) as i128
        })
    }
}

/// Leveraged worth of a price movement of size `amount`: the movement times
/// the leverage multiplier `leverage * value / open_price`, truncated.  The
/// order is load-bearing for rounding: the movement is multiplied by the
/// leveraged collateral first and the entry price divides the whole product
/// once, at the end.
pub open spec fn spec_leveraged_move(p: Position, amount: int, leverage: int) -> int {
    (amount * (leverage * p.value)) / (p.open_price as int)
}

/// Settlement value of `p` at the given price: the collateral plus the
/// leveraged gain, or minus the leveraged loss, with a full wipeout to zero
/// as soon as the loss times the leverage exceeds the collateral.
pub open spec fn spec_settle(p: Position, price: int, leverage: int) -> int {
    match spec_price_move(p, price) {
        PriceMove::Gain(gain) => p.value + spec_leveraged_move(p, gain as int, leverage),
        PriceMove::Loss(loss) => if loss * leverage > p.value {
            0
        } else {
            p.value - spec_leveraged_move(p, loss as int, leverage)
        },
        PriceMove::Unchanged => p.value as int,
    }
}

/// The intermediate products of a settlement stay within the machine-integer
/// range.  This is the machine limit under which `settle` is defined; the
/// mathematical formula itself has no such bound.
pub open spec fn settle_fits(p: Position, price: int, leverage: int) -> bool {
    &&& leverage * p.value <= i128::MAX
    &&& match spec_price_move(p, price) {
        PriceMove::Gain(gain) => gain * (leverage * p.value) <= i128::MAX && p.value
            + spec_leveraged_move(p, gain as int, leverage) <= i128::MAX,
        PriceMove::Loss(loss) => loss * leverage <= i128::MAX && (loss * leverage <= p.value
            ==> loss * (leverage * p.value) <= i128::MAX),
        PriceMove::Unchanged => true,
    }
}

/// Classify the price move of an open position.
pub fn price_move(p: &Position, price: i128) -> (m: PriceMove)
    requires
        p.open_price > 0,
        price > 0,
    ensures
        m == spec_price_move(*p, price as int),
{
    if price == p.open_price {
        PriceMove::Unchanged
    } else if (price > p.open_price) == p.long {
        PriceMove::Gain(if p.long {
            price - p.open_price
        } else {
            p.open_price - price
        })
    } else {
        PriceMove::Loss(if p.long {
            p.open_price - price
        } else {
            price - p.open_price
        })
    }
}

/// Compute the settlement value of an open position at the current
/// reference price.  Pure and deterministic; the exact formula, rounding
/// included, is `spec_settle`.
pub fn settle(p: &Position, price: i128, leverage: i128) -> (s: i128)
    requires
        open_position_ok(*p),
        price > 0,
        leverage >= 1,
        settle_fits(*p, price as int, leverage as int),
    ensures
        s == spec_settle(*p, price as int, leverage as int),
{
    let scaled: i128 = leverage * p.value;
    match price_move(p, price) {
        PriceMove::Gain(gain) => p.value + (gain * scaled) / p.open_price,
        PriceMove::Loss(loss) => {
            if loss * leverage > p.value {
                0
            } else {
                p.value - (loss * scaled) / p.open_price
            }
        },
        PriceMove::Unchanged => p.value,
    }
}

} // verus!
