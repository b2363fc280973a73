//! The position ledger and the trade lifecycle.
//!
//! `PerpContract` owns the whole mutable state of the engine: the open
//! positions (one per trader, keyed by the trader's identity), the two
//! aggregate notional counters, the append-only history of archived trades
//! and the configuration chosen at initialization.  The three lifecycle
//! operations — open, close, liquidate — either complete their bookkeeping
//! whole or fail with an error code and leave the state untouched.
//!
//! External collaborators stay with the host: the caller authenticates the
//! principal, reads the reference price from its oracle, hands the price in
//! as a plain value, and performs the token transfers these methods report
//! (the collected collateral on open, the settlement on close, the reward on
//! liquidation).

use vstd::prelude::*;
use crate::errors::ContractError;
use crate::fee::{fee, spec_fee};
use crate::margin::{margin_ratio, spec_margin_ratio, BASIS_POINTS};
use crate::numeric::div_toward_zero;
use crate::pnl::{settle, settle_fits, spec_settle};
use crate::position::{open_position_ok, Position};
use crate::sums::{
    has_key, index_of, keys_unique, lemma_found_index, lemma_index_of_in_range, lemma_remove_key,
    lemma_side_sum_member_bound, lemma_side_sum_nonneg, lemma_side_sum_push,
    lemma_side_sum_remove, position_of, side_sum, Entry,
};

verus! {

/// Margin requirement a fresh ledger starts with, in basis points.
pub const DEFAULT_MARGIN_REQUIREMENT: i128 = 300;

/// Divisor of the liquidation reward: the liquidator is paid a third of the
/// settlement value, truncated.
pub const LIQUIDATION_REWARD_DIVISOR: i128 = 3;

/// The single ledger of the engine: configuration, open positions,
/// aggregate notionals and the archive of finished trades.
#[derive(Clone)]
pub struct PerpContract {
    /// Identifier of the traded asset.
    pub asset: String,
    /// Fixed leverage multiplier applied uniformly to every position.
    pub leverage: i128,
    /// Identity of the settlement-currency ledger the host transfers on.
    pub p_usd: u64,
    /// Identity of the trusted price oracle.
    pub oracle: u64,
    /// Liquidation threshold in basis points of original collateral.
    pub margin_requirement: i128,
    /// Sum of `value` over all open long positions.
    pub total_long: i128,
    /// Sum of `value` over all open short positions.
    pub total_short: i128,
    /// The open positions, one entry per trader, keys unique.
    pub positions: Vec<Entry>,
    /// Append-only archive of closed and liquidated positions, in call
    /// order, each carrying its final close price.
    pub history: Vec<Position>,
}

impl PerpContract {
    /// Structural invariant: trader keys are distinct, every stored
    /// position is a well-formed open position, each aggregate counter
    /// equals the sum of collateral on its side, and the leverage is a
    /// positive multiplier.
    pub open spec fn wf(self) -> bool {
        &&& keys_unique(self.positions@)
        &&& forall|i: int|
            0 <= i < self.positions@.len() ==> open_position_ok(
                (#[trigger] self.positions@[i]).1,
            )
        &&& self.total_long == side_sum(self.positions@, true)
        &&& self.total_short == side_sum(self.positions@, false)
        &&& self.leverage >= 1
    }

    /// The configuration chosen at initialization, which no lifecycle
    /// operation touches.
    pub open spec fn same_config(self, other: Self) -> bool {
        &&& other.asset == self.asset
        &&& other.leverage == self.leverage
        &&& other.p_usd == self.p_usd
        &&& other.oracle == self.oracle
        &&& other.margin_requirement == self.margin_requirement
    }

    /// Collateral a trade of size `value` keeps after the entry fee charged
    /// against the current aggregates.
    pub open spec fn spec_net_of_fee(self, value: int, long: bool) -> int {
        value - spec_fee(self.total_long as int, self.total_short as int, value, long)
    }

    /// The position a successful open stores: the size net of the entry
    /// fee, the current reference price as entry price, no close price.
    pub open spec fn spec_opened(self, value: int, long: bool, price: int) -> Position {
        Position {
            value: self.spec_net_of_fee(value, long) as i128,
            open_price: price as i128,
            close_price: 0,
            long,
        }
    }

    /// Create a ledger: the given configuration, the default margin
    /// requirement, no open positions, zero aggregates, empty history.
    pub fn initialize(asset: String, leverage: i128, p_usd: u64, oracle: u64) -> (c: Self)
        requires
            leverage >= 1,
        ensures
            c.asset == asset,
            c.leverage == leverage,
            c.p_usd == p_usd,
            c.oracle == oracle,
            c.margin_requirement == DEFAULT_MARGIN_REQUIREMENT,
            c.total_long == 0,
            c.total_short == 0,
            c.positions@.len() == 0,
            c.history@.len() == 0,
            c.wf(),
    {
        PerpContract {
            asset,
            leverage,
            p_usd,
            oracle,
            margin_requirement: DEFAULT_MARGIN_REQUIREMENT,
            total_long: 0,
            total_short: 0,
            positions: Vec::new(),
            history: Vec::new(),
        }
    }

    /// Index of the entry stored under `trader`, if any.
    fn find(&self, trader: u64) -> (r: Option<usize>)
        requires
            keys_unique(self.positions@),
        ensures
            match r {
                Some(i) => {
                    &&& i < self.positions@.len()
                    &&& self.positions@[i as int].0 == trader
                    &&& has_key(self.positions@, trader)
                    &&& index_of(self.positions@, trader) == i as int
                },
                None => !has_key(self.positions@, trader),
            },
    {
        let n: usize = self.positions.len();
        let mut i: usize = 0;
        while i < n
            invariant
                n == self.positions@.len(),
                i <= n,
                keys_unique(self.positions@),
                forall|j: int| 0 <= j < i ==> (#[trigger] self.positions@[j]).0 != trader,
            decreases n - i,
        {
            if self.positions[i].0 == trader {
                proof {
                    lemma_found_index(self.positions@, trader, i as int);
                }
                return Some(i);
            }
            i = i + 1;
        }
        None
    }

    /// The position currently stored under `user`, if any.
    pub fn get_position(&self, user: u64) -> (r: Option<Position>)
        requires
            self.wf(),
        ensures
            r == if has_key(self.positions@, user) {
                Some(position_of(self.positions@, user))
            } else {
                None::<Position>
            },
    {
        match self.find(user) {
            Some(i) => Some(self.positions[i].1),
            None => None,
        }
    }

    /// Entry fee for a trade of size `value` on the given side, judged
    /// against the current aggregate notionals: one percent of the size if
    /// the trade widens an existing imbalance, zero otherwise.
    pub fn calculate_fee(&self, value: i128, long: bool) -> (f: i128)
        ensures
            f == spec_fee(self.total_long as int, self.total_short as int, value as int, long),
    {
        fee(self.total_long, self.total_short, value, long)
    }

    /// Settlement value of the position stored under `user` at the current
    /// reference price, and zero for an untracked trader.
    pub fn calculate_position(&self, user: u64, price: i128) -> (r: i128)
        requires
            self.wf(),
            price > 0,
            has_key(self.positions@, user) ==> settle_fits(
                position_of(self.positions@, user),
                price as int,
                self.leverage as int,
            ),
        ensures
            r == if has_key(self.positions@, user) {
                spec_settle(position_of(self.positions@, user), price as int, self.leverage as int)
            } else {
                0
            },
    {
        let i: usize = match self.find(user) {
            Some(i) => i,
            None => {
                return 0;
            },
        };
        settle(&self.positions[i].1, price, self.leverage)
    }

    /// Open a position: charge the entry fee, add the remaining collateral
    /// to the chosen side's aggregate, and store the position under
    /// `trader` at the current reference price.  Fails with `ZeroValue` on
    /// a non-positive size and with `PositionOpen` when the trader already
    /// has a position; a failed request changes nothing.  The host collects
    /// `value` of collateral from the trader before the state may persist.
    pub fn place_trade(&mut self, trader: u64, value: i128, long: bool, price: i128) -> (r: Result<
        (),
        ContractError,
    >)
        requires
            old(self).wf(),
            price > 0,
            value > 0 && long ==> old(self).total_long + value <= i128::MAX,
            value > 0 && !long ==> old(self).total_short + value <= i128::MAX,
        ensures
            final(self).wf(),
            old(self).same_config(*final(self)),
            value <= 0 ==> r == Err::<(), ContractError>(ContractError::ZeroValue) && *final(self)
                == *old(self),
            value > 0 && has_key(old(self).positions@, trader) ==> r == Err::<(), ContractError>(
                ContractError::PositionOpen,
            ) && *final(self) == *old(self),
            value > 0 && !has_key(old(self).positions@, trader) ==> {
                &&& r is Ok
                &&& final(self).positions@ == old(self).positions@.push(
                    (trader, old(self).spec_opened(value as int, long, price as int)),
                )
                &&& final(self).total_long == old(self).total_long + if long {
                    old(self).spec_net_of_fee(value as int, long)
                } else {
                    0
                }
                &&& final(self).total_short == old(self).total_short + if long {
                    0
                } else {
                    old(self).spec_net_of_fee(value as int, long)
                }
                &&& final(self).history@ == old(self).history@
            },
    {
        if value <= 0 {
            return Err(ContractError::ZeroValue);
        }
        if self.find(trader).is_some() {
            return Err(ContractError::PositionOpen);
        }
        let f: i128 = fee(self.total_long, self.total_short, value, long);
        let remaining: i128 = value - f;
        if long {
            self.total_long = self.total_long + remaining;
        } else {
            self.total_short = self.total_short + remaining;
        }
        let position = Position { value: remaining, open_price: price, close_price: 0, long };
        proof {
            lemma_side_sum_push(self.positions@, (trader, position), true);
            lemma_side_sum_push(self.positions@, (trader, position), false);
        }
        self.positions.push((trader, position));
        Ok(())
    }

    /// Close the position stored under `trader`: archive it with the
    /// current price, subtract its original collateral from its side's
    /// aggregate, remove it, and return the settlement value the host owes
    /// the trader.  Fails with `PositionNotOpen`, changing nothing, when no
    /// position is stored.
    pub fn close_trade(&mut self, trader: u64, price: i128) -> (r: Result<i128, ContractError>)
        requires
            old(self).wf(),
            price > 0,
            has_key(old(self).positions@, trader) ==> settle_fits(
                position_of(old(self).positions@, trader),
                price as int,
                old(self).leverage as int,
            ),
        ensures
            final(self).wf(),
            old(self).same_config(*final(self)),
            !has_key(old(self).positions@, trader) ==> r == Err::<i128, ContractError>(
                ContractError::PositionNotOpen,
            ) && *final(self) == *old(self),
            has_key(old(self).positions@, trader) ==> {
                let p = position_of(old(self).positions@, trader);
                let s = spec_settle(p, price as int, old(self).leverage as int);
                &&& r == Ok::<i128, ContractError>(s as i128)
                &&& final(self).positions@ == old(self).positions@.remove(
                    index_of(old(self).positions@, trader),
                )
                &&& !has_key(final(self).positions@, trader)
                &&& final(self).history@ == old(self).history@.push(
                    (Position { close_price: price, ..p }),
                )
                &&& final(self).total_long == old(self).total_long - if p.long {
                    p.value as int
                } else {
                    0
                }
                &&& final(self).total_short == old(self).total_short - if p.long {
                    0
                } else {
                    p.value as int
                }
                &&& final(self).total_long + final(self).total_short == old(self).total_long
                    + old(self).total_short - p.value
            },
    {
        let idx: usize = match self.find(trader) {
            Some(i) => i,
            None => {
                return Err(ContractError::PositionNotOpen);
            },
        };
        let position: Position = self.positions[idx].1;
        let ret_bal: i128 = self.calculate_position(trader, price);
        let mut closed: Position = position;
        closed.close_price = price;
        self.history.push(closed);
        proof {
            lemma_side_sum_member_bound(self.positions@, trader);
            lemma_side_sum_remove(self.positions@, idx as int, true);
            lemma_side_sum_remove(self.positions@, idx as int, false);
            lemma_remove_key(self.positions@, idx as int);
            lemma_side_sum_nonneg(self.positions@.remove(idx as int), true);
            lemma_side_sum_nonneg(self.positions@.remove(idx as int), false);
        }
        if position.long {
            self.total_long = self.total_long - position.value;
        } else {
            self.total_short = self.total_short - position.value;
        }
        self.positions.remove(idx);
        Ok(ret_bal)
    }

    /// Liquidate an under-collateralized position: when the margin ratio of
    /// the position stored under `user` is strictly below the requirement,
    /// perform the same bookkeeping as a close and return the reward — a
    /// third of the settlement value — that the host pays the liquidator
    /// when it is positive; the rest of the settlement stays with the
    /// system.  Fails with `PositionNotOpen` when no position is stored and
    /// with `AboveMargin` when the position is adequately collateralized;
    /// a failed request changes nothing.
    pub fn liquidate_position(&mut self, liquidator: u64, user: u64, price: i128) -> (r: Result<
        i128,
        ContractError,
    >)
        requires
            old(self).wf(),
            price > 0,
            has_key(old(self).positions@, user) ==> settle_fits(
                position_of(old(self).positions@, user),
                price as int,
                old(self).leverage as int,
            ),
            has_key(old(self).positions@, user) ==> {
                let s = spec_settle(
                    position_of(old(self).positions@, user),
                    price as int,
                    old(self).leverage as int,
                );
                i128::MIN <= s * (BASIS_POINTS as int) <= i128::MAX
            },
        ensures
            final(self).wf(),
            old(self).same_config(*final(self)),
            !has_key(old(self).positions@, user) ==> r == Err::<i128, ContractError>(
                ContractError::PositionNotOpen,
            ) && *final(self) == *old(self),
            has_key(old(self).positions@, user) ==> {
                let p = position_of(old(self).positions@, user);
                let s = spec_settle(p, price as int, old(self).leverage as int);
                let m = spec_margin_ratio(s, p.value as int);
                &&& m >= old(self).margin_requirement ==> r == Err::<i128, ContractError>(
                    ContractError::AboveMargin,
                ) && *final(self) == *old(self)
                &&& m < old(self).margin_requirement ==> {
                    &&& r == Ok::<i128, ContractError>(
                        div_toward_zero(s, LIQUIDATION_REWARD_DIVISOR as int) as i128,
                    )
                    &&& final(self).positions@ == old(self).positions@.remove(
                        index_of(old(self).positions@, user),
                    )
                    &&& !has_key(final(self).positions@, user)
                    &&& final(self).history@ == old(self).history@.push(
                        (Position { close_price: price, ..p }),
                    )
                    &&& final(self).total_long == old(self).total_long - if p.long {
                        p.value as int
                    } else {
                        0
                    }
                    &&& final(self).total_short == old(self).total_short - if p.long {
                        0
                    } else {
                        p.value as int
                    }
                    &&& final(self).total_long + final(self).total_short == old(self).total_long
                        + old(self).total_short - p.value
                }
            },
    {
        let idx: usize = match self.find(user) {
            Some(i) => i,
            None => {
                return Err(ContractError::PositionNotOpen);
            },
        };
        let position: Position = self.positions[idx].1;
        let ret_bal: i128 = self.calculate_position(user, price);
        let margin: i128 = margin_ratio(ret_bal, position.value);
        if margin >= self.margin_requirement {
            return Err(ContractError::AboveMargin);
        }
        let mut closed: Position = position;
        closed.close_price = price;
        self.history.push(closed);
        proof {
            lemma_side_sum_member_bound(self.positions@, user);
            lemma_side_sum_remove(self.positions@, idx as int, true);
            lemma_side_sum_remove(self.positions@, idx as int, false);
            lemma_remove_key(self.positions@, idx as int);
            lemma_side_sum_nonneg(self.positions@.remove(idx as int), true);
            lemma_side_sum_nonneg(self.positions@.remove(idx as int), false);
        }
        if position.long {
            self.total_long = self.total_long - position.value;
        } else {
            self.total_short = self.total_short - position.value;
        }
        self.positions.remove(idx);
        let reward: i128 = ret_bal / LIQUIDATION_REWARD_DIVISOR;
        Ok(reward)
    }
}

} // verus!
