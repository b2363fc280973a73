//! Failure codes surfaced by the trade lifecycle.

use vstd::prelude::*;

verus! {

/// Discriminated failure code of an `open`, `close` or `liquidate` request.
/// Every failure aborts the whole operation: the ledger is left unchanged
/// and no transfer is owed.
#[derive(Clone, Copy, Debug, PartialEq, Eq, Structural)]
pub enum ContractError {
    /// A trade was requested by a trader who already has an open position.
    PositionOpen,
    /// Close or liquidate targeted a trader with no stored position.
    PositionNotOpen,
    /// A trade was requested with a non-positive collateral size.
    ZeroValue,
    /// Liquidation targeted a position whose margin ratio is not below the
    /// configured requirement.
    AboveMargin,
}

} // verus!
