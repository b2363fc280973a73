//! Accounting core of a single-asset leveraged-position engine.
//!
//! Traders deposit collateral to open long or short exposure whose worth
//! tracks a reference price with a fixed leverage multiplier.  The library
//! holds the fee model, the profit-and-loss computation, the margin test and
//! the ledger bookkeeping for opening, closing and liquidating a position.
//! Host concerns — price-feed ingestion, caller authentication, token custody
//! and event emission — stay outside: callers hand in the current reference
//! price and receive the amounts that must be transferred.

pub mod errors;
pub mod fee;
pub mod ledger;
pub mod margin;
pub mod numeric;
pub mod pnl;
pub mod position;
pub mod sums;
