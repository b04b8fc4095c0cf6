//! Clearing engine for leveraged positions: margin and liquidation arithmetic,
//! a constant-product market maker, price aggregation and stake-weighted
//! governance, as state transitions over records that the caller owns.
//!
//! Every operation takes the records it works on and the caller-supplied
//! slot, changes the records or refuses with an [`errors::ErrorCode`] and
//! leaves them untouched, and hands back the amounts that the ledger has to
//! move. Transfers, mints and burns themselves are the ledger's.

pub mod amm;
pub mod assets;
pub mod bets;
pub mod errors;
pub mod governance;
pub mod heatmap;
pub mod keys;
pub mod market;
pub mod math;
pub mod oracle;
pub mod paths;
pub mod slot_pool;
pub mod spot;
pub mod token;
