//! How assets and price sources are named across the engines.

use vstd::prelude::*;

verus! {

/// Longest asset symbol, in bytes of its UTF-8 form.
pub const MAX_SYMBOL_BYTES: usize = 10;

/// Longest settlement offset, in days.
pub const MAX_SETTLEMENT_DAYS: u64 = 365;

/// The class of an asset.
#[derive(Clone, Copy, Debug, PartialEq, Eq, Structural)]
pub enum AssetType {
    Stock,
    Crypto,
    Bond,
    Commodity,
    Forex,
}

/// Where a price came from.
#[derive(Clone, Copy, Debug, PartialEq, Eq, Structural)]
pub enum PriceSource {
    Pyth,
    Switchboard,
    Chainlink,
    CoinGecko,
    TwelveData,
    Binance,
    Manual,
    Aggregated,
}

/// Length of a symbol as the engines measure it: the bytes of its UTF-8 form.
pub open spec fn symbol_bytes(symbol: Seq<char>) -> nat {
    vstd::utf8::encode_utf8(symbol).len()
}

/// Whether a symbol is short enough to name an asset.
pub open spec fn symbol_fits(symbol: Seq<char>) -> bool {
    symbol_bytes(symbol) <= MAX_SYMBOL_BYTES
}

/// Tests `symbol_fits`.
pub fn symbol_is_valid(symbol: &String) -> (valid: bool)
    ensures
        valid == symbol_fits(symbol@),
{
    symbol.as_str().as_bytes().len() <= MAX_SYMBOL_BYTES
}

/// Whether a table entry under `entry_symbol` and `entry_type` is the entry
/// for the asset `symbol` of class `asset_type`.
pub open spec fn same_asset(
    entry_symbol: Seq<char>,
    entry_type: AssetType,
    symbol: Seq<char>,
    asset_type: AssetType,
) -> bool {
    entry_symbol == symbol && entry_type == asset_type
}

} // verus!
