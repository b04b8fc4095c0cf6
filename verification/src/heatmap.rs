//! The spread heatmap: a fixed table of bid and ask prices, of which a crank
//! refreshes the first entry from the oracle and the market.

use vstd::prelude::*;
use crate::market::{Market, OracleMock};

verus! {

/// Entries of the heatmap.
pub const HEATMAP_ENTRIES: usize = 100;

/// One point of the heatmap.
#[derive(Clone, Copy, Debug, PartialEq, Eq)]
pub struct SpreadEntry {
    pub bid: u64,
    pub ask: u64,
}

/// The heatmap record.
#[derive(Clone, Copy, Debug, PartialEq, Eq)]
pub struct SpreadHeatmap {
    pub spreads: [SpreadEntry; 100],
    pub bump: u8,
}

/// Clears the heatmap: every entry gets a bid and an ask of zero.
pub fn init_heatmap(heatmap: &mut SpreadHeatmap, bump: u8)
    ensures
        forall|i: int|
            0 <= i < HEATMAP_ENTRIES ==> final(heatmap).spreads@[i] == (SpreadEntry {
                bid: 0,
                ask: 0,
            }),
        final(heatmap).bump == bump,
{
    heatmap.spreads = [SpreadEntry { bid: 0, ask: 0 };100];
    heatmap.bump = bump;
}

/// Writes the current spread to the heatmap's first entry: the oracle's
/// price as bid, the market's settlement price as ask. The other entries
/// stay.
pub fn crank_heatmap(heatmap: &mut SpreadHeatmap, market: &Market, oracle: &OracleMock)
    ensures
        final(heatmap).spreads@ == old(heatmap).spreads@.update(
            0,
            SpreadEntry { bid: oracle.price, ask: market.t2_price },
        ),
        final(heatmap).bump == old(heatmap).bump,
{
    heatmap.spreads[0] = SpreadEntry { bid: oracle.price, ask: market.t2_price };
}

} // verus!
