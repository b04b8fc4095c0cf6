//! The spot price table: one price per asset, written by its admin and read
//! by the bets.

use vstd::prelude::*;
use crate::assets::{same_asset, AssetType, PriceSource};
use crate::errors::ErrorCode;
use crate::keys::Pubkey;

verus! {

/// The price of one asset.
#[derive(Clone, Debug, PartialEq, Eq)]
pub struct AssetPrice {
    pub asset_symbol: String,
    pub asset_type: AssetType,
    pub price: u64,
    pub last_updated: u64,
    pub source: PriceSource,
    pub confidence: u64,
}

/// The table record: one entry per asset, in the order of first update.
#[derive(Clone, Debug, PartialEq, Eq)]
pub struct MultiAssetOracle {
    pub admin: Pubkey,
    pub asset_prices: Vec<AssetPrice>,
    pub updated_slot: u64,
    pub bump: u8,
}

impl AssetPrice {
    /// Whether this is the entry of the asset `symbol` of class `asset_type`.
    pub open spec fn is_for(&self, symbol: Seq<char>, asset_type: AssetType) -> bool {
        same_asset(self.asset_symbol@, self.asset_type, symbol, asset_type)
    }
}

/// `i` is the place of the first entry for the asset.
pub open spec fn is_first_price(
    prices: Seq<AssetPrice>,
    symbol: Seq<char>,
    asset_type: AssetType,
    i: int,
) -> bool {
    &&& 0 <= i < prices.len()
    &&& prices[i].is_for(symbol, asset_type)
    &&& forall|j: int| 0 <= j < i ==> !(#[trigger] prices[j]).is_for(symbol, asset_type)
}

/// The place of the first entry for the asset, if it has one.
pub open spec fn price_index(prices: Seq<AssetPrice>, symbol: Seq<char>, asset_type: AssetType) -> Option<
    int,
> {
    if exists|i: int| is_first_price(prices, symbol, asset_type, i) {
        Some(choose|i: int| is_first_price(prices, symbol, asset_type, i))
    } else {
        None
    }
}

/// The price that the table holds for the asset: that of its first entry.
pub open spec fn spot_price(prices: Seq<AssetPrice>, symbol: Seq<char>, asset_type: AssetType) -> Option<
    u64,
> {
    match price_index(prices, symbol, asset_type) {
        Some(i) => Some(prices[i].price),
        None => None,
    }
}

/// The table after the admin set the asset's price at `slot`: the asset's
/// first entry with the new price and slot, or a manual entry appended.
pub open spec fn prices_with(
    prices: Seq<AssetPrice>,
    asset_symbol: String,
    asset_type: AssetType,
    price: u64,
    slot: u64,
) -> Seq<AssetPrice> {
    match price_index(prices, asset_symbol@, asset_type) {
        Some(i) => prices.update(i, AssetPrice { price, last_updated: slot, ..prices[i] }),
        None => prices.push(
            AssetPrice {
                asset_symbol,
                asset_type,
                price,
                last_updated: slot,
                source: PriceSource::Manual,
                confidence: 0,
            },
        ),
    }
}

/// A place that holds the first entry for the asset is `price_index`.
pub proof fn lemma_first_price_is_index(
    prices: Seq<AssetPrice>,
    symbol: Seq<char>,
    asset_type: AssetType,
    i: int,
)
    requires
        is_first_price(prices, symbol, asset_type, i),
    ensures
        price_index(prices, symbol, asset_type) == Some(i),
{
    let k = choose|k: int| is_first_price(prices, symbol, asset_type, k);
    assert(is_first_price(prices, symbol, asset_type, k));
    if k < i {
        assert(!prices[k].is_for(symbol, asset_type));
    }
    if i < k {
        assert(!prices[i].is_for(symbol, asset_type));
    }
}

/// Finds the first entry for the asset.
pub fn find_asset_price(prices: &Vec<AssetPrice>, asset_symbol: &String, asset_type: AssetType) -> (found:
    Option<usize>)
    ensures
        found matches Some(i) ==> price_index(prices@, asset_symbol@, asset_type) == Some(i as int)
            && is_first_price(prices@, asset_symbol@, asset_type, i as int),
        found is None ==> price_index(prices@, asset_symbol@, asset_type) is None,
{
    let mut i: usize = 0;
    while i < prices.len()
        invariant
            i <= prices@.len(),
            forall|j: int| 0 <= j < i ==> !(#[trigger] prices@[j]).is_for(asset_symbol@, asset_type),
        decreases prices@.len() - i,
    {
        if prices[i].asset_symbol == *asset_symbol && prices[i].asset_type == asset_type {
            proof {
                lemma_first_price_is_index(prices@, asset_symbol@, asset_type, i as int);
            }
            return Some(i);
        }
        i += 1;
    }
    None
}

/// Reads the asset's price from the table.
pub fn current_price(oracle: &MultiAssetOracle, asset_symbol: &String, asset_type: AssetType) -> (price:
    Option<u64>)
    ensures
        price == spot_price(oracle.asset_prices@, asset_symbol@, asset_type),
{
    match find_asset_price(&oracle.asset_prices, asset_symbol, asset_type) {
        Some(i) => Some(oracle.asset_prices[i].price),
        None => None,
    }
}

/// Sets up an empty table for `admin`.
pub fn init_multi_asset_oracle(
    multi_oracle: &mut MultiAssetOracle,
    admin: Pubkey,
    bump: u8,
    current_slot: u64,
)
    ensures
        final(multi_oracle).admin == admin,
        final(multi_oracle).asset_prices@ == Seq::<AssetPrice>::empty(),
        final(multi_oracle).updated_slot == current_slot,
        final(multi_oracle).bump == bump,
{
    multi_oracle.admin = admin;
    multi_oracle.asset_prices = Vec::new();
    multi_oracle.updated_slot = current_slot;
    multi_oracle.bump = bump;
}

/// Sets the price of an asset. Only the table's admin may.
///
/// Refused with `Unauthorized`, the table unchanged, unless `admin` is the
/// table's admin. Otherwise the asset's first entry gets the price and the
/// slot; an asset without an entry gets a manual one, appended. The table's
/// own slot is set to `current_slot`.
pub fn update_asset_price(
    multi_oracle: &mut MultiAssetOracle,
    admin: &Pubkey,
    asset_symbol: String,
    asset_type: AssetType,
    price: u64,
    current_slot: u64,
) -> (result: Result<(), ErrorCode>)
    ensures
        old(multi_oracle).admin != *admin ==> result == Err::<(), ErrorCode>(
            ErrorCode::Unauthorized,
        ) && *final(multi_oracle) == *old(multi_oracle),
        old(multi_oracle).admin == *admin ==> {
            &&& result is Ok
            &&& final(multi_oracle).admin == old(multi_oracle).admin
            &&& final(multi_oracle).bump == old(multi_oracle).bump
            &&& final(multi_oracle).updated_slot == current_slot
            &&& final(multi_oracle).asset_prices@ == prices_with(
                old(multi_oracle).asset_prices@,
                asset_symbol,
                asset_type,
                price,
                current_slot,
            )
            &&& spot_price(final(multi_oracle).asset_prices@, asset_symbol@, asset_type) == Some(
                price,
            )
        },
{
    if multi_oracle.admin != *admin {
        return Err(ErrorCode::Unauthorized);
    }
    proof {
        lemma_price_is_read_back(
            multi_oracle.asset_prices@,
            asset_symbol,
            asset_type,
            price,
            current_slot,
        );
    }
    match find_asset_price(&multi_oracle.asset_prices, &asset_symbol, asset_type) {
        Some(i) => {
            multi_oracle.asset_prices[i].price = price;
            multi_oracle.asset_prices[i].last_updated = current_slot;
            assert(multi_oracle.asset_prices@ =~= prices_with(
                old(multi_oracle).asset_prices@,
                asset_symbol,
                asset_type,
                price,
                current_slot,
            ));
        },
        None => {
            multi_oracle.asset_prices.push(
                AssetPrice {
                    asset_symbol,
                    asset_type,
                    price,
                    last_updated: current_slot,
                    source: PriceSource::Manual,
                    confidence: 0,
                },
            );
        },
    }
    multi_oracle.updated_slot = current_slot;
    Ok(())
}

/// Where some entry is for the asset, a first one is.
proof fn lemma_some_price_has_first(
    prices: Seq<AssetPrice>,
    symbol: Seq<char>,
    asset_type: AssetType,
    j: int,
)
    requires
        0 <= j < prices.len(),
        prices[j].is_for(symbol, asset_type),
    ensures
        exists|i: int| is_first_price(prices, symbol, asset_type, i),
    decreases j,
{
    if exists|k: int| 0 <= k < j && prices[k].is_for(symbol, asset_type) {
        let k = choose|k: int| 0 <= k < j && prices[k].is_for(symbol, asset_type);
        lemma_some_price_has_first(prices, symbol, asset_type, k);
    } else {
        assert(is_first_price(prices, symbol, asset_type, j));
    }
}

/// A price that was set is the price that is read: after the admin set an
/// asset's price, the table holds that price for the asset.
pub proof fn lemma_price_is_read_back(
    prices: Seq<AssetPrice>,
    asset_symbol: String,
    asset_type: AssetType,
    price: u64,
    slot: u64,
)
    ensures
        spot_price(
            prices_with(prices, asset_symbol, asset_type, price, slot),
            asset_symbol@,
            asset_type,
        ) == Some(price),
{
    let after = prices_with(prices, asset_symbol, asset_type, price, slot);
    match price_index(prices, asset_symbol@, asset_type) {
        Some(i) => {
            assert(is_first_price(prices, asset_symbol@, asset_type, i));
            assert forall|j: int| 0 <= j < i implies !(#[trigger] after[j]).is_for(
                asset_symbol@,
                asset_type,
            ) by {
                assert(after[j] == prices[j]);
            }
            lemma_first_price_is_index(after, asset_symbol@, asset_type, i);
        },
        None => {
            let n = prices.len() as int;
            assert forall|j: int| 0 <= j < n implies !(#[trigger] after[j]).is_for(
                asset_symbol@,
                asset_type,
            ) by {
                assert(after[j] == prices[j]);
                if prices[j].is_for(asset_symbol@, asset_type) {
                    lemma_some_price_has_first(prices, asset_symbol@, asset_type, j);
                }
            }
            lemma_first_price_is_index(after, asset_symbol@, asset_type, n);
        },
    }
}

/// No two entries are for the same asset.
pub open spec fn prices_distinct(prices: Seq<AssetPrice>) -> bool {
    forall|i: int, j: int|
        0 <= i < j < prices.len() ==> !(#[trigger] prices[i]).is_for(
            (#[trigger] prices[j]).asset_symbol@,
            prices[j].asset_type,
        )
}

/// Setting a price keeps the table free of doubles: where no two entries
/// were for the same asset before, none are after.
pub proof fn lemma_update_keeps_prices_distinct(
    prices: Seq<AssetPrice>,
    asset_symbol: String,
    asset_type: AssetType,
    price: u64,
    slot: u64,
)
    requires
        prices_distinct(prices),
    ensures
        prices_distinct(prices_with(prices, asset_symbol, asset_type, price, slot)),
{
    if price_index(prices, asset_symbol@, asset_type) is None {
        assert forall|j: int| 0 <= j < prices.len() implies !(#[trigger] prices[j]).is_for(
            asset_symbol@,
            asset_type,
        ) by {
            if prices[j].is_for(asset_symbol@, asset_type) {
                lemma_some_price_has_first(prices, asset_symbol@, asset_type, j);
            }
        }
    }
}

} // verus!
