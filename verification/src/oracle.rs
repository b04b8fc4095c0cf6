//! Price aggregation: per asset, the latest price of each of three sources
//! and their median; and the conversion of an exponent-scaled price to
//! micro-units.

use vstd::prelude::*;
use vstd::arithmetic::power::{lemma_pow_increases, pow};
use crate::assets::{same_asset, AssetType, PriceSource};
use crate::errors::ErrorCode;
use crate::keys::Pubkey;
use crate::math::lemma_product_fits;

verus! {

/// Slots between two updates that a fresh aggregator asks for.
pub const DEFAULT_UPDATE_FREQUENCY: u64 = 400;

/// Deviation threshold of a fresh aggregator, in basis points.
pub const DEFAULT_DEVIATION_THRESHOLD_BPS: u16 = 500;

/// Decimal places of a micro-unit price.
pub const PRICE_DECIMALS: i32 = 6;

/// The prices of one asset, by source. A source price of zero stands for
/// "no observation".
#[derive(Clone, Debug, PartialEq, Eq)]
pub struct PriceFeed {
    pub asset_symbol: String,
    pub asset_type: AssetType,
    pub pyth_price: u64,
    pub switchboard_price: u64,
    pub external_price: u64,
    /// Median of the sources that have an observation.
    pub aggregated_price: u64,
    pub last_updated: u64,
    pub is_stale: bool,
}

/// The aggregator record: one feed per asset, in the order of first update.
#[derive(Clone, Debug, PartialEq, Eq)]
pub struct OracleAggregator {
    pub admin: Pubkey,
    pub enabled_sources: Vec<PriceSource>,
    pub price_feeds: Vec<PriceFeed>,
    pub update_frequency: u64,
    pub last_crank_slot: u64,
    pub deviation_threshold: u16,
    pub bump: u8,
}

/// The smallest of three prices.
pub open spec fn smallest_of_three(a: u64, b: u64, c: u64) -> u64 {
    if a <= b && a <= c {
        a
    } else if b <= c {
        b
    } else {
        c
    }
}

/// The largest of three prices.
pub open spec fn largest_of_three(a: u64, b: u64, c: u64) -> u64 {
    if a >= b && a >= c {
        a
    } else if b >= c {
        b
    } else {
        c
    }
}

/// The middle of three prices: what is left when the smallest and the largest
/// are taken away.
pub open spec fn middle_of_three(a: u64, b: u64, c: u64) -> int {
    a + b + c - smallest_of_three(a, b, c) - largest_of_three(a, b, c)
}

/// The mean of two prices, rounded down.
pub open spec fn mean_of_two(a: u64, b: u64) -> int {
    (a + b) / 2
}

/// The median of the sources that have an observation: with one, its price;
/// with two, their mean rounded down; with three, the middle one; with none,
/// zero.
pub open spec fn aggregated_price(pyth_price: u64, switchboard_price: u64, external_price: u64) -> int {
    if pyth_price > 0 && switchboard_price > 0 && external_price > 0 {
        middle_of_three(pyth_price, switchboard_price, external_price)
    } else if pyth_price > 0 && switchboard_price > 0 {
        mean_of_two(pyth_price, switchboard_price)
    } else if pyth_price > 0 && external_price > 0 {
        mean_of_two(pyth_price, external_price)
    } else if switchboard_price > 0 && external_price > 0 {
        mean_of_two(switchboard_price, external_price)
    } else if pyth_price > 0 {
        pyth_price as int
    } else if switchboard_price > 0 {
        switchboard_price as int
    } else {
        external_price as int
    }
}

/// The middle of three prices is one of them, at least two of them are at
/// most it and at least two are at least it.
pub proof fn lemma_middle_is_median(a: u64, b: u64, c: u64)
    ensures
        ({
            let m = middle_of_three(a, b, c);
            &&& (m == a || m == b || m == c)
            &&& (a <= m && b <= m) || (a <= m && c <= m) || (b <= m && c <= m)
            &&& (a >= m && b >= m) || (a >= m && c >= m) || (b >= m && c >= m)
        }),
{
}

/// A source without an observation has no part in the aggregate, whichever
/// source it is: one observation alone is the aggregate, and two give their
/// mean, which lies between them.
pub proof fn lemma_aggregate_ignores_missing(a: u64, b: u64)
    ensures
        aggregated_price(a, b, 0) == aggregated_price(a, 0, b),
        aggregated_price(a, b, 0) == aggregated_price(0, a, b),
        aggregated_price(a, 0, 0) == a,
        aggregated_price(0, a, 0) == a,
        aggregated_price(0, 0, a) == a,
        a > 0 && b > 0 ==> aggregated_price(a, b, 0) == mean_of_two(a, b),
        a <= b ==> a <= mean_of_two(a, b) <= b,
{
}

/// Computes the aggregated price of three source prices.
pub fn calculate_aggregated_price(
    pyth_price: u64,
    switchboard_price: u64,
    external_price: u64,
) -> (price: u64)
    ensures
        price == aggregated_price(pyth_price, switchboard_price, external_price),
{
    if pyth_price > 0 && switchboard_price > 0 && external_price > 0 {
        let (low, high) = if pyth_price <= switchboard_price {
            (pyth_price, switchboard_price)
        } else {
            (switchboard_price, pyth_price)
        };
        if external_price <= low {
            low
        } else if external_price >= high {
            high
        } else {
            external_price
        }
    } else if pyth_price > 0 && switchboard_price > 0 {
        mean(pyth_price, switchboard_price)
    } else if pyth_price > 0 && external_price > 0 {
        mean(pyth_price, external_price)
    } else if switchboard_price > 0 && external_price > 0 {
        mean(switchboard_price, external_price)
    } else if pyth_price > 0 {
        pyth_price
    } else if switchboard_price > 0 {
        switchboard_price
    } else {
        external_price
    }
}

/// The mean of two prices, rounded down, the sum taken in 128 bits.
fn mean(a: u64, b: u64) -> (m: u64)
    ensures
        m == mean_of_two(a, b),
{
    ((a as u128 + b as u128) / 2) as u64
}

/// A signed 64-bit price read as unsigned: a negative price stands for the
/// number with the same 64 bits.
pub open spec fn unsigned_price(price: i64) -> int {
    if price >= 0 {
        price as int
    } else {
        price + 0x1_0000_0000_0000_0000
    }
}

/// A price with a decimal exponent, in micro-units:
/// `unsigned_price(price) * 10^(expo + 6)`, rounded down where the exponent
/// is under -6.
pub open spec fn price_in_micro_units(price: i64, expo: i32) -> int {
    if expo >= -PRICE_DECIMALS {
        unsigned_price(price) * pow(10, (expo + PRICE_DECIMALS) as nat)
    } else {
        unsigned_price(price) / pow(10, (-expo - PRICE_DECIMALS) as nat)
    }
}

/// Powers of ten that frame the 64-bit range.
proof fn lemma_powers_of_ten()
    ensures
        pow(10, 0) == 1,
        pow(10, 19) == 10_000_000_000_000_000_000int,
        pow(10, 20) == 100_000_000_000_000_000_000int,
{
    reveal_with_fuel(pow, 21);
}

/// `10^exponent`, for the exponents whose power fits in 64 bits.
fn power_of_ten(exponent: u32) -> (power: u64)
    requires
        exponent <= 19,
    ensures
        power == pow(10, exponent as nat),
        power >= 1,
{
    let mut power: u64 = 1;
    let mut i: u32 = 0;
    proof {
        lemma_powers_of_ten();
    }
    while i < exponent
        invariant
            i <= exponent <= 19,
            power == pow(10, i as nat),
            power >= 1,
            pow(10, 19) == 10_000_000_000_000_000_000int,
        decreases exponent - i,
    {
        proof {
            lemma_pow_increases(10, (i + 1) as nat, 19);
            reveal(pow);
        }
        power = power * 10;
        i += 1;
    }
    power
}

/// Converts a price with a decimal exponent to micro-units; `None` where the
/// result does not fit in 64 bits.
pub fn normalize_pyth_price(price: i64, expo: i32) -> (scaled: Option<u64>)
    ensures
        price_in_micro_units(price, expo) <= u64::MAX ==> scaled == Some(
            price_in_micro_units(price, expo) as u64,
        ),
        price_in_micro_units(price, expo) > u64::MAX ==> scaled is None,
{
    let raw: u64 = if price >= 0 {
        price as u64
    } else {
        u64::MAX - ((-(price + 1)) as u64)
    };
    let shift: i64 = expo as i64 + PRICE_DECIMALS as i64;
    proof {
        lemma_powers_of_ten();
    }
    if shift >= 0 {
        if raw == 0 {
            assert(price_in_micro_units(price, expo) == 0) by (nonlinear_arith)
                requires
                    price_in_micro_units(price, expo) == 0 * pow(10, (expo + PRICE_DECIMALS) as nat),
            ;
            Some(0)
        } else if shift > 19 {
            proof {
                lemma_pow_increases(10, 20, shift as nat);
                let p = pow(10, shift as nat);
                assert(raw * p >= 100_000_000_000_000_000_000int) by (nonlinear_arith)
                    requires
                        raw >= 1,
                        p >= 100_000_000_000_000_000_000int,
                ;
            }
            None
        } else {
            let factor: u64 = power_of_ten(shift as u32);
            proof {
                lemma_product_fits(raw, factor);
            }
            let wide: u128 = (raw as u128) * (factor as u128);
            if wide > u64::MAX as u128 {
                None
            } else {
                Some(wide as u64)
            }
        }
    } else {
        let down: i64 = -shift;
        if down > 19 {
            proof {
                lemma_pow_increases(10, 20, down as nat);
                let p = pow(10, down as nat);
                assert(raw as int / p == 0) by (nonlinear_arith)
                    requires
                        0 <= raw < 100_000_000_000_000_000_000int,
                        p >= 100_000_000_000_000_000_000int,
                ;
            }
            Some(0)
        } else {
            let divisor: u64 = power_of_ten(down as u32);
            Some(raw / divisor)
        }
    }
}

impl PriceFeed {
    /// Whether this is the feed of the asset `symbol` of class `asset_type`.
    pub open spec fn is_for(&self, symbol: Seq<char>, asset_type: AssetType) -> bool {
        same_asset(self.asset_symbol@, self.asset_type, symbol, asset_type)
    }

    /// The feed after an update at `slot` that leaves it with the given
    /// source prices: fresh, with the aggregate recomputed.
    pub open spec fn updated(
        &self,
        pyth_price: u64,
        switchboard_price: u64,
        external_price: u64,
        slot: u64,
    ) -> PriceFeed {
        PriceFeed {
            pyth_price,
            switchboard_price,
            external_price,
            aggregated_price: aggregated_price(pyth_price, switchboard_price, external_price) as u64,
            last_updated: slot,
            is_stale: false,
            ..*self
        }
    }

    /// The feed that an asset's first update at `slot` creates.
    pub open spec fn first(
        asset_symbol: String,
        asset_type: AssetType,
        pyth_price: u64,
        switchboard_price: u64,
        external_price: u64,
        slot: u64,
    ) -> PriceFeed {
        PriceFeed {
            asset_symbol,
            asset_type,
            pyth_price,
            switchboard_price,
            external_price,
            aggregated_price: aggregated_price(pyth_price, switchboard_price, external_price) as u64,
            last_updated: slot,
            is_stale: false,
        }
    }
}

/// `i` is the place of the first feed for the asset.
pub open spec fn is_first_feed(
    feeds: Seq<PriceFeed>,
    symbol: Seq<char>,
    asset_type: AssetType,
    i: int,
) -> bool {
    &&& 0 <= i < feeds.len()
    &&& feeds[i].is_for(symbol, asset_type)
    &&& forall|j: int| 0 <= j < i ==> !(#[trigger] feeds[j]).is_for(symbol, asset_type)
}

/// The place of the first feed for the asset, if it has one.
pub open spec fn feed_index(feeds: Seq<PriceFeed>, symbol: Seq<char>, asset_type: AssetType) -> Option<
    int,
> {
    if exists|i: int| is_first_feed(feeds, symbol, asset_type, i) {
        Some(choose|i: int| is_first_feed(feeds, symbol, asset_type, i))
    } else {
        None
    }
}

/// No two feeds are for the same asset.
pub open spec fn feeds_distinct(feeds: Seq<PriceFeed>) -> bool {
    forall|i: int, j: int|
        0 <= i < j < feeds.len() ==> !(#[trigger] feeds[i]).is_for(
            (#[trigger] feeds[j]).asset_symbol@,
            feeds[j].asset_type,
        )
}

/// A place that holds the first feed for the asset is `feed_index`.
pub proof fn lemma_first_feed_is_index(
    feeds: Seq<PriceFeed>,
    symbol: Seq<char>,
    asset_type: AssetType,
    i: int,
)
    requires
        is_first_feed(feeds, symbol, asset_type, i),
    ensures
        feed_index(feeds, symbol, asset_type) == Some(i),
{
    let k = choose|k: int| is_first_feed(feeds, symbol, asset_type, k);
    assert(is_first_feed(feeds, symbol, asset_type, k));
    if k < i {
        assert(!feeds[k].is_for(symbol, asset_type));
    }
    if i < k {
        assert(!feeds[i].is_for(symbol, asset_type));
    }
}

/// Where no feed is for the asset, `feed_index` is `None`.
pub proof fn lemma_no_feed_no_index(feeds: Seq<PriceFeed>, symbol: Seq<char>, asset_type: AssetType)
    requires
        forall|j: int| 0 <= j < feeds.len() ==> !(#[trigger] feeds[j]).is_for(symbol, asset_type),
    ensures
        feed_index(feeds, symbol, asset_type) is None,
{
}

/// Finds the first feed for the asset.
pub fn find_price_feed(feeds: &Vec<PriceFeed>, asset_symbol: &String, asset_type: AssetType) -> (found:
    Option<usize>)
    ensures
        found matches Some(i) ==> feed_index(feeds@, asset_symbol@, asset_type) == Some(i as int)
            && is_first_feed(feeds@, asset_symbol@, asset_type, i as int),
        found is None ==> feed_index(feeds@, asset_symbol@, asset_type) is None,
        found is None ==> forall|j: int|
            0 <= j < feeds@.len() ==> !(#[trigger] feeds@[j]).is_for(asset_symbol@, asset_type),
{
    let mut i: usize = 0;
    while i < feeds.len()
        invariant
            i <= feeds@.len(),
            forall|j: int| 0 <= j < i ==> !(#[trigger] feeds@[j]).is_for(asset_symbol@, asset_type),
        decreases feeds@.len() - i,
    {
        if feeds[i].asset_symbol == *asset_symbol && feeds[i].asset_type == asset_type {
            proof {
                lemma_first_feed_is_index(feeds@, asset_symbol@, asset_type, i as int);
            }
            return Some(i);
        }
        i += 1;
    }
    proof {
        lemma_no_feed_no_index(feeds@, asset_symbol@, asset_type);
    }
    None
}

impl OracleAggregator {
    /// Everything but the feeds is the same in both records.
    pub open spec fn same_settings(&self, other: OracleAggregator) -> bool {
        &&& other.admin == self.admin
        &&& other.enabled_sources == self.enabled_sources
        &&& other.update_frequency == self.update_frequency
        &&& other.last_crank_slot == self.last_crank_slot
        &&& other.deviation_threshold == self.deviation_threshold
        &&& other.bump == self.bump
    }
}

/// The feeds after the first source reported `price` for the asset at
/// `slot`: the asset's first feed updated, or a feed with this price alone
/// appended.
pub open spec fn feeds_with_pyth_price(
    feeds: Seq<PriceFeed>,
    asset_symbol: String,
    asset_type: AssetType,
    price: u64,
    slot: u64,
) -> Seq<PriceFeed> {
    match feed_index(feeds, asset_symbol@, asset_type) {
        Some(i) => feeds.update(
            i,
            feeds[i].updated(price, feeds[i].switchboard_price, feeds[i].external_price, slot),
        ),
        None => feeds.push(PriceFeed::first(asset_symbol, asset_type, price, 0, 0, slot)),
    }
}

/// The feeds after the second source reported `price` for the asset at
/// `slot`.
pub open spec fn feeds_with_switchboard_price(
    feeds: Seq<PriceFeed>,
    asset_symbol: String,
    asset_type: AssetType,
    price: u64,
    slot: u64,
) -> Seq<PriceFeed> {
    match feed_index(feeds, asset_symbol@, asset_type) {
        Some(i) => feeds.update(
            i,
            feeds[i].updated(feeds[i].pyth_price, price, feeds[i].external_price, slot),
        ),
        None => feeds.push(PriceFeed::first(asset_symbol, asset_type, 0, price, 0, slot)),
    }
}

/// The feeds after the third source reported `price` for the asset at
/// `slot`.
pub open spec fn feeds_with_external_price(
    feeds: Seq<PriceFeed>,
    asset_symbol: String,
    asset_type: AssetType,
    price: u64,
    slot: u64,
) -> Seq<PriceFeed> {
    match feed_index(feeds, asset_symbol@, asset_type) {
        Some(i) => feeds.update(
            i,
            feeds[i].updated(feeds[i].pyth_price, feeds[i].switchboard_price, price, slot),
        ),
        None => feeds.push(PriceFeed::first(asset_symbol, asset_type, 0, 0, price, slot)),
    }
}

/// Whether a source may report through `update_price_from_external`.
pub open spec fn is_external_source(source: PriceSource) -> bool {
    source == PriceSource::CoinGecko || source == PriceSource::TwelveData || source
        == PriceSource::Binance
}

/// Sets up an aggregator without feeds for `admin`.
pub fn init_oracle_aggregator(
    aggregator: &mut OracleAggregator,
    admin: Pubkey,
    bump: u8,
    current_slot: u64,
)
    ensures
        final(aggregator).admin == admin,
        final(aggregator).enabled_sources@ == seq![
            PriceSource::Pyth,
            PriceSource::Switchboard,
            PriceSource::CoinGecko,
        ],
        final(aggregator).price_feeds@ == Seq::<PriceFeed>::empty(),
        final(aggregator).update_frequency == DEFAULT_UPDATE_FREQUENCY,
        final(aggregator).last_crank_slot == current_slot,
        final(aggregator).deviation_threshold == DEFAULT_DEVIATION_THRESHOLD_BPS,
        final(aggregator).bump == bump,
{
    let mut sources: Vec<PriceSource> = Vec::new();
    sources.push(PriceSource::Pyth);
    sources.push(PriceSource::Switchboard);
    sources.push(PriceSource::CoinGecko);
    aggregator.admin = admin;
    aggregator.enabled_sources = sources;
    aggregator.price_feeds = Vec::new();
    aggregator.update_frequency = DEFAULT_UPDATE_FREQUENCY;
    aggregator.last_crank_slot = current_slot;
    aggregator.deviation_threshold = DEFAULT_DEVIATION_THRESHOLD_BPS;
    aggregator.bump = bump;
    assert(aggregator.enabled_sources@ =~= seq![
        PriceSource::Pyth,
        PriceSource::Switchboard,
        PriceSource::CoinGecko,
    ]);
}

/// Records the first source's price of an asset, in micro-units, at
/// `current_slot`.
///
/// The asset's first feed gets the price, is marked fresh and has its
/// aggregate recomputed as the median of its source prices that are not
/// zero; an asset without a feed gets one, appended, with this price alone.
pub fn update_price_from_pyth(
    aggregator: &mut OracleAggregator,
    asset_symbol: String,
    asset_type: AssetType,
    pyth_price: u64,
    current_slot: u64,
)
    ensures
        old(aggregator).same_settings(*final(aggregator)),
        final(aggregator).price_feeds@ == feeds_with_pyth_price(
            old(aggregator).price_feeds@,
            asset_symbol,
            asset_type,
            pyth_price,
            current_slot,
        ),
{
    match find_price_feed(&aggregator.price_feeds, &asset_symbol, asset_type) {
        Some(i) => {
            let switchboard_price = aggregator.price_feeds[i].switchboard_price;
            let external_price = aggregator.price_feeds[i].external_price;
            aggregator.price_feeds[i].pyth_price = pyth_price;
            aggregator.price_feeds[i].last_updated = current_slot;
            aggregator.price_feeds[i].is_stale = false;
            aggregator.price_feeds[i].aggregated_price = calculate_aggregated_price(
                pyth_price,
                switchboard_price,
                external_price,
            );
            assert(aggregator.price_feeds@ =~= feeds_with_pyth_price(
                old(aggregator).price_feeds@,
                asset_symbol,
                asset_type,
                pyth_price,
                current_slot,
            ));
        },
        None => {
            aggregator.price_feeds.push(
                PriceFeed {
                    asset_symbol,
                    asset_type,
                    pyth_price,
                    switchboard_price: 0,
                    external_price: 0,
                    aggregated_price: pyth_price,
                    last_updated: current_slot,
                    is_stale: false,
                },
            );
        },
    }
}

/// Records the second source's price of an asset at `current_slot`, as
/// `update_price_from_pyth` does the first's.
pub fn update_price_from_switchboard(
    aggregator: &mut OracleAggregator,
    asset_symbol: String,
    asset_type: AssetType,
    switchboard_price: u64,
    current_slot: u64,
)
    ensures
        old(aggregator).same_settings(*final(aggregator)),
        final(aggregator).price_feeds@ == feeds_with_switchboard_price(
            old(aggregator).price_feeds@,
            asset_symbol,
            asset_type,
            switchboard_price,
            current_slot,
        ),
{
    match find_price_feed(&aggregator.price_feeds, &asset_symbol, asset_type) {
        Some(i) => {
            let pyth_price = aggregator.price_feeds[i].pyth_price;
            let external_price = aggregator.price_feeds[i].external_price;
            aggregator.price_feeds[i].switchboard_price = switchboard_price;
            aggregator.price_feeds[i].last_updated = current_slot;
            aggregator.price_feeds[i].is_stale = false;
            aggregator.price_feeds[i].aggregated_price = calculate_aggregated_price(
                pyth_price,
                switchboard_price,
                external_price,
            );
            assert(aggregator.price_feeds@ =~= feeds_with_switchboard_price(
                old(aggregator).price_feeds@,
                asset_symbol,
                asset_type,
                switchboard_price,
                current_slot,
            ));
        },
        None => {
            aggregator.price_feeds.push(
                PriceFeed {
                    asset_symbol,
                    asset_type,
                    pyth_price: 0,
                    switchboard_price,
                    external_price: 0,
                    aggregated_price: switchboard_price,
                    last_updated: current_slot,
                    is_stale: false,
                },
            );
        },
    }
}

/// Records the third source's price of an asset at `current_slot`.
///
/// Refused with `Unauthorized` unless `admin` is the aggregator's admin, and
/// then with `InvalidPriceSource` unless the source is CoinGecko, TwelveData
/// or Binance; a refusal changes nothing. Otherwise as
/// `update_price_from_pyth`, for the third source's price.
pub fn update_price_from_external(
    aggregator: &mut OracleAggregator,
    admin: &Pubkey,
    asset_symbol: String,
    asset_type: AssetType,
    price: u64,
    source: PriceSource,
    current_slot: u64,
) -> (result: Result<(), ErrorCode>)
    ensures
        old(aggregator).admin != *admin ==> result == Err::<(), ErrorCode>(
            ErrorCode::Unauthorized,
        ),
        old(aggregator).admin == *admin && !is_external_source(source) ==> result == Err::<
            (),
            ErrorCode,
        >(ErrorCode::InvalidPriceSource),
        old(aggregator).admin == *admin && is_external_source(source) ==> result is Ok,
        result is Err ==> *final(aggregator) == *old(aggregator),
        result is Ok ==> old(aggregator).same_settings(*final(aggregator)),
        result is Ok ==> final(aggregator).price_feeds@ == feeds_with_external_price(
            old(aggregator).price_feeds@,
            asset_symbol,
            asset_type,
            price,
            current_slot,
        ),
{
    if aggregator.admin != *admin {
        return Err(ErrorCode::Unauthorized);
    }
    let accepted = match source {
        PriceSource::CoinGecko => true,
        PriceSource::TwelveData => true,
        PriceSource::Binance => true,
        _ => false,
    };
    if !accepted {
        return Err(ErrorCode::InvalidPriceSource);
    }
    match find_price_feed(&aggregator.price_feeds, &asset_symbol, asset_type) {
        Some(i) => {
            let pyth_price = aggregator.price_feeds[i].pyth_price;
            let switchboard_price = aggregator.price_feeds[i].switchboard_price;
            aggregator.price_feeds[i].external_price = price;
            aggregator.price_feeds[i].last_updated = current_slot;
            aggregator.price_feeds[i].is_stale = false;
            aggregator.price_feeds[i].aggregated_price = calculate_aggregated_price(
                pyth_price,
                switchboard_price,
                price,
            );
            assert(aggregator.price_feeds@ =~= feeds_with_external_price(
                old(aggregator).price_feeds@,
                asset_symbol,
                asset_type,
                price,
                current_slot,
            ));
        },
        None => {
            aggregator.price_feeds.push(
                PriceFeed {
                    asset_symbol,
                    asset_type,
                    pyth_price: 0,
                    switchboard_price: 0,
                    external_price: price,
                    aggregated_price: price,
                    last_updated: current_slot,
                    is_stale: false,
                },
            );
        },
    }
    Ok(())
}

/// An update keeps the feeds free of doubles: where no two feeds were for the
/// same asset before one of the three updates, none are after it.
pub proof fn lemma_updates_keep_feeds_distinct(
    feeds: Seq<PriceFeed>,
    asset_symbol: String,
    asset_type: AssetType,
    price: u64,
    slot: u64,
)
    requires
        feeds_distinct(feeds),
    ensures
        feeds_distinct(feeds_with_pyth_price(feeds, asset_symbol, asset_type, price, slot)),
        feeds_distinct(feeds_with_switchboard_price(feeds, asset_symbol, asset_type, price, slot)),
        feeds_distinct(feeds_with_external_price(feeds, asset_symbol, asset_type, price, slot)),
{
    if feed_index(feeds, asset_symbol@, asset_type) is None {
        assert forall|j: int| 0 <= j < feeds.len() implies !(#[trigger] feeds[j]).is_for(
            asset_symbol@,
            asset_type,
        ) by {
            if feeds[j].is_for(asset_symbol@, asset_type) {
                lemma_some_feed_has_first(feeds, asset_symbol@, asset_type, j);
            }
        }
    }
}

/// Where some feed is for the asset, a first one is.
proof fn lemma_some_feed_has_first(
    feeds: Seq<PriceFeed>,
    symbol: Seq<char>,
    asset_type: AssetType,
    j: int,
)
    requires
        0 <= j < feeds.len(),
        feeds[j].is_for(symbol, asset_type),
    ensures
        exists|i: int| is_first_feed(feeds, symbol, asset_type, i),
    decreases j,
{
    if exists|k: int| 0 <= k < j && feeds[k].is_for(symbol, asset_type) {
        let k = choose|k: int| 0 <= k < j && feeds[k].is_for(symbol, asset_type);
        lemma_some_feed_has_first(feeds, symbol, asset_type, k);
    } else {
        assert(is_first_feed(feeds, symbol, asset_type, j));
    }
}

} // verus!
