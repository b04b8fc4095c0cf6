//! Settlement slots, the tradable rights to settle at a given offset, and
//! directional bets that an instant slot settles against the spot price
//! table.

use vstd::prelude::*;
use crate::assets::{symbol_fits, symbol_is_valid, AssetType, MAX_SETTLEMENT_DAYS};
use crate::errors::ErrorCode;
use crate::keys::Pubkey;
use crate::market::price_delta;
use crate::math::{lemma_product_fits, lemma_quotient_bounds, lemma_quotient_monotonic};
use crate::spot::{current_price, spot_price, AssetPrice, MultiAssetOracle};

verus! {

/// Slots in one day of a settlement slot's duration.
pub const SLOTS_PER_DURATION_DAY: u64 = 172_800;

/// Smallest bet, in micro-units.
pub const MIN_BET_AMOUNT: u64 = 10_000_000;

/// Scale of a price change: parts in a million.
pub const PNL_SCALE: u64 = 1_000_000;

/// A right to settle an asset at an offset of `settlement_time` days; zero is
/// instant.
#[derive(Clone, Debug, PartialEq, Eq)]
pub struct SettlementSlot {
    pub slot_id: u64,
    pub asset_symbol: String,
    pub asset_type: AssetType,
    pub settlement_time: u64,
    /// Duration in days.
    pub slot_duration: u64,
    pub owner: Pubkey,
    /// Price last paid for the slot.
    pub mint_price: u64,
    pub created_slot: u64,
    pub expiry_slot: u64,
    pub is_tradable: bool,
    pub is_active: bool,
    pub bump: u8,
}

/// A bet on the direction of an asset's price.
#[derive(Clone, Debug, PartialEq, Eq)]
pub struct Bet {
    pub owner: Pubkey,
    pub bet_id: u64,
    pub asset_symbol: String,
    pub asset_type: AssetType,
    pub bet_amount: u64,
    pub is_long: bool,
    /// Spot price when the bet was placed.
    pub entry_price: u64,
    pub created_slot: u64,
    pub is_settled: bool,
    /// What the bet settled at, 0 while not settled.
    pub settlement_value: u64,
    pub bump: u8,
}

/// Slot at which a settlement slot created at `created_slot` for
/// `slot_duration` days expires.
pub open spec fn slot_expiry(created_slot: u64, slot_duration: u64) -> int {
    created_slot + slot_duration * SLOTS_PER_DURATION_DAY
}

/// Why a settlement slot cannot be minted with these arguments, if it
/// cannot: the symbol is tested first, then the offset.
pub open spec fn mint_refusal(asset_symbol: Seq<char>, settlement_time: u64) -> Option<ErrorCode> {
    if !symbol_fits(asset_symbol) {
        Some(ErrorCode::InvalidAssetSymbol)
    } else if settlement_time > MAX_SETTLEMENT_DAYS {
        Some(ErrorCode::InvalidSettlementTime)
    } else {
        None
    }
}

/// Whether the mint can be computed: where nothing refuses it, the slot's
/// expiry fits in 64 bits.
pub open spec fn admits_mint(
    asset_symbol: Seq<char>,
    settlement_time: u64,
    slot_duration: u64,
    current_slot: u64,
) -> bool {
    mint_refusal(asset_symbol, settlement_time) is None ==> slot_expiry(
        current_slot,
        slot_duration,
    ) <= u64::MAX
}

/// Tests `admits_mint`.
pub fn can_mint_slot(
    asset_symbol: &String,
    settlement_time: u64,
    slot_duration: u64,
    current_slot: u64,
) -> (ok: bool)
    ensures
        ok == admits_mint(asset_symbol@, settlement_time, slot_duration, current_slot),
{
    if !symbol_is_valid(asset_symbol) || settlement_time > MAX_SETTLEMENT_DAYS {
        return true;
    }
    match slot_duration.checked_mul(SLOTS_PER_DURATION_DAY) {
        Some(slots) => current_slot.checked_add(slots).is_some(),
        None => false,
    }
}

/// Mints a settlement slot for `owner`.
///
/// Refused with `InvalidAssetSymbol` if the symbol is longer than ten bytes,
/// and then with `InvalidSettlementTime` if the offset is over 365 days; a
/// refusal leaves the record unchanged. Otherwise the record is filled: the
/// slot is tradable and active and expires `slot_duration` days, of 172800
/// slots each, after `current_slot`.
///
/// The arguments must admit the mint (`admits_mint`, which `can_mint_slot`
/// tests).
pub fn mint_settlement_slot_nft(
    settlement_slot: &mut SettlementSlot,
    owner: Pubkey,
    asset_symbol: String,
    asset_type: AssetType,
    settlement_time: u64,
    slot_duration: u64,
    slot_price: u64,
    nft_seed: u64,
    bump: u8,
    current_slot: u64,
) -> (result: Result<(), ErrorCode>)
    requires
        admits_mint(asset_symbol@, settlement_time, slot_duration, current_slot),
    ensures
        match mint_refusal(asset_symbol@, settlement_time) {
            Some(e) => result == Err::<(), ErrorCode>(e) && *final(settlement_slot) == *old(
                settlement_slot,
            ),
            None => result is Ok && *final(settlement_slot) == (SettlementSlot {
                slot_id: nft_seed,
                asset_symbol,
                asset_type,
                settlement_time,
                slot_duration,
                owner,
                mint_price: slot_price,
                created_slot: current_slot,
                expiry_slot: slot_expiry(current_slot, slot_duration) as u64,
                is_tradable: true,
                is_active: true,
                bump,
            }),
        },
{
    if !symbol_is_valid(&asset_symbol) {
        return Err(ErrorCode::InvalidAssetSymbol);
    }
    if settlement_time > MAX_SETTLEMENT_DAYS {
        return Err(ErrorCode::InvalidSettlementTime);
    }
    settlement_slot.slot_id = nft_seed;
    settlement_slot.asset_symbol = asset_symbol;
    settlement_slot.asset_type = asset_type;
    settlement_slot.settlement_time = settlement_time;
    settlement_slot.slot_duration = slot_duration;
    settlement_slot.owner = owner;
    settlement_slot.mint_price = slot_price;
    settlement_slot.created_slot = current_slot;
    settlement_slot.expiry_slot = current_slot + slot_duration * SLOTS_PER_DURATION_DAY;
    settlement_slot.is_tradable = true;
    settlement_slot.is_active = true;
    settlement_slot.bump = bump;
    Ok(())
}

/// Why the slot cannot be traded by `seller`, if it cannot: the owner is
/// tested first, then whether the slot is tradable, then whether it is
/// active.
pub open spec fn trade_refusal(slot: SettlementSlot, seller: Pubkey) -> Option<ErrorCode> {
    if slot.owner != seller {
        Some(ErrorCode::Unauthorized)
    } else if !slot.is_tradable {
        Some(ErrorCode::SlotNotTradable)
    } else if !slot.is_active {
        Some(ErrorCode::SlotExpired)
    } else {
        None
    }
}

/// Passes a settlement slot from `seller` to `buyer` at `new_price`.
///
/// Refused with `Unauthorized` unless the seller owns the slot, then with
/// `SlotNotTradable` unless it is tradable, then with `SlotExpired` unless it
/// is active; a refusal leaves the slot unchanged. Otherwise the buyer owns
/// the slot and `new_price` is its price.
pub fn trade_settlement_slot(
    settlement_slot: &mut SettlementSlot,
    seller: &Pubkey,
    buyer: Pubkey,
    new_price: u64,
) -> (result: Result<(), ErrorCode>)
    ensures
        match trade_refusal(*old(settlement_slot), *seller) {
            Some(e) => result == Err::<(), ErrorCode>(e) && *final(settlement_slot) == *old(
                settlement_slot,
            ),
            None => result is Ok && *final(settlement_slot) == (SettlementSlot {
                owner: buyer,
                mint_price: new_price,
                ..*old(settlement_slot)
            }),
        },
{
    if settlement_slot.owner != *seller {
        return Err(ErrorCode::Unauthorized);
    }
    if !settlement_slot.is_tradable {
        return Err(ErrorCode::SlotNotTradable);
    }
    if !settlement_slot.is_active {
        return Err(ErrorCode::SlotExpired);
    }
    settlement_slot.owner = buyer;
    settlement_slot.mint_price = new_price;
    Ok(())
}

/// Why a bet cannot be placed, if it cannot: the amount is tested first,
/// then whether the table has a price for the asset.
pub open spec fn bet_refusal(
    prices: Seq<AssetPrice>,
    asset_symbol: Seq<char>,
    asset_type: AssetType,
    bet_amount: u64,
) -> Option<ErrorCode> {
    if bet_amount < MIN_BET_AMOUNT {
        Some(ErrorCode::BetAmountTooSmall)
    } else if spot_price(prices, asset_symbol, asset_type) is None {
        Some(ErrorCode::AssetNotFound)
    } else {
        None
    }
}

/// Places a bet for `owner` on the direction of an asset's price.
///
/// Refused with `BetAmountTooSmall` if the amount is under `MIN_BET_AMOUNT`,
/// and then with `AssetNotFound` if the table has no price for the asset; a
/// refusal leaves the record unchanged. Otherwise the record is filled, not
/// settled, with the table's price for the asset as entry price.
pub fn place_bet(
    bet: &mut Bet,
    multi_oracle: &MultiAssetOracle,
    owner: Pubkey,
    asset_symbol: String,
    asset_type: AssetType,
    bet_amount: u64,
    is_long: bool,
    bet_seed: u64,
    bump: u8,
    current_slot: u64,
) -> (result: Result<(), ErrorCode>)
    ensures
        match bet_refusal(multi_oracle.asset_prices@, asset_symbol@, asset_type, bet_amount) {
            Some(e) => result == Err::<(), ErrorCode>(e) && *final(bet) == *old(bet),
            None => result is Ok && *final(bet) == (Bet {
                owner,
                bet_id: bet_seed,
                asset_symbol,
                asset_type,
                bet_amount,
                is_long,
                entry_price: spot_price(
                    multi_oracle.asset_prices@,
                    asset_symbol@,
                    asset_type,
                )->Some_0,
                created_slot: current_slot,
                is_settled: false,
                settlement_value: 0,
                bump,
            }),
        },
{
    if bet_amount < MIN_BET_AMOUNT {
        return Err(ErrorCode::BetAmountTooSmall);
    }
    let entry_price = match current_price(multi_oracle, &asset_symbol, asset_type) {
        Some(price) => price,
        None => {
            return Err(ErrorCode::AssetNotFound);
        },
    };
    bet.owner = owner;
    bet.bet_id = bet_seed;
    bet.asset_symbol = asset_symbol;
    bet.asset_type = asset_type;
    bet.bet_amount = bet_amount;
    bet.is_long = is_long;
    bet.entry_price = entry_price;
    bet.created_slot = current_slot;
    bet.is_settled = false;
    bet.settlement_value = 0;
    bet.bump = bump;
    Ok(())
}

/// Whether a move of the price from `entry` to `current` wins a bet: a rise
/// for a long bet, a fall for a short one.
pub open spec fn bet_wins(is_long: bool, entry: u64, current: u64) -> bool {
    if is_long {
        current > entry
    } else {
        current < entry
    }
}

/// Change of the price in parts in a million of the entry price, rounded
/// down.
pub open spec fn price_change_ppm(entry: u64, current: u64) -> int {
    (price_delta(current, entry) * PNL_SCALE) / (entry as int)
}

/// Profit or loss of a bet of `amount`, without its sign:
/// `floor(amount * price_change_ppm / 1000000)`.
pub open spec fn bet_pnl(amount: u64, entry: u64, current: u64) -> int {
    (amount * price_change_ppm(entry, current)) / (PNL_SCALE as int)
}

/// What a bet settles at: the amount and the profit where the bet wins,
/// else the amount less the loss, and nothing where the loss is the larger.
pub open spec fn bet_settlement_value(amount: u64, is_long: bool, entry: u64, current: u64) -> int {
    if bet_wins(is_long, entry, current) {
        amount + bet_pnl(amount, entry, current)
    } else if amount > bet_pnl(amount, entry, current) {
        amount - bet_pnl(amount, entry, current)
    } else {
        0
    }
}

/// A product of 128 bits or more, divided by a million, is past 64 bits.
proof fn lemma_wide_pnl(product: int)
    requires
        product > u128::MAX,
    ensures
        product / (PNL_SCALE as int) > u64::MAX,
{
    lemma_quotient_monotonic(0x1_0000_0000_0000_0000_0000_0000_0000_0000int, product, 1_000_000);
}

/// Computes `bet_settlement_value`; `None` where it does not fit in 64 bits.
pub fn settlement_value_of(amount: u64, is_long: bool, entry: u64, current: u64) -> (value: Option<
    u64,
>)
    requires
        entry > 0,
    ensures
        bet_settlement_value(amount, is_long, entry, current) <= u64::MAX ==> value == Some(
            bet_settlement_value(amount, is_long, entry, current) as u64,
        ),
        bet_settlement_value(amount, is_long, entry, current) > u64::MAX ==> value is None,
{
    let price_change: u64 = if current > entry {
        current - entry
    } else {
        entry - current
    };
    let wins = if is_long {
        current > entry
    } else {
        current < entry
    };
    proof {
        lemma_product_fits(price_change, PNL_SCALE);
        lemma_quotient_bounds(price_change * PNL_SCALE, entry as int);
    }
    let change_ppm: u128 = (price_change as u128 * PNL_SCALE as u128) / (entry as u128);
    let ghost product: int = amount * change_ppm;
    assert(0 <= product) by (nonlinear_arith)
        requires
            product == amount * change_ppm,
            0 <= amount,
            0 <= change_ppm,
    ;
    proof {
        lemma_quotient_bounds(product, PNL_SCALE as int);
    }
    match (amount as u128).checked_mul(change_ppm) {
        Some(wide) => {
            let pnl: u128 = wide / (PNL_SCALE as u128);
            if wins {
                if pnl > (u64::MAX - amount) as u128 {
                    None
                } else {
                    Some(amount + pnl as u64)
                }
            } else if amount as u128 > pnl {
                Some(amount - pnl as u64)
            } else {
                Some(0)
            }
        },
        None => {
            proof {
                lemma_wide_pnl(product);
            }
            if wins {
                None
            } else {
                Some(0)
            }
        },
    }
}

/// Why `user` cannot settle the bet through the slot, if they cannot. The
/// slot is tested first: that it is the one named, that the user owns it,
/// that it is active, that it settles instantly. Then the bet: that it is the
/// one named, that the user owns it, that it is not settled. Last, that the
/// table has a price for the bet's asset.
pub open spec fn settlement_refusal(
    bet: Bet,
    settlement_slot: SettlementSlot,
    prices: Seq<AssetPrice>,
    user: Pubkey,
    bet_id: u64,
    settlement_slot_id: u64,
) -> Option<ErrorCode> {
    if settlement_slot.slot_id != settlement_slot_id {
        Some(ErrorCode::InvalidSettlementSlot)
    } else if settlement_slot.owner != user {
        Some(ErrorCode::Unauthorized)
    } else if !settlement_slot.is_active {
        Some(ErrorCode::SlotExpired)
    } else if settlement_slot.settlement_time != 0 {
        Some(ErrorCode::NotInstantSettlement)
    } else if bet.bet_id != bet_id {
        Some(ErrorCode::InvalidBetId)
    } else if bet.owner != user {
        Some(ErrorCode::Unauthorized)
    } else if bet.is_settled {
        Some(ErrorCode::BetAlreadySettled)
    } else if spot_price(prices, bet.asset_symbol@, bet.asset_type) is None {
        Some(ErrorCode::AssetNotFound)
    } else {
        None
    }
}

/// What the bet settles at against the table's price for its asset.
pub open spec fn settlement_against(bet: Bet, prices: Seq<AssetPrice>) -> int {
    bet_settlement_value(
        bet.bet_amount,
        bet.is_long,
        bet.entry_price,
        spot_price(prices, bet.asset_symbol@, bet.asset_type)->Some_0,
    )
}

/// Whether the settlement can be computed: where nothing refuses it, the
/// bet's entry price, by which the change divides, is positive, and the
/// settlement value fits in 64 bits.
pub open spec fn admits_settlement(
    bet: Bet,
    settlement_slot: SettlementSlot,
    prices: Seq<AssetPrice>,
    user: Pubkey,
    bet_id: u64,
    settlement_slot_id: u64,
) -> bool {
    settlement_refusal(bet, settlement_slot, prices, user, bet_id, settlement_slot_id) is None
        ==> bet.entry_price > 0 && settlement_against(bet, prices) <= u64::MAX
}

/// Tests `settlement_refusal`: the fault with which the settlement would be
/// refused, if any.
pub fn settlement_fault(
    bet: &Bet,
    settlement_slot: &SettlementSlot,
    multi_oracle: &MultiAssetOracle,
    user: &Pubkey,
    bet_id: u64,
    settlement_slot_id: u64,
) -> (fault: Option<ErrorCode>)
    ensures
        fault == settlement_refusal(
            *bet,
            *settlement_slot,
            multi_oracle.asset_prices@,
            *user,
            bet_id,
            settlement_slot_id,
        ),
{
    if settlement_slot.slot_id != settlement_slot_id {
        return Some(ErrorCode::InvalidSettlementSlot);
    }
    if settlement_slot.owner != *user {
        return Some(ErrorCode::Unauthorized);
    }
    if !settlement_slot.is_active {
        return Some(ErrorCode::SlotExpired);
    }
    if settlement_slot.settlement_time != 0 {
        return Some(ErrorCode::NotInstantSettlement);
    }
    if bet.bet_id != bet_id {
        return Some(ErrorCode::InvalidBetId);
    }
    if bet.owner != *user {
        return Some(ErrorCode::Unauthorized);
    }
    if bet.is_settled {
        return Some(ErrorCode::BetAlreadySettled);
    }
    if current_price(multi_oracle, &bet.asset_symbol, bet.asset_type).is_none() {
        return Some(ErrorCode::AssetNotFound);
    }
    None
}

/// Tests `admits_settlement`.
pub fn can_settle_instantly(
    bet: &Bet,
    settlement_slot: &SettlementSlot,
    multi_oracle: &MultiAssetOracle,
    user: &Pubkey,
    bet_id: u64,
    settlement_slot_id: u64,
) -> (ok: bool)
    ensures
        ok == admits_settlement(
            *bet,
            *settlement_slot,
            multi_oracle.asset_prices@,
            *user,
            bet_id,
            settlement_slot_id,
        ),
{
    if settlement_fault(bet, settlement_slot, multi_oracle, user, bet_id, settlement_slot_id).is_some() {
        return true;
    }
    if bet.entry_price == 0 {
        return false;
    }
    match current_price(multi_oracle, &bet.asset_symbol, bet.asset_type) {
        Some(price) => settlement_value_of(
            bet.bet_amount,
            bet.is_long,
            bet.entry_price,
            price,
        ).is_some(),
        None => true,
    }
}

/// Settles a bet at once, through an instant settlement slot that the user
/// owns, against the table's price for the bet's asset.
///
/// Refused, the bet unchanged, with the fault that `settlement_refusal`
/// names. Otherwise the bet is marked settled, for good, with its settlement
/// value: the amount and the profit where the price moved the bet's way,
/// else the amount less the loss and never less than nothing. The result is
/// that value.
///
/// The bet must admit the settlement (`admits_settlement`, which
/// `can_settle_instantly` tests).
pub fn instant_t0_settlement(
    bet: &mut Bet,
    settlement_slot: &SettlementSlot,
    multi_oracle: &MultiAssetOracle,
    user: &Pubkey,
    bet_id: u64,
    settlement_slot_id: u64,
) -> (result: Result<u64, ErrorCode>)
    requires
        admits_settlement(
            *old(bet),
            *settlement_slot,
            multi_oracle.asset_prices@,
            *user,
            bet_id,
            settlement_slot_id,
        ),
    ensures
        match settlement_refusal(
            *old(bet),
            *settlement_slot,
            multi_oracle.asset_prices@,
            *user,
            bet_id,
            settlement_slot_id,
        ) {
            Some(e) => result == Err::<u64, ErrorCode>(e) && *final(bet) == *old(bet),
            None => result == Ok::<u64, ErrorCode>(
                settlement_against(*old(bet), multi_oracle.asset_prices@) as u64,
            ) && *final(bet) == (Bet {
                is_settled: true,
                settlement_value: settlement_against(*old(bet), multi_oracle.asset_prices@) as u64,
                ..*old(bet)
            }),
        },
{
    if let Some(fault) = settlement_fault(
        bet,
        settlement_slot,
        multi_oracle,
        user,
        bet_id,
        settlement_slot_id,
    ) {
        return Err(fault);
    }
    let price = match current_price(multi_oracle, &bet.asset_symbol, bet.asset_type) {
        Some(price) => price,
        None => {
            return Err(ErrorCode::AssetNotFound);
        },
    };
    let value: u64 = settlement_value_of(
        bet.bet_amount,
        bet.is_long,
        bet.entry_price,
        price,
    ).unwrap();
    bet.is_settled = true;
    bet.settlement_value = value;
    Ok(value)
}

/// A bet is settled once and for good: whatever the slot, the prices, the
/// user and the ids, the settlement of a settled bet is refused.
pub proof fn lemma_settled_bet_stays_settled(
    bet: Bet,
    settlement_slot: SettlementSlot,
    prices: Seq<AssetPrice>,
    user: Pubkey,
    bet_id: u64,
    settlement_slot_id: u64,
)
    requires
        bet.is_settled,
    ensures
        settlement_refusal(bet, settlement_slot, prices, user, bet_id, settlement_slot_id) is Some,
{
}

/// A bet never settles at less than nothing, a losing bet never at more than
/// its amount, and a winning bet never at less than its amount.
pub proof fn lemma_settlement_value_bounds(amount: u64, is_long: bool, entry: u64, current: u64)
    requires
        entry > 0,
    ensures
        0 <= bet_settlement_value(amount, is_long, entry, current),
        !bet_wins(is_long, entry, current) ==> bet_settlement_value(
            amount,
            is_long,
            entry,
            current,
        ) <= amount,
        bet_wins(is_long, entry, current) ==> bet_settlement_value(amount, is_long, entry, current)
            >= amount,
{
    lemma_product_fits(
        if current > entry {
            (current - entry) as u64
        } else {
            (entry - current) as u64
        },
        PNL_SCALE,
    );
    lemma_quotient_bounds(price_delta(current, entry) * PNL_SCALE, entry as int);
    let ppm = price_change_ppm(entry, current);
    assert(0 <= amount * ppm) by (nonlinear_arith)
        requires
            0 <= ppm,
            0 <= amount,
    ;
    lemma_quotient_bounds(amount * ppm, PNL_SCALE as int);
}

} // verus!
