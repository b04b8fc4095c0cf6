//! The margin market: one underlying market with its price pair and expiry,
//! and the life of a leveraged position in it, from opening through
//! liquidation or settlement.

use vstd::prelude::*;
use crate::errors::ErrorCode;
use crate::keys::Pubkey;
use crate::math::{lemma_quotient_bounds, mul_div};

verus! {

/// Slots between the creation of a market and its expiry.
pub const MARKET_LIFETIME_SLOTS: u64 = 172_800;

/// Collateral ratio, in basis points, below which a position may be
/// liquidated.
pub const MAINTENANCE_THRESHOLD_BPS: u64 = 900;

/// The liquidator's bonus is the collateral value divided by this.
pub const LIQUIDATION_BONUS_DIVISOR: u64 = 100;

/// Price with which a fresh single-asset oracle starts.
pub const INITIAL_ORACLE_PRICE: u64 = 50_000;

/// Whether a market still takes positions or has been settled.
#[derive(Clone, Copy, Debug, PartialEq, Eq, Structural)]
pub enum MarketStatus {
    Active,
    Settled,
}

/// The direction of a position.
#[derive(Clone, Copy, Debug, PartialEq, Eq, Structural)]
pub enum PositionSide {
    Long,
    Short,
}

/// The market record.
#[derive(Clone, Copy, Debug, PartialEq, Eq)]
pub struct Market {
    /// Price at which positions are entered.
    pub t0_price: u64,
    /// Price at which positions are settled.
    pub t2_price: u64,
    /// Slot at which the market expires.
    pub expiry_slot: u64,
    pub status: MarketStatus,
    /// The account that holds the collateral.
    pub usdc_vault: Pubkey,
    pub bump: u8,
}

/// One owner's leveraged position.
#[derive(Clone, Copy, Debug, PartialEq, Eq)]
pub struct Position {
    pub owner: Pubkey,
    pub side: PositionSide,
    /// Notional size.
    pub size: u64,
    /// Market price when the position was opened.
    pub entry_price: u64,
    /// Position tokens minted for it.
    pub cfd_tokens: u64,
    /// Leverage multiplier, 1 to 3.
    pub leverage: u8,
    /// Collateral deposited.
    pub collateral: u64,
    pub liquidated: bool,
    /// Slot of the liquidation, 0 while not liquidated.
    pub liquidated_slot: u64,
    pub bump: u8,
}

/// The single-asset price record that its admin writes.
#[derive(Clone, Copy, Debug, PartialEq, Eq)]
pub struct OracleMock {
    pub admin: Pubkey,
    pub price: u64,
    pub updated_slot: u64,
}

/// What the ledger has to move when a position is opened.
#[derive(Clone, Copy, Debug, PartialEq, Eq)]
pub struct OpenedPosition {
    /// Collateral to transfer from the owner to the market vault.
    pub collateral: u64,
    /// Position tokens to mint to the owner.
    pub cfd_tokens: u64,
}

/// What the ledger has to move when a position is liquidated. An amount of
/// zero asks for no transfer.
#[derive(Clone, Copy, Debug, PartialEq, Eq)]
pub struct Liquidation {
    /// Collateral ratio that was found, in basis points.
    pub collateral_ratio_bps: u64,
    /// Amount to transfer from the vault to the liquidator.
    pub liquidation_bonus: u64,
    /// Amount to transfer from the vault to the position's owner.
    pub remaining_to_user: u64,
    /// Position tokens to burn.
    pub cfd_tokens_burned: u64,
}

/// What the ledger has to move when a position is settled. A payout of zero
/// asks for no transfer.
#[derive(Clone, Copy, Debug, PartialEq, Eq)]
pub struct Settlement {
    /// Profit to transfer from the vault to the owner.
    pub payout: u64,
    /// Position tokens to burn.
    pub cfd_tokens_burned: u64,
}

/// The distance between two prices.
pub open spec fn price_delta(a: u64, b: u64) -> int {
    if a > b {
        a - b
    } else {
        b - a
    }
}

/// Whether a move of the price from `from` to `to` is a gain for `side`: a
/// rise for a long position, a fall for a short one.
pub open spec fn moved_in_favor(side: PositionSide, from: u64, to: u64) -> bool {
    match side {
        PositionSide::Long => to > from,
        PositionSide::Short => to < from,
    }
}

/// Size of the profit or loss of a position of `size` when the price goes
/// from `from` to `to`: `floor(|to - from| * size / from)`.
pub open spec fn pnl_magnitude(size: u64, from: u64, to: u64) -> int {
    (price_delta(to, from) * size) / (from as int)
}

/// Collateral needed for a position of `size` at `leverage`.
pub open spec fn collateral_needed(size: u64, leverage: u8) -> int {
    size as int / leverage as int
}

/// Collateral ratio in basis points of a collateral value against a size.
pub open spec fn ratio_bps(value: int, size: u64) -> int {
    (value * 10_000) / (size as int)
}

impl Position {
    /// Profit (positive) or loss (negative) of the position at `price`.
    pub open spec fn unrealized_pnl(&self, price: u64) -> int {
        if moved_in_favor(self.side, self.entry_price, price) {
            pnl_magnitude(self.size, self.entry_price, price)
        } else {
            -pnl_magnitude(self.size, self.entry_price, price)
        }
    }

    /// Collateral plus profit or loss at `price`, never below zero.
    pub open spec fn collateral_value(&self, price: u64) -> int {
        if self.collateral + self.unrealized_pnl(price) > 0 {
            self.collateral + self.unrealized_pnl(price)
        } else {
            0
        }
    }

    /// Collateral ratio of the position at `price`, in basis points.
    pub open spec fn collateral_ratio_bps(&self, price: u64) -> int {
        ratio_bps(self.collateral_value(price), self.size)
    }

    /// Whether the position may be liquidated at `price`.
    pub open spec fn is_liquidatable(&self, price: u64) -> bool {
        self.collateral_ratio_bps(price) < MAINTENANCE_THRESHOLD_BPS
    }

    /// The amounts that a liquidation at `price` moves.
    pub open spec fn liquidation(&self, price: u64) -> Liquidation {
        let value = self.collateral_value(price);
        Liquidation {
            collateral_ratio_bps: self.collateral_ratio_bps(price) as u64,
            liquidation_bonus: (value / 100) as u64,
            remaining_to_user: (value - value / 100) as u64,
            cfd_tokens_burned: self.cfd_tokens,
        }
    }

    /// Whether a liquidation can be computed: a position that is not yet
    /// liquidated has a positive size and entry price, by which the ratio
    /// divides.
    pub open spec fn admits_liquidation(&self) -> bool {
        !self.liquidated ==> self.entry_price > 0 && self.size > 0
    }

    /// Whether a settlement against `market` can be computed: where the
    /// market is settled and a profit is owed, the entry price by which it
    /// divides is positive and the profit fits in 64 bits.
    pub open spec fn admits_settlement(&self, market: Market) -> bool {
        market.status == MarketStatus::Settled && moved_in_favor(
            self.side,
            market.t0_price,
            market.t2_price,
        ) ==> market.t0_price > 0 && self.settlement_pnl(market.t0_price, market.t2_price)
            <= u64::MAX
    }

    /// Profit that settlement pays: the size of the move from `t0_price` to
    /// `t2_price` where it is in the position's favor, else nothing.
    pub open spec fn settlement_pnl(&self, t0_price: u64, t2_price: u64) -> int {
        if moved_in_favor(self.side, t0_price, t2_price) {
            pnl_magnitude(self.size, t0_price, t2_price)
        } else {
            0
        }
    }
}

/// Sets the market up from the oracle's price, active and expiring
/// `MARKET_LIFETIME_SLOTS` after `current_slot`, whatever the record held
/// before.
pub fn init_market(
    market: &mut Market,
    oracle: &OracleMock,
    usdc_vault: Pubkey,
    bump: u8,
    current_slot: u64,
)
    requires
        current_slot + MARKET_LIFETIME_SLOTS <= u64::MAX,
    ensures
        *final(market) == (Market {
            t0_price: oracle.price,
            t2_price: oracle.price,
            expiry_slot: (current_slot + MARKET_LIFETIME_SLOTS) as u64,
            status: MarketStatus::Active,
            usdc_vault,
            bump,
        }),
{
    market.t0_price = oracle.price;
    market.t2_price = oracle.price;
    market.expiry_slot = current_slot + MARKET_LIFETIME_SLOTS;
    market.status = MarketStatus::Active;
    market.usdc_vault = usdc_vault;
    market.bump = bump;
}

/// Sets the oracle up for `admin` with the initial price.
pub fn init_oracle(oracle: &mut OracleMock, admin: Pubkey, current_slot: u64)
    ensures
        *final(oracle) == (OracleMock {
            admin,
            price: INITIAL_ORACLE_PRICE,
            updated_slot: current_slot,
        }),
{
    oracle.admin = admin;
    oracle.price = INITIAL_ORACLE_PRICE;
    oracle.updated_slot = current_slot;
}

/// Overwrites the oracle's price. Only the oracle's admin may.
pub fn update_oracle(
    oracle: &mut OracleMock,
    admin: &Pubkey,
    price: u64,
    current_slot: u64,
) -> (result: Result<(), ErrorCode>)
    ensures
        old(oracle).admin != *admin ==> result == Err::<(), ErrorCode>(ErrorCode::Unauthorized)
            && *final(oracle) == *old(oracle),
        old(oracle).admin == *admin ==> result is Ok && *final(oracle) == (OracleMock {
            admin: old(oracle).admin,
            price,
            updated_slot: current_slot,
        }),
{
    if oracle.admin != *admin {
        return Err(ErrorCode::Unauthorized);
    }
    oracle.price = price;
    oracle.updated_slot = current_slot;
    Ok(())
}

/// Opens a position for `owner`, overwriting the owner's position record.
///
/// Refused with `MarketNotActive` unless the market is active, and then with
/// `InvalidLeverage` unless the leverage is 1, 2 or 3. The collateral is the
/// size divided by the leverage, rounded down, so that
/// `collateral * leverage <= size < collateral * leverage + leverage`; the
/// position enters at the market's `t0_price` and gets one token per unit of
/// size.
pub fn mint_cfd(
    market: &Market,
    position: &mut Position,
    owner: Pubkey,
    position_side: PositionSide,
    size: u64,
    leverage: u8,
    bump: u8,
) -> (result: Result<OpenedPosition, ErrorCode>)
    ensures
        market.status != MarketStatus::Active ==> result == Err::<OpenedPosition, ErrorCode>(
            ErrorCode::MarketNotActive,
        ),
        market.status == MarketStatus::Active && !(1 <= leverage <= 3) ==> result == Err::<
            OpenedPosition,
            ErrorCode,
        >(ErrorCode::InvalidLeverage),
        market.status == MarketStatus::Active && 1 <= leverage <= 3 ==> result == Ok::<
            OpenedPosition,
            ErrorCode,
        >(OpenedPosition { collateral: collateral_needed(size, leverage) as u64, cfd_tokens: size }),
        result is Err ==> *final(position) == *old(position),
        result is Ok ==> *final(position) == (Position {
            owner,
            side: position_side,
            size,
            entry_price: market.t0_price,
            cfd_tokens: size,
            leverage,
            collateral: collateral_needed(size, leverage) as u64,
            liquidated: false,
            liquidated_slot: 0,
            bump,
        }),
        result is Ok ==> final(position).collateral * leverage <= size < final(position).collateral
            * leverage + leverage,
{
    if market.status != MarketStatus::Active {
        return Err(ErrorCode::MarketNotActive);
    }
    if !(leverage >= 1 && leverage <= 3) {
        return Err(ErrorCode::InvalidLeverage);
    }
    let collateral: u64 = size / (leverage as u64);
    proof {
        lemma_collateral_bounds(size, leverage);
    }
    position.owner = owner;
    position.side = position_side;
    position.size = size;
    position.entry_price = market.t0_price;
    position.cfd_tokens = size;
    position.leverage = leverage;
    position.collateral = collateral;
    position.liquidated = false;
    position.liquidated_slot = 0;
    position.bump = bump;
    Ok(OpenedPosition { collateral, cfd_tokens: size })
}

/// For every size and every leverage from 1 to 3, the collateral times the
/// leverage reaches the size from below and misses it by less than the
/// leverage.
pub proof fn lemma_collateral_bounds(size: u64, leverage: u8)
    requires
        1 <= leverage <= 3,
    ensures
        0 <= collateral_needed(size, leverage) <= size,
        collateral_needed(size, leverage) * leverage <= size < collateral_needed(size, leverage)
            * leverage + leverage,
{
    lemma_quotient_bounds(size as int, leverage as int);
    assert(collateral_needed(size, leverage) * leverage == leverage * collateral_needed(
        size,
        leverage,
    )) by (nonlinear_arith);
}

/// A collateral value of at least the size is a ratio of at least 10000
/// basis points.
proof fn lemma_ratio_of_large_value(value: int, size: u64)
    requires
        size > 0,
        value >= size,
    ensures
        ratio_bps(value, size) >= 10_000,
{
    assert((value * 10_000) / (size as int) >= 10_000) by (nonlinear_arith)
        requires
            size > 0,
            value >= size,
    ;
}

/// Liquidates a position whose collateral ratio at the oracle's price has
/// fallen under the maintenance threshold.
///
/// Refused with `PositionAlreadyLiquidated` if the position is liquidated
/// already, and with `PositionHealthy` unless its collateral ratio is under
/// `MAINTENANCE_THRESHOLD_BPS`. Otherwise the position is marked liquidated at
/// `current_slot`; a hundredth of the collateral value goes to the liquidator,
/// the rest to the owner, and all the position's tokens are burned.
///
/// The position must admit the liquidation (`Position::admits_liquidation`,
/// which `can_liquidate` tests).
pub fn liquidate_position(
    position: &mut Position,
    oracle: &OracleMock,
    current_slot: u64,
) -> (result: Result<Liquidation, ErrorCode>)
    requires
        old(position).admits_liquidation(),
    ensures
        old(position).liquidated ==> result == Err::<Liquidation, ErrorCode>(
            ErrorCode::PositionAlreadyLiquidated,
        ),
        !old(position).liquidated && !old(position).is_liquidatable(oracle.price) ==> result
            == Err::<Liquidation, ErrorCode>(ErrorCode::PositionHealthy),
        !old(position).liquidated && old(position).is_liquidatable(oracle.price) ==> result
            == Ok::<Liquidation, ErrorCode>(old(position).liquidation(oracle.price)),
        result is Err ==> *final(position) == *old(position),
        result is Ok ==> *final(position) == (Position {
            liquidated: true,
            liquidated_slot: current_slot,
            ..*old(position)
        }),
        result matches Ok(moved) ==> {
            &&& moved.collateral_ratio_bps == old(position).collateral_ratio_bps(oracle.price)
            &&& moved.collateral_ratio_bps < MAINTENANCE_THRESHOLD_BPS
            &&& moved.liquidation_bonus == old(position).collateral_value(oracle.price) / 100
            &&& moved.liquidation_bonus + moved.remaining_to_user == old(position).collateral_value(
                oracle.price,
            )
        },
{
    if position.liquidated {
        return Err(ErrorCode::PositionAlreadyLiquidated);
    }
    let current_price = oracle.price;
    let entry_price = position.entry_price;
    let price_diff: u64 = if current_price > entry_price {
        current_price - entry_price
    } else {
        entry_price - current_price
    };
    let magnitude: u128 = mul_div(price_diff, position.size, entry_price as u128);
    let in_favor = match position.side {
        PositionSide::Long => current_price > entry_price,
        PositionSide::Short => current_price < entry_price,
    };
    let value: u128 = if in_favor {
        position.collateral as u128 + magnitude
    } else if magnitude > position.collateral as u128 {
        0
    } else {
        position.collateral as u128 - magnitude
    };
    if value > u64::MAX as u128 {
        proof {
            lemma_ratio_of_large_value(value as int, position.size);
        }
        return Err(ErrorCode::PositionHealthy);
    }
    let ratio: u128 = value * 10_000 / (position.size as u128);
    if ratio >= MAINTENANCE_THRESHOLD_BPS as u128 {
        return Err(ErrorCode::PositionHealthy);
    }
    let bonus: u64 = (value / (LIQUIDATION_BONUS_DIVISOR as u128)) as u64;
    let remaining: u64 = (value as u64) - bonus;
    position.liquidated = true;
    position.liquidated_slot = current_slot;
    Ok(
        Liquidation {
            collateral_ratio_bps: ratio as u64,
            liquidation_bonus: bonus,
            remaining_to_user: remaining,
            cfd_tokens_burned: position.cfd_tokens,
        },
    )
}

/// Settles a position against a settled market.
///
/// Refused with `MarketNotSettled` unless the market is settled. Otherwise the
/// owner is paid the position's profit at the settlement price, nothing where
/// the price did not move in its favor, and all the position's tokens are
/// burned. Closing the record is the ledger's part.
///
/// The position must admit the settlement (`Position::admits_settlement`,
/// which `can_settle` tests).
pub fn settle_market(market: &Market, position: &Position) -> (result: Result<
    Settlement,
    ErrorCode,
>)
    requires
        position.admits_settlement(*market),
    ensures
        market.status != MarketStatus::Settled ==> result == Err::<Settlement, ErrorCode>(
            ErrorCode::MarketNotSettled,
        ),
        market.status == MarketStatus::Settled ==> result == Ok::<Settlement, ErrorCode>(
            Settlement {
                payout: position.settlement_pnl(market.t0_price, market.t2_price) as u64,
                cfd_tokens_burned: position.cfd_tokens,
            },
        ),
{
    if market.status != MarketStatus::Settled {
        return Err(ErrorCode::MarketNotSettled);
    }
    let in_favor = match position.side {
        PositionSide::Long => market.t2_price > market.t0_price,
        PositionSide::Short => market.t2_price < market.t0_price,
    };
    let payout: u64 = if in_favor {
        let price_diff: u64 = if market.t2_price > market.t0_price {
            market.t2_price - market.t0_price
        } else {
            market.t0_price - market.t2_price
        };
        mul_div(price_diff, position.size, market.t0_price as u128) as u64
    } else {
        0
    };
    Ok(Settlement { payout, cfd_tokens_burned: position.cfd_tokens })
}

/// A position whose collateral ratio stands exactly at the maintenance
/// threshold may not be liquidated; one basis point under it, it may.
pub proof fn lemma_liquidation_threshold(position: Position, price: u64)
    ensures
        position.collateral_ratio_bps(price) == MAINTENANCE_THRESHOLD_BPS
            ==> !position.is_liquidatable(price),
        position.collateral_ratio_bps(price) == MAINTENANCE_THRESHOLD_BPS - 1
            ==> position.is_liquidatable(price),
        position.is_liquidatable(price) <==> position.collateral_ratio_bps(price)
            < MAINTENANCE_THRESHOLD_BPS,
{
}

/// Tests `Position::admits_liquidation`.
pub fn can_liquidate(position: &Position) -> (ok: bool)
    ensures
        ok == position.admits_liquidation(),
{
    position.liquidated || (position.entry_price > 0 && position.size > 0)
}

/// Tests `Position::admits_settlement`.
pub fn can_settle(market: &Market, position: &Position) -> (ok: bool)
    ensures
        ok == position.admits_settlement(*market),
{
    if market.status != MarketStatus::Settled {
        return true;
    }
    let in_favor = match position.side {
        PositionSide::Long => market.t2_price > market.t0_price,
        PositionSide::Short => market.t2_price < market.t0_price,
    };
    if !in_favor {
        return true;
    }
    if market.t0_price == 0 {
        return false;
    }
    let price_diff: u64 = if market.t2_price > market.t0_price {
        market.t2_price - market.t0_price
    } else {
        market.t0_price - market.t2_price
    };
    mul_div(price_diff, position.size, market.t0_price as u128) <= u64::MAX as u128
}

} // verus!
