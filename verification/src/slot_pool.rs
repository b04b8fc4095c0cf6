//! The settlement-slot pool: two reserves, stablecoin against settlement
//! slots, the constant-product quote and a flat fee, without liquidity
//! tokens.

use vstd::prelude::*;
use crate::amm::{
    amount_after_fee, lemma_quote_bounds, quote_output, swap_fee, swap_output, BPS_DENOMINATOR,
};
use crate::assets::{symbol_fits, symbol_is_valid, AssetType, MAX_SETTLEMENT_DAYS};
use crate::errors::ErrorCode;
use crate::keys::Pubkey;
use crate::math::mul_div;

verus! {

/// Largest fee rate of a pool, in basis points.
pub const MAX_POOL_FEE_BPS: u16 = 1000;

/// The pool record. Token A is the stablecoin, token B the settlement slots.
#[derive(Clone, Debug, PartialEq, Eq)]
pub struct SettlementSlotPool {
    pub pool_id: u64,
    pub asset_symbol: String,
    pub asset_type: AssetType,
    pub settlement_time: u64,
    pub token_a_mint: Pubkey,
    pub token_b_mint: Pubkey,
    pub token_a_vault: Pubkey,
    pub token_b_vault: Pubkey,
    /// Reserve of stablecoin.
    pub token_a_amount: u64,
    /// Reserve of settlement slots.
    pub token_b_amount: u64,
    /// Flat fee on a swap's input, in basis points.
    pub fee_rate: u16,
    pub pool_authority: Pubkey,
    pub created_slot: u64,
    pub is_active: bool,
    pub bump: u8,
}

/// Why a pool cannot be created, if it cannot: the symbol is tested first,
/// then the settlement offset, then the fee rate.
pub open spec fn pool_refusal(asset_symbol: Seq<char>, settlement_time: u64, fee_rate: u16) -> Option<
    ErrorCode,
> {
    if !symbol_fits(asset_symbol) {
        Some(ErrorCode::InvalidAssetSymbol)
    } else if settlement_time > MAX_SETTLEMENT_DAYS {
        Some(ErrorCode::InvalidSettlementTime)
    } else if fee_rate > MAX_POOL_FEE_BPS {
        Some(ErrorCode::InvalidFeeRate)
    } else {
        None
    }
}

/// Creates an empty, active pool for an asset and a settlement offset, with
/// `current_slot` as its id.
///
/// Refused with `InvalidAssetSymbol` if the symbol is longer than ten bytes,
/// then with `InvalidSettlementTime` if the offset is over 365 days, then
/// with `InvalidFeeRate` if the fee is over `MAX_POOL_FEE_BPS`; a refusal
/// leaves the record unchanged.
pub fn create_settlement_slot_pool(
    pool: &mut SettlementSlotPool,
    asset_symbol: String,
    asset_type: AssetType,
    settlement_time: u64,
    fee_rate: u16,
    token_a_mint: Pubkey,
    token_b_mint: Pubkey,
    token_a_vault: Pubkey,
    token_b_vault: Pubkey,
    pool_authority: Pubkey,
    bump: u8,
    current_slot: u64,
) -> (result: Result<(), ErrorCode>)
    ensures
        match pool_refusal(asset_symbol@, settlement_time, fee_rate) {
            Some(e) => result == Err::<(), ErrorCode>(e) && *final(pool) == *old(pool),
            None => result is Ok && *final(pool) == (SettlementSlotPool {
                pool_id: current_slot,
                asset_symbol,
                asset_type,
                settlement_time,
                token_a_mint,
                token_b_mint,
                token_a_vault,
                token_b_vault,
                token_a_amount: 0,
                token_b_amount: 0,
                fee_rate,
                pool_authority,
                created_slot: current_slot,
                is_active: true,
                bump,
            }),
        },
{
    if !symbol_is_valid(&asset_symbol) {
        return Err(ErrorCode::InvalidAssetSymbol);
    }
    if settlement_time > MAX_SETTLEMENT_DAYS {
        return Err(ErrorCode::InvalidSettlementTime);
    }
    if fee_rate > MAX_POOL_FEE_BPS {
        return Err(ErrorCode::InvalidFeeRate);
    }
    pool.pool_id = current_slot;
    pool.asset_symbol = asset_symbol;
    pool.asset_type = asset_type;
    pool.settlement_time = settlement_time;
    pool.token_a_mint = token_a_mint;
    pool.token_b_mint = token_b_mint;
    pool.token_a_vault = token_a_vault;
    pool.token_b_vault = token_b_vault;
    pool.token_a_amount = 0;
    pool.token_b_amount = 0;
    pool.fee_rate = fee_rate;
    pool.pool_authority = pool_authority;
    pool.created_slot = current_slot;
    pool.is_active = true;
    pool.bump = bump;
    Ok(())
}

/// Why liquidity cannot be added, if it cannot: the pool must be active, and
/// each reserve must stay within 64 bits.
pub open spec fn deposit_refusal(
    pool: SettlementSlotPool,
    usdc_amount: u64,
    slot_nft_amount: u64,
) -> Option<ErrorCode> {
    if !pool.is_active {
        Some(ErrorCode::PoolInactive)
    } else if pool.token_a_amount + usdc_amount > u64::MAX {
        Some(ErrorCode::MathOverflow)
    } else if pool.token_b_amount + slot_nft_amount > u64::MAX {
        Some(ErrorCode::MathOverflow)
    } else {
        None
    }
}

/// Adds both amounts to the pool's reserves.
///
/// Refused with `PoolInactive` unless the pool is active, and with
/// `MathOverflow` if a reserve would leave 64 bits; a refusal leaves the pool
/// unchanged.
pub fn add_liquidity_to_pool(
    pool: &mut SettlementSlotPool,
    usdc_amount: u64,
    slot_nft_amount: u64,
) -> (result: Result<(), ErrorCode>)
    ensures
        match deposit_refusal(*old(pool), usdc_amount, slot_nft_amount) {
            Some(e) => result == Err::<(), ErrorCode>(e) && *final(pool) == *old(pool),
            None => result is Ok && *final(pool) == (SettlementSlotPool {
                token_a_amount: (old(pool).token_a_amount + usdc_amount) as u64,
                token_b_amount: (old(pool).token_b_amount + slot_nft_amount) as u64,
                ..*old(pool)
            }),
        },
{
    if !pool.is_active {
        return Err(ErrorCode::PoolInactive);
    }
    let token_a_amount = match pool.token_a_amount.checked_add(usdc_amount) {
        Some(sum) => sum,
        None => {
            return Err(ErrorCode::MathOverflow);
        },
    };
    let token_b_amount = match pool.token_b_amount.checked_add(slot_nft_amount) {
        Some(sum) => sum,
        None => {
            return Err(ErrorCode::MathOverflow);
        },
    };
    pool.token_a_amount = token_a_amount;
    pool.token_b_amount = token_b_amount;
    Ok(())
}

impl SettlementSlotPool {
    /// Whether the swap can be computed: where the pool is active and the
    /// fee does not exceed the input, the stablecoin reserve and what the fee
    /// leaves of the input are not both zero.
    pub open spec fn admits_swap(&self, usdc_amount: u64) -> bool {
        self.is_active && swap_fee(usdc_amount, self.fee_rate) <= usdc_amount
            ==> self.token_a_amount + amount_after_fee(usdc_amount, self.fee_rate) > 0
    }

    /// Slots that the pool quotes for `usdc_amount`: the market maker's
    /// quote, with the stablecoin reserve as input reserve, the slot reserve
    /// as output reserve and the pool's flat fee.
    pub open spec fn slots_for(&self, usdc_amount: u64) -> int {
        swap_output(usdc_amount, self.token_a_amount, self.token_b_amount, self.fee_rate)
    }
}

/// Why stablecoin cannot be swapped for slots, if it cannot. The pool must
/// be active; the fee must not exceed the input; the quote must reach
/// `min_slots_out`; and the stablecoin reserve must stay within 64 bits.
pub open spec fn slot_swap_refusal(
    pool: SettlementSlotPool,
    usdc_amount: u64,
    min_slots_out: u64,
) -> Option<ErrorCode> {
    if !pool.is_active {
        Some(ErrorCode::PoolInactive)
    } else if swap_fee(usdc_amount, pool.fee_rate) > usdc_amount {
        Some(ErrorCode::MathOverflow)
    } else if pool.slots_for(usdc_amount) < min_slots_out {
        Some(ErrorCode::InsufficientOutputAmount)
    } else if pool.token_a_amount + usdc_amount > u64::MAX {
        Some(ErrorCode::MathOverflow)
    } else {
        None
    }
}

/// Tests `SettlementSlotPool::admits_swap`.
pub fn can_swap_for_slots(pool: &SettlementSlotPool, usdc_amount: u64) -> (ok: bool)
    ensures
        ok == pool.admits_swap(usdc_amount),
{
    if !pool.is_active {
        return true;
    }
    let fee_amount: u128 = mul_div(usdc_amount, pool.fee_rate as u64, BPS_DENOMINATOR as u128);
    if fee_amount > usdc_amount as u128 {
        return true;
    }
    pool.token_a_amount > 0 || usdc_amount - fee_amount as u64 > 0
}

/// Swaps stablecoin for settlement slots at the constant-product quote.
///
/// Refused, the pool unchanged, with the fault that `slot_swap_refusal`
/// names. Otherwise the whole input joins the stablecoin reserve and the
/// quoted slots leave the slot reserve; the product of the reserves does not
/// fall. The result is the number of slots to hand out.
///
/// The pool must admit the swap (`SettlementSlotPool::admits_swap`, which
/// `can_swap_for_slots` tests).
pub fn swap_usdc_for_slots(pool: &mut SettlementSlotPool, usdc_amount: u64, min_slots_out: u64) -> (result:
    Result<u64, ErrorCode>)
    requires
        old(pool).admits_swap(usdc_amount),
    ensures
        match slot_swap_refusal(*old(pool), usdc_amount, min_slots_out) {
            Some(e) => result == Err::<u64, ErrorCode>(e) && *final(pool) == *old(pool),
            None => result == Ok::<u64, ErrorCode>(old(pool).slots_for(usdc_amount) as u64)
                && *final(pool) == (SettlementSlotPool {
                token_a_amount: (old(pool).token_a_amount + usdc_amount) as u64,
                token_b_amount: (old(pool).token_b_amount - old(pool).slots_for(usdc_amount)) as u64,
                ..*old(pool)
            }),
        },
        result is Ok ==> final(pool).token_a_amount * final(pool).token_b_amount >= old(
            pool,
        ).token_a_amount * old(pool).token_b_amount,
{
    if !pool.is_active {
        return Err(ErrorCode::PoolInactive);
    }
    let fee_amount: u128 = mul_div(usdc_amount, pool.fee_rate as u64, BPS_DENOMINATOR as u128);
    if fee_amount > usdc_amount as u128 {
        return Err(ErrorCode::MathOverflow);
    }
    let usdc_after_fee: u64 = usdc_amount - fee_amount as u64;
    let slots_out: u64 = quote_output(usdc_after_fee, pool.token_a_amount, pool.token_b_amount);
    if slots_out < min_slots_out {
        return Err(ErrorCode::InsufficientOutputAmount);
    }
    let token_a_amount = match pool.token_a_amount.checked_add(usdc_amount) {
        Some(sum) => sum,
        None => {
            return Err(ErrorCode::MathOverflow);
        },
    };
    proof {
        lemma_quote_bounds(
            usdc_after_fee as int,
            usdc_amount as int,
            pool.token_a_amount,
            pool.token_b_amount,
        );
    }
    pool.token_a_amount = token_a_amount;
    pool.token_b_amount = pool.token_b_amount - slots_out;
    Ok(slots_out)
}

} // verus!
