use seam::assets::{AssetType, PriceSource};
use seam::bets::{
    instant_t0_settlement, mint_settlement_slot_nft, place_bet, settlement_value_of,
    trade_settlement_slot, Bet, SettlementSlot, MIN_BET_AMOUNT,
};
use seam::errors::ErrorCode;
use seam::keys::Pubkey;
use seam::slot_pool::{
    add_liquidity_to_pool, create_settlement_slot_pool, swap_usdc_for_slots, SettlementSlotPool,
};
use seam::spot::{update_asset_price, MultiAssetOracle};

fn key(b: u8) -> Pubkey {
    Pubkey::new_from_array([b; 32])
}

fn blank_slot() -> SettlementSlot {
    SettlementSlot {
        slot_id: 0,
        asset_symbol: String::new(),
        asset_type: AssetType::Forex,
        settlement_time: 9,
        slot_duration: 0,
        owner: key(0),
        mint_price: 0,
        created_slot: 0,
        expiry_slot: 0,
        is_tradable: false,
        is_active: false,
        bump: 0,
    }
}

fn instant_slot() -> SettlementSlot {
    let mut slot = blank_slot();
    mint_settlement_slot_nft(
        &mut slot,
        key(1),
        String::from("BTC"),
        AssetType::Crypto,
        0,
        2,
        5_000_000,
        77,
        4,
        1_000,
    )
    .unwrap();
    slot
}

fn blank_bet() -> Bet {
    Bet {
        owner: key(0),
        bet_id: 0,
        asset_symbol: String::new(),
        asset_type: AssetType::Forex,
        bet_amount: 0,
        is_long: false,
        entry_price: 0,
        created_slot: 0,
        is_settled: true,
        settlement_value: 3,
        bump: 0,
    }
}

fn table_with(price: u64) -> MultiAssetOracle {
    let mut table =
        MultiAssetOracle { admin: key(9), asset_prices: vec![], updated_slot: 0, bump: 0 };
    update_asset_price(&mut table, &key(9), String::from("ETH"), AssetType::Crypto, 1, 1).unwrap();
    update_asset_price(&mut table, &key(9), String::from("BTC"), AssetType::Crypto, price, 1)
        .unwrap();
    table
}

fn bet_at(entry: u64, amount: u64, is_long: bool) -> Bet {
    let mut bet = blank_bet();
    place_bet(
        &mut bet,
        &table_with(entry),
        key(1),
        String::from("BTC"),
        AssetType::Crypto,
        amount,
        is_long,
        55,
        6,
        2_000,
    )
    .unwrap();
    bet
}

fn blank_pool() -> SettlementSlotPool {
    SettlementSlotPool {
        pool_id: 0,
        asset_symbol: String::new(),
        asset_type: AssetType::Forex,
        settlement_time: 0,
        token_a_mint: key(0),
        token_b_mint: key(0),
        token_a_vault: key(0),
        token_b_vault: key(0),
        token_a_amount: 5,
        token_b_amount: 5,
        fee_rate: 0,
        pool_authority: key(0),
        created_slot: 0,
        is_active: false,
        bump: 0,
    }
}

fn pool(fee_rate: u16) -> SettlementSlotPool {
    let mut pool = blank_pool();
    create_settlement_slot_pool(
        &mut pool,
        String::from("AAPL"),
        AssetType::Stock,
        2,
        fee_rate,
        key(1),
        key(2),
        key(3),
        key(4),
        key(5),
        6,
        900,
    )
    .unwrap();
    pool
}

#[test]
fn mint_settlement_slot_fills_the_record() {
    assert_eq!(
        instant_slot(),
        SettlementSlot {
            slot_id: 77,
            asset_symbol: String::from("BTC"),
            asset_type: AssetType::Crypto,
            settlement_time: 0,
            slot_duration: 2,
            owner: key(1),
            mint_price: 5_000_000,
            created_slot: 1_000,
            expiry_slot: 1_000 + 2 * 172_800,
            is_tradable: true,
            is_active: true,
            bump: 4,
        }
    );
}

#[test]
fn mint_settlement_slot_with_a_long_symbol_is_refused() {
    let mut slot = blank_slot();
    let result = mint_settlement_slot_nft(
        &mut slot,
        key(1),
        String::from("ABCDEFGHIJK"),
        AssetType::Stock,
        0,
        1,
        1,
        1,
        1,
        1,
    );
    assert_eq!(result, Err(ErrorCode::InvalidAssetSymbol));
    assert_eq!(slot, blank_slot());
    let result = mint_settlement_slot_nft(
        &mut slot,
        key(1),
        String::from("ABCDEFGHIJK"),
        AssetType::Stock,
        366,
        1,
        1,
        1,
        1,
        1,
    );
    assert_eq!(result, Err(ErrorCode::InvalidAssetSymbol));
}

#[test]
fn mint_settlement_slot_past_a_year_is_refused() {
    let mut slot = blank_slot();
    let result = mint_settlement_slot_nft(
        &mut slot,
        key(1),
        String::from("ABCDEFGHIJ"),
        AssetType::Stock,
        366,
        1,
        1,
        1,
        1,
        1,
    );
    assert_eq!(result, Err(ErrorCode::InvalidSettlementTime));
    assert_eq!(slot, blank_slot());
    let result = mint_settlement_slot_nft(
        &mut slot,
        key(1),
        String::from("ABCDEFGHIJ"),
        AssetType::Stock,
        365,
        0,
        1,
        1,
        1,
        u64::MAX,
    );
    assert_eq!(result, Ok(()));
    assert_eq!(slot.expiry_slot, u64::MAX);
    assert_eq!(slot.settlement_time, 365);
}

#[test]
fn trade_settlement_slot_passes_owner_and_price() {
    let mut slot = instant_slot();
    assert_eq!(trade_settlement_slot(&mut slot, &key(1), key(2), 6_000_000), Ok(()));
    assert_eq!(slot, SettlementSlot { owner: key(2), mint_price: 6_000_000, ..instant_slot() });
}

#[test]
fn trade_settlement_slot_refusals_come_in_order() {
    let mut slot = SettlementSlot { is_tradable: false, is_active: false, ..instant_slot() };
    let before = slot.clone();
    assert_eq!(
        trade_settlement_slot(&mut slot, &key(2), key(3), 1),
        Err(ErrorCode::Unauthorized)
    );
    assert_eq!(
        trade_settlement_slot(&mut slot, &key(1), key(3), 1),
        Err(ErrorCode::SlotNotTradable)
    );
    assert_eq!(slot, before);
    slot.is_tradable = true;
    assert_eq!(trade_settlement_slot(&mut slot, &key(1), key(3), 1), Err(ErrorCode::SlotExpired));
    assert_eq!(slot.owner, key(1));
}

#[test]
fn place_bet_snapshots_the_spot_price() {
    assert_eq!(
        bet_at(100_000_000, 10_000_000, true),
        Bet {
            owner: key(1),
            bet_id: 55,
            asset_symbol: String::from("BTC"),
            asset_type: AssetType::Crypto,
            bet_amount: 10_000_000,
            is_long: true,
            entry_price: 100_000_000,
            created_slot: 2_000,
            is_settled: false,
            settlement_value: 0,
            bump: 6,
        }
    );
    assert_eq!(MIN_BET_AMOUNT, 10_000_000);
}

#[test]
fn place_bet_under_the_minimum_is_refused() {
    let mut bet = blank_bet();
    let result = place_bet(
        &mut bet,
        &table_with(1),
        key(1),
        String::from("BTC"),
        AssetType::Crypto,
        9_999_999,
        true,
        55,
        6,
        2_000,
    );
    assert_eq!(result, Err(ErrorCode::BetAmountTooSmall));
    assert_eq!(bet, blank_bet());
    let result = place_bet(
        &mut bet,
        &table_with(1),
        key(1),
        String::from("DOGE"),
        AssetType::Crypto,
        9_999_999,
        true,
        55,
        6,
        2_000,
    );
    assert_eq!(result, Err(ErrorCode::BetAmountTooSmall));
}

#[test]
fn place_bet_on_an_unknown_asset_is_refused() {
    let mut bet = blank_bet();
    let result = place_bet(
        &mut bet,
        &table_with(1),
        key(1),
        String::from("BTC"),
        AssetType::Stock,
        10_000_000,
        true,
        55,
        6,
        2_000,
    );
    assert_eq!(result, Err(ErrorCode::AssetNotFound));
    assert_eq!(bet, blank_bet());
}

#[test]
fn settlement_value_follows_the_price() {
    // a rise of 10%: 100000 parts in a million
    assert_eq!(settlement_value_of(10_000_000, true, 100_000_000, 110_000_000), Some(11_000_000));
    assert_eq!(settlement_value_of(10_000_000, false, 100_000_000, 110_000_000), Some(9_000_000));
    assert_eq!(settlement_value_of(10_000_000, true, 100_000_000, 90_000_000), Some(9_000_000));
    assert_eq!(settlement_value_of(10_000_000, false, 100_000_000, 90_000_000), Some(11_000_000));
    assert_eq!(settlement_value_of(10_000_000, true, 100_000_000, 100_000_000), Some(10_000_000));
    assert_eq!(settlement_value_of(10_000_000, false, 100_000_000, 100_000_000), Some(10_000_000));
    // the change is rounded down to parts in a million, then the profit is
    assert_eq!(settlement_value_of(10_000_001, true, 3, 4), Some(13_333_331));
    assert_eq!(settlement_value_of(7, true, 3_000_000, 3_000_001), Some(7));
}

#[test]
fn a_loss_never_takes_more_than_the_amount() {
    assert_eq!(settlement_value_of(10_000_000, false, 100, 200), Some(0));
    assert_eq!(settlement_value_of(10_000_000, false, 100, 300), Some(0));
    assert_eq!(settlement_value_of(10_000_000, true, 100, 0), Some(0));
    assert_eq!(settlement_value_of(u64::MAX, false, 1, u64::MAX), Some(0));
    assert_eq!(settlement_value_of(0, false, 1, u64::MAX), Some(0));
}

#[test]
fn a_profit_past_64_bits_has_no_value() {
    assert_eq!(settlement_value_of(u64::MAX, true, 1, 2), None);
    assert_eq!(settlement_value_of(u64::MAX, true, 1, u64::MAX), None);
    assert_eq!(settlement_value_of(1 << 63, true, 2, 3), Some(3 << 62));
    assert_eq!(settlement_value_of(0, true, 1, u64::MAX), Some(0));
    assert_eq!(settlement_value_of(u64::MAX, true, u64::MAX, u64::MAX), Some(u64::MAX));
}

#[test]
fn instant_settlement_marks_the_bet_settled() {
    let mut bet = bet_at(100_000_000, 10_000_000, true);
    let result =
        instant_t0_settlement(&mut bet, &instant_slot(), &table_with(110_000_000), &key(1), 55, 77);
    assert_eq!(result, Ok(11_000_000));
    assert_eq!(
        bet,
        Bet {
            is_settled: true,
            settlement_value: 11_000_000,
            ..bet_at(100_000_000, 10_000_000, true)
        }
    );
    let before = bet.clone();
    let again =
        instant_t0_settlement(&mut bet, &instant_slot(), &table_with(90_000_000), &key(1), 55, 77);
    assert_eq!(again, Err(ErrorCode::BetAlreadySettled));
    assert_eq!(bet, before);
}

#[test]
fn instant_settlement_of_a_losing_short_bet() {
    let mut bet = bet_at(100_000_000, 10_000_000, false);
    let result =
        instant_t0_settlement(&mut bet, &instant_slot(), &table_with(350_000_000), &key(1), 55, 77);
    assert_eq!(result, Ok(0));
    assert!(bet.is_settled);
    assert_eq!(bet.settlement_value, 0);
}

#[test]
fn instant_settlement_refusals_come_in_order() {
    let bet = bet_at(100_000_000, 10_000_000, true);
    let table = table_with(110_000_000);
    let good = instant_slot();
    let check = |slot: &SettlementSlot, bet: &Bet, user: u8, bet_id: u64, slot_id: u64| {
        let mut b = bet.clone();
        let result = instant_t0_settlement(&mut b, slot, &table, &key(user), bet_id, slot_id);
        if result.is_err() {
            assert_eq!(&b, bet);
        }
        result
    };
    let bad_bet = Bet {
        bet_id: 56,
        owner: key(2),
        is_settled: true,
        asset_symbol: String::from("DOGE"),
        ..bet.clone()
    };
    let bad_slot = SettlementSlot { is_active: false, settlement_time: 1, ..good.clone() };

    assert_eq!(check(&bad_slot, &bad_bet, 2, 55, 78), Err(ErrorCode::InvalidSettlementSlot));
    assert_eq!(check(&bad_slot, &bad_bet, 2, 55, 77), Err(ErrorCode::Unauthorized));
    assert_eq!(check(&bad_slot, &bad_bet, 1, 55, 77), Err(ErrorCode::SlotExpired));
    let inactive_fixed = SettlementSlot { is_active: true, ..bad_slot.clone() };
    assert_eq!(check(&inactive_fixed, &bad_bet, 1, 55, 77), Err(ErrorCode::NotInstantSettlement));
    assert_eq!(check(&good, &bad_bet, 1, 55, 77), Err(ErrorCode::InvalidBetId));
    assert_eq!(check(&good, &bad_bet, 1, 56, 77), Err(ErrorCode::Unauthorized));
    let owned = Bet { owner: key(1), ..bad_bet.clone() };
    assert_eq!(check(&good, &owned, 1, 56, 77), Err(ErrorCode::BetAlreadySettled));
    let open = Bet { is_settled: false, ..owned.clone() };
    assert_eq!(check(&good, &open, 1, 56, 77), Err(ErrorCode::AssetNotFound));
    assert_eq!(check(&good, &bet, 1, 55, 77), Ok(11_000_000));
}

#[test]
fn create_settlement_slot_pool_is_empty_and_active() {
    assert_eq!(
        pool(30),
        SettlementSlotPool {
            pool_id: 900,
            asset_symbol: String::from("AAPL"),
            asset_type: AssetType::Stock,
            settlement_time: 2,
            token_a_mint: key(1),
            token_b_mint: key(2),
            token_a_vault: key(3),
            token_b_vault: key(4),
            token_a_amount: 0,
            token_b_amount: 0,
            fee_rate: 30,
            pool_authority: key(5),
            created_slot: 900,
            is_active: true,
            bump: 6,
        }
    );
    assert_eq!(pool(1000).fee_rate, 1000);
}

#[test]
fn create_settlement_slot_pool_refusals_come_in_order() {
    let create = |symbol: &str, time: u64, fee: u16| {
        let mut p = blank_pool();
        let result = create_settlement_slot_pool(
            &mut p,
            String::from(symbol),
            AssetType::Stock,
            time,
            fee,
            key(1),
            key(2),
            key(3),
            key(4),
            key(5),
            6,
            900,
        );
        if result.is_err() {
            assert_eq!(p, blank_pool());
        }
        result
    };
    assert_eq!(create("ABCDEFGHIJK", 366, 1001), Err(ErrorCode::InvalidAssetSymbol));
    assert_eq!(create("ABCDEFGHIJ", 366, 1001), Err(ErrorCode::InvalidSettlementTime));
    assert_eq!(create("ABCDEFGHIJ", 365, 1001), Err(ErrorCode::InvalidFeeRate));
    assert_eq!(create("ABCDEFGHIJ", 365, 1000), Ok(()));
}

#[test]
fn add_liquidity_to_pool_adds_to_both_reserves() {
    let mut p = pool(30);
    assert_eq!(add_liquidity_to_pool(&mut p, 1_000, 500), Ok(()));
    assert_eq!(add_liquidity_to_pool(&mut p, 1, 2), Ok(()));
    assert_eq!(p, SettlementSlotPool { token_a_amount: 1_001, token_b_amount: 502, ..pool(30) });
}

#[test]
fn add_liquidity_to_pool_refuses_an_inactive_pool_and_an_overflow() {
    let mut p = SettlementSlotPool { is_active: false, ..pool(30) };
    assert_eq!(add_liquidity_to_pool(&mut p, u64::MAX, u64::MAX), Err(ErrorCode::PoolInactive));
    let full = SettlementSlotPool { token_a_amount: u64::MAX - 1, token_b_amount: 10, ..pool(30) };
    let mut p = full.clone();
    assert_eq!(add_liquidity_to_pool(&mut p, 2, 1), Err(ErrorCode::MathOverflow));
    assert_eq!(p, full);
    assert_eq!(add_liquidity_to_pool(&mut p, 1, u64::MAX - 9), Err(ErrorCode::MathOverflow));
    assert_eq!(p, full);
    assert_eq!(add_liquidity_to_pool(&mut p, 1, u64::MAX - 10), Ok(()));
    assert_eq!(p.token_a_amount, u64::MAX);
    assert_eq!(p.token_b_amount, u64::MAX);
}

#[test]
fn swap_usdc_for_slots_uses_the_constant_product_quote() {
    let mut p = SettlementSlotPool { token_a_amount: 1_000, token_b_amount: 500, ..pool(30) };
    // fee 100 * 30 / 10000 = 0, out 100 * 500 / 1100 = 45
    assert_eq!(swap_usdc_for_slots(&mut p, 100, 45), Ok(45));
    assert_eq!(p, SettlementSlotPool { token_a_amount: 1_100, token_b_amount: 455, ..pool(30) });

    let mut p = SettlementSlotPool { token_a_amount: 1_000_000, token_b_amount: 1_000_000, ..pool(1000) };
    // fee 10000 * 1000 / 10000 = 1000, out 9000 * 1000000 / 1009000 = 8919
    assert_eq!(swap_usdc_for_slots(&mut p, 10_000, 0), Ok(8_919));
    assert_eq!(p.token_a_amount, 1_010_000);
    assert_eq!(p.token_b_amount, 991_081);
}

#[test]
fn swap_usdc_for_slots_refusals() {
    let stocked = SettlementSlotPool { token_a_amount: 1_000, token_b_amount: 500, ..pool(30) };

    let mut p = SettlementSlotPool { is_active: false, ..stocked.clone() };
    assert_eq!(swap_usdc_for_slots(&mut p, 100, 0), Err(ErrorCode::PoolInactive));

    let mut p = SettlementSlotPool { fee_rate: 10_001, ..stocked.clone() };
    assert_eq!(swap_usdc_for_slots(&mut p, 10_000, 0), Err(ErrorCode::MathOverflow));

    let mut p = stocked.clone();
    assert_eq!(swap_usdc_for_slots(&mut p, 100, 46), Err(ErrorCode::InsufficientOutputAmount));
    assert_eq!(p, stocked);

    let full = SettlementSlotPool { token_a_amount: u64::MAX - 5, ..stocked.clone() };
    let mut p = full.clone();
    assert_eq!(swap_usdc_for_slots(&mut p, 6, 0), Err(ErrorCode::MathOverflow));
    assert_eq!(p, full);
    assert_eq!(swap_usdc_for_slots(&mut p, 5, 0), Ok(0));
    assert_eq!(p.token_a_amount, u64::MAX);
}

#[test]
fn price_source_of_a_manual_entry() {
    let table = table_with(5);
    assert_eq!(table.asset_prices[1].source, PriceSource::Manual);
}

#[test]
fn a_winning_bet_never_loses_and_a_losing_bet_never_wins() {
    for entry in [1u64, 7, 100, 1_000_000] {
        for current in [0u64, 1, 6, 7, 8, 99, 100, 101, 2_000_000] {
            for is_long in [true, false] {
                let amount = 10_000_000u64;
                let value = settlement_value_of(amount, is_long, entry, current).unwrap();
                let wins = if is_long { current > entry } else { current < entry };
                if wins {
                    assert!(value >= amount);
                } else {
                    assert!(value <= amount);
                }
            }
        }
    }
}
