use seam::errors::ErrorCode;
use seam::keys::Pubkey;
use seam::market::{
    init_market, init_oracle, liquidate_position, mint_cfd, settle_market, update_oracle,
    Liquidation, Market, MarketStatus, OpenedPosition, OracleMock, Position, PositionSide,
    Settlement, INITIAL_ORACLE_PRICE, MARKET_LIFETIME_SLOTS,
};

fn key(b: u8) -> Pubkey {
    Pubkey::new_from_array([b; 32])
}

fn blank_market() -> Market {
    Market {
        t0_price: 0,
        t2_price: 0,
        expiry_slot: 0,
        status: MarketStatus::Settled,
        usdc_vault: key(0),
        bump: 0,
    }
}

fn blank_position() -> Position {
    Position {
        owner: key(0),
        side: PositionSide::Short,
        size: 0,
        entry_price: 0,
        cfd_tokens: 0,
        leverage: 0,
        collateral: 0,
        liquidated: true,
        liquidated_slot: 77,
        bump: 0,
    }
}

fn oracle_at(price: u64) -> OracleMock {
    OracleMock { admin: key(9), price, updated_slot: 0 }
}

fn active_market(price: u64) -> Market {
    let mut market = blank_market();
    init_market(&mut market, &oracle_at(price), key(5), 254, 1_000);
    market
}

fn open(side: PositionSide, size: u64, leverage: u8, price: u64) -> Position {
    let market = active_market(price);
    let mut position = blank_position();
    mint_cfd(&market, &mut position, key(1), side, size, leverage, 3).unwrap();
    position
}

#[test]
fn init_market_takes_the_oracle_price_and_expires_after_the_lifetime() {
    let market = active_market(50_000);
    assert_eq!(
        market,
        Market {
            t0_price: 50_000,
            t2_price: 50_000,
            expiry_slot: 1_000 + 172_800,
            status: MarketStatus::Active,
            usdc_vault: key(5),
            bump: 254,
        }
    );
    assert_eq!(MARKET_LIFETIME_SLOTS, 172_800);
}

#[test]
fn init_market_overwrites_a_settled_market() {
    let mut market = active_market(50_000);
    market.status = MarketStatus::Settled;
    market.t2_price = 60_000;
    init_market(&mut market, &oracle_at(70_000), key(6), 1, 5);
    assert_eq!(market.status, MarketStatus::Active);
    assert_eq!(market.t0_price, 70_000);
    assert_eq!(market.t2_price, 70_000);
    assert_eq!(market.expiry_slot, 172_805);
    assert_eq!(market.usdc_vault, key(6));
}

#[test]
fn init_market_at_the_last_slot_that_fits() {
    let mut market = blank_market();
    init_market(&mut market, &oracle_at(1), key(5), 0, u64::MAX - 172_800);
    assert_eq!(market.expiry_slot, u64::MAX);
}

#[test]
fn init_oracle_starts_at_the_initial_price() {
    let mut oracle = oracle_at(1);
    init_oracle(&mut oracle, key(4), 42);
    assert_eq!(oracle, OracleMock { admin: key(4), price: 50_000, updated_slot: 42 });
    assert_eq!(INITIAL_ORACLE_PRICE, 50_000);
}

#[test]
fn update_oracle_by_admin_overwrites_price_and_slot() {
    let mut oracle = oracle_at(50_000);
    assert_eq!(update_oracle(&mut oracle, &key(9), 61_000, 12), Ok(()));
    assert_eq!(oracle, OracleMock { admin: key(9), price: 61_000, updated_slot: 12 });
}

#[test]
fn update_oracle_by_a_stranger_is_unauthorized() {
    let mut oracle = oracle_at(50_000);
    assert_eq!(update_oracle(&mut oracle, &key(8), 61_000, 12), Err(ErrorCode::Unauthorized));
    assert_eq!(oracle, oracle_at(50_000));
}

#[test]
fn mint_cfd_fills_the_position() {
    let market = active_market(50_000);
    let mut position = blank_position();
    let opened = mint_cfd(&market, &mut position, key(1), PositionSide::Long, 300, 3, 7);
    assert_eq!(opened, Ok(OpenedPosition { collateral: 100, cfd_tokens: 300 }));
    assert_eq!(
        position,
        Position {
            owner: key(1),
            side: PositionSide::Long,
            size: 300,
            entry_price: 50_000,
            cfd_tokens: 300,
            leverage: 3,
            collateral: 100,
            liquidated: false,
            liquidated_slot: 0,
            bump: 7,
        }
    );
}

#[test]
fn collateral_is_size_over_leverage_rounded_down() {
    for (size, leverage, collateral) in [
        (300u64, 1u8, 300u64),
        (300, 2, 150),
        (300, 3, 100),
        (301, 3, 100),
        (302, 3, 100),
        (7, 2, 3),
        (2, 3, 0),
        (0, 3, 0),
        (u64::MAX, 1, u64::MAX),
        (u64::MAX, 2, 9_223_372_036_854_775_807),
        (u64::MAX, 3, 6_148_914_691_236_517_205),
    ] {
        let position = open(PositionSide::Long, size, leverage, 50_000);
        assert_eq!(position.collateral, collateral);
        let product = position.collateral as u128 * leverage as u128;
        assert!(product <= size as u128);
        assert!((size as u128) < product + leverage as u128);
    }
}

#[test]
fn mint_cfd_on_a_settled_market_is_refused() {
    let mut market = active_market(50_000);
    market.status = MarketStatus::Settled;
    let mut position = blank_position();
    let result = mint_cfd(&market, &mut position, key(1), PositionSide::Long, 300, 3, 7);
    assert_eq!(result, Err(ErrorCode::MarketNotActive));
    assert_eq!(position, blank_position());
}

#[test]
fn mint_cfd_tests_the_market_before_the_leverage() {
    let mut market = active_market(50_000);
    market.status = MarketStatus::Settled;
    let mut position = blank_position();
    let result = mint_cfd(&market, &mut position, key(1), PositionSide::Long, 300, 9, 7);
    assert_eq!(result, Err(ErrorCode::MarketNotActive));
}

#[test]
fn mint_cfd_with_leverage_out_of_range_is_refused() {
    let market = active_market(50_000);
    for leverage in [0u8, 4, 5, 255] {
        let mut position = blank_position();
        let result = mint_cfd(&market, &mut position, key(1), PositionSide::Short, 300, leverage, 7);
        assert_eq!(result, Err(ErrorCode::InvalidLeverage));
        assert_eq!(position, blank_position());
    }
}

#[test]
fn long_position_with_a_gain_is_healthy_and_with_a_deep_loss_is_liquidated() {
    let position = open(PositionSide::Long, 300, 3, 1_000);
    assert_eq!(position.collateral, 100);

    let mut up = position;
    assert_eq!(
        liquidate_position(&mut up, &oracle_at(1_100), 9),
        Err(ErrorCode::PositionHealthy)
    );
    assert_eq!(up, position);

    let mut down = position;
    assert_eq!(
        liquidate_position(&mut down, &oracle_at(600), 9),
        Ok(Liquidation {
            collateral_ratio_bps: 0,
            liquidation_bonus: 0,
            remaining_to_user: 0,
            cfd_tokens_burned: 300,
        })
    );
    assert!(down.liquidated);
    assert_eq!(down.liquidated_slot, 9);
    assert_eq!(Position { liquidated: false, liquidated_slot: 0, ..down }, position);
}

#[test]
fn ratio_at_the_threshold_is_healthy_and_one_point_under_is_not() {
    let at = Position { collateral: 900, ..open(PositionSide::Long, 10_000, 1, 1_000) };
    let mut p = at;
    assert_eq!(liquidate_position(&mut p, &oracle_at(1_000), 1), Err(ErrorCode::PositionHealthy));

    let under = Position { collateral: 899, ..at };
    let mut p = under;
    let moved = liquidate_position(&mut p, &oracle_at(1_000), 1).unwrap();
    assert_eq!(moved.collateral_ratio_bps, 899);
    assert_eq!(moved.liquidation_bonus, 8);
    assert_eq!(moved.remaining_to_user, 891);
    assert_eq!(moved.cfd_tokens_burned, 10_000);
    assert!(p.liquidated);
}

#[test]
fn a_loss_brings_a_position_under_the_threshold() {
    // size 10000 at 1x: collateral 10000; a fall of 92% leaves 800, 8% of the size.
    let position = open(PositionSide::Long, 10_000, 1, 1_000);
    let mut p = position;
    assert_eq!(liquidate_position(&mut p, &oracle_at(90), 4), Err(ErrorCode::PositionHealthy));
    let mut p = position;
    assert_eq!(
        liquidate_position(&mut p, &oracle_at(80), 4),
        Ok(Liquidation {
            collateral_ratio_bps: 800,
            liquidation_bonus: 8,
            remaining_to_user: 792,
            cfd_tokens_burned: 10_000,
        })
    );
}

#[test]
fn short_position_loses_when_the_price_rises() {
    let position = open(PositionSide::Short, 300, 3, 1_000);
    let mut p = position;
    assert_eq!(liquidate_position(&mut p, &oracle_at(600), 9), Err(ErrorCode::PositionHealthy));
    let mut p = position;
    assert_eq!(
        liquidate_position(&mut p, &oracle_at(1_400), 9),
        Ok(Liquidation {
            collateral_ratio_bps: 0,
            liquidation_bonus: 0,
            remaining_to_user: 0,
            cfd_tokens_burned: 300,
        })
    );
}

#[test]
fn an_unchanged_price_counts_as_no_gain() {
    let position = Position { collateral: 10, ..open(PositionSide::Short, 10_000, 1, 1_000) };
    let mut p = position;
    let moved = liquidate_position(&mut p, &oracle_at(1_000), 1).unwrap();
    assert_eq!(moved.collateral_ratio_bps, 10);
    assert_eq!(moved.liquidation_bonus, 0);
    assert_eq!(moved.remaining_to_user, 10);
}

#[test]
fn liquidating_twice_is_refused() {
    let mut p = open(PositionSide::Long, 300, 3, 1_000);
    liquidate_position(&mut p, &oracle_at(600), 9).unwrap();
    let before = p;
    assert_eq!(
        liquidate_position(&mut p, &oracle_at(600), 10),
        Err(ErrorCode::PositionAlreadyLiquidated)
    );
    assert_eq!(p, before);
}

#[test]
fn a_liquidated_position_is_refused_even_without_size() {
    let mut p = blank_position();
    assert_eq!(
        liquidate_position(&mut p, &oracle_at(600), 10),
        Err(ErrorCode::PositionAlreadyLiquidated)
    );
}

#[test]
fn a_gain_past_64_bits_is_healthy() {
    let position = Position {
        collateral: u64::MAX,
        ..open(PositionSide::Long, u64::MAX, 1, 1)
    };
    let mut p = position;
    assert_eq!(
        liquidate_position(&mut p, &oracle_at(u64::MAX), 1),
        Err(ErrorCode::PositionHealthy)
    );
    assert_eq!(p, position);
}

#[test]
fn settle_before_settlement_is_refused() {
    let market = active_market(1_000);
    let position = open(PositionSide::Long, 300, 3, 1_000);
    assert_eq!(settle_market(&market, &position), Err(ErrorCode::MarketNotSettled));
}

#[test]
fn settle_pays_the_profit_of_a_long_position() {
    let mut market = active_market(1_000);
    market.status = MarketStatus::Settled;
    market.t2_price = 1_100;
    let position = open(PositionSide::Long, 300, 3, 1_000);
    assert_eq!(
        settle_market(&market, &position),
        Ok(Settlement { payout: 30, cfd_tokens_burned: 300 })
    );
}

#[test]
fn settle_rounds_the_profit_down() {
    let mut market = active_market(3);
    market.status = MarketStatus::Settled;
    market.t2_price = 4;
    let position = open(PositionSide::Long, 100, 1, 3);
    assert_eq!(settle_market(&market, &position).unwrap().payout, 33);
}

#[test]
fn settle_pays_nothing_on_a_loss_or_no_move() {
    let mut market = active_market(1_000);
    market.status = MarketStatus::Settled;
    let long = open(PositionSide::Long, 300, 3, 1_000);
    let short = open(PositionSide::Short, 300, 3, 1_000);
    assert_eq!(settle_market(&market, &long).unwrap().payout, 0);
    assert_eq!(settle_market(&market, &short).unwrap().payout, 0);
    market.t2_price = 900;
    assert_eq!(settle_market(&market, &long).unwrap().payout, 0);
    market.t2_price = 1_100;
    assert_eq!(settle_market(&market, &short).unwrap().payout, 0);
}

#[test]
fn settle_pays_the_profit_of_a_short_position() {
    let mut market = active_market(1_000);
    market.status = MarketStatus::Settled;
    market.t2_price = 750;
    let position = open(PositionSide::Short, 400, 2, 1_000);
    assert_eq!(
        settle_market(&market, &position),
        Ok(Settlement { payout: 100, cfd_tokens_burned: 400 })
    );
}

#[test]
fn settle_with_an_entry_price_of_zero_pays_a_short_position_nothing() {
    let mut market = active_market(0);
    market.status = MarketStatus::Settled;
    let position = open(PositionSide::Short, 400, 2, 0);
    assert_eq!(settle_market(&market, &position).unwrap().payout, 0);
}
