use seam::amm::{can_add_liquidity, can_swap, init_amm_pool, AmmPool, LpPosition};
use seam::assets::AssetType;
use seam::bets::{can_mint_slot, can_settle_instantly, settlement_fault, Bet, SettlementSlot};
use seam::errors::ErrorCode;
use seam::governance::{
    can_cast_vote, can_claim, can_create_proposal, can_finalize, init_governance, CadenGovernance,
    GovernanceProposal, ProposalStatus, ProposalType, StakingPosition, VoteChoice,
};
use seam::keys::Pubkey;
use seam::market::{
    can_liquidate, can_settle, Market, MarketStatus, Position, PositionSide,
};
use seam::slot_pool::{can_swap_for_slots, SettlementSlotPool};
use seam::spot::{update_asset_price, MultiAssetOracle};

fn key(b: u8) -> Pubkey {
    Pubkey::new_from_array([b; 32])
}

fn amm(long_reserve: u64, short_reserve: u64, lp_supply: u64) -> AmmPool {
    let mut pool = AmmPool {
        admin: key(0),
        long_mint: key(0),
        short_mint: key(0),
        lp_mint: key(0),
        long_vault: key(0),
        short_vault: key(0),
        long_reserve: 0,
        short_reserve: 0,
        lp_supply: 0,
        swap_fee_bps: 0,
        protocol_fee_bps: 0,
        total_fees_collected: 0,
        total_volume: 0,
        bump: 0,
    };
    init_amm_pool(&mut pool, key(1), key(2), key(3), key(4), key(5), key(6), 250);
    AmmPool { long_reserve, short_reserve, lp_supply, ..pool }
}

fn lp(lp_tokens: u64) -> LpPosition {
    LpPosition { owner: key(0), lp_tokens, fees_earned: 0, last_fee_checkpoint: 0, bump: 0 }
}

fn position(side: PositionSide, size: u64, entry_price: u64) -> Position {
    Position {
        owner: key(1),
        side,
        size,
        entry_price,
        cfd_tokens: size,
        leverage: 1,
        collateral: size,
        liquidated: false,
        liquidated_slot: 0,
        bump: 0,
    }
}

fn settled(t0_price: u64, t2_price: u64) -> Market {
    Market {
        t0_price,
        t2_price,
        expiry_slot: 0,
        status: MarketStatus::Settled,
        usdc_vault: key(2),
        bump: 0,
    }
}

fn governance() -> CadenGovernance {
    let mut g = CadenGovernance {
        admin: key(0),
        caden_mint: key(0),
        staked_caden_mint: key(0),
        total_supply: 0,
        staked_supply: 0,
        protocol_fee_vault: key(0),
        buyback_vault: key(0),
        total_fees_collected: 0,
        total_caden_bought: 0,
        staking_apy: 0,
        proposal_count: 0,
        quorum_threshold: 0,
        voting_period: 0,
        execution_delay: 0,
        bump: 0,
    };
    init_governance(&mut g, key(1), key(2), key(3), key(4), key(5), 6);
    g
}

fn staker(amount: u64, claimed: u64) -> StakingPosition {
    StakingPosition {
        owner: key(7),
        caden_staked: amount,
        stk_caden_tokens: amount,
        staking_slot: 0,
        last_claim_slot: 0,
        total_fees_claimed: claimed,
        bump: 0,
    }
}

fn active_proposal(votes_for: u64, votes_against: u64, total_votes: u64) -> GovernanceProposal {
    GovernanceProposal {
        proposal_id: 0,
        proposer: key(7),
        proposal_type: ProposalType::ChangeStakingAPY,
        title: String::from("t"),
        description: String::from("d"),
        votes_for,
        votes_against,
        total_votes,
        status: ProposalStatus::Active,
        created_slot: 0,
        voting_ends_slot: 100,
        execution_slot: 0,
        executed: false,
        cancelled: false,
        bump: 0,
    }
}

#[test]
fn a_swap_needs_fees_that_can_be_taken() {
    assert!(can_swap(&amm(1_000, 1_000, 10), 100, 0, true));
    let free = AmmPool { swap_fee_bps: 0, protocol_fee_bps: 0, ..amm(1_000, 1_000, 10) };
    assert!(!can_swap(&free, 100, 0, true));
    assert!(can_swap(&free, 100, 91, true));
    let steep = AmmPool { swap_fee_bps: 10_001, ..amm(1_000, 1_000, 10) };
    assert!(can_swap(&steep, 100, 0, true));
    assert!(!can_swap(&steep, 10_000, 0, true));
    assert!(can_swap(&AmmPool { swap_fee_bps: 10_000, ..amm(1_000, 1_000, 10) }, 10_000, 0, true));
    let greedy = AmmPool { protocol_fee_bps: 21, ..amm(1_000, 1_000, 10) };
    assert!(can_swap(&greedy, 100, 0, true));
    assert!(!can_swap(&greedy, 10_000, 0, true));
    assert!(can_swap(&greedy, 10_000, 1_000, true));
    assert!(can_swap(&AmmPool { protocol_fee_bps: 20, ..amm(1_000, 1_000, 10) }, 10_000, 0, true));
}

#[test]
fn a_swap_needs_something_to_divide_by() {
    assert!(!can_swap(&amm(0, 1_000, 10), 0, 0, true));
    assert!(can_swap(&amm(0, 1_000, 10), 0, 0, false));
    assert!(can_swap(&amm(0, 1_000, 10), 1, 0, true));
    assert!(!can_swap(&AmmPool { swap_fee_bps: 10_000, ..amm(0, 1_000, 10) }, 5, 0, true));
}

#[test]
fn a_swap_that_goes_through_needs_room() {
    let full = amm(u64::MAX - 10, 1_000, 10);
    assert!(can_swap(&full, 10, 0, true));
    assert!(!can_swap(&full, 11, 0, true));
    assert!(can_swap(&full, 11, 1, true));
    assert!(can_swap(&full, 11, 0, false));
    let busy = AmmPool { total_volume: u64::MAX - 10, ..amm(1_000, 1_000, 10) };
    assert!(can_swap(&busy, 10, 0, true));
    assert!(!can_swap(&busy, 11, 0, true));
    let rich = AmmPool { total_fees_collected: u64::MAX - 14, ..amm(1_000_000, 1_000_000, 10) };
    assert!(!can_swap(&rich, 10_000, 0, true));
    assert!(can_swap(&AmmPool { total_fees_collected: u64::MAX - 15, ..rich }, 10_000, 0, true));
}

#[test]
fn a_deposit_needs_reserves_and_room() {
    assert!(can_add_liquidity(&amm(0, 0, 0), &lp(0), 100, 400, 0));
    assert!(!can_add_liquidity(&amm(0, 5, 1), &lp(0), 100, 400, 0));
    assert!(!can_add_liquidity(&amm(5, 0, 1), &lp(0), 100, 400, 0));
    assert!(can_add_liquidity(&amm(5, 5, 1), &lp(0), 100, 400, 0));
    assert!(!can_add_liquidity(&amm(u64::MAX, 0, 0), &lp(0), 1, 1, 0));
    assert!(can_add_liquidity(&amm(u64::MAX, 0, 0), &lp(0), 1, 1, 2));
    assert!(!can_add_liquidity(&amm(0, 0, 0), &lp(u64::MAX - 199), 100, 400, 0));
    assert!(can_add_liquidity(&amm(0, 0, 0), &lp(u64::MAX - 200), 100, 400, 0));
    assert!(!can_add_liquidity(&amm(1, 1, u64::MAX), &lp(0), 1, 1, 0));
    assert!(!can_add_liquidity(&amm(1, 1, 1 << 63), &lp(0), 4, 4, 0));
}

#[test]
fn a_liquidation_needs_size_and_entry_price() {
    assert!(can_liquidate(&position(PositionSide::Long, 1, 1)));
    assert!(!can_liquidate(&position(PositionSide::Long, 0, 1)));
    assert!(!can_liquidate(&position(PositionSide::Long, 1, 0)));
    assert!(can_liquidate(&Position { liquidated: true, ..position(PositionSide::Long, 0, 0) }));
}

#[test]
fn a_settlement_needs_a_profit_that_fits() {
    let long = position(PositionSide::Long, u64::MAX, 1);
    assert!(can_settle(&settled(1, 2), &long));
    assert!(!can_settle(&settled(1, 3), &long));
    assert!(can_settle(&settled(3, 1), &long));
    assert!(!can_settle(&settled(0, 1), &long));
    assert!(can_settle(&settled(0, 0), &long));
    assert!(can_settle(&Market { status: MarketStatus::Active, ..settled(0, 1) }, &long));
    let short = position(PositionSide::Short, u64::MAX, 1);
    assert!(can_settle(&settled(0, 1), &short));
    assert!(can_settle(&settled(u64::MAX, 0), &short));
}

#[test]
fn a_slot_pool_swap_needs_something_to_divide_by() {
    let pool = SettlementSlotPool {
        pool_id: 0,
        asset_symbol: String::from("AAPL"),
        asset_type: AssetType::Stock,
        settlement_time: 0,
        token_a_mint: key(0),
        token_b_mint: key(0),
        token_a_vault: key(0),
        token_b_vault: key(0),
        token_a_amount: 0,
        token_b_amount: 7,
        fee_rate: 10_000,
        pool_authority: key(0),
        created_slot: 0,
        is_active: true,
        bump: 0,
    };
    assert!(!can_swap_for_slots(&pool, 5));
    assert!(!can_swap_for_slots(&pool, 0));
    assert!(can_swap_for_slots(&SettlementSlotPool { is_active: false, ..pool.clone() }, 0));
    assert!(can_swap_for_slots(&SettlementSlotPool { fee_rate: 10_001, ..pool.clone() }, 10_000));
    assert!(can_swap_for_slots(&SettlementSlotPool { fee_rate: 9_999, ..pool.clone() }, 5));
    assert!(can_swap_for_slots(&SettlementSlotPool { token_a_amount: 1, ..pool.clone() }, 0));
}

#[test]
fn a_slot_needs_an_expiry_that_fits() {
    let symbol = String::from("BTC");
    assert!(can_mint_slot(&symbol, 0, 2, 1_000));
    assert!(can_mint_slot(&symbol, 0, 0, u64::MAX));
    assert!(!can_mint_slot(&symbol, 0, 1, u64::MAX - 172_799));
    assert!(can_mint_slot(&symbol, 0, 1, u64::MAX - 172_800));
    assert!(!can_mint_slot(&symbol, 0, u64::MAX, 0));
    assert!(can_mint_slot(&symbol, 366, u64::MAX, 0));
    assert!(can_mint_slot(&String::from("ABCDEFGHIJK"), 0, u64::MAX, 0));
}

#[test]
fn an_instant_settlement_needs_an_entry_price_and_a_value_that_fits() {
    let mut table =
        MultiAssetOracle { admin: key(9), asset_prices: vec![], updated_slot: 0, bump: 0 };
    update_asset_price(&mut table, &key(9), String::from("BTC"), AssetType::Crypto, 2, 1).unwrap();
    let slot = SettlementSlot {
        slot_id: 77,
        asset_symbol: String::from("BTC"),
        asset_type: AssetType::Crypto,
        settlement_time: 0,
        slot_duration: 1,
        owner: key(1),
        mint_price: 0,
        created_slot: 0,
        expiry_slot: 0,
        is_tradable: true,
        is_active: true,
        bump: 0,
    };
    let bet = Bet {
        owner: key(1),
        bet_id: 55,
        asset_symbol: String::from("BTC"),
        asset_type: AssetType::Crypto,
        bet_amount: 10_000_000,
        is_long: true,
        entry_price: 1,
        created_slot: 0,
        is_settled: false,
        settlement_value: 0,
        bump: 0,
    };
    assert_eq!(settlement_fault(&bet, &slot, &table, &key(1), 55, 77), None);
    assert!(can_settle_instantly(&bet, &slot, &table, &key(1), 55, 77));
    let unpriced = Bet { entry_price: 0, ..bet.clone() };
    assert!(!can_settle_instantly(&unpriced, &slot, &table, &key(1), 55, 77));
    assert!(can_settle_instantly(&unpriced, &slot, &table, &key(1), 56, 77));
    assert_eq!(
        settlement_fault(&unpriced, &slot, &table, &key(1), 56, 77),
        Some(ErrorCode::InvalidBetId)
    );
    let huge = Bet { bet_amount: u64::MAX, ..bet.clone() };
    assert!(!can_settle_instantly(&huge, &slot, &table, &key(1), 55, 77));
    assert!(can_settle_instantly(&Bet { is_long: false, ..huge.clone() }, &slot, &table, &key(1), 55, 77));
    assert_eq!(
        settlement_fault(&bet, &slot, &table, &key(2), 55, 77),
        Some(ErrorCode::Unauthorized)
    );
}

#[test]
fn a_claim_needs_a_supply_and_a_share_that_covers_what_was_claimed() {
    let g = CadenGovernance { staked_supply: 400, total_fees_collected: 1_000, ..governance() };
    assert!(can_claim(&g, &staker(100, 0)));
    assert!(can_claim(&g, &staker(100, 250)));
    assert!(!can_claim(&g, &staker(100, 251)));
    assert!(!can_claim(&governance(), &staker(100, 0)));
    let g = CadenGovernance { staked_supply: 1, total_fees_collected: u64::MAX, ..governance() };
    assert!(can_claim(&g, &staker(1, 0)));
    assert!(!can_claim(&g, &staker(2, 0)));
}

#[test]
fn a_proposal_needs_room_for_its_slots_and_its_id() {
    let s = staker(1_000_000_000_000, 0);
    let t = String::from("t");
    assert!(can_create_proposal(&governance(), &s, &t, &t, 1_000));
    assert!(!can_create_proposal(&governance(), &s, &t, &t, u64::MAX - 172_799));
    assert!(can_create_proposal(&governance(), &s, &t, &t, u64::MAX - 172_800));
    assert!(can_create_proposal(&governance(), &staker(1, 0), &t, &t, u64::MAX));
    assert!(can_create_proposal(&governance(), &s, &"t".repeat(101), &t, u64::MAX));
    assert!(can_create_proposal(&governance(), &s, &t, &"d".repeat(501), u64::MAX));
    let last = CadenGovernance { proposal_count: u64::MAX, ..governance() };
    assert!(!can_create_proposal(&last, &s, &t, &t, 1_000));
}

#[test]
fn a_vote_needs_room_in_the_tallies() {
    let p = active_proposal(u64::MAX - 5, u64::MAX - 9, u64::MAX - 5);
    assert!(can_cast_vote(&p, &staker(5, 0), VoteChoice::For, 1));
    assert!(!can_cast_vote(&p, &staker(6, 0), VoteChoice::For, 1));
    assert!(!can_cast_vote(&p, &staker(6, 0), VoteChoice::Abstain, 1));
    assert!(can_cast_vote(&p, &staker(6, 0), VoteChoice::For, 100));
    assert!(can_cast_vote(&p, &staker(0, 0), VoteChoice::For, 1));
    let q = active_proposal(0, u64::MAX - 5, 0);
    assert!(!can_cast_vote(&q, &staker(6, 0), VoteChoice::Against, 1));
    assert!(can_cast_vote(&q, &staker(6, 0), VoteChoice::For, 1));
    assert!(can_cast_vote(&q, &staker(6, 0), VoteChoice::Abstain, 1));
    let done = GovernanceProposal { status: ProposalStatus::Defeated, ..p };
    assert!(can_cast_vote(&done, &staker(6, 0), VoteChoice::For, 1));
}

#[test]
fn a_tally_that_passes_needs_room_for_the_execution_slot() {
    let g = CadenGovernance { quorum_threshold: 1_000, ..governance() };
    let passing = active_proposal(600, 400, 1_000);
    assert!(can_finalize(&passing, &g, 100));
    assert!(can_finalize(&passing, &g, u64::MAX - 43_200));
    assert!(!can_finalize(&passing, &g, u64::MAX - 43_199));
    assert!(can_finalize(&active_proposal(400, 600, 1_000), &g, u64::MAX));
    assert!(can_finalize(&active_proposal(600, 400, 999), &g, u64::MAX));
    assert!(can_finalize(&passing, &g, 99));
}
