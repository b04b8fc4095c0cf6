use seam::errors::ErrorCode;
use seam::heatmap::{crank_heatmap, init_heatmap, SpreadEntry, SpreadHeatmap};
use seam::keys::Pubkey;
use seam::market::{Market, MarketStatus, OracleMock};
use seam::token::{init_token_mint, TokenMint};

fn key(b: u8) -> Pubkey {
    Pubkey::new_from_array([b; 32])
}

#[test]
fn keys_are_equal_when_all_their_bytes_are() {
    let mut bytes = [7u8; 32];
    assert!(key(7) == Pubkey::new_from_array(bytes));
    assert_eq!(key(7).to_bytes(), bytes);
    for i in 0..32 {
        bytes[i] = 8;
        assert!(key(7) != Pubkey::new_from_array(bytes));
        bytes[i] = 7;
    }
    assert!(key(7) == Pubkey::new_from_array(bytes));
    assert!(key(0) != key(1));
}

#[test]
fn init_heatmap_clears_every_entry() {
    let mut heatmap = SpreadHeatmap { spreads: [SpreadEntry { bid: 3, ask: 4 }; 100], bump: 0 };
    init_heatmap(&mut heatmap, 9);
    assert_eq!(heatmap, SpreadHeatmap { spreads: [SpreadEntry { bid: 0, ask: 0 }; 100], bump: 9 });
}

#[test]
fn crank_heatmap_writes_the_first_entry_only() {
    let mut heatmap = SpreadHeatmap { spreads: [SpreadEntry { bid: 3, ask: 4 }; 100], bump: 5 };
    let market = Market {
        t0_price: 50_000,
        t2_price: 50_500,
        expiry_slot: 0,
        status: MarketStatus::Active,
        usdc_vault: key(1),
        bump: 0,
    };
    let oracle = OracleMock { admin: key(2), price: 50_250, updated_slot: 0 };
    crank_heatmap(&mut heatmap, &market, &oracle);
    assert_eq!(heatmap.spreads[0], SpreadEntry { bid: 50_250, ask: 50_500 });
    for i in 1..100 {
        assert_eq!(heatmap.spreads[i], SpreadEntry { bid: 3, ask: 4 });
    }
    assert_eq!(heatmap.bump, 5);
}

#[test]
fn init_token_mint_describes_the_position_token() {
    let mut token = TokenMint { mint: key(0), decimals: 0, symbol: String::new() };
    init_token_mint(&mut token, key(3));
    assert_eq!(token, TokenMint { mint: key(3), decimals: 6, symbol: String::from("CADEN-CFD") });
}

#[test]
fn faults_compare_by_variant() {
    assert_eq!(ErrorCode::MathOverflow, ErrorCode::MathOverflow);
    assert_ne!(ErrorCode::SlippageExceeded, ErrorCode::InsufficientOutputAmount);
}
