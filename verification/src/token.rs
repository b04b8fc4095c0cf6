//! The record that describes the position token.

use vstd::prelude::*;
use crate::keys::Pubkey;

verus! {

/// Decimal places of the position token.
pub const TOKEN_DECIMALS: u8 = 6;

/// The position token's description.
#[derive(Clone, Debug, PartialEq, Eq)]
pub struct TokenMint {
    pub mint: Pubkey,
    pub decimals: u8,
    pub symbol: String,
}

/// Describes the position token minted by `mint`: six decimals, symbol
/// "CADEN-CFD".
pub fn init_token_mint(token_mint: &mut TokenMint, mint: Pubkey)
    ensures
        final(token_mint).mint == mint,
        final(token_mint).decimals == TOKEN_DECIMALS,
        final(token_mint).symbol@ == "CADEN-CFD"@,
{
    token_mint.mint = mint;
    token_mint.decimals = TOKEN_DECIMALS;
    token_mint.symbol = "CADEN-CFD".to_string();
}

} // verus!
