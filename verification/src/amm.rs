//! The constant-product market maker for long and short position tokens:
//! the quote, the fee split, liquidity deposits and swaps.

use vstd::prelude::*;
use crate::errors::ErrorCode;
use crate::keys::Pubkey;
use crate::math::{floor_sqrt, integer_sqrt, lemma_product_fits, lemma_quotient_bounds, mul_div};

verus! {

/// Basis points in a whole.
pub const BPS_DENOMINATOR: u64 = 10_000;

/// Swap fee of a fresh pool, in basis points.
pub const DEFAULT_SWAP_FEE_BPS: u16 = 20;

/// The protocol's part of the swap fee of a fresh pool, in basis points.
pub const DEFAULT_PROTOCOL_FEE_BPS: u16 = 5;

/// The pool of long and short tokens.
#[derive(Clone, Copy, Debug, PartialEq, Eq)]
pub struct AmmPool {
    pub admin: Pubkey,
    pub long_mint: Pubkey,
    pub short_mint: Pubkey,
    pub lp_mint: Pubkey,
    pub long_vault: Pubkey,
    pub short_vault: Pubkey,
    pub long_reserve: u64,
    pub short_reserve: u64,
    /// Liquidity tokens in existence.
    pub lp_supply: u64,
    /// Fee taken from a swap's input, in basis points.
    pub swap_fee_bps: u16,
    /// The protocol's part of that fee, in basis points of the input.
    pub protocol_fee_bps: u16,
    /// Fees kept for the liquidity providers so far.
    pub total_fees_collected: u64,
    /// Input of all swaps so far.
    pub total_volume: u64,
    pub bump: u8,
}

/// One provider's claim on the pool.
#[derive(Clone, Copy, Debug, PartialEq, Eq)]
pub struct LpPosition {
    pub owner: Pubkey,
    pub lp_tokens: u64,
    pub fees_earned: u64,
    /// The pool's collected fees when the provider last deposited.
    pub last_fee_checkpoint: u64,
    pub bump: u8,
}

/// What a swap moves.
#[derive(Clone, Copy, Debug, PartialEq, Eq)]
pub struct Swap {
    /// Amount to transfer from the user to the input vault.
    pub amount_in: u64,
    /// Amount to transfer from the output vault to the user.
    pub amount_out: u64,
    /// The whole fee, taken from the input.
    pub fee_amount: u64,
    /// The protocol's part of the fee.
    pub protocol_fee: u64,
    /// The liquidity providers' part of the fee.
    pub lp_fee: u64,
}

/// Fee on an input: `floor(amount_in * fee_bps / 10000)`.
pub open spec fn swap_fee(amount_in: u64, fee_bps: u16) -> int {
    (amount_in * fee_bps) / 10_000
}

/// What is left of an input after the fee.
pub open spec fn amount_after_fee(amount_in: u64, fee_bps: u16) -> int {
    amount_in - swap_fee(amount_in, fee_bps)
}

/// The constant-product quote for a net input:
/// `floor(net_in * reserve_out / (reserve_in + net_in))`.
pub open spec fn constant_product_output(net_in: int, reserve_in: u64, reserve_out: u64) -> int {
    (net_in * reserve_out) / (reserve_in + net_in)
}

/// Output of a swap of `amount_in` against the given reserves and fee.
pub open spec fn swap_output(amount_in: u64, reserve_in: u64, reserve_out: u64, fee_bps: u16) -> int {
    constant_product_output(amount_after_fee(amount_in, fee_bps), reserve_in, reserve_out)
}

/// The protocol's part of a fee: `floor(fee * protocol_fee_bps / swap_fee_bps)`.
pub open spec fn protocol_share(fee: int, protocol_fee_bps: u16, swap_fee_bps: u16) -> int {
    (fee * protocol_fee_bps) / (swap_fee_bps as int)
}

/// The smaller of two numbers.
pub open spec fn smaller(a: int, b: int) -> int {
    if a <= b {
        a
    } else {
        b
    }
}

impl AmmPool {
    /// The fee rates are usable: the swap fee is positive and at most the
    /// whole input, and the protocol's part is at most the swap fee.
    pub open spec fn fees_well_formed(&self) -> bool {
        0 < self.swap_fee_bps <= BPS_DENOMINATOR && self.protocol_fee_bps <= self.swap_fee_bps
    }

    /// The reserve that a swap in the given direction pays into.
    pub open spec fn reserve_in(&self, is_long_to_short: bool) -> u64 {
        if is_long_to_short {
            self.long_reserve
        } else {
            self.short_reserve
        }
    }

    /// The reserve that a swap in the given direction pays out of.
    pub open spec fn reserve_out(&self, is_long_to_short: bool) -> u64 {
        if is_long_to_short {
            self.short_reserve
        } else {
            self.long_reserve
        }
    }

    /// The product of the two reserves.
    pub open spec fn invariant_product(&self) -> int {
        self.long_reserve * self.short_reserve
    }

    /// Output that the pool quotes for `amount_in` in the given direction.
    pub open spec fn quote(&self, amount_in: u64, is_long_to_short: bool) -> int {
        swap_output(
            amount_in,
            self.reserve_in(is_long_to_short),
            self.reserve_out(is_long_to_short),
            self.swap_fee_bps,
        )
    }

    /// What a swap of `amount_in` in the given direction moves.
    pub open spec fn swap_amounts(&self, amount_in: u64, is_long_to_short: bool) -> Swap {
        let fee = swap_fee(amount_in, self.swap_fee_bps);
        let protocol = protocol_share(fee, self.protocol_fee_bps, self.swap_fee_bps);
        Swap {
            amount_in,
            amount_out: self.quote(amount_in, is_long_to_short) as u64,
            fee_amount: fee as u64,
            protocol_fee: protocol as u64,
            lp_fee: (fee - protocol) as u64,
        }
    }

    /// The pool after a swap that moved `swap` in the given direction.
    pub open spec fn after_swap(&self, swap: Swap, is_long_to_short: bool) -> AmmPool {
        AmmPool {
            long_reserve: if is_long_to_short {
                (self.long_reserve + swap.amount_in) as u64
            } else {
                (self.long_reserve - swap.amount_out) as u64
            },
            short_reserve: if is_long_to_short {
                (self.short_reserve - swap.amount_out) as u64
            } else {
                (self.short_reserve + swap.amount_in) as u64
            },
            total_fees_collected: (self.total_fees_collected + swap.lp_fee) as u64,
            total_volume: (self.total_volume + swap.amount_in) as u64,
            ..*self
        }
    }

    /// Whether the swap can be computed. The fee does not exceed the input,
    /// and the input reserve and the net input are not both zero. Where the
    /// output reaches `min_amount_out`, the swap fee rate, by which the
    /// protocol's part divides, is positive, that part does not exceed the
    /// fee, and the input reserve, the collected fees and the volume stay
    /// within 64 bits. A pool with well-formed fee rates meets the three
    /// conditions on the fee.
    pub open spec fn admits_swap(
        &self,
        amount_in: u64,
        min_amount_out: u64,
        is_long_to_short: bool,
    ) -> bool {
        let fee = swap_fee(amount_in, self.swap_fee_bps);
        &&& fee <= amount_in
        &&& self.reserve_in(is_long_to_short) + amount_after_fee(amount_in, self.swap_fee_bps) > 0
        &&& self.quote(amount_in, is_long_to_short) >= min_amount_out ==> {
            &&& self.swap_fee_bps > 0
            &&& protocol_share(fee, self.protocol_fee_bps, self.swap_fee_bps) <= fee
            &&& self.reserve_in(is_long_to_short) + amount_in <= u64::MAX
            &&& self.total_fees_collected + self.swap_amounts(amount_in, is_long_to_short).lp_fee
                <= u64::MAX
            &&& self.total_volume + amount_in <= u64::MAX
        }
    }

    /// Whether the deposit can be computed: a pool with liquidity tokens in
    /// existence has both reserves positive; and, where the deposit earns
    /// `min_lp_tokens`, the reserves, the supply and the position stay within
    /// 64 bits.
    pub open spec fn admits_deposit(
        &self,
        lp_position: LpPosition,
        long_amount: u64,
        short_amount: u64,
        min_lp_tokens: u64,
    ) -> bool {
        &&& self.lp_supply > 0 ==> self.long_reserve > 0 && self.short_reserve > 0
        &&& self.lp_tokens_for(long_amount, short_amount) >= min_lp_tokens ==> {
            &&& self.long_reserve + long_amount <= u64::MAX
            &&& self.short_reserve + short_amount <= u64::MAX
            &&& self.lp_supply + self.lp_tokens_for(long_amount, short_amount) <= u64::MAX
            &&& lp_position.lp_tokens + self.lp_tokens_for(long_amount, short_amount) <= u64::MAX
        }
    }

    /// Liquidity tokens that a deposit earns: for the first deposit the
    /// integer square root of the product of the two amounts, afterwards the
    /// smaller of the two amounts' shares of the supply.
    pub open spec fn lp_tokens_for(&self, long_amount: u64, short_amount: u64) -> int {
        if self.lp_supply == 0 {
            floor_sqrt((long_amount * short_amount) as nat) as int
        } else {
            smaller(
                (long_amount * self.lp_supply) / (self.long_reserve as int),
                (short_amount * self.lp_supply) / (self.short_reserve as int),
            )
        }
    }
}

/// The fee is at most the input, for a fee rate of at most the whole.
pub proof fn lemma_fee_bounds(amount_in: u64, fee_bps: u16)
    requires
        fee_bps <= BPS_DENOMINATOR,
    ensures
        0 <= swap_fee(amount_in, fee_bps) <= amount_in,
        0 <= amount_after_fee(amount_in, fee_bps) <= amount_in,
{
    assert(0 <= (amount_in * fee_bps) / 10_000 <= amount_in) by (nonlinear_arith)
        requires
            0 <= fee_bps <= 10_000,
            0 <= amount_in,
    ;
}

/// The quote never takes more than the output reserve, and the product of
/// the reserves does not fall when `paid_in`, at least the net input, joins
/// the input reserve and the quote leaves the output reserve.
pub proof fn lemma_quote_bounds(net_in: int, paid_in: int, reserve_in: u64, reserve_out: u64)
    requires
        0 <= net_in <= paid_in,
        reserve_in + net_in > 0,
    ensures
        0 <= constant_product_output(net_in, reserve_in, reserve_out) <= reserve_out,
        (reserve_in + paid_in) * (reserve_out - constant_product_output(
            net_in,
            reserve_in,
            reserve_out,
        )) >= reserve_in * reserve_out,
{
    let d = reserve_in + net_in;
    let x = net_in * reserve_out;
    let q = x / d;
    assert(0 <= x) by (nonlinear_arith)
        requires
            x == net_in * reserve_out,
            0 <= net_in,
            0 <= reserve_out,
    ;
    lemma_quotient_bounds(x, d);
    assert(q <= reserve_out) by (nonlinear_arith)
        requires
            d * q <= x,
            x == net_in * reserve_out,
            d == reserve_in + net_in,
            0 <= net_in,
            0 <= reserve_in,
            0 <= reserve_out,
            0 <= q,
            d > 0,
    ;
    assert((reserve_in + paid_in) * (reserve_out - q) >= reserve_in * reserve_out)
        by (nonlinear_arith)
        requires
            d * q <= x,
            x == net_in * reserve_out,
            d == reserve_in + net_in,
            0 <= net_in <= paid_in,
            0 <= reserve_in,
            0 <= q <= reserve_out,
    ;
}

/// The constant-product quote for a net input, at most the output reserve.
pub fn quote_output(net_in: u64, reserve_in: u64, reserve_out: u64) -> (out: u64)
    requires
        reserve_in + net_in > 0,
    ensures
        out == constant_product_output(net_in as int, reserve_in, reserve_out),
        out <= reserve_out,
{
    proof {
        lemma_quote_bounds(net_in as int, net_in as int, reserve_in, reserve_out);
    }
    mul_div(net_in, reserve_out, reserve_in as u128 + net_in as u128) as u64
}

/// The fee on an input, in 128 bits.
pub fn fee_on(amount_in: u64, fee_bps: u16) -> (fee: u128)
    ensures
        fee == swap_fee(amount_in, fee_bps),
{
    mul_div(amount_in, fee_bps as u64, BPS_DENOMINATOR as u128)
}

/// Sets up an empty pool with the default fees.
pub fn init_amm_pool(
    pool: &mut AmmPool,
    admin: Pubkey,
    long_mint: Pubkey,
    short_mint: Pubkey,
    lp_mint: Pubkey,
    long_vault: Pubkey,
    short_vault: Pubkey,
    bump: u8,
)
    ensures
        *final(pool) == (AmmPool {
            admin,
            long_mint,
            short_mint,
            lp_mint,
            long_vault,
            short_vault,
            long_reserve: 0,
            short_reserve: 0,
            lp_supply: 0,
            swap_fee_bps: DEFAULT_SWAP_FEE_BPS,
            protocol_fee_bps: DEFAULT_PROTOCOL_FEE_BPS,
            total_fees_collected: 0,
            total_volume: 0,
            bump,
        }),
        final(pool).fees_well_formed(),
{
    pool.admin = admin;
    pool.long_mint = long_mint;
    pool.short_mint = short_mint;
    pool.lp_mint = lp_mint;
    pool.long_vault = long_vault;
    pool.short_vault = short_vault;
    pool.long_reserve = 0;
    pool.short_reserve = 0;
    pool.lp_supply = 0;
    pool.swap_fee_bps = DEFAULT_SWAP_FEE_BPS;
    pool.protocol_fee_bps = DEFAULT_PROTOCOL_FEE_BPS;
    pool.total_fees_collected = 0;
    pool.total_volume = 0;
    pool.bump = bump;
}

/// Swaps `amount_in` of one token for the other at the constant-product
/// quote.
///
/// The fee is `floor(amount_in * swap_fee_bps / 10000)` and the output is
/// quoted on what is left. Refused with `SlippageExceeded`, the pool
/// unchanged, if the output is under `min_amount_out`. Otherwise the whole
/// input joins the input reserve, the output leaves the output reserve, the
/// liquidity providers' part of the fee is added to the collected fees and the
/// input to the volume; the product of the reserves does not fall.
///
/// The pool must admit the swap (`AmmPool::admits_swap`, which `can_swap`
/// tests).
pub fn swap_cfd_tokens(
    pool: &mut AmmPool,
    amount_in: u64,
    min_amount_out: u64,
    is_long_to_short: bool,
) -> (result: Result<Swap, ErrorCode>)
    requires
        old(pool).admits_swap(amount_in, min_amount_out, is_long_to_short),
    ensures
        old(pool).quote(amount_in, is_long_to_short) < min_amount_out ==> result == Err::<
            Swap,
            ErrorCode,
        >(ErrorCode::SlippageExceeded) && *final(pool) == *old(pool),
        old(pool).quote(amount_in, is_long_to_short) >= min_amount_out ==> result == Ok::<
            Swap,
            ErrorCode,
        >(old(pool).swap_amounts(amount_in, is_long_to_short)) && *final(pool) == old(
            pool,
        ).after_swap(old(pool).swap_amounts(amount_in, is_long_to_short), is_long_to_short),
        result matches Ok(swap) ==> {
            &&& swap.amount_out == old(pool).quote(amount_in, is_long_to_short)
            &&& swap.fee_amount == swap_fee(amount_in, old(pool).swap_fee_bps)
            &&& swap.protocol_fee + swap.lp_fee == swap.fee_amount
            &&& swap.amount_out <= old(pool).reserve_out(is_long_to_short)
            &&& final(pool).reserve_in(is_long_to_short) == old(pool).reserve_in(is_long_to_short)
                + amount_in
            &&& final(pool).reserve_out(is_long_to_short) == old(pool).reserve_out(
                is_long_to_short,
            ) - swap.amount_out
            &&& final(pool).invariant_product() >= old(pool).invariant_product()
        },
        final(pool).swap_fee_bps == old(pool).swap_fee_bps,
        final(pool).protocol_fee_bps == old(pool).protocol_fee_bps,
{
    let (reserve_in, reserve_out) = if is_long_to_short {
        (pool.long_reserve, pool.short_reserve)
    } else {
        (pool.short_reserve, pool.long_reserve)
    };
    let fee_amount: u64 = fee_on(amount_in, pool.swap_fee_bps) as u64;
    let amount_in_after_fee: u64 = amount_in - fee_amount;
    let amount_out: u64 = quote_output(amount_in_after_fee, reserve_in, reserve_out);
    if amount_out < min_amount_out {
        return Err(ErrorCode::SlippageExceeded);
    }
    proof {
        lemma_quote_bounds(
            amount_in_after_fee as int,
            amount_in as int,
            reserve_in,
            reserve_out,
        );
        assert((reserve_out - amount_out) * (reserve_in + amount_in) == (reserve_in + amount_in)
            * (reserve_out - amount_out)) by (nonlinear_arith);
        assert(reserve_out * reserve_in == reserve_in * reserve_out) by (nonlinear_arith);
    }
    let protocol_fee: u64 = mul_div(
        fee_amount,
        pool.protocol_fee_bps as u64,
        pool.swap_fee_bps as u128,
    ) as u64;
    let lp_fee: u64 = fee_amount - protocol_fee;
    if is_long_to_short {
        pool.long_reserve = pool.long_reserve + amount_in;
        pool.short_reserve = pool.short_reserve - amount_out;
    } else {
        pool.short_reserve = pool.short_reserve + amount_in;
        pool.long_reserve = pool.long_reserve - amount_out;
    }
    pool.total_fees_collected = pool.total_fees_collected + lp_fee;
    pool.total_volume = pool.total_volume + amount_in;
    Ok(Swap { amount_in, amount_out, fee_amount, protocol_fee, lp_fee })
}

/// The protocol's part of a fee is at most the fee, where its rate is at most
/// the swap fee's.
pub proof fn lemma_protocol_share_bounds(fee: int, protocol_fee_bps: u16, swap_fee_bps: u16)
    requires
        0 <= fee,
        0 < swap_fee_bps,
        protocol_fee_bps <= swap_fee_bps,
    ensures
        0 <= protocol_share(fee, protocol_fee_bps, swap_fee_bps) <= fee,
{
    assert(0 <= (fee * protocol_fee_bps) / (swap_fee_bps as int) <= fee) by (nonlinear_arith)
        requires
            0 <= fee,
            0 < swap_fee_bps,
            0 <= protocol_fee_bps <= swap_fee_bps,
    ;
}

/// A pool with well-formed fee rates never takes a fee over the input, nor
/// for the protocol more than the fee.
pub proof fn lemma_well_formed_fees(pool: AmmPool, amount_in: u64)
    requires
        pool.fees_well_formed(),
    ensures
        0 <= swap_fee(amount_in, pool.swap_fee_bps) <= amount_in,
        0 <= protocol_share(
            swap_fee(amount_in, pool.swap_fee_bps),
            pool.protocol_fee_bps,
            pool.swap_fee_bps,
        ) <= swap_fee(amount_in, pool.swap_fee_bps),
{
    lemma_fee_bounds(amount_in, pool.swap_fee_bps);
    lemma_protocol_share_bounds(
        swap_fee(amount_in, pool.swap_fee_bps),
        pool.protocol_fee_bps,
        pool.swap_fee_bps,
    );
}

/// A swap of nothing yields nothing.
pub proof fn lemma_swap_output_of_zero(reserve_in: u64, reserve_out: u64, fee_bps: u16)
    requires
        reserve_in > 0,
    ensures
        swap_output(0, reserve_in, reserve_out, fee_bps) == 0,
{
    assert((0 * fee_bps) / 10_000 == 0) by (nonlinear_arith);
    assert((0 * reserve_out) / (reserve_in + 0) == 0) by (nonlinear_arith)
        requires
            reserve_in > 0,
    ;
}

/// What is left of an input after the fee does not fall as the input grows.
pub proof fn lemma_amount_after_fee_monotonic(smaller_in: u64, larger_in: u64, fee_bps: u16)
    requires
        smaller_in <= larger_in,
        fee_bps <= BPS_DENOMINATOR,
    ensures
        amount_after_fee(smaller_in, fee_bps) <= amount_after_fee(larger_in, fee_bps),
{
    let fa = (smaller_in * fee_bps) / 10_000;
    let fb = (larger_in * fee_bps) / 10_000;
    assert(0 <= smaller_in * fee_bps && 0 <= larger_in * fee_bps) by (nonlinear_arith);
    lemma_quotient_bounds(smaller_in * fee_bps, 10_000);
    lemma_quotient_bounds(larger_in * fee_bps, 10_000);
    assert(larger_in * fee_bps - smaller_in * fee_bps <= (larger_in - smaller_in) * 10_000)
        by (nonlinear_arith)
        requires
            smaller_in <= larger_in,
            0 <= fee_bps <= 10_000,
    ;
}

/// For fixed reserves the constant-product quote does not fall as the net
/// input grows.
pub proof fn lemma_quote_monotonic(
    smaller_net: int,
    larger_net: int,
    reserve_in: u64,
    reserve_out: u64,
)
    requires
        0 <= smaller_net <= larger_net,
        reserve_in + smaller_net > 0,
    ensures
        constant_product_output(smaller_net, reserve_in, reserve_out) <= constant_product_output(
            larger_net,
            reserve_in,
            reserve_out,
        ),
{
    let q1 = constant_product_output(smaller_net, reserve_in, reserve_out);
    let q2 = constant_product_output(larger_net, reserve_in, reserve_out);
    lemma_quote_bounds(smaller_net, smaller_net, reserve_in, reserve_out);
    lemma_quote_bounds(larger_net, larger_net, reserve_in, reserve_out);
    let d1 = reserve_in + smaller_net;
    let d2 = reserve_in + larger_net;
    assert(0 <= smaller_net * reserve_out && 0 <= larger_net * reserve_out) by (nonlinear_arith)
        requires
            0 <= smaller_net <= larger_net,
            0 <= reserve_out,
    ;
    lemma_quotient_bounds(smaller_net * reserve_out, d1);
    lemma_quotient_bounds(larger_net * reserve_out, d2);
    assert(d2 * q1 <= larger_net * reserve_out) by (nonlinear_arith)
        requires
            d1 * q1 <= smaller_net * reserve_out,
            d1 == reserve_in + smaller_net,
            d2 == reserve_in + larger_net,
            0 <= smaller_net <= larger_net,
            0 <= q1 <= reserve_out,
    ;
    assert(q1 <= q2) by (nonlinear_arith)
        requires
            d2 * q1 <= larger_net * reserve_out,
            larger_net * reserve_out < d2 * q2 + d2,
            d2 > 0,
    ;
}

/// For fixed reserves and fee, a larger input never earns a smaller output.
/// Where the two outputs differ, the larger input's is the larger: flooring
/// is all that keeps the output from rising with every unit of input.
pub proof fn lemma_swap_output_monotonic(
    smaller_in: u64,
    larger_in: u64,
    reserve_in: u64,
    reserve_out: u64,
    fee_bps: u16,
)
    requires
        smaller_in <= larger_in,
        fee_bps <= BPS_DENOMINATOR,
        reserve_in + amount_after_fee(smaller_in, fee_bps) > 0,
    ensures
        swap_output(smaller_in, reserve_in, reserve_out, fee_bps) <= swap_output(
            larger_in,
            reserve_in,
            reserve_out,
            fee_bps,
        ),
        swap_output(smaller_in, reserve_in, reserve_out, fee_bps) != swap_output(
            larger_in,
            reserve_in,
            reserve_out,
            fee_bps,
        ) ==> swap_output(smaller_in, reserve_in, reserve_out, fee_bps) < swap_output(
            larger_in,
            reserve_in,
            reserve_out,
            fee_bps,
        ),
{
    lemma_fee_bounds(smaller_in, fee_bps);
    lemma_fee_bounds(larger_in, fee_bps);
    lemma_amount_after_fee_monotonic(smaller_in, larger_in, fee_bps);
    lemma_quote_monotonic(
        amount_after_fee(smaller_in, fee_bps),
        amount_after_fee(larger_in, fee_bps),
        reserve_in,
        reserve_out,
    );
}

/// Computes `lp_tokens_for`, in 128 bits.
pub fn lp_tokens_to_mint(pool: &AmmPool, long_amount: u64, short_amount: u64) -> (lp_tokens: u128)
    requires
        pool.lp_supply > 0 ==> pool.long_reserve > 0 && pool.short_reserve > 0,
    ensures
        lp_tokens == pool.lp_tokens_for(long_amount, short_amount),
{
    if pool.lp_supply == 0 {
        proof {
            lemma_product_fits(long_amount, short_amount);
        }
        integer_sqrt((long_amount as u128) * (short_amount as u128)) as u128
    } else {
        let long_ratio: u128 = mul_div(long_amount, pool.lp_supply, pool.long_reserve as u128);
        let short_ratio: u128 = mul_div(short_amount, pool.lp_supply, pool.short_reserve as u128);
        if long_ratio <= short_ratio {
            long_ratio
        } else {
            short_ratio
        }
    }
}

/// Deposits both tokens and mints liquidity tokens for them to `owner`.
///
/// The first deposit into a pool earns the integer square root of the product
/// of the two amounts; a later one earns the smaller of the two amounts'
/// shares of the supply. Refused with `SlippageExceeded`, both records
/// unchanged, if that is under `min_lp_tokens`. Otherwise the amounts join the
/// reserves, the tokens join the supply and the provider's position, and the
/// position's checkpoint is set to the pool's collected fees. The result is
/// the number of liquidity tokens to mint.
///
/// The pool must admit the deposit (`AmmPool::admits_deposit`, which
/// `can_add_liquidity` tests).
pub fn add_liquidity(
    pool: &mut AmmPool,
    lp_position: &mut LpPosition,
    owner: Pubkey,
    long_amount: u64,
    short_amount: u64,
    min_lp_tokens: u64,
    bump: u8,
) -> (result: Result<u64, ErrorCode>)
    requires
        old(pool).admits_deposit(*old(lp_position), long_amount, short_amount, min_lp_tokens),
    ensures
        old(pool).lp_tokens_for(long_amount, short_amount) < min_lp_tokens ==> {
            &&& result == Err::<u64, ErrorCode>(ErrorCode::SlippageExceeded)
            &&& *final(pool) == *old(pool)
            &&& *final(lp_position) == *old(lp_position)
        },
        old(pool).lp_tokens_for(long_amount, short_amount) >= min_lp_tokens ==> {
            &&& result == Ok::<u64, ErrorCode>(
                old(pool).lp_tokens_for(long_amount, short_amount) as u64,
            )
            &&& *final(pool) == (AmmPool {
                long_reserve: (old(pool).long_reserve + long_amount) as u64,
                short_reserve: (old(pool).short_reserve + short_amount) as u64,
                lp_supply: (old(pool).lp_supply + old(pool).lp_tokens_for(
                    long_amount,
                    short_amount,
                )) as u64,
                ..*old(pool)
            })
            &&& *final(lp_position) == (LpPosition {
                owner,
                lp_tokens: (old(lp_position).lp_tokens + old(pool).lp_tokens_for(
                    long_amount,
                    short_amount,
                )) as u64,
                fees_earned: old(lp_position).fees_earned,
                last_fee_checkpoint: old(pool).total_fees_collected,
                bump,
            })
        },
{
    let lp_tokens: u128 = lp_tokens_to_mint(pool, long_amount, short_amount);
    if lp_tokens < min_lp_tokens as u128 {
        return Err(ErrorCode::SlippageExceeded);
    }
    let lp_tokens_to_mint: u64 = lp_tokens as u64;
    pool.long_reserve = pool.long_reserve + long_amount;
    pool.short_reserve = pool.short_reserve + short_amount;
    pool.lp_supply = pool.lp_supply + lp_tokens_to_mint;
    lp_position.owner = owner;
    lp_position.lp_tokens = lp_position.lp_tokens + lp_tokens_to_mint;
    lp_position.last_fee_checkpoint = pool.total_fees_collected;
    lp_position.bump = bump;
    Ok(lp_tokens_to_mint)
}

/// Tests `AmmPool::admits_swap`.
pub fn can_swap(pool: &AmmPool, amount_in: u64, min_amount_out: u64, is_long_to_short: bool) -> (ok:
    bool)
    ensures
        ok == pool.admits_swap(amount_in, min_amount_out, is_long_to_short),
{
    let (reserve_in, reserve_out) = if is_long_to_short {
        (pool.long_reserve, pool.short_reserve)
    } else {
        (pool.short_reserve, pool.long_reserve)
    };
    let fee: u128 = fee_on(amount_in, pool.swap_fee_bps);
    if fee > amount_in as u128 {
        return false;
    }
    let fee_amount: u64 = fee as u64;
    let amount_in_after_fee: u64 = amount_in - fee_amount;
    if reserve_in == 0 && amount_in_after_fee == 0 {
        return false;
    }
    let amount_out: u64 = quote_output(amount_in_after_fee, reserve_in, reserve_out);
    if amount_out < min_amount_out {
        return true;
    }
    if pool.swap_fee_bps == 0 {
        return false;
    }
    let protocol_fee: u128 = mul_div(
        fee_amount,
        pool.protocol_fee_bps as u64,
        pool.swap_fee_bps as u128,
    );
    if protocol_fee > fee {
        return false;
    }
    let lp_fee: u64 = fee_amount - protocol_fee as u64;
    reserve_in.checked_add(amount_in).is_some() && pool.total_fees_collected.checked_add(
        lp_fee,
    ).is_some() && pool.total_volume.checked_add(amount_in).is_some()
}

/// Tests `AmmPool::admits_deposit`.
pub fn can_add_liquidity(
    pool: &AmmPool,
    lp_position: &LpPosition,
    long_amount: u64,
    short_amount: u64,
    min_lp_tokens: u64,
) -> (ok: bool)
    ensures
        ok == pool.admits_deposit(*lp_position, long_amount, short_amount, min_lp_tokens),
{
    if pool.lp_supply > 0 && (pool.long_reserve == 0 || pool.short_reserve == 0) {
        return false;
    }
    let lp_tokens: u128 = lp_tokens_to_mint(pool, long_amount, short_amount);
    if lp_tokens < min_lp_tokens as u128 {
        return true;
    }
    lp_tokens <= (u64::MAX - pool.lp_supply) as u128 && lp_tokens <= (u64::MAX
        - lp_position.lp_tokens) as u128 && pool.long_reserve.checked_add(long_amount).is_some()
        && pool.short_reserve.checked_add(short_amount).is_some()
}

} // verus!
