//! The bonding-curve reserve entity and its pure pricing functions.
//!
//! A market quotes swaps against the *effective* reserves — virtual
//! (curve-shaping, never withdrawable) plus real (settled value) — under the
//! constant-product rule: with `S` effective SOL and `T` effective tokens,
//! `S * T` is conserved across a trade up to floor rounding. Every division
//! floors toward zero, which favours the pool, and every amount is exact:
//! any step that cannot produce its exact 64-bit result fails instead.

use vstd::prelude::*;
use vstd::arithmetic::div_mod::{
    lemma_div_is_ordered, lemma_div_multiples_vanish, lemma_div_pos_is_pos,
    lemma_fundamental_div_mod, lemma_mod_bound,
};
use vstd::arithmetic::mul::{lemma_mul_inequality, lemma_mul_is_commutative, lemma_mul_nonnegative};
use crate::math::{lemma_u64_mul_fits_u128, mul_div, MathError, SCALE};

verus! {

/// Virtual SOL reserves a standard curve starts with (30 SOL in lamports).
pub const INITIAL_VIRTUAL_SOL_RESERVES: u64 = 30_000_000_000;

/// Virtual token reserves a standard curve starts with (1.073B tokens, 6 decimals).
pub const INITIAL_VIRTUAL_TOKEN_RESERVES: u64 = 1_073_000_000_000_000;

/// Real token allocation a standard curve starts with (793.1M tokens, 6 decimals).
pub const INITIAL_REAL_TOKEN_RESERVES: u64 = 793_100_000_000_000;

/// Fixed total supply of a standard launch (1B tokens, 6 decimals).
pub const TOTAL_TOKEN_SUPPLY: u64 = 1_000_000_000_000_000;

/// Settled SOL at which a standard curve becomes ready for migration (85 SOL).
pub const FUNDING_GOAL: u64 = 85_000_000_000;

/// Default creator fee rate (1%).
pub const DEFAULT_CREATOR_FEE_BPS: u16 = 100;

/// Default platform fee rate (1%).
pub const DEFAULT_PLATFORM_FEE_BPS: u16 = 100;

/// Rejection of a quote request.
#[derive(Clone, Copy, Debug, PartialEq, Eq, Structural)]
pub enum QuoteError {
    /// The traded amount was zero.
    InvalidAmount,
    /// A reserve sum left the 64-bit range.
    Overflow,
    /// The quote would round to nothing or drain a reserve.
    InsufficientLiquidity,
}

/// One token market: reserve state, lifecycle flags and advisory telemetry.
///
/// `last_price`, `volume_24h`, `trades_24h`, `created_at` and `updated_at`
/// are advisory only and never consulted for correctness.
#[derive(Clone, Copy, Debug, PartialEq, Eq, Structural)]
pub struct BondingCurve {
    pub virtual_sol_reserves: u64,
    pub virtual_token_reserves: u64,
    pub real_sol_reserves: u64,
    pub real_token_reserves: u64,
    /// Derived checkpoint of the effective constant product; recomputed by
    /// every reserve update, never independently mutated.
    pub k_constant: u128,
    /// Fixed at creation, immutable thereafter.
    pub total_supply: u64,
    /// Set once the funding goal is reached; no further trades are accepted.
    pub complete: bool,
    /// Set exactly once by the migration step; implies `complete`.
    pub migrated: bool,
    pub last_price: u64,
    pub volume_24h: u64,
    pub trades_24h: u32,
    pub created_at: i64,
    pub updated_at: i64,
}

/// Tokens released by a buy of `sol_in` against effective reserves `(s, t)`:
/// `t - floor(s * t / (s + sol_in))`.
pub open spec fn spec_buy_tokens_out(s: int, t: int, sol_in: int) -> int {
    t - (s * t) / (s + sol_in)
}

/// SOL released by a sell of `tokens_in` against effective reserves `(s, t)`:
/// `s - floor(s * t / (t + tokens_in))`.
pub open spec fn spec_sell_sol_out(s: int, t: int, tokens_in: int) -> int {
    s - (s * t) / (t + tokens_in)
}

impl BondingCurve {
    /// Effective SOL reserves backing the price.
    pub open spec fn eff_sol(self) -> int {
        self.virtual_sol_reserves + self.real_sol_reserves
    }

    /// Effective token reserves backing the price.
    pub open spec fn eff_tokens(self) -> int {
        self.virtual_token_reserves + self.real_token_reserves
    }

    /// The effective constant product.
    pub open spec fn eff_product(self) -> int {
        self.eff_sol() * self.eff_tokens()
    }

    /// Internal consistency of a market value: effective reserves fit the
    /// 64-bit range, the checkpointed product matches the reserves, the
    /// curve never holds more tokens than exist, and a migrated curve is
    /// complete.
    pub open spec fn well_formed(self) -> bool {
        &&& self.eff_sol() <= u64::MAX
        &&& self.eff_tokens() <= u64::MAX
        &&& self.k_constant == self.eff_product()
        &&& self.real_token_reserves <= self.total_supply
        &&& (self.migrated ==> self.complete)
    }

    /// Creates a market at launch: no settled SOL yet, a fixed initial token
    /// allocation, trading open.
    pub fn new(
        virtual_sol_reserves: u64,
        virtual_token_reserves: u64,
        real_token_reserves: u64,
        total_supply: u64,
        created_at: i64,
    ) -> (c: Self)
        requires
            virtual_token_reserves + real_token_reserves <= u64::MAX,
            real_token_reserves <= total_supply,
        ensures
            c.well_formed(),
            c.virtual_sol_reserves == virtual_sol_reserves,
            c.virtual_token_reserves == virtual_token_reserves,
            c.real_sol_reserves == 0,
            c.real_token_reserves == real_token_reserves,
            c.total_supply == total_supply,
            !c.complete,
            !c.migrated,
            c.last_price == 0,
            c.volume_24h == 0,
            c.trades_24h == 0,
            c.created_at == created_at,
            c.updated_at == created_at,
    {
        let eff_tokens = virtual_token_reserves + real_token_reserves;
        proof {
            lemma_u64_mul_fits_u128(virtual_sol_reserves as int, eff_tokens as int);
        }
        BondingCurve {
            virtual_sol_reserves,
            virtual_token_reserves,
            real_sol_reserves: 0,
            real_token_reserves,
            k_constant: (virtual_sol_reserves as u128) * (eff_tokens as u128),
            total_supply,
            complete: false,
            migrated: false,
            last_price: 0,
            volume_24h: 0,
            trades_24h: 0,
            created_at,
            updated_at: created_at,
        }
    }

    /// Quotes a buy: the exact token amount released for `sol_in` SOL, per
    /// the constant-product formula with floored division. Fails with
    /// `InvalidAmount` on a zero input, `Overflow` when the new SOL reserves
    /// would leave the 64-bit range, and `InsufficientLiquidity` when the
    /// quote rounds to nothing.
    pub fn quote_buy(&self, sol_in: u64) -> (r: Result<u64, QuoteError>)
        requires
            self.well_formed(),
        ensures
            ({
                let s = self.eff_sol();
                let t = self.eff_tokens();
                let q = spec_buy_tokens_out(s, t, sol_in as int);
                &&& (sol_in == 0 ==> r == Err::<u64, QuoteError>(QuoteError::InvalidAmount))
                &&& (sol_in > 0 && s + sol_in > u64::MAX ==> r == Err::<u64, QuoteError>(
                    QuoteError::Overflow,
                ))
                &&& (sol_in > 0 && s + sol_in <= u64::MAX && q == 0 ==> r == Err::<u64, QuoteError>(
                    QuoteError::InsufficientLiquidity,
                ))
                &&& (sol_in > 0 && s + sol_in <= u64::MAX && q > 0 ==> 0 < q <= t && r == Ok::<
                    u64,
                    QuoteError,
                >(q as u64))
            }),
    {
        if sol_in == 0 {
            return Err(QuoteError::InvalidAmount);
        }
        let s = self.virtual_sol_reserves + self.real_sol_reserves;
        let t = self.virtual_token_reserves + self.real_token_reserves;
        if sol_in > u64::MAX - s {
            return Err(QuoteError::Overflow);
        }
        let s_new = s + sol_in;
        proof {
            lemma_u64_mul_fits_u128(s as int, t as int);
        }
        let k: u128 = (s as u128) * (t as u128);
        let t_new_wide: u128 = k / (s_new as u128);
        proof {
            lemma_mul_nonnegative(s as int, t as int);
            lemma_div_pos_is_pos(s as int * t as int, s_new as int);
            lemma_mul_inequality(s as int, s_new as int, t as int);
            lemma_mul_is_commutative(s as int, t as int);
            lemma_mul_is_commutative(s_new as int, t as int);
            lemma_div_is_ordered(s as int * t as int, s_new as int * t as int, s_new as int);
            lemma_div_multiples_vanish(t as int, s_new as int);
        }
        let t_new = t_new_wide as u64;
        let tokens_out = t - t_new;
        if tokens_out == 0 {
            Err(QuoteError::InsufficientLiquidity)
        } else {
            Ok(tokens_out)
        }
    }

    /// Quotes a sell: the exact SOL amount released for `tokens_in` tokens,
    /// symmetric to `quote_buy`. Fails with `InvalidAmount` on a zero input,
    /// `Overflow` when the new token reserves would leave the 64-bit range,
    /// and `InsufficientLiquidity` when the quote rounds to nothing.
    pub fn quote_sell(&self, tokens_in: u64) -> (r: Result<u64, QuoteError>)
        requires
            self.well_formed(),
        ensures
            ({
                let s = self.eff_sol();
                let t = self.eff_tokens();
                let q = spec_sell_sol_out(s, t, tokens_in as int);
                &&& (tokens_in == 0 ==> r == Err::<u64, QuoteError>(QuoteError::InvalidAmount))
                &&& (tokens_in > 0 && t + tokens_in > u64::MAX ==> r == Err::<u64, QuoteError>(
                    QuoteError::Overflow,
                ))
                &&& (tokens_in > 0 && t + tokens_in <= u64::MAX && q == 0 ==> r == Err::<
                    u64,
                    QuoteError,
                >(QuoteError::InsufficientLiquidity))
                &&& (tokens_in > 0 && t + tokens_in <= u64::MAX && q > 0 ==> 0 < q <= s && r
                    == Ok::<u64, QuoteError>(q as u64))
            }),
    {
        if tokens_in == 0 {
            return Err(QuoteError::InvalidAmount);
        }
        let s = self.virtual_sol_reserves + self.real_sol_reserves;
        let t = self.virtual_token_reserves + self.real_token_reserves;
        if tokens_in > u64::MAX - t {
            return Err(QuoteError::Overflow);
        }
        let t_new = t + tokens_in;
        proof {
            lemma_u64_mul_fits_u128(s as int, t as int);
        }
        let k: u128 = (s as u128) * (t as u128);
        let s_new_wide: u128 = k / (t_new as u128);
        proof {
            lemma_mul_nonnegative(s as int, t as int);
            lemma_div_pos_is_pos(s as int * t as int, t_new as int);
            lemma_mul_inequality(t as int, t_new as int, s as int);
            lemma_mul_is_commutative(t as int, s as int);
            lemma_mul_is_commutative(t_new as int, s as int);
            lemma_div_is_ordered(s as int * t as int, t_new as int * s as int, t_new as int);
            lemma_div_multiples_vanish(s as int, t_new as int);
        }
        let s_new = s_new_wide as u64;
        let sol_out = s - s_new;
        if sol_out == 0 {
            Err(QuoteError::InsufficientLiquidity)
        } else {
            Ok(sol_out)
        }
    }

    /// The sole reserve mutator for a buy: settles `sol_in` into the real
    /// SOL reserves, releases `tokens_out` from the real token reserves,
    /// re-checkpoints the constant product and records the trade's average
    /// price at the fixed-point scale. Fails — leaving the market untouched —
    /// with `DivisionByZero` when `tokens_out` is zero and with `Overflow`
    /// when a reserve or the price would leave its range.
    pub fn apply_buy(&mut self, sol_in: u64, tokens_out: u64) -> (r: Result<(), MathError>)
        requires
            old(self).well_formed(),
        ensures
            ({
                let pre = *old(self);
                let post = *final(self);
                let ok = tokens_out > 0 && tokens_out <= pre.real_token_reserves && pre.eff_sol()
                    + sol_in <= u64::MAX && sol_in * SCALE / tokens_out as int <= u64::MAX;
                &&& (tokens_out == 0 ==> r == Err::<(), MathError>(MathError::DivisionByZero))
                &&& (tokens_out > 0 && !ok ==> r == Err::<(), MathError>(MathError::Overflow))
                &&& (!ok ==> post == pre)
                &&& (ok ==> r == Ok::<(), MathError>(()) && post == (BondingCurve {
                    real_sol_reserves: (pre.real_sol_reserves + sol_in) as u64,
                    real_token_reserves: (pre.real_token_reserves - tokens_out) as u64,
                    k_constant: ((pre.eff_sol() + sol_in) * (pre.eff_tokens() - tokens_out)) as u128,
                    last_price: (sol_in * SCALE / tokens_out as int) as u64,
                    ..pre
                }))
                &&& (ok ==> post.well_formed())
            }),
    {
        if tokens_out == 0 {
            return Err(MathError::DivisionByZero);
        }
        if tokens_out > self.real_token_reserves {
            return Err(MathError::Overflow);
        }
        let s = self.virtual_sol_reserves + self.real_sol_reserves;
        if sol_in > u64::MAX - s {
            return Err(MathError::Overflow);
        }
        let last_price = match mul_div(sol_in, SCALE, tokens_out) {
            Ok(p) => p,
            Err(_) => {
                return Err(MathError::Overflow);
            },
        };
        let new_real_sol = self.real_sol_reserves + sol_in;
        let new_real_token = self.real_token_reserves - tokens_out;
        let new_s = s + sol_in;
        let new_t = self.virtual_token_reserves + new_real_token;
        proof {
            lemma_u64_mul_fits_u128(new_s as int, new_t as int);
        }
        self.real_sol_reserves = new_real_sol;
        self.real_token_reserves = new_real_token;
        self.k_constant = (new_s as u128) * (new_t as u128);
        self.last_price = last_price;
        Ok(())
    }

    /// The sole reserve mutator for a sell: releases `sol_out` from the real
    /// SOL reserves, returns `tokens_in` to the real token reserves,
    /// re-checkpoints the constant product and records the trade's average
    /// price. Fails — leaving the market untouched — with `DivisionByZero`
    /// when `tokens_in` is zero and with `Overflow` when a reserve would
    /// underflow or leave its range, when the curve would hold more tokens
    /// than the total supply, or when the price would leave its range.
    pub fn apply_sell(&mut self, sol_out: u64, tokens_in: u64) -> (r: Result<(), MathError>)
        requires
            old(self).well_formed(),
        ensures
            ({
                let pre = *old(self);
                let post = *final(self);
                let ok = tokens_in > 0 && sol_out <= pre.real_sol_reserves && pre.eff_tokens()
                    + tokens_in <= u64::MAX && pre.real_token_reserves + tokens_in
                    <= pre.total_supply && sol_out * SCALE / tokens_in as int <= u64::MAX;
                &&& (tokens_in == 0 ==> r == Err::<(), MathError>(MathError::DivisionByZero))
                &&& (tokens_in > 0 && !ok ==> r == Err::<(), MathError>(MathError::Overflow))
                &&& (!ok ==> post == pre)
                &&& (ok ==> r == Ok::<(), MathError>(()) && post == (BondingCurve {
                    real_sol_reserves: (pre.real_sol_reserves - sol_out) as u64,
                    real_token_reserves: (pre.real_token_reserves + tokens_in) as u64,
                    k_constant: ((pre.eff_sol() - sol_out) * (pre.eff_tokens() + tokens_in)) as u128,
                    last_price: (sol_out * SCALE / tokens_in as int) as u64,
                    ..pre
                }))
                &&& (ok ==> post.well_formed())
            }),
    {
        if tokens_in == 0 {
            return Err(MathError::DivisionByZero);
        }
        if sol_out > self.real_sol_reserves {
            return Err(MathError::Overflow);
        }
        let t = self.virtual_token_reserves + self.real_token_reserves;
        if tokens_in > u64::MAX - t {
            return Err(MathError::Overflow);
        }
        if self.real_token_reserves + tokens_in > self.total_supply {
            return Err(MathError::Overflow);
        }
        let last_price = match mul_div(sol_out, SCALE, tokens_in) {
            Ok(p) => p,
            Err(_) => {
                return Err(MathError::Overflow);
            },
        };
        let new_real_sol = self.real_sol_reserves - sol_out;
        let new_real_token = self.real_token_reserves + tokens_in;
        let new_s = self.virtual_sol_reserves + new_real_sol;
        let new_t = t + tokens_in;
        proof {
            lemma_u64_mul_fits_u128(new_s as int, new_t as int);
        }
        self.real_sol_reserves = new_real_sol;
        self.real_token_reserves = new_real_token;
        self.k_constant = (new_s as u128) * (new_t as u128);
        self.last_price = last_price;
        Ok(())
    }

    /// The current spot price at the fixed-point scale: effective SOL times
    /// `SCALE` over effective tokens, floored. Fails with `DivisionByZero`
    /// on an empty token side and with `Overflow` when the price leaves the
    /// 64-bit range.
    pub fn current_price(&self) -> (r: Result<u64, MathError>)
        requires
            self.well_formed(),
        ensures
            ({
                let s = self.eff_sol();
                let t = self.eff_tokens();
                &&& (t == 0 ==> r == Err::<u64, MathError>(MathError::DivisionByZero))
                &&& (t > 0 && s * SCALE / t <= u64::MAX ==> r == Ok::<u64, MathError>(
                    (s * SCALE / t) as u64,
                ))
                &&& (t > 0 && s * SCALE / t > u64::MAX ==> r == Err::<u64, MathError>(
                    MathError::Overflow,
                ))
            }),
    {
        let s = self.virtual_sol_reserves + self.real_sol_reserves;
        let t = self.virtual_token_reserves + self.real_token_reserves;
        mul_div(s, SCALE, t)
    }
}

/// LAW (product conservation): a buy quoted by the constant-product formula
/// and applied to the reserves never increases the effective product, and
/// the floor-rounding loss stays below one unit of the new SOL reserves —
/// one quotient unit of the division that priced the trade.
pub proof fn lemma_buy_preserves_product(
    pre: BondingCurve,
    post: BondingCurve,
    sol_in: u64,
    tokens_out: u64,
)
    requires
        pre.well_formed(),
        sol_in > 0,
        pre.eff_sol() + sol_in <= u64::MAX,
        tokens_out == spec_buy_tokens_out(pre.eff_sol(), pre.eff_tokens(), sol_in as int),
        post.eff_sol() == pre.eff_sol() + sol_in,
        post.eff_tokens() == pre.eff_tokens() - tokens_out,
    ensures
        post.eff_product() <= pre.eff_product(),
        pre.eff_product() - post.eff_product() < post.eff_sol(),
{
    let s = pre.eff_sol();
    let t = pre.eff_tokens();
    let s1 = s + sol_in;
    let q = (s * t) / s1;
    lemma_mul_nonnegative(s, t);
    lemma_fundamental_div_mod(s * t, s1);
    lemma_mod_bound(s * t, s1);
    assert(post.eff_tokens() == q);
    assert(post.eff_product() == s1 * q);
}

/// Mirror of `lemma_buy_preserves_product` for the sell direction: a sell
/// quoted by the constant-product formula and applied to the reserves never
/// increases the effective product, and the floor-rounding loss stays below
/// one unit of the new token reserves.
pub proof fn lemma_sell_preserves_product(
    pre: BondingCurve,
    post: BondingCurve,
    sol_out: u64,
    tokens_in: u64,
)
    requires
        pre.well_formed(),
        tokens_in > 0,
        pre.eff_tokens() + tokens_in <= u64::MAX,
        sol_out == spec_sell_sol_out(pre.eff_sol(), pre.eff_tokens(), tokens_in as int),
        post.eff_sol() == pre.eff_sol() - sol_out,
        post.eff_tokens() == pre.eff_tokens() + tokens_in,
    ensures
        post.eff_product() <= pre.eff_product(),
        pre.eff_product() - post.eff_product() < post.eff_tokens(),
{
    let s = pre.eff_sol();
    let t = pre.eff_tokens();
    let t1 = t + tokens_in;
    let q = (s * t) / t1;
    lemma_mul_nonnegative(s, t);
    lemma_fundamental_div_mod(s * t, t1);
    lemma_mod_bound(s * t, t1);
    assert(post.eff_sol() == q);
    assert(post.eff_product() == q * t1);
    lemma_mul_is_commutative(q, t1);
}

} // verus!
