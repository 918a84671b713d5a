//! Trade execution: one buy or one sell as one atomic transition.
//!
//! Each call validates its inputs, quotes the swap against the market,
//! applies the fee split, enforces the caller's slippage bound, and produces
//! the settlement amounts together with the updated market and position
//! snapshots. A rejected trade returns an error and nothing else: the caller
//! keeps its old snapshots, so no partial application is observable. On a
//! buy the fee is taken from the SOL input before the swap; on a sell it is
//! taken from the SOL output after the swap.

use vstd::prelude::*;
use vstd::arithmetic::div_mod::{
    lemma_div_is_ordered, lemma_div_multiples_vanish, lemma_fundamental_div_mod, lemma_mod_bound,
};
use vstd::arithmetic::mul::{lemma_mul_is_commutative, lemma_mul_nonnegative};
use crate::curve::{spec_buy_tokens_out, spec_sell_sol_out, BondingCurve, QuoteError};
use crate::fees::{lemma_fee_sum_le_gross, spec_fee, spec_net_of_fees, split_fee};
use crate::math::SCALE;
use crate::position::UserPosition;

verus! {

/// Rejection of a trade; the market and the position are left untouched.
#[derive(Clone, Copy, Debug, PartialEq, Eq, Structural)]
pub enum TradeError {
    /// The curve reached its funding goal; trading is closed.
    CurveComplete,
    /// A zero amount, or a fee configuration beyond 100%.
    InvalidAmount,
    /// An exact figure would leave its 64-bit range.
    Overflow,
    /// The quote rounds to nothing or would drain a reserve.
    InsufficientLiquidity,
    /// The quote violates the caller's minimum-output bound.
    SlippageExceeded,
    /// The position holds fewer tokens than the sell asks for.
    InsufficientBalance,
}

/// Settlement of an executed buy: the updated snapshots and the amounts the
/// host must move — `net_sol_to_curve` into the curve vault, the fees to
/// their recipients, `tokens_out` to the buyer.
#[derive(Clone, Copy, Debug, PartialEq, Eq, Structural)]
pub struct BuyOutcome {
    pub curve: BondingCurve,
    pub position: UserPosition,
    pub tokens_out: u64,
    pub net_sol_to_curve: u64,
    pub creator_fee: u64,
    pub platform_fee: u64,
}

/// Settlement of an executed sell: the updated snapshots and the amounts the
/// host must move — `gross_sol_out` out of the curve vault, of which the
/// fees go to their recipients and `net_sol_to_seller` to the seller.
#[derive(Clone, Copy, Debug, PartialEq, Eq, Structural)]
pub struct SellOutcome {
    pub curve: BondingCurve,
    pub position: UserPosition,
    pub gross_sol_out: u64,
    pub net_sol_to_seller: u64,
    pub creator_fee: u64,
    pub platform_fee: u64,
}

/// The settlement of a buy that passed every check: fees come off the input,
/// the net SOL is swapped at the constant-product quote, the reserves and
/// the ledger move accordingly, and the curve becomes complete exactly when
/// the settled SOL reaches the funding goal.
pub open spec fn spec_buy_ok(
    curve: BondingCurve,
    position: UserPosition,
    sol_amount: u64,
    creator_fee_bps: u16,
    platform_fee_bps: u16,
    funding_goal: u64,
    timestamp: i64,
) -> BuyOutcome {
    let creator_fee = spec_fee(sol_amount as int, creator_fee_bps as int);
    let platform_fee = spec_fee(sol_amount as int, platform_fee_bps as int);
    let net = sol_amount - creator_fee - platform_fee;
    let q = spec_buy_tokens_out(curve.eff_sol(), curve.eff_tokens(), net);
    let new_curve = BondingCurve {
        real_sol_reserves: (curve.real_sol_reserves + net) as u64,
        real_token_reserves: (curve.real_token_reserves - q) as u64,
        k_constant: ((curve.eff_sol() + net) * (curve.eff_tokens() - q)) as u128,
        last_price: (net * SCALE / q) as u64,
        complete: curve.real_sol_reserves + net >= funding_goal,
        volume_24h: if curve.volume_24h + sol_amount <= u64::MAX {
            (curve.volume_24h + sol_amount) as u64
        } else {
            u64::MAX
        },
        trades_24h: if curve.trades_24h + 1 <= u32::MAX {
            (curve.trades_24h + 1) as u32
        } else {
            u32::MAX
        },
        updated_at: timestamp,
        ..curve
    };
    BuyOutcome {
        curve: new_curve,
        position: position.spec_after_buy(sol_amount as int, q, timestamp),
        tokens_out: q as u64,
        net_sol_to_curve: net as u64,
        creator_fee: creator_fee as u64,
        platform_fee: platform_fee as u64,
    }
}

/// Executes one buy of `sol_amount` SOL (gross, fees included) against a
/// market snapshot and the buyer's position snapshot. Validates the inputs,
/// quotes the swap on the input net of fees, enforces the slippage bound
/// `min_tokens_out` and the reserve and supply limits, and returns the
/// settlement; any failure returns the error alone. The ensures clause names,
/// in check order, exactly which inputs produce which error, and pins the
/// successful settlement to the constant-product formula.
pub fn execute_buy(
    curve: &BondingCurve,
    position: &UserPosition,
    sol_amount: u64,
    min_tokens_out: u64,
    creator_fee_bps: u16,
    platform_fee_bps: u16,
    funding_goal: u64,
    timestamp: i64,
) -> (r: Result<BuyOutcome, TradeError>)
    requires
        curve.well_formed(),
        position.well_formed(),
    ensures
        ({
            let s = curve.eff_sol();
            let t = curve.eff_tokens();
            let net = spec_net_of_fees(
                sol_amount as int,
                creator_fee_bps as int,
                platform_fee_bps as int,
            );
            let q = spec_buy_tokens_out(s, t, net);
            let fee_ok = creator_fee_bps + platform_fee_bps <= 10_000;
            let quotable = !curve.complete && sol_amount > 0 && fee_ok && net > 0 && s + net
                <= u64::MAX;
            let tradable = quotable && q > 0 && q >= min_tokens_out && q
                <= curve.real_token_reserves;
            let ok = tradable && net * SCALE / q <= u64::MAX && position.buy_recordable(
                sol_amount as int,
                q,
            );
            &&& (curve.complete ==> r == Err::<BuyOutcome, TradeError>(TradeError::CurveComplete))
            &&& (!curve.complete && sol_amount == 0 ==> r == Err::<BuyOutcome, TradeError>(
                TradeError::InvalidAmount,
            ))
            &&& (!curve.complete && sol_amount > 0 && !fee_ok ==> r == Err::<
                BuyOutcome,
                TradeError,
            >(TradeError::InvalidAmount))
            &&& (!curve.complete && sol_amount > 0 && fee_ok && net == 0 ==> r == Err::<
                BuyOutcome,
                TradeError,
            >(TradeError::InvalidAmount))
            &&& (!curve.complete && sol_amount > 0 && fee_ok && net > 0 && s + net > u64::MAX ==> r
                == Err::<BuyOutcome, TradeError>(TradeError::Overflow))
            &&& (quotable && q == 0 ==> r == Err::<BuyOutcome, TradeError>(
                TradeError::InsufficientLiquidity,
            ))
            &&& (quotable && q > 0 && q < min_tokens_out ==> r == Err::<BuyOutcome, TradeError>(
                TradeError::SlippageExceeded,
            ))
            &&& (quotable && q > 0 && q >= min_tokens_out && q > curve.real_token_reserves ==> r
                == Err::<BuyOutcome, TradeError>(TradeError::InsufficientLiquidity))
            &&& (tradable && !ok ==> r == Err::<BuyOutcome, TradeError>(TradeError::Overflow))
            &&& (ok ==> r == Ok::<BuyOutcome, TradeError>(
                spec_buy_ok(
                    *curve,
                    *position,
                    sol_amount,
                    creator_fee_bps,
                    platform_fee_bps,
                    funding_goal,
                    timestamp,
                ),
            ) && r->Ok_0.curve.well_formed() && r->Ok_0.position.well_formed())
        }),
{
    if curve.complete {
        return Err(TradeError::CurveComplete);
    }
    if sol_amount == 0 {
        return Err(TradeError::InvalidAmount);
    }
    let (creator_fee, platform_fee, net) = match split_fee(
        sol_amount,
        creator_fee_bps,
        platform_fee_bps,
    ) {
        Ok(split) => split,
        Err(_) => {
            return Err(TradeError::InvalidAmount);
        },
    };
    let tokens_out = match curve.quote_buy(net) {
        Ok(q) => q,
        Err(QuoteError::InvalidAmount) => {
            return Err(TradeError::InvalidAmount);
        },
        Err(QuoteError::Overflow) => {
            return Err(TradeError::Overflow);
        },
        Err(QuoteError::InsufficientLiquidity) => {
            return Err(TradeError::InsufficientLiquidity);
        },
    };
    if tokens_out < min_tokens_out {
        return Err(TradeError::SlippageExceeded);
    }
    if tokens_out > curve.real_token_reserves {
        return Err(TradeError::InsufficientLiquidity);
    }
    let mut new_curve = *curve;
    match new_curve.apply_buy(net, tokens_out) {
        Ok(()) => {},
        Err(_) => {
            return Err(TradeError::Overflow);
        },
    }
    if new_curve.real_sol_reserves >= funding_goal {
        new_curve.complete = true;
    }
    new_curve.volume_24h = if sol_amount <= u64::MAX - new_curve.volume_24h {
        new_curve.volume_24h + sol_amount
    } else {
        u64::MAX
    };
    new_curve.trades_24h = if new_curve.trades_24h < u32::MAX {
        new_curve.trades_24h + 1
    } else {
        u32::MAX
    };
    new_curve.updated_at = timestamp;
    let mut new_position = *position;
    match new_position.record_buy(sol_amount, tokens_out, timestamp) {
        Ok(()) => {},
        Err(_) => {
            return Err(TradeError::Overflow);
        },
    }
    Ok(
        BuyOutcome {
            curve: new_curve,
            position: new_position,
            tokens_out,
            net_sol_to_curve: net,
            creator_fee,
            platform_fee,
        },
    )
}

/// The settlement of a sell that passed every check: the tokens are swapped
/// at the constant-product quote, the fees come off the SOL output, and the
/// reserves and the ledger move accordingly. A sell never completes a curve.
pub open spec fn spec_sell_ok(
    curve: BondingCurve,
    position: UserPosition,
    token_amount: u64,
    creator_fee_bps: u16,
    platform_fee_bps: u16,
    timestamp: i64,
) -> SellOutcome {
    let gross = spec_sell_sol_out(curve.eff_sol(), curve.eff_tokens(), token_amount as int);
    let creator_fee = spec_fee(gross, creator_fee_bps as int);
    let platform_fee = spec_fee(gross, platform_fee_bps as int);
    let net = gross - creator_fee - platform_fee;
    let new_curve = BondingCurve {
        real_sol_reserves: (curve.real_sol_reserves - gross) as u64,
        real_token_reserves: (curve.real_token_reserves + token_amount) as u64,
        k_constant: ((curve.eff_sol() - gross) * (curve.eff_tokens() + token_amount)) as u128,
        last_price: (gross * SCALE / token_amount as int) as u64,
        volume_24h: if curve.volume_24h + gross <= u64::MAX {
            (curve.volume_24h + gross) as u64
        } else {
            u64::MAX
        },
        trades_24h: if curve.trades_24h + 1 <= u32::MAX {
            (curve.trades_24h + 1) as u32
        } else {
            u32::MAX
        },
        updated_at: timestamp,
        ..curve
    };
    SellOutcome {
        curve: new_curve,
        position: position.spec_after_sell(net, token_amount as int, timestamp),
        gross_sol_out: gross as u64,
        net_sol_to_seller: net as u64,
        creator_fee: creator_fee as u64,
        platform_fee: platform_fee as u64,
    }
}

/// Executes one sell of `token_amount` tokens against a market snapshot and
/// the seller's position snapshot. Validates the inputs and the tracked
/// balance, quotes the swap, takes the fees from the SOL output, enforces
/// the slippage bound `min_sol_out` on the net proceeds and the reserve and
/// supply limits, and returns the settlement; any failure returns the error
/// alone. The ensures clause names, in check order, exactly which inputs
/// produce which error, and pins the successful settlement to the
/// constant-product formula.
pub fn execute_sell(
    curve: &BondingCurve,
    position: &UserPosition,
    token_amount: u64,
    min_sol_out: u64,
    creator_fee_bps: u16,
    platform_fee_bps: u16,
    timestamp: i64,
) -> (r: Result<SellOutcome, TradeError>)
    requires
        curve.well_formed(),
        position.well_formed(),
    ensures
        ({
            let s = curve.eff_sol();
            let t = curve.eff_tokens();
            let gross = spec_sell_sol_out(s, t, token_amount as int);
            let net = spec_net_of_fees(gross, creator_fee_bps as int, platform_fee_bps as int);
            let fee_ok = creator_fee_bps + platform_fee_bps <= 10_000;
            let quotable = !curve.complete && token_amount > 0 && token_amount
                <= position.token_balance && t + token_amount <= u64::MAX && gross > 0;
            let tradable = quotable && fee_ok && net >= min_sol_out && gross
                <= curve.real_sol_reserves;
            let ok = tradable && curve.real_token_reserves + token_amount <= curve.total_supply
                && gross * SCALE / token_amount as int <= u64::MAX && position.sell_recordable(
                net,
                token_amount as int,
            );
            &&& (curve.complete ==> r == Err::<SellOutcome, TradeError>(TradeError::CurveComplete))
            &&& (!curve.complete && token_amount == 0 ==> r == Err::<SellOutcome, TradeError>(
                TradeError::InvalidAmount,
            ))
            &&& (!curve.complete && token_amount > 0 && token_amount > position.token_balance ==> r
                == Err::<SellOutcome, TradeError>(TradeError::InsufficientBalance))
            &&& (!curve.complete && token_amount > 0 && token_amount <= position.token_balance && t
                + token_amount > u64::MAX ==> r == Err::<SellOutcome, TradeError>(
                TradeError::Overflow,
            ))
            &&& (!curve.complete && token_amount > 0 && token_amount <= position.token_balance && t
                + token_amount <= u64::MAX && gross == 0 ==> r == Err::<SellOutcome, TradeError>(
                TradeError::InsufficientLiquidity,
            ))
            &&& (quotable && !fee_ok ==> r == Err::<SellOutcome, TradeError>(
                TradeError::InvalidAmount,
            ))
            &&& (quotable && fee_ok && net < min_sol_out ==> r == Err::<SellOutcome, TradeError>(
                TradeError::SlippageExceeded,
            ))
            &&& (quotable && fee_ok && net >= min_sol_out && gross > curve.real_sol_reserves ==> r
                == Err::<SellOutcome, TradeError>(TradeError::InsufficientLiquidity))
            &&& (tradable && !ok ==> r == Err::<SellOutcome, TradeError>(TradeError::Overflow))
            &&& (ok ==> r == Ok::<SellOutcome, TradeError>(
                spec_sell_ok(
                    *curve,
                    *position,
                    token_amount,
                    creator_fee_bps,
                    platform_fee_bps,
                    timestamp,
                ),
            ) && r->Ok_0.curve.well_formed() && r->Ok_0.position.well_formed()
                && r->Ok_0.curve.complete == curve.complete)
        }),
{
    if curve.complete {
        return Err(TradeError::CurveComplete);
    }
    if token_amount == 0 {
        return Err(TradeError::InvalidAmount);
    }
    if token_amount > position.token_balance {
        return Err(TradeError::InsufficientBalance);
    }
    let gross = match curve.quote_sell(token_amount) {
        Ok(g) => g,
        Err(QuoteError::InvalidAmount) => {
            return Err(TradeError::InvalidAmount);
        },
        Err(QuoteError::Overflow) => {
            return Err(TradeError::Overflow);
        },
        Err(QuoteError::InsufficientLiquidity) => {
            return Err(TradeError::InsufficientLiquidity);
        },
    };
    let (creator_fee, platform_fee, net) = match split_fee(
        gross,
        creator_fee_bps,
        platform_fee_bps,
    ) {
        Ok(split) => split,
        Err(_) => {
            return Err(TradeError::InvalidAmount);
        },
    };
    if net < min_sol_out {
        return Err(TradeError::SlippageExceeded);
    }
    if gross > curve.real_sol_reserves {
        return Err(TradeError::InsufficientLiquidity);
    }
    let mut new_curve = *curve;
    match new_curve.apply_sell(gross, token_amount) {
        Ok(()) => {},
        Err(_) => {
            return Err(TradeError::Overflow);
        },
    }
    new_curve.volume_24h = if gross <= u64::MAX - new_curve.volume_24h {
        new_curve.volume_24h + gross
    } else {
        u64::MAX
    };
    new_curve.trades_24h = if new_curve.trades_24h < u32::MAX {
        new_curve.trades_24h + 1
    } else {
        u32::MAX
    };
    new_curve.updated_at = timestamp;
    let mut new_position = *position;
    match new_position.record_sell(net, token_amount, timestamp) {
        Ok(()) => {},
        Err(_) => {
            return Err(TradeError::Overflow);
        },
    }
    Ok(
        SellOutcome {
            curve: new_curve,
            position: new_position,
            gross_sol_out: gross,
            net_sol_to_seller: net,
            creator_fee,
            platform_fee,
        },
    )
}

/// LAW (no round-trip gain): buying and then selling back the exact tokens
/// received never nets more SOL than was spent, for any well-formed market,
/// provided the fees floor to at least one unit on the buy, the buy's input
/// net of fees is positive, and the effective SOL reserves (net input
/// included) do not exceed the effective token reserves. Floor rounding can
/// give the round trip back up to one SOL unit more than the net input; the
/// fee absorbs it.
pub proof fn lemma_sell_round_trip_no_gain(
    curve: BondingCurve,
    sol_amount: u64,
    creator_fee_bps: u16,
    platform_fee_bps: u16,
)
    requires
        curve.well_formed(),
        creator_fee_bps + platform_fee_bps <= 10_000,
        spec_fee(sol_amount as int, creator_fee_bps as int) + spec_fee(
            sol_amount as int,
            platform_fee_bps as int,
        ) >= 1,
        spec_net_of_fees(sol_amount as int, creator_fee_bps as int, platform_fee_bps as int) >= 1,
        curve.eff_sol() + spec_net_of_fees(
            sol_amount as int,
            creator_fee_bps as int,
            platform_fee_bps as int,
        ) <= curve.eff_tokens(),
    ensures
        ({
            let s = curve.eff_sol();
            let t = curve.eff_tokens();
            let net_in = spec_net_of_fees(
                sol_amount as int,
                creator_fee_bps as int,
                platform_fee_bps as int,
            );
            let out = spec_buy_tokens_out(s, t, net_in);
            let gross = spec_sell_sol_out(s + net_in, t - out, out);
            spec_net_of_fees(gross, creator_fee_bps as int, platform_fee_bps as int) <= sol_amount
        }),
{
    let s = curve.eff_sol();
    let t = curve.eff_tokens();
    let net_in = spec_net_of_fees(
        sol_amount as int,
        creator_fee_bps as int,
        platform_fee_bps as int,
    );
    let s1 = s + net_in;
    let q1 = (s * t) / s1;
    let r = (s * t) % s1;
    lemma_mul_nonnegative(s, t);
    lemma_fundamental_div_mod(s * t, s1);
    lemma_mod_bound(s * t, s1);
    // After the buy the effective reserves are (s1, q1); selling the bought
    // tokens quotes against the product k1 = s1 * q1 = s*t - r.
    let out = spec_buy_tokens_out(s, t, net_in);
    assert(t - out == q1);
    let k1 = s1 * q1;
    assert(k1 == s * t - r);
    let q2 = k1 / t;
    assert(spec_sell_sol_out(s1, q1, out) == s1 - q2);
    // q2 is pinned between s - 1 and s: the product lost less than s1 <= t.
    assert((s - 1) * t == s * t - t) by (nonlinear_arith);
    lemma_mul_is_commutative(s - 1, t);
    lemma_div_multiples_vanish(s - 1, t);
    lemma_div_is_ordered(t * (s - 1), k1, t);
    lemma_mul_is_commutative(s, t);
    lemma_div_multiples_vanish(s, t);
    lemma_div_is_ordered(k1, t * s, t);
    // Hence the gross sell proceeds are at most net_in + 1, and the buy fee
    // of at least one unit absorbs the rounding gain.
    let gross = s1 - q2;
    assert(gross <= net_in + 1);
    assert(gross >= net_in);
    lemma_fee_sum_le_gross(gross, creator_fee_bps as int, platform_fee_bps as int);
}

} // verus!
