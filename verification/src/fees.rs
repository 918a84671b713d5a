//! Creator/platform fee computation in basis points.
//!
//! Fees are floored, deterministic, and can never exceed the gross amount
//! they are taken from, so the net amount never underflows.

use vstd::prelude::*;
use vstd::arithmetic::div_mod::{
    lemma_div_is_ordered, lemma_div_multiples_vanish, lemma_fundamental_div_mod,
};
use vstd::arithmetic::mul::{
    lemma_mul_inequality, lemma_mul_is_commutative, lemma_mul_is_distributive_add_other_way,
    lemma_mul_nonnegative,
};
use crate::math::{mul_div, BPS_DENOMINATOR};

verus! {

/// Rejection of a fee configuration.
#[derive(Clone, Copy, Debug, PartialEq, Eq, Structural)]
pub enum FeeError {
    /// The combined fee rate exceeds 10_000 basis points (100%).
    InvalidAmount,
}

/// The floored fee taken from `gross` at a rate of `bps` basis points.
pub open spec fn spec_fee(gross: int, bps: int) -> int {
    gross * bps / 10_000
}

/// What remains of `gross` once the creator and the platform fee are taken.
pub open spec fn spec_net_of_fees(gross: int, creator_bps: int, platform_bps: int) -> int {
    gross - spec_fee(gross, creator_bps) - spec_fee(gross, platform_bps)
}

/// Two floored basis-point fees with rates summing to at most 100% never
/// exceed the gross amount together.
pub proof fn lemma_fee_sum_le_gross(gross: int, creator_bps: int, platform_bps: int)
    requires
        gross >= 0,
        creator_bps >= 0,
        platform_bps >= 0,
        creator_bps + platform_bps <= 10_000,
    ensures
        0 <= spec_fee(gross, creator_bps),
        0 <= spec_fee(gross, platform_bps),
        spec_fee(gross, creator_bps) + spec_fee(gross, platform_bps) <= gross,
{
    let d = 10_000int;
    let xc = gross * creator_bps;
    let xp = gross * platform_bps;
    lemma_mul_nonnegative(gross, creator_bps);
    lemma_mul_nonnegative(gross, platform_bps);
    lemma_div_is_ordered(0, xc, d);
    lemma_div_is_ordered(0, xp, d);
    let qc = xc / d;
    let qp = xp / d;
    lemma_fundamental_div_mod(xc, d);
    lemma_fundamental_div_mod(xp, d);
    // d * (qc + qp) <= xc + xp, so qc + qp <= (xc + xp) / d.
    lemma_div_multiples_vanish(qc + qp, d);
    lemma_div_is_ordered(d * (qc + qp), xc + xp, d);
    // xc + xp == gross * (creator_bps + platform_bps) <= gross * d.
    lemma_mul_is_distributive_add_other_way(gross, creator_bps, platform_bps);
    lemma_mul_is_commutative(gross, creator_bps + platform_bps);
    lemma_mul_inequality(creator_bps + platform_bps, d, gross);
    lemma_mul_is_commutative(gross, d);
    lemma_div_is_ordered(xc + xp, gross * d, d);
    lemma_div_multiples_vanish(gross, d);
}

/// The floored basis-point fee on `gross`: `gross * bps / 10_000`, never
/// more than `gross` itself.
pub fn fee_amount(gross: u64, bps: u16) -> (r: u64)
    requires
        bps <= 10_000,
    ensures
        r == spec_fee(gross as int, bps as int),
        r <= gross,
{
    proof {
        lemma_fee_sum_le_gross(gross as int, bps as int, 0);
        lemma_div_is_ordered(0, gross as int * bps as int, 10_000);
    }
    match mul_div(gross, bps as u64, BPS_DENOMINATOR) {
        Ok(f) => f,
        Err(_) => {
            // Unreachable: the quotient is bounded by `gross`.
            proof {
                assert(false);
            }
            0
        },
    }
}

/// Splits `gross` into `(creator_fee, platform_fee, net)`. Each fee is the
/// floored basis-point share of `gross`; the two fees never exceed `gross`,
/// and a zero rate yields a zero fee. Rejected when the combined rate
/// exceeds 100%.
pub fn split_fee(gross: u64, creator_bps: u16, platform_bps: u16) -> (r: Result<
    (u64, u64, u64),
    FeeError,
>)
    ensures
        creator_bps + platform_bps > 10_000 ==> r == Err::<(u64, u64, u64), FeeError>(
            FeeError::InvalidAmount,
        ),
        creator_bps + platform_bps <= 10_000 ==> (match r {
            Ok((creator_fee, platform_fee, net)) => {
                &&& creator_fee == spec_fee(gross as int, creator_bps as int)
                &&& platform_fee == spec_fee(gross as int, platform_bps as int)
                &&& creator_fee + platform_fee <= gross
                &&& net == gross - creator_fee - platform_fee
            },
            Err(_) => false,
        }),
{
    if (creator_bps as u32) + (platform_bps as u32) > 10_000 {
        return Err(FeeError::InvalidAmount);
    }
    let creator_fee = fee_amount(gross, creator_bps);
    let platform_fee = fee_amount(gross, platform_bps);
    proof {
        lemma_fee_sum_le_gross(gross as int, creator_bps as int, platform_bps as int);
    }
    let net = gross - creator_fee - platform_fee;
    Ok((creator_fee, platform_fee, net))
}

} // verus!
