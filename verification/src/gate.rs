//! MigrationGate: the one-shot lifecycle of a market.
//!
//! A curve trades until its settled SOL reaches the funding goal, is then
//! ready for migration (`complete`, trading closed), and is finally migrated
//! exactly once by an external pool-creation step that consumes a fixed
//! percentage of the total supply and the exact funding-goal amount of
//! settled SOL. Both transitions are irreversible; re-checking readiness is
//! idempotent, and a second migration fails.

use vstd::prelude::*;
use vstd::arithmetic::div_mod::{lemma_div_is_ordered, lemma_div_multiples_vanish};
use vstd::arithmetic::mul::{lemma_mul_is_commutative, lemma_mul_inequality};
use crate::curve::BondingCurve;
use crate::math::{lemma_u64_mul_fits_u128, mul_div};

verus! {

/// Share of the total supply that migration moves into the external pool.
pub const MIGRATION_TOKEN_PERCENT: u64 = 20;

/// Rejection of a migration step.
#[derive(Clone, Copy, Debug, PartialEq, Eq, Structural)]
pub enum MigrateError {
    /// The curve has not reached its funding goal.
    CurveNotComplete,
    /// The curve was migrated before; the step runs exactly once.
    AlreadyMigrated,
}

/// What the external pool-creation step consumes.
#[derive(Clone, Copy, Debug, PartialEq, Eq, Structural)]
pub struct MigrationAmounts {
    pub token_amount: u64,
    pub sol_amount: u64,
}

/// True exactly when the settled SOL has reached the funding goal.
pub fn migration_ready(curve: &BondingCurve, funding_goal: u64) -> (r: bool)
    ensures
        r == (curve.real_sol_reserves >= funding_goal),
{
    curve.real_sol_reserves >= funding_goal
}

/// Marks the curve ready for migration once the settled SOL has reached the
/// funding goal; otherwise a no-op. Idempotent: re-checking a curve that is
/// already complete or migrated changes nothing.
pub fn check_migration(curve: &mut BondingCurve, funding_goal: u64)
    requires
        old(curve).well_formed(),
    ensures
        *final(curve) == (BondingCurve {
            complete: old(curve).complete || old(curve).real_sol_reserves >= funding_goal,
            ..*old(curve)
        }),
        final(curve).well_formed(),
{
    if curve.real_sol_reserves >= funding_goal {
        curve.complete = true;
    }
}

/// The terminal transition: runs exactly once on a curve that is ready for
/// migration, marks it migrated, and returns what the external pool step
/// consumes — a fixed percentage of the total supply in tokens and the exact
/// funding-goal amount of settled SOL. Fails with `CurveNotComplete` before
/// readiness and with `AlreadyMigrated` on every later attempt, leaving the
/// curve untouched.
pub fn migrate(curve: &mut BondingCurve, funding_goal: u64) -> (r: Result<
    MigrationAmounts,
    MigrateError,
>)
    requires
        old(curve).well_formed(),
    ensures
        ({
            let pre = *old(curve);
            let post = *final(curve);
            let ready = pre.complete && pre.real_sol_reserves >= funding_goal;
            &&& (!ready ==> r == Err::<MigrationAmounts, MigrateError>(
                MigrateError::CurveNotComplete,
            ) && post == pre)
            &&& (ready && pre.migrated ==> r == Err::<MigrationAmounts, MigrateError>(
                MigrateError::AlreadyMigrated,
            ) && post == pre)
            &&& (ready && !pre.migrated ==> r == Ok::<MigrationAmounts, MigrateError>(
                MigrationAmounts {
                    token_amount: (pre.total_supply * MIGRATION_TOKEN_PERCENT / 100) as u64,
                    sol_amount: funding_goal,
                },
            ) && post == (BondingCurve { migrated: true, ..pre }) && post.well_formed())
        }),
{
    if !curve.complete || curve.real_sol_reserves < funding_goal {
        return Err(MigrateError::CurveNotComplete);
    }
    if curve.migrated {
        return Err(MigrateError::AlreadyMigrated);
    }
    proof {
        // total_supply * 20 / 100 never exceeds total_supply.
        let ts = curve.total_supply as int;
        lemma_mul_inequality(MIGRATION_TOKEN_PERCENT as int, 100, ts);
        lemma_mul_is_commutative(ts, MIGRATION_TOKEN_PERCENT as int);
        lemma_mul_is_commutative(ts, 100);
        lemma_div_is_ordered(ts * MIGRATION_TOKEN_PERCENT, ts * 100, 100);
        lemma_div_multiples_vanish(ts, 100);
    }
    let token_amount = match mul_div(curve.total_supply, MIGRATION_TOKEN_PERCENT, 100) {
        Ok(v) => v,
        Err(_) => {
            // Unreachable: a 20% share always fits.
            proof {
                assert(false);
            }
            0
        },
    };
    curve.migrated = true;
    Ok(MigrationAmounts { token_amount, sol_amount: funding_goal })
}

/// Funding progress toward the goal in basis points, floored and capped at
/// 100%; zero against a zero goal.
pub fn funding_progress_bps(curve: &BondingCurve, funding_goal: u64) -> (r: u16)
    ensures
        funding_goal == 0 ==> r == 0,
        funding_goal > 0 && curve.real_sol_reserves * 10_000 / (funding_goal as int) < 10_000 ==> r
            == curve.real_sol_reserves * 10_000 / (funding_goal as int),
        funding_goal > 0 && curve.real_sol_reserves * 10_000 / (funding_goal as int) >= 10_000 ==> r
            == 10_000,
{
    if funding_goal == 0 {
        return 0;
    }
    proof {
        lemma_u64_mul_fits_u128(curve.real_sol_reserves as int, 10_000);
        lemma_div_is_ordered(0, curve.real_sol_reserves as int * 10_000, funding_goal as int);
    }
    let wide: u128 = (curve.real_sol_reserves as u128) * 10_000;
    let q: u128 = wide / (funding_goal as u128);
    if q >= 10_000 {
        10_000
    } else {
        q as u16
    }
}

} // verus!
