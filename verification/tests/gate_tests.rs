use pump_core::curve::{
    BondingCurve, FUNDING_GOAL, INITIAL_REAL_TOKEN_RESERVES, INITIAL_VIRTUAL_SOL_RESERVES,
    INITIAL_VIRTUAL_TOKEN_RESERVES, TOTAL_TOKEN_SUPPLY,
};
use pump_core::executor::execute_buy;
use pump_core::gate::{
    check_migration, funding_progress_bps, migrate, migration_ready, MigrateError,
    MigrationAmounts, MIGRATION_TOKEN_PERCENT,
};
use pump_core::position::UserPosition;

fn standard_curve() -> BondingCurve {
    BondingCurve::new(
        INITIAL_VIRTUAL_SOL_RESERVES,
        INITIAL_VIRTUAL_TOKEN_RESERVES,
        INITIAL_REAL_TOKEN_RESERVES,
        TOTAL_TOKEN_SUPPLY,
        0,
    )
}

#[test]
fn readiness_tracks_settled_sol() {
    let mut c = standard_curve();
    assert!(!migration_ready(&c, FUNDING_GOAL));
    assert!(migration_ready(&c, 0));
    c.real_sol_reserves = FUNDING_GOAL;
    c.k_constant = (c.virtual_sol_reserves as u128 + FUNDING_GOAL as u128)
        * ((c.virtual_token_reserves + c.real_token_reserves) as u128);
    assert!(migration_ready(&c, FUNDING_GOAL));
}

#[test]
fn check_migration_is_idempotent() {
    let mut c = standard_curve();
    check_migration(&mut c, FUNDING_GOAL);
    assert!(!c.complete);
    check_migration(&mut c, 0);
    assert!(c.complete);
    let snapshot = c;
    // Re-checking a complete curve, under any goal, changes nothing.
    check_migration(&mut c, 0);
    assert_eq!(c, snapshot);
    check_migration(&mut c, FUNDING_GOAL);
    assert_eq!(c, snapshot);
}

#[test]
fn migration_runs_exactly_once() {
    let goal = 500_000_000;
    let curve = standard_curve();
    let position = UserPosition::new();
    let out = execute_buy(&curve, &position, 1_000_000_000, 0, 100, 100, goal, 1).unwrap();
    let mut c = out.curve;
    assert!(c.complete);
    assert_eq!(
        migrate(&mut c, goal),
        Ok(MigrationAmounts {
            token_amount: TOTAL_TOKEN_SUPPLY / 100 * MIGRATION_TOKEN_PERCENT,
            sol_amount: goal,
        })
    );
    assert!(c.migrated);
    assert!(c.complete);
    // The second attempt must fail, with the curve unchanged.
    let snapshot = c;
    assert_eq!(migrate(&mut c, goal), Err(MigrateError::AlreadyMigrated));
    assert_eq!(c, snapshot);
}

#[test]
fn migration_requires_completion() {
    let mut c = standard_curve();
    assert_eq!(migrate(&mut c, FUNDING_GOAL), Err(MigrateError::CurveNotComplete));
    assert_eq!(c, standard_curve());
    // A curve flagged complete but short of the goal it is asked to fund is
    // refused as well.
    c.complete = true;
    assert_eq!(migrate(&mut c, FUNDING_GOAL), Err(MigrateError::CurveNotComplete));
    assert!(!c.migrated);
}

#[test]
fn migration_token_share_is_twenty_percent_of_supply() {
    let goal = 500_000_000;
    let curve = standard_curve();
    let position = UserPosition::new();
    let out = execute_buy(&curve, &position, 1_000_000_000, 0, 100, 100, goal, 1).unwrap();
    let mut c = out.curve;
    let amounts = migrate(&mut c, goal).unwrap();
    assert_eq!(amounts.token_amount, 200_000_000_000_000);
    assert_eq!(amounts.sol_amount, goal);
}

#[test]
fn funding_progress_floors_and_caps() {
    let mut c = standard_curve();
    assert_eq!(funding_progress_bps(&c, FUNDING_GOAL), 0);
    assert_eq!(funding_progress_bps(&c, 0), 0);
    c.real_sol_reserves = 980_000_000;
    c.k_constant = (c.virtual_sol_reserves as u128 + 980_000_000)
        * ((c.virtual_token_reserves + c.real_token_reserves) as u128);
    assert_eq!(funding_progress_bps(&c, FUNDING_GOAL), 115);
    assert_eq!(funding_progress_bps(&c, 1_960_000_000), 5_000);
    assert_eq!(funding_progress_bps(&c, 980_000_000), 10_000);
    assert_eq!(funding_progress_bps(&c, 1), 10_000);
}
