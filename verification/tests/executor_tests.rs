use pump_core::curve::{
    BondingCurve, DEFAULT_CREATOR_FEE_BPS, DEFAULT_PLATFORM_FEE_BPS, FUNDING_GOAL,
    INITIAL_REAL_TOKEN_RESERVES, INITIAL_VIRTUAL_SOL_RESERVES, INITIAL_VIRTUAL_TOKEN_RESERVES,
    TOTAL_TOKEN_SUPPLY,
};
use pump_core::executor::{execute_buy, execute_sell, TradeError};
use pump_core::position::UserPosition;

const BPS: u16 = 100;

fn standard_curve() -> BondingCurve {
    BondingCurve::new(
        INITIAL_VIRTUAL_SOL_RESERVES,
        INITIAL_VIRTUAL_TOKEN_RESERVES,
        INITIAL_REAL_TOKEN_RESERVES,
        TOTAL_TOKEN_SUPPLY,
        1_700_000_000,
    )
}

#[test]
fn buy_settles_fees_quote_and_ledger() {
    assert_eq!(DEFAULT_CREATOR_FEE_BPS, BPS);
    assert_eq!(DEFAULT_PLATFORM_FEE_BPS, BPS);
    let curve = standard_curve();
    let position = UserPosition::new();
    let out = execute_buy(&curve, &position, 1_000_000_000, 0, BPS, BPS, FUNDING_GOAL, 7).unwrap();
    assert_eq!(out.creator_fee, 10_000_000);
    assert_eq!(out.platform_fee, 10_000_000);
    assert_eq!(out.net_sol_to_curve, 980_000_000);
    assert_eq!(out.tokens_out, 59_030_923_176_243);
    assert_eq!(out.curve.real_sol_reserves, 980_000_000);
    assert_eq!(
        out.curve.real_token_reserves,
        INITIAL_REAL_TOKEN_RESERVES - 59_030_923_176_243
    );
    assert_eq!(out.curve.last_price, 16_601);
    assert!(!out.curve.complete);
    assert_eq!(out.curve.volume_24h, 1_000_000_000);
    assert_eq!(out.curve.trades_24h, 1);
    assert_eq!(out.curve.updated_at, 7);
    assert_eq!(out.position.token_balance, 59_030_923_176_243);
    assert_eq!(out.position.sol_invested, 1_000_000_000);
    assert_eq!(out.position.average_buy_price, 16_940);
    assert_eq!(out.position.trade_count, 1);
    assert_eq!(out.position.first_buy_timestamp, 7);
    // The caller's snapshots are untouched; commitment is the host's move.
    assert_eq!(curve.real_sol_reserves, 0);
    assert_eq!(position.token_balance, 0);
}

#[test]
fn buy_rejections() {
    let curve = standard_curve();
    let position = UserPosition::new();
    assert_eq!(
        execute_buy(&curve, &position, 0, 0, BPS, BPS, FUNDING_GOAL, 0),
        Err(TradeError::InvalidAmount)
    );
    assert_eq!(
        execute_buy(&curve, &position, 1_000_000_000, 0, 9_000, 9_000, FUNDING_GOAL, 0),
        Err(TradeError::InvalidAmount)
    );
    // Quote below the minimum the buyer insists on.
    assert_eq!(
        execute_buy(&curve, &position, 1_000_000_000, 59_030_923_176_244, BPS, BPS, FUNDING_GOAL, 0),
        Err(TradeError::SlippageExceeded)
    );
    let mut closed = curve;
    closed.complete = true;
    assert_eq!(
        execute_buy(&closed, &position, 1_000_000_000, 0, BPS, BPS, FUNDING_GOAL, 0),
        Err(TradeError::CurveComplete)
    );
}

#[test]
fn buy_overflow_when_reserves_leave_range() {
    // Settling the net input would push the effective SOL reserves past the
    // 64-bit range: the trade fails loudly instead of wrapping.
    let curve = BondingCurve::new(u64::MAX - 10, 1_000, 0, 1_000, 0);
    let position = UserPosition::new();
    assert_eq!(
        execute_buy(&curve, &position, 1_000, 0, BPS, BPS, FUNDING_GOAL, 0),
        Err(TradeError::Overflow)
    );
}

#[test]
fn buy_insufficient_liquidity_when_tokens_run_out() {
    // A curve whose real token allocation is nearly drained cannot honour a
    // quote larger than what it still holds.
    let curve = BondingCurve::new(
        INITIAL_VIRTUAL_SOL_RESERVES,
        INITIAL_VIRTUAL_TOKEN_RESERVES,
        1_000_000,
        TOTAL_TOKEN_SUPPLY,
        0,
    );
    let position = UserPosition::new();
    assert_eq!(
        execute_buy(&curve, &position, 1_000_000_000, 0, BPS, BPS, FUNDING_GOAL, 0),
        Err(TradeError::InsufficientLiquidity)
    );
}

#[test]
fn sell_round_trip_returns_less_than_spent() {
    // Two buys, then selling the second buy's tokens: floor rounding may
    // hand back one extra lamport gross, but the fees absorb it, so the
    // seller nets less than a buy costs.
    let mut curve = standard_curve();
    let mut position = UserPosition::new();
    for _ in 0..2 {
        let out = execute_buy(&curve, &position, 1_000_000_000, 0, BPS, BPS, FUNDING_GOAL, 1).unwrap();
        curve = out.curve;
        position = out.position;
    }
    assert_eq!(curve.real_sol_reserves, 1_960_000_000);
    assert_eq!(position.average_buy_price, 17_476);
    let tokens = 55_410_753_920_128;
    let out = execute_sell(&curve, &position, tokens, 0, BPS, BPS, 2).unwrap();
    assert_eq!(out.gross_sol_out, 980_000_001);
    assert_eq!(out.creator_fee, 9_800_000);
    assert_eq!(out.platform_fee, 9_800_000);
    assert_eq!(out.net_sol_to_seller, 960_400_001);
    assert!(out.net_sol_to_seller <= 1_000_000_000);
    assert_eq!(out.curve.real_sol_reserves, 979_999_999);
    assert_eq!(out.curve.last_price, 17_686);
    // The sell realizes a loss against the average buy price.
    assert_eq!(out.position.realized_profit, -7_958_334);
    assert_eq!(out.position.average_buy_price, 17_476);
    assert_eq!(out.position.token_balance, position.token_balance - tokens);
    assert!(!out.curve.complete);
}

#[test]
fn sell_rejections() {
    let mut curve = standard_curve();
    let mut position = UserPosition::new();
    let out = execute_buy(&curve, &position, 1_000_000_000, 0, BPS, BPS, FUNDING_GOAL, 1).unwrap();
    curve = out.curve;
    position = out.position;
    assert_eq!(
        execute_sell(&curve, &position, 0, 0, BPS, BPS, 2),
        Err(TradeError::InvalidAmount)
    );
    assert_eq!(
        execute_sell(&curve, &position, position.token_balance + 1, 0, BPS, BPS, 2),
        Err(TradeError::InsufficientBalance)
    );
    // Selling the whole buy quotes one lamport more than was settled: the
    // pool cannot pay it out.
    assert_eq!(
        execute_sell(&curve, &position, position.token_balance, 0, BPS, BPS, 2),
        Err(TradeError::InsufficientLiquidity)
    );
    // The seller may insist on more than the quote nets.
    assert_eq!(
        execute_sell(&curve, &position, 1_000_000_000, u64::MAX, BPS, BPS, 2),
        Err(TradeError::SlippageExceeded)
    );
    assert_eq!(
        execute_sell(&curve, &position, 1_000_000_000, 0, 9_000, 9_000, 2),
        Err(TradeError::InvalidAmount)
    );
    let mut closed = curve;
    closed.complete = true;
    assert_eq!(
        execute_sell(&closed, &position, 1_000_000_000, 0, BPS, BPS, 2),
        Err(TradeError::CurveComplete)
    );
}

#[test]
fn buy_crossing_funding_goal_completes_curve() {
    // With a 0.5 SOL goal, a 1 SOL buy settles 0.98 SOL and crosses it.
    let goal = 500_000_000;
    let curve = standard_curve();
    let position = UserPosition::new();
    let out = execute_buy(&curve, &position, 1_000_000_000, 0, BPS, BPS, goal, 1).unwrap();
    assert!(out.curve.complete);
    assert!(!out.curve.migrated);
    // Once complete, no buy and no sell is accepted.
    assert_eq!(
        execute_buy(&out.curve, &out.position, 1_000_000_000, 0, BPS, BPS, goal, 2),
        Err(TradeError::CurveComplete)
    );
    assert_eq!(
        execute_sell(&out.curve, &out.position, 1, 0, BPS, BPS, 2),
        Err(TradeError::CurveComplete)
    );
}

#[test]
fn buy_below_funding_goal_stays_open() {
    let goal = 980_000_001;
    let curve = standard_curve();
    let position = UserPosition::new();
    let out = execute_buy(&curve, &position, 1_000_000_000, 0, BPS, BPS, goal, 1).unwrap();
    assert!(!out.curve.complete);
}
