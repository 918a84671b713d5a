//! Per-user position ledger: cumulative cost basis, realized and unrealized
//! profit, trade counters.
//!
//! A position is created lazily on a user's first buy, mutated by every
//! later buy or sell, and never deleted. The average buy price is a weighted
//! mean over cumulative buys only; sells never alter it.

use vstd::prelude::*;
use crate::math::{checked_add, mul_div, SCALE};

verus! {

/// Rejection of a ledger update.
#[derive(Clone, Copy, Debug, PartialEq, Eq, Structural)]
pub enum PositionError {
    /// A cumulative figure or the profit would leave its 64/63-bit range.
    Overflow,
    /// The weighted mean is undefined: no tokens were ever bought.
    DivisionByZero,
    /// The position holds fewer tokens than the sell asks for.
    InsufficientBalance,
}

/// One user's standing in one token market. Timestamps are advisory.
#[derive(Clone, Copy, Debug, PartialEq, Eq, Structural)]
pub struct UserPosition {
    pub token_balance: u64,
    pub sol_invested: u64,
    pub tokens_bought: u64,
    pub tokens_sold: u64,
    /// Weighted mean of all buys at the fixed-point scale; untouched by sells.
    pub average_buy_price: u64,
    pub realized_profit: i64,
    pub unrealized_profit: i64,
    pub trade_count: u32,
    /// Zero until the first recorded buy.
    pub first_buy_timestamp: i64,
    pub last_trade_timestamp: i64,
}

impl UserPosition {
    /// The balance always equals cumulative buys minus cumulative sells.
    pub open spec fn well_formed(self) -> bool {
        &&& self.tokens_sold <= self.tokens_bought
        &&& self.token_balance == self.tokens_bought - self.tokens_sold
    }

    /// A fresh, empty position.
    pub fn new() -> (p: Self)
        ensures
            p.well_formed(),
            p == (UserPosition {
                token_balance: 0,
                sol_invested: 0,
                tokens_bought: 0,
                tokens_sold: 0,
                average_buy_price: 0,
                realized_profit: 0,
                unrealized_profit: 0,
                trade_count: 0,
                first_buy_timestamp: 0,
                last_trade_timestamp: 0,
            }),
    {
        UserPosition {
            token_balance: 0,
            sol_invested: 0,
            tokens_bought: 0,
            tokens_sold: 0,
            average_buy_price: 0,
            realized_profit: 0,
            unrealized_profit: 0,
            trade_count: 0,
            first_buy_timestamp: 0,
            last_trade_timestamp: 0,
        }
    }

    /// The cumulative figures after a buy stay inside their ranges.
    pub open spec fn buy_recordable(self, sol_amount: int, token_amount: int) -> bool {
        &&& self.tokens_bought + token_amount > 0
        &&& self.sol_invested + sol_amount <= u64::MAX
        &&& self.tokens_bought + token_amount <= u64::MAX
        &&& (self.sol_invested + sol_amount) * SCALE / (self.tokens_bought + token_amount)
            <= u64::MAX
        &&& self.trade_count + 1 <= u32::MAX
    }

    /// The position after recording a buy: counters grow, and the average
    /// buy price becomes the weighted mean of all SOL ever invested over all
    /// tokens ever bought, at the fixed-point scale.
    pub open spec fn spec_after_buy(
        self,
        sol_amount: int,
        token_amount: int,
        timestamp: i64,
    ) -> UserPosition {
        UserPosition {
            token_balance: (self.token_balance + token_amount) as u64,
            sol_invested: (self.sol_invested + sol_amount) as u64,
            tokens_bought: (self.tokens_bought + token_amount) as u64,
            average_buy_price: ((self.sol_invested + sol_amount) * SCALE / (self.tokens_bought
                + token_amount)) as u64,
            trade_count: (self.trade_count + 1) as u32,
            first_buy_timestamp: if self.first_buy_timestamp == 0 {
                timestamp
            } else {
                self.first_buy_timestamp
            },
            last_trade_timestamp: timestamp,
            ..self
        }
    }

    /// Records an executed buy. Initializes the first-buy timestamp on the
    /// first call, recomputes the weighted-mean average buy price and grows
    /// the cumulative counters. Fails — leaving the position untouched —
    /// with `DivisionByZero` when no tokens were ever bought (zero amount on
    /// an empty position) and with `Overflow` when a figure leaves its range.
    pub fn record_buy(&mut self, sol_amount: u64, token_amount: u64, timestamp: i64) -> (r: Result<
        (),
        PositionError,
    >)
        requires
            old(self).well_formed(),
        ensures
            ({
                let pre = *old(self);
                let post = *final(self);
                let ok = pre.buy_recordable(sol_amount as int, token_amount as int);
                &&& (pre.tokens_bought + token_amount == 0 ==> r == Err::<(), PositionError>(
                    PositionError::DivisionByZero,
                ))
                &&& (pre.tokens_bought + token_amount > 0 && !ok ==> r == Err::<(), PositionError>(
                    PositionError::Overflow,
                ))
                &&& (!ok ==> post == pre)
                &&& (ok ==> r == Ok::<(), PositionError>(()) && post == pre.spec_after_buy(
                    sol_amount as int,
                    token_amount as int,
                    timestamp,
                ) && post.well_formed())
            }),
    {
        if self.tokens_bought == 0 && token_amount == 0 {
            return Err(PositionError::DivisionByZero);
        }
        let total_sol = match checked_add(self.sol_invested, sol_amount) {
            Ok(v) => v,
            Err(_) => {
                return Err(PositionError::Overflow);
            },
        };
        let total_tokens = match checked_add(self.tokens_bought, token_amount) {
            Ok(v) => v,
            Err(_) => {
                return Err(PositionError::Overflow);
            },
        };
        let average = match mul_div(total_sol, SCALE, total_tokens) {
            Ok(v) => v,
            Err(_) => {
                return Err(PositionError::Overflow);
            },
        };
        if self.trade_count == u32::MAX {
            return Err(PositionError::Overflow);
        }
        if self.first_buy_timestamp == 0 {
            self.first_buy_timestamp = timestamp;
        }
        self.token_balance = self.token_balance + token_amount;
        self.sol_invested = total_sol;
        self.tokens_bought = total_tokens;
        self.average_buy_price = average;
        self.trade_count = self.trade_count + 1;
        self.last_trade_timestamp = timestamp;
        Ok(())
    }

    /// The floored cost basis of selling `token_amount` at the recorded
    /// average buy price.
    pub open spec fn sell_cost_basis(self, token_amount: int) -> int {
        self.average_buy_price * token_amount / SCALE as int
    }

    /// The sell's figures stay inside their ranges.
    pub open spec fn sell_recordable(self, sol_amount: int, token_amount: int) -> bool {
        &&& token_amount <= self.token_balance
        &&& sol_amount <= i64::MAX
        &&& self.sell_cost_basis(token_amount) <= i64::MAX
        &&& i64::MIN <= self.realized_profit + sol_amount - self.sell_cost_basis(token_amount)
            <= i64::MAX
        &&& self.trade_count + 1 <= u32::MAX
    }

    /// The position after recording a sell: the balance and the sold counter
    /// move, the realized profit grows by the proceeds minus the floored
    /// cost basis (possibly negative), and the average buy price stays.
    pub open spec fn spec_after_sell(
        self,
        sol_amount: int,
        token_amount: int,
        timestamp: i64,
    ) -> UserPosition {
        UserPosition {
            token_balance: (self.token_balance - token_amount) as u64,
            tokens_sold: (self.tokens_sold + token_amount) as u64,
            realized_profit: (self.realized_profit + sol_amount - self.sell_cost_basis(
                token_amount,
            )) as i64,
            trade_count: (self.trade_count + 1) as u32,
            last_trade_timestamp: timestamp,
            ..self
        }
    }

    /// Records an executed sell of `token_amount` tokens for `sol_amount`
    /// SOL of proceeds. Fails — leaving the position untouched — with
    /// `InsufficientBalance` when the position lacks the tokens and with
    /// `Overflow` when a figure leaves its range. Sells never change the
    /// average buy price.
    pub fn record_sell(&mut self, sol_amount: u64, token_amount: u64, timestamp: i64) -> (r: Result<
        (),
        PositionError,
    >)
        requires
            old(self).well_formed(),
        ensures
            ({
                let pre = *old(self);
                let post = *final(self);
                let ok = pre.sell_recordable(sol_amount as int, token_amount as int);
                &&& (token_amount > pre.token_balance ==> r == Err::<(), PositionError>(
                    PositionError::InsufficientBalance,
                ))
                &&& (token_amount <= pre.token_balance && !ok ==> r == Err::<(), PositionError>(
                    PositionError::Overflow,
                ))
                &&& (!ok ==> post == pre)
                &&& (ok ==> r == Ok::<(), PositionError>(()) && post == pre.spec_after_sell(
                    sol_amount as int,
                    token_amount as int,
                    timestamp,
                ) && post.well_formed() && post.average_buy_price == pre.average_buy_price)
            }),
    {
        if token_amount > self.token_balance {
            return Err(PositionError::InsufficientBalance);
        }
        if sol_amount > i64::MAX as u64 {
            return Err(PositionError::Overflow);
        }
        let cost_basis = match mul_div(self.average_buy_price, token_amount, SCALE) {
            Ok(v) => v,
            Err(_) => {
                return Err(PositionError::Overflow);
            },
        };
        if cost_basis > i64::MAX as u64 {
            return Err(PositionError::Overflow);
        }
        let profit_delta: i64 = (sol_amount as i64) - (cost_basis as i64);
        if profit_delta >= 0 {
            if self.realized_profit > i64::MAX - profit_delta {
                return Err(PositionError::Overflow);
            }
        } else {
            if self.realized_profit < i64::MIN - profit_delta {
                return Err(PositionError::Overflow);
            }
        }
        if self.trade_count == u32::MAX {
            return Err(PositionError::Overflow);
        }
        self.token_balance = self.token_balance - token_amount;
        self.tokens_sold = self.tokens_sold + token_amount;
        self.realized_profit = self.realized_profit + profit_delta;
        self.trade_count = self.trade_count + 1;
        self.last_trade_timestamp = timestamp;
        Ok(())
    }

    /// Recomputes the unrealized profit against `current_price`: the signed
    /// price difference to the average buy price, times the balance, divided
    /// by the scale, floored toward zero; zero on an empty balance. Realized
    /// figures are untouched. Fails — leaving the position untouched — with
    /// `Overflow` when the figure leaves the 63-bit range.
    pub fn mark_to_market(&mut self, current_price: u64) -> (r: Result<(), PositionError>)
        requires
            old(self).well_formed(),
        ensures
            ({
                let pre = *old(self);
                let post = *final(self);
                let gain = (current_price - pre.average_buy_price) * pre.token_balance
                    / SCALE as int;
                let loss = (pre.average_buy_price - current_price) * pre.token_balance
                    / SCALE as int;
                &&& (pre.token_balance == 0 ==> r == Ok::<(), PositionError>(()) && post
                    == (UserPosition { unrealized_profit: 0, ..pre }))
                &&& (pre.token_balance > 0 && current_price >= pre.average_buy_price ==> (if gain
                    <= i64::MAX {
                    r == Ok::<(), PositionError>(()) && post == (UserPosition {
                        unrealized_profit: gain as i64,
                        ..pre
                    })
                } else {
                    r == Err::<(), PositionError>(PositionError::Overflow) && post == pre
                }))
                &&& (pre.token_balance > 0 && current_price < pre.average_buy_price ==> (if loss
                    <= i64::MAX {
                    r == Ok::<(), PositionError>(()) && post == (UserPosition {
                        unrealized_profit: (-loss) as i64,
                        ..pre
                    })
                } else {
                    r == Err::<(), PositionError>(PositionError::Overflow) && post == pre
                }))
            }),
    {
        if self.token_balance == 0 {
            self.unrealized_profit = 0;
            return Ok(());
        }
        if current_price >= self.average_buy_price {
            let diff = current_price - self.average_buy_price;
            let gain = match mul_div(diff, self.token_balance, SCALE) {
                Ok(v) => v,
                Err(_) => {
                    return Err(PositionError::Overflow);
                },
            };
            if gain > i64::MAX as u64 {
                return Err(PositionError::Overflow);
            }
            self.unrealized_profit = gain as i64;
        } else {
            let diff = self.average_buy_price - current_price;
            let loss = match mul_div(diff, self.token_balance, SCALE) {
                Ok(v) => v,
                Err(_) => {
                    return Err(PositionError::Overflow);
                },
            };
            if loss > i64::MAX as u64 {
                return Err(PositionError::Overflow);
            }
            self.unrealized_profit = -(loss as i64);
        }
        Ok(())
    }
}

/// LAW (position round trip): recording a buy and then a sell of the same
/// token amount returns the token balance to its pre-buy value, and the
/// sell leaves the average buy price exactly where the buy put it.
pub proof fn lemma_buy_sell_round_trip(
    p: UserPosition,
    sol_buy: u64,
    tokens: u64,
    ts_buy: i64,
    sol_sell: u64,
    ts_sell: i64,
)
    requires
        p.well_formed(),
        p.buy_recordable(sol_buy as int, tokens as int),
        p.spec_after_buy(sol_buy as int, tokens as int, ts_buy).sell_recordable(
            sol_sell as int,
            tokens as int,
        ),
    ensures
        ({
            let bought = p.spec_after_buy(sol_buy as int, tokens as int, ts_buy);
            let sold = bought.spec_after_sell(sol_sell as int, tokens as int, ts_sell);
            &&& sold.token_balance == p.token_balance
            &&& sold.average_buy_price == bought.average_buy_price
        }),
{
}

} // verus!
