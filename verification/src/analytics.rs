//! Running counters derived from the lending operations.
//!
//! They are informational: no authorization or solvency decision reads them.

use vstd::prelude::*;
use crate::address::Address;
use crate::math::{checked_ratio_bps, fits_i128, ratio_bps};
use crate::position::Position;

verus! {

/// The kind of a lending operation.
#[derive(Clone, Copy, Debug, PartialEq, Eq, Structural)]
pub enum ActivityKind {
    Deposit,
    Withdraw,
    Borrow,
    Repay,
}

impl ActivityKind {
    /// The name under which the kind appears in the activity log:
    /// `deposit`, `withdraw`, `borrow`, `repay`.
    pub open spec fn log_name(self) -> Seq<char> {
        match self {
            ActivityKind::Deposit => "deposit"@,
            ActivityKind::Withdraw => "withdraw"@,
            ActivityKind::Borrow => "borrow"@,
            ActivityKind::Repay => "repay"@,
        }
    }

    /// The name under which the kind appears in the activity log.
    pub fn name(&self) -> (name: &'static str)
        ensures
            name@ == self.log_name(),
    {
        match self {
            ActivityKind::Deposit => "deposit",
            ActivityKind::Withdraw => "withdraw",
            ActivityKind::Borrow => "borrow",
            ActivityKind::Repay => "repay",
        }
    }
}

/// One entry of the activity log.
#[derive(Clone, Copy, Debug, PartialEq, Eq, Structural)]
pub struct Activity {
    pub user: Address,
    pub kind: ActivityKind,
    pub amount: i128,
    /// The asset moved; `None` is the native currency.
    pub asset: Option<Address>,
    pub timestamp: u64,
}

/// Counters kept per user.
#[derive(Clone, Copy, Debug, PartialEq, Eq, Structural)]
pub struct UserAnalytics {
    pub total_deposits: i128,
    pub total_borrows: i128,
    pub total_withdrawals: i128,
    pub total_repayments: i128,
    /// Collateral after the user's latest operation.
    pub collateral_value: i128,
    /// Principal plus interest after the user's latest operation.
    pub debt_value: i128,
    /// Collateral ratio after the latest operation, in basis points; zero
    /// while there is no debt.
    pub collateralization_ratio: i128,
    pub activity_score: i128,
    pub transaction_count: u64,
    pub first_interaction: u64,
    pub last_activity: u64,
    pub risk_level: i128,
    pub loyalty_tier: i128,
}

/// Counters kept for the protocol as a whole.
#[derive(Clone, Copy, Debug, PartialEq, Eq, Structural)]
pub struct ProtocolAnalytics {
    /// Sum of all deposits ever made.
    pub total_deposits: i128,
    /// Sum of all amounts ever borrowed.
    pub total_borrows: i128,
    /// Deposits less withdrawals.
    pub total_value_locked: i128,
}

/// The collateral ratio recorded for a position: zero without debt.
pub open spec fn ratio_snapshot(position: Position) -> int {
    if position.total_debt() > 0 {
        ratio_bps(position.collateral as int, position.total_debt())
    } else {
        0
    }
}

impl UserAnalytics {
    /// The counters of a user first seen at `now`.
    pub open spec fn fresh(now: u64) -> UserAnalytics {
        UserAnalytics {
            total_deposits: 0,
            total_borrows: 0,
            total_withdrawals: 0,
            total_repayments: 0,
            collateral_value: 0,
            debt_value: 0,
            collateralization_ratio: 0,
            activity_score: 0,
            transaction_count: 0,
            first_interaction: now,
            last_activity: now,
            risk_level: 0,
            loyalty_tier: 0,
        }
    }

    /// The counters to start from: those on record, or fresh ones.
    pub open spec fn or_fresh(previous: Option<UserAnalytics>, now: u64) -> UserAnalytics {
        match previous {
            Some(analytics) => analytics,
            None => UserAnalytics::fresh(now),
        }
    }

    /// The running total that operations of `kind` add to.
    pub open spec fn total_of(self, kind: ActivityKind) -> i128 {
        match kind {
            ActivityKind::Deposit => self.total_deposits,
            ActivityKind::Withdraw => self.total_withdrawals,
            ActivityKind::Borrow => self.total_borrows,
            ActivityKind::Repay => self.total_repayments,
        }
    }

    /// Whether recording an operation keeps every counter representable.
    pub open spec fn recording_fits(self, kind: ActivityKind, amount: i128, position: Position)
        -> bool {
        &&& fits_i128(self.total_of(kind) + amount)
        &&& self.transaction_count < u64::MAX
        &&& fits_i128(position.total_debt())
        &&& position.total_debt() > 0 ==> fits_i128(position.collateral * 10_000)
    }

    /// The counters after an operation of `kind` and `amount` that left the
    /// user with `position`: the matching total grows by `amount`, the
    /// snapshot fields follow the position, and the transaction count grows
    /// by one.
    pub open spec fn recorded(
        self,
        kind: ActivityKind,
        amount: i128,
        position: Position,
        now: u64,
    ) -> UserAnalytics {
        let total = (self.total_of(kind) + amount) as i128;
        UserAnalytics {
            total_deposits: if kind == ActivityKind::Deposit {
                total
            } else {
                self.total_deposits
            },
            total_withdrawals: if kind == ActivityKind::Withdraw {
                total
            } else {
                self.total_withdrawals
            },
            total_borrows: if kind == ActivityKind::Borrow {
                total
            } else {
                self.total_borrows
            },
            total_repayments: if kind == ActivityKind::Repay {
                total
            } else {
                self.total_repayments
            },
            collateral_value: position.collateral,
            debt_value: position.total_debt() as i128,
            collateralization_ratio: ratio_snapshot(position) as i128,
            transaction_count: (self.transaction_count + 1) as u64,
            last_activity: now,
            ..self
        }
    }

    /// The counters of a user first seen at `now`.
    pub fn new_at(now: u64) -> (a: UserAnalytics)
        ensures
            a == UserAnalytics::fresh(now),
    {
        UserAnalytics {
            total_deposits: 0,
            total_borrows: 0,
            total_withdrawals: 0,
            total_repayments: 0,
            collateral_value: 0,
            debt_value: 0,
            collateralization_ratio: 0,
            activity_score: 0,
            transaction_count: 0,
            first_interaction: now,
            last_activity: now,
            risk_level: 0,
            loyalty_tier: 0,
        }
    }

    /// Records an operation; `None` when a counter would leave the
    /// representable range.
    pub fn record(&self, kind: ActivityKind, amount: i128, position: &Position, now: u64) -> (r:
        Option<UserAnalytics>)
        ensures
            self.recording_fits(kind, amount, *position) ==> r == Some(
                self.recorded(kind, amount, *position, now),
            ),
            !self.recording_fits(kind, amount, *position) ==> r.is_none(),
    {
        let current = match kind {
            ActivityKind::Deposit => self.total_deposits,
            ActivityKind::Withdraw => self.total_withdrawals,
            ActivityKind::Borrow => self.total_borrows,
            ActivityKind::Repay => self.total_repayments,
        };
        let total = match current.checked_add(amount) {
            Some(v) => v,
            None => {
                return None;
            },
        };
        if self.transaction_count == u64::MAX {
            return None;
        }
        let debt_value = match position.checked_total_debt() {
            Some(v) => v,
            None => {
                return None;
            },
        };
        let mut ratio: i128 = 0;
        if debt_value > 0 {
            ratio =
            match checked_ratio_bps(position.collateral, debt_value) {
                Some(v) => v,
                None => {
                    return None;
                },
            };
        }
        let mut next = *self;
        match kind {
            ActivityKind::Deposit => {
                next.total_deposits = total;
            },
            ActivityKind::Withdraw => {
                next.total_withdrawals = total;
            },
            ActivityKind::Borrow => {
                next.total_borrows = total;
            },
            ActivityKind::Repay => {
                next.total_repayments = total;
            },
        }
        next.collateral_value = position.collateral;
        next.debt_value = debt_value;
        next.collateralization_ratio = ratio;
        next.transaction_count = self.transaction_count + 1;
        next.last_activity = now;
        Some(next)
    }
}

impl ProtocolAnalytics {
    /// The counters before any operation.
    pub open spec fn zero() -> ProtocolAnalytics {
        ProtocolAnalytics { total_deposits: 0, total_borrows: 0, total_value_locked: 0 }
    }

    /// The counters to start from: those on record, or zero.
    pub open spec fn or_zero(previous: Option<ProtocolAnalytics>) -> ProtocolAnalytics {
        match previous {
            Some(analytics) => analytics,
            None => ProtocolAnalytics::zero(),
        }
    }

    /// Whether recording an operation keeps every counter representable.
    pub open spec fn recording_fits(self, kind: ActivityKind, amount: i128) -> bool {
        match kind {
            ActivityKind::Deposit => fits_i128(self.total_deposits + amount) && fits_i128(
                self.total_value_locked + amount,
            ),
            ActivityKind::Withdraw => fits_i128(self.total_value_locked - amount),
            ActivityKind::Borrow => fits_i128(self.total_borrows + amount),
            ActivityKind::Repay => true,
        }
    }

    /// The counters after an operation: a deposit adds to the deposits and
    /// to the value locked, a withdrawal takes from the value locked, a
    /// borrow adds to the borrows, a repayment leaves them as they are.
    pub open spec fn recorded(self, kind: ActivityKind, amount: i128) -> ProtocolAnalytics {
        match kind {
            ActivityKind::Deposit => ProtocolAnalytics {
                total_deposits: (self.total_deposits + amount) as i128,
                total_value_locked: (self.total_value_locked + amount) as i128,
                ..self
            },
            ActivityKind::Withdraw => ProtocolAnalytics {
                total_value_locked: (self.total_value_locked - amount) as i128,
                ..self
            },
            ActivityKind::Borrow => ProtocolAnalytics {
                total_borrows: (self.total_borrows + amount) as i128,
                ..self
            },
            ActivityKind::Repay => self,
        }
    }

    /// The counters before any operation.
    pub fn new() -> (a: ProtocolAnalytics)
        ensures
            a == ProtocolAnalytics::zero(),
    {
        ProtocolAnalytics { total_deposits: 0, total_borrows: 0, total_value_locked: 0 }
    }

    /// Records an operation; `None` when a counter would leave the
    /// representable range.
    pub fn record(&self, kind: ActivityKind, amount: i128) -> (r: Option<ProtocolAnalytics>)
        ensures
            self.recording_fits(kind, amount) ==> r == Some(self.recorded(kind, amount)),
            !self.recording_fits(kind, amount) ==> r.is_none(),
    {
        let mut next = *self;
        match kind {
            ActivityKind::Deposit => {
                match (
                    self.total_deposits.checked_add(amount),
                    self.total_value_locked.checked_add(amount),
                ) {
                    (Some(deposits), Some(locked)) => {
                        next.total_deposits = deposits;
                        next.total_value_locked = locked;
                    },
                    _ => {
                        return None;
                    },
                }
            },
            ActivityKind::Withdraw => {
                match self.total_value_locked.checked_sub(amount) {
                    Some(locked) => {
                        next.total_value_locked = locked;
                    },
                    None => {
                        return None;
                    },
                }
            },
            ActivityKind::Borrow => {
                match self.total_borrows.checked_add(amount) {
                    Some(borrows) => {
                        next.total_borrows = borrows;
                    },
                    None => {
                        return None;
                    },
                }
            },
            ActivityKind::Repay => {},
        }
        Some(next)
    }
}

} // verus!
