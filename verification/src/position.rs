//! A user's position and the arithmetic every lending operation shares:
//! interest accrual and the interest-first repayment split.

use vstd::prelude::*;
use crate::math::{fits_i128, BASIS_POINTS_SCALE, SECONDS_PER_YEAR};

verus! {

/// Annual borrow rate used when none is configured (5%).
pub const DEFAULT_INTEREST_RATE_BPS: i128 = 500;

/// Divisor that turns `debt * rate_bps * seconds` into interest:
/// basis points per unit times seconds per year.
pub const ACCRUAL_DIVISOR: i128 = BASIS_POINTS_SCALE * SECONDS_PER_YEAR;

/// Collateral, principal and unpaid interest of one user.
#[derive(Clone, Copy, Debug, PartialEq, Eq, Structural)]
pub struct Position {
    /// Collateral deposited and not withdrawn.
    pub collateral: i128,
    /// Outstanding principal.
    pub debt: i128,
    /// Interest accrued and not yet paid.
    pub borrow_interest: i128,
    /// Time up to which interest has been accrued.
    pub last_accrual_time: u64,
}

/// Interest that `debt` earns at `rate_bps` per year over `elapsed` seconds:
/// `debt * rate_bps * elapsed / (10_000 * 31_536_000)`, rounded down.
/// Nothing accrues without debt, without a positive rate, or without time.
pub open spec fn interest_for(debt: int, rate_bps: int, elapsed: int) -> int {
    if debt > 0 && rate_bps > 0 && elapsed > 0 {
        (debt * rate_bps * elapsed) / (10_000int * 31_536_000int)
    } else {
        0
    }
}

/// Whether the product behind [`interest_for`] is representable.
pub open spec fn interest_fits(debt: int, rate_bps: int, elapsed: int) -> bool {
    debt > 0 && rate_bps > 0 && elapsed > 0 ==> fits_i128(debt * rate_bps * elapsed)
}

/// What a payment of `amount` settles of `owed`: nothing if either is not
/// positive, otherwise the smaller of the two.
pub open spec fn payment_toward(amount: int, owed: int) -> int {
    if amount <= 0 || owed <= 0 {
        0
    } else if amount >= owed {
        owed
    } else {
        amount
    }
}

impl Position {
    /// No field is negative, and a position without principal carries no
    /// interest either.
    pub open spec fn wf(self) -> bool {
        &&& self.collateral >= 0
        &&& self.debt >= 0
        &&& self.borrow_interest >= 0
        &&& self.debt == 0 ==> self.borrow_interest == 0
    }

    /// The position of a user who has not interacted yet, as of `now`.
    pub open spec fn empty_at(now: u64) -> Position {
        Position { collateral: 0, debt: 0, borrow_interest: 0, last_accrual_time: now }
    }

    /// Principal plus unpaid interest.
    pub open spec fn total_debt(self) -> int {
        self.debt + self.borrow_interest
    }

    /// Seconds between the last accrual and `now`; zero if `now` is not later.
    pub open spec fn elapsed(self, now: u64) -> int {
        if now > self.last_accrual_time {
            now - self.last_accrual_time
        } else {
            0
        }
    }

    /// Interest due on the principal between the last accrual and `now`.
    pub open spec fn interest_due(self, rate_bps: i128, now: u64) -> int {
        interest_for(self.debt as int, rate_bps as int, self.elapsed(now))
    }

    /// Whether accrual up to `now` stays within the representable range.
    pub open spec fn accrual_fits(self, rate_bps: i128, now: u64) -> bool {
        &&& interest_fits(self.debt as int, rate_bps as int, self.elapsed(now))
        &&& fits_i128(self.borrow_interest + self.interest_due(rate_bps, now))
    }

    /// The position with interest accrued up to `now`: the interest due is
    /// added to the unpaid interest and the accrual time moves to `now`,
    /// never backwards. Collateral and principal stay as they are.
    pub open spec fn accrued(self, rate_bps: i128, now: u64) -> Position {
        Position {
            borrow_interest: (self.borrow_interest + self.interest_due(rate_bps, now)) as i128,
            last_accrual_time: if now > self.last_accrual_time {
                now
            } else {
                self.last_accrual_time
            },
            ..self
        }
    }

    /// The part of a payment of `amount` that goes to interest.
    pub open spec fn interest_payment(self, amount: i128) -> int {
        payment_toward(amount as int, self.borrow_interest as int)
    }

    /// The part of a payment of `amount` that goes to principal: what is
    /// left of it once interest has been served.
    pub open spec fn principal_payment(self, amount: i128) -> int {
        payment_toward(amount - self.interest_payment(amount), self.debt as int)
    }

    /// The position after a payment of `amount`, interest first.
    pub open spec fn repaid(self, amount: i128) -> Position {
        Position {
            borrow_interest: (self.borrow_interest - self.interest_payment(amount)) as i128,
            debt: (self.debt - self.principal_payment(amount)) as i128,
            ..self
        }
    }

    /// The position of a user who has not interacted yet, as of `now`.
    pub fn new_at(now: u64) -> (p: Position)
        ensures
            p == Position::empty_at(now),
            p.wf(),
    {
        Position { collateral: 0, debt: 0, borrow_interest: 0, last_accrual_time: now }
    }

    /// Principal plus unpaid interest, or `None` if the sum is not
    /// representable.
    pub fn checked_total_debt(&self) -> (r: Option<i128>)
        ensures
            fits_i128(self.total_debt()) ==> r == Some(self.total_debt() as i128),
            !fits_i128(self.total_debt()) ==> r.is_none(),
    {
        self.debt.checked_add(self.borrow_interest)
    }

    /// Accrues interest up to `now` at `rate_bps` per year.
    ///
    /// `None` when the interest or the new total of unpaid interest is not
    /// representable.
    pub fn accrue(&self, rate_bps: i128, now: u64) -> (r: Option<Position>)
        ensures
            self.accrual_fits(rate_bps, now) ==> r == Some(self.accrued(rate_bps, now)),
            !self.accrual_fits(rate_bps, now) ==> r.is_none(),
            self.wf() && r.is_some() ==> r.unwrap().wf(),
    {
        let later = now > self.last_accrual_time;
        let mut due: i128 = 0;
        if self.debt > 0 && rate_bps > 0 && later {
            let elapsed: i128 = (now - self.last_accrual_time) as i128;
            proof {
                lemma_product_grows(self.debt as int, rate_bps as int, elapsed as int);
            }
            let yearly = match self.debt.checked_mul(rate_bps) {
                Some(v) => v,
                None => {
                    return None;
                },
            };
            let scaled = match yearly.checked_mul(elapsed) {
                Some(v) => v,
                None => {
                    return None;
                },
            };
            due = scaled / ACCRUAL_DIVISOR;
        }
        let interest = match self.borrow_interest.checked_add(due) {
            Some(v) => v,
            None => {
                return None;
            },
        };
        Some(
            Position {
                collateral: self.collateral,
                debt: self.debt,
                borrow_interest: interest,
                last_accrual_time: if later {
                    now
                } else {
                    self.last_accrual_time
                },
            },
        )
    }

    /// Applies a payment of `amount`, interest first, and returns the new
    /// position with the interest and the principal that were paid.
    ///
    /// Never takes more than is owed: the two parts add up to the smaller of
    /// `amount` and the total debt of a well-formed position.
    pub fn repay(&self, amount: i128) -> (r: (Position, i128, i128))
        ensures
            r.0 == self.repaid(amount),
            r.1 == self.interest_payment(amount),
            r.2 == self.principal_payment(amount),
            self.wf() ==> r.0.wf(),
    {
        let interest_paid = pay_toward(amount, self.borrow_interest);
        let principal_paid = pay_toward(amount - interest_paid, self.debt);
        (
            Position {
                collateral: self.collateral,
                debt: self.debt - principal_paid,
                borrow_interest: self.borrow_interest - interest_paid,
                last_accrual_time: self.last_accrual_time,
            },
            interest_paid,
            principal_paid,
        )
    }
}

fn pay_toward(amount: i128, owed: i128) -> (paid: i128)
    ensures
        paid == payment_toward(amount as int, owed as int),
{
    if amount <= 0 || owed <= 0 {
        0
    } else if amount >= owed {
        owed
    } else {
        amount
    }
}

/// Among positive factors, a product of two is at most the product of three.
proof fn lemma_product_grows(a: int, b: int, c: int)
    requires
        a > 0,
        b > 0,
        c > 0,
    ensures
        0 < a * b <= a * b * c,
{
    assert(0 < a * b) by (nonlinear_arith)
        requires
            a > 0,
            b > 0,
    ;
    let ab = a * b;
    assert(ab <= ab * c) by (nonlinear_arith)
        requires
            ab > 0,
            c > 0,
    ;
}

/// Paying less than the unpaid interest leaves the principal untouched and
/// lowers the interest by exactly the payment.
pub proof fn law_partial_payment_reduces_interest_only(position: Position, amount: i128)
    requires
        position.wf(),
        0 < amount < position.borrow_interest,
    ensures
        position.repaid(amount).debt == position.debt,
        position.repaid(amount).borrow_interest == position.borrow_interest - amount,
        position.interest_payment(amount) == amount,
        position.principal_payment(amount) == 0,
{
}

/// Paying at least the total owed clears principal and interest, and what
/// is taken is the total owed, never more.
pub proof fn law_full_payment_clears_debt(position: Position, amount: i128)
    requires
        position.wf(),
        amount > 0,
        amount >= position.total_debt(),
    ensures
        position.repaid(amount).debt == 0,
        position.repaid(amount).borrow_interest == 0,
        position.interest_payment(amount) + position.principal_payment(amount)
            == position.total_debt(),
{
}

/// Whatever the payment, no more than it and no more than the total owed is
/// taken, interest is served before principal, and collateral is untouched.
pub proof fn law_payment_never_overdraws(position: Position, amount: i128)
    requires
        position.wf(),
        amount > 0,
    ensures
        0 <= position.interest_payment(amount) <= position.borrow_interest,
        0 <= position.principal_payment(amount) <= position.debt,
        position.interest_payment(amount) + position.principal_payment(amount) <= amount,
        position.principal_payment(amount) > 0 ==> position.repaid(amount).borrow_interest == 0,
        position.repaid(amount).wf(),
        position.repaid(amount).collateral == position.collateral,
{
}

/// Accrual never lowers the unpaid interest, never touches collateral or
/// principal, and never moves the accrual time backwards; without
/// principal it adds nothing.
pub proof fn law_accrual_only_adds_interest(position: Position, rate_bps: i128, now: u64)
    ensures
        position.interest_due(rate_bps, now) >= 0,
        position.debt <= 0 ==> position.interest_due(rate_bps, now) == 0,
        position.accrual_fits(rate_bps, now) ==> {
            let after = position.accrued(rate_bps, now);
            &&& after.borrow_interest >= position.borrow_interest
            &&& after.collateral == position.collateral
            &&& after.debt == position.debt
            &&& after.last_accrual_time >= position.last_accrual_time
            &&& after.last_accrual_time >= now
        },
{
    let elapsed = position.elapsed(now);
    if position.debt > 0 && rate_bps > 0 && elapsed > 0 {
        lemma_product_grows(position.debt as int, rate_bps as int, elapsed);
    }
}

} // verus!
