//! Repaying debt, interest first.

use vstd::prelude::*;
use crate::address::Address;
use crate::analytics::ActivityKind;
use crate::ledger::{check_gate, gate, Ledger, LedgerView, LendingError};
use crate::risk_management::{Operation, RiskState};

verus! {

/// The outcome of a repayment of `amount`: the ledger that results and the
/// triple (remaining debt, interest paid, principal paid), or the reason for
/// refusing it.
///
/// Interest is accrued first. The payment then goes to the unpaid interest
/// and what is left of it to the principal; what exceeds the total owed is
/// not taken, and only what was taken is booked.
pub open spec fn repay_result(
    ledger: LedgerView,
    risk: Option<RiskState>,
    user: Address,
    asset: Option<Address>,
    amount: i128,
    now: u64,
) -> Result<(LedgerView, (i128, i128, i128)), LendingError> {
    let start = ledger.position_of(user, now);
    let current = start.accrued(ledger.interest_rate_bps, now);
    let position = current.repaid(amount);
    let interest_paid = current.interest_payment(amount);
    let principal_paid = current.principal_payment(amount);
    let paid = (interest_paid + principal_paid) as i128;
    match gate(risk, Operation::Repay, amount) {
        Err(e) => Err(e),
        Ok(_) => if !start.accrual_fits(ledger.interest_rate_bps, now) {
            Err(LendingError::ArithmeticOverflow)
        } else if current.debt <= 0 && current.borrow_interest <= 0 {
            Err(LendingError::NoDebt)
        } else if !ledger.recording_fits(user, ActivityKind::Repay, paid, position, now) {
            Err(LendingError::ArithmeticOverflow)
        } else {
            Ok(
                (
                    ledger.recorded(user, asset, ActivityKind::Repay, paid, position, now),
                    (position.total_debt() as i128, interest_paid as i128, principal_paid as i128),
                ),
            )
        },
    }
}

/// Repays up to `amount` of `user`'s debt and returns
/// `(remaining_debt, interest_paid, principal_paid)`.
///
/// The caller owes the transfer of `interest_paid + principal_paid`, which
/// never exceeds `amount`. A refused repayment changes nothing.
pub fn repay_debt(
    ledger: &mut Ledger,
    risk: &Option<RiskState>,
    user: Address,
    asset: Option<Address>,
    amount: i128,
    now: u64,
) -> (r: Result<(i128, i128, i128), LendingError>)
    ensures
        match repay_result(old(ledger)@, *risk, user, asset, amount, now) {
            Ok((next, outcome)) => r == Ok::<(i128, i128, i128), LendingError>(outcome)
                && final(ledger)@ == next,
            Err(e) => r == Err::<(i128, i128, i128), LendingError>(e)
                && final(ledger)@ == old(ledger)@,
        },
        old(ledger)@.wf() ==> final(ledger)@.wf(),
{
    check_gate(risk, Operation::Repay, amount)?;
    let start = ledger.position_or_new(user, now);
    let current = match start.accrue(ledger.interest_rate_bps, now) {
        Some(p) => p,
        None => {
            return Err(LendingError::ArithmeticOverflow);
        },
    };
    if current.debt <= 0 && current.borrow_interest <= 0 {
        return Err(LendingError::NoDebt);
    }
    let (position, interest_paid, principal_paid) = current.repay(amount);
    let paid = interest_paid + principal_paid;
    ledger.record(user, asset, ActivityKind::Repay, paid, position, now)?;
    let remaining = position.debt + position.borrow_interest;
    Ok((remaining, interest_paid, principal_paid))
}

/// What a successful repayment does to a well-formed position, with
/// `owed` the position as it stands once interest has been accrued:
///
/// - a payment below the unpaid interest lowers the interest by the payment
///   and leaves the principal alone;
/// - a payment of at least the total owed clears interest and principal and
///   takes exactly the total owed;
/// - in every case the parts paid add up to at most the payment, and the
///   remaining debt reported is what the position holds afterwards.
pub proof fn law_repayment_serves_interest_first(
    ledger: LedgerView,
    risk: Option<RiskState>,
    user: Address,
    asset: Option<Address>,
    amount: i128,
    now: u64,
)
    requires
        ledger.wf(),
        repay_result(ledger, risk, user, asset, amount, now) is Ok,
    ensures
        ({
            let (next, (remaining, interest_paid, principal_paid)) = repay_result(
                ledger,
                risk,
                user,
                asset,
                amount,
                now,
            ).unwrap();
            let owed = ledger.position_of(user, now).accrued(ledger.interest_rate_bps, now);
            let after = next.positions[user.id];
            &&& next.positions.contains_key(user.id)
            &&& after.collateral == owed.collateral
            &&& after.borrow_interest == owed.borrow_interest - interest_paid
            &&& after.debt == owed.debt - principal_paid
            &&& remaining == after.debt + after.borrow_interest
            &&& 0 <= interest_paid && 0 <= principal_paid
            &&& interest_paid + principal_paid <= amount
            &&& amount < owed.borrow_interest ==> interest_paid == amount && principal_paid == 0
                && after.debt == owed.debt
            &&& amount >= owed.total_debt() ==> after.debt == 0 && after.borrow_interest == 0
                && remaining == 0 && interest_paid + principal_paid == owed.total_debt()
            &&& principal_paid > 0 ==> after.borrow_interest == 0
        }),
{
    let start = ledger.position_of(user, now);
    assert(start.wf());
}

} // verus!
