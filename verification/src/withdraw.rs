//! Withdrawing collateral.

use vstd::prelude::*;
use crate::address::Address;
use crate::analytics::ActivityKind;
use crate::ledger::{
    check_gate,
    gate,
    min_collateral_ratio_in_force,
    min_ratio_in_force,
    Ledger,
    LedgerView,
    LendingError,
};
use crate::math::fits_i128;
use crate::position::Position;
use crate::risk_management::{
    check_min_ratio,
    ratio_check_result,
    Operation,
    RiskManagementError,
    RiskState,
};

verus! {

/// The position a withdrawal of `amount` leads to from `current`, a position
/// with interest accrued, under the minimum ratio `min_ratio`.
///
/// The amount must not exceed the collateral, and what remains must still
/// meet the minimum ratio against principal plus interest.
pub open spec fn withdraw_position(current: Position, min_ratio: i128, amount: i128) -> Result<
    Position,
    LendingError,
> {
    let remaining = current.collateral - amount;
    if amount > current.collateral {
        Err(LendingError::InsufficientCollateral)
    } else if !fits_i128(remaining) || !fits_i128(current.total_debt()) {
        Err(LendingError::ArithmeticOverflow)
    } else {
        match ratio_check_result(min_ratio, remaining as i128, current.total_debt() as i128) {
            Err(RiskManagementError::Overflow) => Err(LendingError::ArithmeticOverflow),
            Err(_) => Err(LendingError::InsufficientCollateralRatio),
            Ok(_) => Ok(Position { collateral: remaining as i128, ..current }),
        }
    }
}

/// The outcome of a withdrawal: the ledger that results and the user's
/// remaining collateral, or the reason for refusing it.
pub open spec fn withdraw_result(
    ledger: LedgerView,
    risk: Option<RiskState>,
    user: Address,
    asset: Option<Address>,
    amount: i128,
    now: u64,
) -> Result<(LedgerView, i128), LendingError> {
    let start = ledger.position_of(user, now);
    match gate(risk, Operation::Withdraw, amount) {
        Err(e) => Err(e),
        Ok(_) => if !start.accrual_fits(ledger.interest_rate_bps, now) {
            Err(LendingError::ArithmeticOverflow)
        } else {
            match withdraw_position(
                start.accrued(ledger.interest_rate_bps, now),
                min_ratio_in_force(risk),
                amount,
            ) {
                Err(e) => Err(e),
                Ok(position) => if ledger.recording_fits(
                    user,
                    ActivityKind::Withdraw,
                    amount,
                    position,
                    now,
                ) {
                    Ok(
                        (
                            ledger.recorded(
                                user,
                                asset,
                                ActivityKind::Withdraw,
                                amount,
                                position,
                                now,
                            ),
                            position.collateral,
                        ),
                    )
                } else {
                    Err(LendingError::ArithmeticOverflow)
                },
            }
        },
    }
}

/// Withdraws `amount` of `user`'s collateral and returns what remains.
///
/// A refused withdrawal changes nothing.
pub fn withdraw_collateral(
    ledger: &mut Ledger,
    risk: &Option<RiskState>,
    user: Address,
    asset: Option<Address>,
    amount: i128,
    now: u64,
) -> (r: Result<i128, LendingError>)
    ensures
        match withdraw_result(old(ledger)@, *risk, user, asset, amount, now) {
            Ok((next, collateral)) => r == Ok::<i128, LendingError>(collateral) && final(ledger)@
                == next,
            Err(e) => r == Err::<i128, LendingError>(e) && final(ledger)@ == old(ledger)@,
        },
        old(ledger)@.wf() ==> final(ledger)@.wf(),
{
    check_gate(risk, Operation::Withdraw, amount)?;
    let start = ledger.position_or_new(user, now);
    let current = match start.accrue(ledger.interest_rate_bps, now) {
        Some(p) => p,
        None => {
            return Err(LendingError::ArithmeticOverflow);
        },
    };
    if amount > current.collateral {
        return Err(LendingError::InsufficientCollateral);
    }
    let remaining = match current.collateral.checked_sub(amount) {
        Some(v) => v,
        None => {
            return Err(LendingError::ArithmeticOverflow);
        },
    };
    let total_debt = match current.checked_total_debt() {
        Some(v) => v,
        None => {
            return Err(LendingError::ArithmeticOverflow);
        },
    };
    match check_min_ratio(min_collateral_ratio_in_force(risk), remaining, total_debt) {
        Ok(_) => {},
        Err(RiskManagementError::Overflow) => {
            return Err(LendingError::ArithmeticOverflow);
        },
        Err(_) => {
            return Err(LendingError::InsufficientCollateralRatio);
        },
    }
    let position = Position { collateral: remaining, ..current };
    ledger.record(user, asset, ActivityKind::Withdraw, amount, position, now)?;
    Ok(remaining)
}

/// What a successful withdrawal leaves behind, with `owed` the position as
/// it stands once interest has been accrued: the collateral has shrunk by
/// the amount and is not negative, principal and interest are as they were,
/// and what remains meets the minimum ratio against principal plus interest.
pub proof fn law_withdrawal_keeps_min_ratio(
    ledger: LedgerView,
    risk: Option<RiskState>,
    user: Address,
    asset: Option<Address>,
    amount: i128,
    now: u64,
)
    requires
        withdraw_result(ledger, risk, user, asset, amount, now) is Ok,
    ensures
        ({
            let (next, remaining) = withdraw_result(
                ledger,
                risk,
                user,
                asset,
                amount,
                now,
            ).unwrap();
            let owed = ledger.position_of(user, now).accrued(ledger.interest_rate_bps, now);
            let after = next.positions[user.id];
            &&& next.positions.contains_key(user.id)
            &&& after.collateral == owed.collateral - amount
            &&& after.collateral >= 0
            &&& remaining == after.collateral
            &&& after.debt == owed.debt
            &&& after.borrow_interest == owed.borrow_interest
            &&& crate::risk_management::meets_ratio(
                min_ratio_in_force(risk) as int,
                after.collateral as int,
                after.total_debt(),
            )
        }),
{
}

/// Without debt the whole collateral can be withdrawn: the ratio never
/// stands in the way.
pub proof fn law_debt_free_withdrawal_is_unrestricted(
    current: Position,
    min_ratio: i128,
    amount: i128,
)
    requires
        current.wf(),
        current.debt == 0,
        0 < amount <= current.collateral,
    ensures
        withdraw_position(current, min_ratio, amount) == Ok::<Position, LendingError>(
            Position { collateral: (current.collateral - amount) as i128, ..current },
        ),
{
}

} // verus!
