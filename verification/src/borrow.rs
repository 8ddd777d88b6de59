//! Borrowing against collateral.

use vstd::prelude::*;
use crate::address::Address;
use crate::analytics::ActivityKind;
use crate::ledger::{
    check_gate,
    gate,
    min_collateral_ratio_in_force,
    min_ratio_in_force,
    Ledger,
    LedgerView,
    LendingError,
};
use crate::math::{bps_of, checked_bps_of, checked_mul_div, fits_i128, mul_div};
use crate::position::Position;
use crate::risk_management::{
    check_min_ratio,
    ratio_check_result,
    Operation,
    RiskManagementError,
    RiskState,
};

verus! {

/// The most that a position may owe in total:
/// `collateral * collateral_factor / min_ratio`, rounded down.
pub open spec fn max_total_debt(collateral: int, collateral_factor: int, min_ratio: int) -> int {
    mul_div(collateral, collateral_factor, min_ratio)
}

/// Whether the sums and products behind a borrow are representable.
pub open spec fn borrow_fits(
    current: Position,
    collateral_factor: i128,
    min_ratio: i128,
    amount: i128,
) -> bool {
    &&& min_ratio > 0
    &&& fits_i128(current.collateral * collateral_factor)
    &&& fits_i128(current.total_debt())
    &&& fits_i128(current.total_debt() + amount)
    &&& fits_i128(current.debt + amount)
}

/// The position a borrow of `amount` leads to from `current`, a position
/// with interest accrued.
///
/// There must be collateral. The total owed after the borrow must not
/// exceed [`max_total_debt`]; only then is the collateral ratio, taken on
/// the collateral weighted by its factor, held against `min_ratio`.
pub open spec fn borrow_position(
    current: Position,
    collateral_factor: i128,
    min_ratio: i128,
    amount: i128,
) -> Result<Position, LendingError> {
    let owed = current.total_debt() + amount;
    if current.collateral <= 0 {
        Err(LendingError::InsufficientCollateral)
    } else if !borrow_fits(current, collateral_factor, min_ratio, amount) {
        Err(LendingError::ArithmeticOverflow)
    } else if owed > max_total_debt(
        current.collateral as int,
        collateral_factor as int,
        min_ratio as int,
    ) {
        Err(LendingError::MaxBorrowExceeded)
    } else {
        match ratio_check_result(
            min_ratio,
            bps_of(current.collateral as int, collateral_factor as int) as i128,
            owed as i128,
        ) {
            Err(RiskManagementError::Overflow) => Err(LendingError::ArithmeticOverflow),
            Err(_) => Err(LendingError::InsufficientCollateralRatio),
            Ok(_) => Ok(Position { debt: (current.debt + amount) as i128, ..current }),
        }
    }
}

/// The outcome of a borrow: the ledger that results and the user's new
/// total debt (principal plus interest), or the reason for refusing it.
pub open spec fn borrow_result(
    ledger: LedgerView,
    risk: Option<RiskState>,
    user: Address,
    asset: Option<Address>,
    amount: i128,
    now: u64,
) -> Result<(LedgerView, i128), LendingError> {
    let start = ledger.position_of(user, now);
    match gate(risk, Operation::Borrow, amount) {
        Err(e) => Err(e),
        Ok(_) => if !start.accrual_fits(ledger.interest_rate_bps, now) {
            Err(LendingError::ArithmeticOverflow)
        } else {
            match borrow_position(
                start.accrued(ledger.interest_rate_bps, now),
                ledger.collateral_factor_of(asset),
                min_ratio_in_force(risk),
                amount,
            ) {
                Err(e) => Err(e),
                Ok(position) => if ledger.recording_fits(
                    user,
                    ActivityKind::Borrow,
                    amount,
                    position,
                    now,
                ) {
                    Ok(
                        (
                            ledger.recorded(
                                user,
                                asset,
                                ActivityKind::Borrow,
                                amount,
                                position,
                                now,
                            ),
                            position.total_debt() as i128,
                        ),
                    )
                } else {
                    Err(LendingError::ArithmeticOverflow)
                },
            }
        },
    }
}

/// Borrows `amount` of `asset` against `user`'s collateral and returns the
/// user's new total debt, principal plus interest.
///
/// A refused borrow changes nothing.
pub fn borrow_asset(
    ledger: &mut Ledger,
    risk: &Option<RiskState>,
    user: Address,
    asset: Option<Address>,
    amount: i128,
    now: u64,
) -> (r: Result<i128, LendingError>)
    ensures
        match borrow_result(old(ledger)@, *risk, user, asset, amount, now) {
            Ok((next, total)) => r == Ok::<i128, LendingError>(total) && final(ledger)@ == next,
            Err(e) => r == Err::<i128, LendingError>(e) && final(ledger)@ == old(ledger)@,
        },
        old(ledger)@.wf() ==> final(ledger)@.wf(),
{
    check_gate(risk, Operation::Borrow, amount)?;
    let start = ledger.position_or_new(user, now);
    let current = match start.accrue(ledger.interest_rate_bps, now) {
        Some(p) => p,
        None => {
            return Err(LendingError::ArithmeticOverflow);
        },
    };
    if current.collateral <= 0 {
        return Err(LendingError::InsufficientCollateral);
    }
    let factor = ledger.collateral_factor(asset);
    let min_ratio = min_collateral_ratio_in_force(risk);
    let limit = checked_mul_div(current.collateral, factor, min_ratio);
    let owed_before = current.checked_total_debt();
    let principal = current.debt.checked_add(amount);
    let (limit, owed, principal) = match (limit, owed_before, principal) {
        (Some(limit), Some(owed_before), Some(principal)) => match owed_before.checked_add(
            amount,
        ) {
            Some(owed) => (limit, owed, principal),
            None => {
                return Err(LendingError::ArithmeticOverflow);
            },
        },
        _ => {
            return Err(LendingError::ArithmeticOverflow);
        },
    };
    if owed > limit {
        return Err(LendingError::MaxBorrowExceeded);
    }
    let collateral_value = match checked_bps_of(current.collateral, factor) {
        Some(v) => v,
        None => {
            return Err(LendingError::ArithmeticOverflow);
        },
    };
    match check_min_ratio(min_ratio, collateral_value, owed) {
        Ok(_) => {},
        Err(RiskManagementError::Overflow) => {
            return Err(LendingError::ArithmeticOverflow);
        },
        Err(_) => {
            return Err(LendingError::InsufficientCollateralRatio);
        },
    }
    let position = Position { debt: principal, ..current };
    ledger.record(user, asset, ActivityKind::Borrow, amount, position, now)?;
    Ok(owed)
}

/// What a successful borrow leaves behind, with `owed` the position as it
/// stands once interest has been accrued: the principal has grown by the
/// amount, collateral and interest are as they were, the total returned is
/// principal plus interest, and that total neither exceeds
/// [`max_total_debt`] nor breaks the minimum ratio on the weighted
/// collateral.
pub proof fn law_borrow_stays_within_limit(
    ledger: LedgerView,
    risk: Option<RiskState>,
    user: Address,
    asset: Option<Address>,
    amount: i128,
    now: u64,
)
    requires
        borrow_result(ledger, risk, user, asset, amount, now) is Ok,
    ensures
        ({
            let (next, total) = borrow_result(ledger, risk, user, asset, amount, now).unwrap();
            let owed = ledger.position_of(user, now).accrued(ledger.interest_rate_bps, now);
            let after = next.positions[user.id];
            let factor = ledger.collateral_factor_of(asset);
            let min_ratio = min_ratio_in_force(risk);
            &&& next.positions.contains_key(user.id)
            &&& after.debt == owed.debt + amount
            &&& after.collateral == owed.collateral
            &&& after.borrow_interest == owed.borrow_interest
            &&& total == after.debt + after.borrow_interest
            &&& owed.collateral > 0
            &&& total <= max_total_debt(owed.collateral as int, factor as int, min_ratio as int)
            &&& crate::risk_management::meets_ratio(
                min_ratio as int,
                bps_of(owed.collateral as int, factor as int),
                total as int,
            )
        }),
{
}

/// The limit is examined before the ratio: a borrow that would take the
/// total owed beyond [`max_total_debt`] is refused with `MaxBorrowExceeded`,
/// whatever the ratio check would have said.
pub proof fn law_limit_is_reported_before_ratio(
    current: Position,
    collateral_factor: i128,
    min_ratio: i128,
    amount: i128,
)
    requires
        current.collateral > 0,
        borrow_fits(current, collateral_factor, min_ratio, amount),
        current.total_debt() + amount > max_total_debt(
            current.collateral as int,
            collateral_factor as int,
            min_ratio as int,
        ),
    ensures
        borrow_position(current, collateral_factor, min_ratio, amount) == Err::<Position, _>(
            LendingError::MaxBorrowExceeded,
        ),
{
}

/// For collateral counted at its full value, the limit implies the ratio:
/// a total owed within [`max_total_debt`] meets the minimum ratio, so such
/// a borrow is never refused with `InsufficientCollateralRatio`.
pub proof fn law_limit_implies_ratio_at_full_value(collateral: int, min_ratio: int, owed: int)
    requires
        collateral >= 0,
        min_ratio > 0,
        owed <= max_total_debt(collateral, 10_000, min_ratio),
    ensures
        crate::risk_management::meets_ratio(min_ratio, bps_of(collateral, 10_000), owed),
{
    let value = collateral * 10_000;
    assert(bps_of(collateral, 10_000) == collateral);
    if owed > 0 {
        let limit = value / min_ratio;
        assert(limit * min_ratio <= value) by (nonlinear_arith)
            requires
                value >= 0,
                min_ratio > 0,
                limit == value / min_ratio,
        ;
        assert(owed * min_ratio <= limit * min_ratio) by (nonlinear_arith)
            requires
                owed <= limit,
                min_ratio > 0,
        ;
        assert(value / owed >= min_ratio) by (nonlinear_arith)
            requires
                owed > 0,
                owed * min_ratio <= value,
        ;
    }
}

} // verus!
