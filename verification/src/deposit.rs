//! Depositing collateral.

use vstd::prelude::*;
use crate::address::Address;
use crate::analytics::ActivityKind;
use crate::ledger::{check_gate, gate, Ledger, LedgerView, LendingError};
use crate::math::fits_i128;
use crate::position::Position;
use crate::risk_management::{Operation, RiskState};

verus! {

/// The checks a deposit must pass before any state is read: the common
/// gate, then that the asset accepts deposits, then the asset's deposit
/// limit, then that the caller's balance covers the amount.
pub open spec fn deposit_checks(
    ledger: LedgerView,
    risk: Option<RiskState>,
    asset: Option<Address>,
    amount: i128,
    balance: i128,
) -> Result<(), LendingError> {
    let params = ledger.params_of(asset);
    match gate(risk, Operation::Deposit, amount) {
        Err(e) => Err(e),
        Ok(_) => if params matches Some(p) && !p.deposit_enabled {
            Err(LendingError::AssetNotEnabled)
        } else if params matches Some(p) && p.max_deposit > 0 && amount > p.max_deposit {
            Err(LendingError::InvalidAmount)
        } else if balance < amount {
            Err(LendingError::InsufficientBalance)
        } else {
            Ok(())
        },
    }
}

/// The position a deposit of `amount` leads to: interest is accrued up to
/// `now`, then the collateral grows by `amount`. `None` when either step
/// leaves the representable range.
pub open spec fn deposit_position(start: Position, rate_bps: i128, amount: i128, now: u64)
    -> Option<Position> {
    let current = start.accrued(rate_bps, now);
    if start.accrual_fits(rate_bps, now) && fits_i128(current.collateral + amount) {
        Some(Position { collateral: (current.collateral + amount) as i128, ..current })
    } else {
        None
    }
}

/// The outcome of a deposit: the ledger that results and the user's new
/// collateral, or the reason for refusing it.
pub open spec fn deposit_result(
    ledger: LedgerView,
    risk: Option<RiskState>,
    user: Address,
    asset: Option<Address>,
    amount: i128,
    balance: i128,
    now: u64,
) -> Result<(LedgerView, i128), LendingError> {
    match deposit_checks(ledger, risk, asset, amount, balance) {
        Err(e) => Err(e),
        Ok(_) => match deposit_position(
            ledger.position_of(user, now),
            ledger.interest_rate_bps,
            amount,
            now,
        ) {
            None => Err(LendingError::ArithmeticOverflow),
            Some(position) => if ledger.recording_fits(
                user,
                ActivityKind::Deposit,
                amount,
                position,
                now,
            ) {
                Ok(
                    (
                        ledger.recorded(user, asset, ActivityKind::Deposit, amount, position, now),
                        position.collateral,
                    ),
                )
            } else {
                Err(LendingError::ArithmeticOverflow)
            },
        },
    }
}

/// Deposits `amount` of `asset` as collateral of `user` and returns the
/// user's new collateral.
///
/// `balance` is what the caller holds of the asset. A refused deposit
/// changes nothing.
pub fn deposit_collateral(
    ledger: &mut Ledger,
    risk: &Option<RiskState>,
    user: Address,
    asset: Option<Address>,
    amount: i128,
    balance: i128,
    now: u64,
) -> (r: Result<i128, LendingError>)
    ensures
        match deposit_result(old(ledger)@, *risk, user, asset, amount, balance, now) {
            Ok((next, collateral)) => r == Ok::<i128, LendingError>(collateral) && final(ledger)@
                == next,
            Err(e) => r == Err::<i128, LendingError>(e) && final(ledger)@ == old(ledger)@,
        },
        old(ledger)@.wf() ==> final(ledger)@.wf(),
{
    check_gate(risk, Operation::Deposit, amount)?;
    match ledger.get_asset_params(asset) {
        Some(params) => {
            if !params.deposit_enabled {
                return Err(LendingError::AssetNotEnabled);
            }
            if params.max_deposit > 0 && amount > params.max_deposit {
                return Err(LendingError::InvalidAmount);
            }
        },
        None => {},
    }
    if balance < amount {
        return Err(LendingError::InsufficientBalance);
    }
    let start = ledger.position_or_new(user, now);
    let current = match start.accrue(ledger.interest_rate_bps, now) {
        Some(p) => p,
        None => {
            return Err(LendingError::ArithmeticOverflow);
        },
    };
    let collateral = match current.collateral.checked_add(amount) {
        Some(v) => v,
        None => {
            return Err(LendingError::ArithmeticOverflow);
        },
    };
    let position = Position { collateral, ..current };
    ledger.record(user, asset, ActivityKind::Deposit, amount, position, now)?;
    Ok(collateral)
}

/// A successful deposit raises the user's collateral by exactly the amount
/// and leaves the principal as it was; the collateral returned is the one
/// on record afterwards.
pub proof fn law_deposit_adds_collateral(
    ledger: LedgerView,
    risk: Option<RiskState>,
    user: Address,
    asset: Option<Address>,
    amount: i128,
    balance: i128,
    now: u64,
)
    requires
        deposit_result(ledger, risk, user, asset, amount, balance, now) is Ok,
    ensures
        ({
            let (next, collateral) = deposit_result(
                ledger,
                risk,
                user,
                asset,
                amount,
                balance,
                now,
            ).unwrap();
            let before = ledger.position_of(user, now);
            &&& next.positions.contains_key(user.id)
            &&& next.positions[user.id].collateral == before.collateral + amount
            &&& next.positions[user.id].debt == before.debt
            &&& collateral == next.positions[user.id].collateral
            &&& amount > 0
            &&& balance >= amount
        }),
{
}

/// After a deposit of the largest representable amount, no further deposit
/// by the same user succeeds: one that passes the checks on amount, pause
/// switches, asset and balance fails with `ArithmeticOverflow`.
pub proof fn law_deposit_beyond_capacity_overflows(
    ledger: LedgerView,
    risk: Option<RiskState>,
    user: Address,
    asset: Option<Address>,
    balance: i128,
    now: u64,
    later_risk: Option<RiskState>,
    later_asset: Option<Address>,
    later_amount: i128,
    later_balance: i128,
    later: u64,
)
    requires
        ledger.wf(),
        deposit_result(ledger, risk, user, asset, i128::MAX, balance, now) is Ok,
    ensures
        ({
            let filled = deposit_result(
                ledger,
                risk,
                user,
                asset,
                i128::MAX,
                balance,
                now,
            ).unwrap().0;
            let second = deposit_result(
                filled,
                later_risk,
                user,
                later_asset,
                later_amount,
                later_balance,
                later,
            );
            &&& filled.positions[user.id].collateral == i128::MAX
            &&& second is Err
            &&& deposit_checks(filled, later_risk, later_asset, later_amount, later_balance) is Ok
                ==> second == Err::<(LedgerView, i128), _>(LendingError::ArithmeticOverflow)
        }),
{
    let start = ledger.position_of(user, now);
    assert(start.wf());
}

} // verus!
