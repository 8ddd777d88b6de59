use stellar_lend::address::Address;
use stellar_lend::analytics::UserAnalytics;
use stellar_lend::ledger::LendingError;
use stellar_lend::position::Position;
use stellar_lend::risk_management::Operation;
use stellar_lend::HelloContract;

const T0: u64 = 0;

fn get_collateral_balance(contract: &HelloContract, user: Address) -> i128 {
    contract.ledger.get_position(user).map(|p| p.collateral).unwrap_or(0)
}

fn get_user_position(contract: &HelloContract, user: Address) -> Option<Position> {
    contract.ledger.get_position(user)
}

fn get_user_analytics(contract: &HelloContract, user: Address) -> Option<UserAnalytics> {
    contract.ledger.get_user_analytics(user)
}

fn with_deposit(user: Address, amount: i128) -> HelloContract {
    let mut contract = HelloContract::new();
    contract.deposit_collateral(user, None, amount, amount, T0).unwrap();
    contract
}

fn set_debt(contract: &mut HelloContract, user: Address, debt: i128) {
    let mut position = contract.ledger.get_position(user).unwrap();
    position.debt = debt;
    contract.ledger.set_position(user, position);
}

#[test]
fn test_withdraw_collateral_success() {
    let user = Address::new(1);
    let deposit_amount = 1000;
    let mut contract = with_deposit(user, deposit_amount);

    let withdraw_amount = 500;
    let result = contract.withdraw_collateral(user, None, withdraw_amount, T0).unwrap();

    assert_eq!(result, deposit_amount - withdraw_amount);

    let balance = get_collateral_balance(&contract, user);
    assert_eq!(balance, deposit_amount - withdraw_amount);

    let position = get_user_position(&contract, user).unwrap();
    assert_eq!(position.collateral, deposit_amount - withdraw_amount);
}

#[test]
fn test_withdraw_collateral_zero_amount() {
    let user = Address::new(1);
    let mut contract = with_deposit(user, 1000);

    assert_eq!(contract.withdraw_collateral(user, None, 0, T0), Err(LendingError::InvalidAmount));
    assert_eq!(get_collateral_balance(&contract, user), 1000);
}

#[test]
fn test_withdraw_collateral_negative_amount() {
    let user = Address::new(1);
    let mut contract = with_deposit(user, 1000);

    assert_eq!(
        contract.withdraw_collateral(user, None, -100, T0),
        Err(LendingError::InvalidAmount),
    );
    assert_eq!(get_collateral_balance(&contract, user), 1000);
}

#[test]
fn test_withdraw_collateral_insufficient_balance() {
    let user = Address::new(1);
    let mut contract = with_deposit(user, 500);

    assert_eq!(
        contract.withdraw_collateral(user, None, 1000, T0),
        Err(LendingError::InsufficientCollateral)
    );
    assert_eq!(get_collateral_balance(&contract, user), 500);
}

#[test]
fn test_withdraw_collateral_maximum_withdrawal() {
    let user = Address::new(1);
    let deposit_amount = 1000;
    let mut contract = with_deposit(user, deposit_amount);

    let result = contract.withdraw_collateral(user, None, deposit_amount, T0).unwrap();

    assert_eq!(result, 0);

    let balance = get_collateral_balance(&contract, user);
    assert_eq!(balance, 0);
}

#[test]
fn test_withdraw_collateral_multiple_withdrawals() {
    let user = Address::new(1);
    let deposit_amount = 1000;
    let mut contract = with_deposit(user, deposit_amount);

    let withdraw1 = 300;
    let result1 = contract.withdraw_collateral(user, None, withdraw1, T0).unwrap();
    assert_eq!(result1, deposit_amount - withdraw1);

    let withdraw2 = 200;
    let result2 = contract.withdraw_collateral(user, None, withdraw2, T0).unwrap();
    assert_eq!(result2, deposit_amount - withdraw1 - withdraw2);

    let balance = get_collateral_balance(&contract, user);
    assert_eq!(balance, deposit_amount - withdraw1 - withdraw2);
}

#[test]
fn test_withdraw_collateral_pause_switch() {
    let user = Address::new(1);
    let admin = Address::new(9);
    let mut contract = with_deposit(user, 1000);
    contract.initialize(admin).unwrap();
    contract.set_pause_switch(admin, Operation::Withdraw, true).unwrap();

    assert_eq!(
        contract.withdraw_collateral(user, None, 500, T0),
        Err(LendingError::OperationPaused(Operation::Withdraw))
    );
    assert_eq!(get_collateral_balance(&contract, user), 1000);
}

#[test]
fn test_withdraw_collateral_events_emitted() {
    let user = Address::new(1);
    let mut contract = with_deposit(user, 1000);

    let withdraw_amount = 500;
    contract.withdraw_collateral(user, None, withdraw_amount, T0).unwrap();

    let balance = get_collateral_balance(&contract, user);
    assert_eq!(balance, 1000 - withdraw_amount);
}

#[test]
fn test_withdraw_collateral_analytics_updated() {
    let user = Address::new(1);
    let deposit_amount = 1000;
    let mut contract = with_deposit(user, deposit_amount);

    let withdraw_amount = 300;
    contract.withdraw_collateral(user, None, withdraw_amount, T0).unwrap();

    let analytics = get_user_analytics(&contract, user).unwrap();
    assert_eq!(analytics.total_withdrawals, withdraw_amount);
    assert_eq!(analytics.collateral_value, deposit_amount - withdraw_amount);
    assert_eq!(analytics.transaction_count, 2);
}

#[test]
fn test_withdraw_collateral_with_debt_collateral_ratio() {
    let user = Address::new(1);
    let collateral = 2000;
    let mut contract = with_deposit(user, collateral);
    set_debt(&mut contract, user, 500);

    let withdraw_amount = 500;
    let result = contract.withdraw_collateral(user, None, withdraw_amount, T0).unwrap();
    assert_eq!(result, collateral - withdraw_amount);
}

#[test]
fn test_withdraw_collateral_violates_collateral_ratio() {
    let user = Address::new(1);
    let collateral = 1000;
    let mut contract = with_deposit(user, collateral);
    set_debt(&mut contract, user, 500);

    assert_eq!(
        contract.withdraw_collateral(user, None, 600, T0),
        Err(LendingError::InsufficientCollateralRatio)
    );
    assert_eq!(get_collateral_balance(&contract, user), 1000);
}

#[test]
fn withdraw_limit_follows_the_ratio_in_force() {
    let user = Address::new(1);
    let admin = Address::new(9);

    // Before initialization the minimum ratio is 150%: 750 must remain
    // against a debt of 500.
    let mut contract = with_deposit(user, 1000);
    set_debt(&mut contract, user, 500);
    assert_eq!(
        contract.withdraw_collateral(user, None, 251, T0),
        Err(LendingError::InsufficientCollateralRatio)
    );
    assert_eq!(contract.withdraw_collateral(user, None, 250, T0), Ok(750));

    // After initialization it is 110%: 550 must remain.
    let mut contract = with_deposit(user, 1000);
    set_debt(&mut contract, user, 500);
    contract.initialize(admin).unwrap();
    assert_eq!(
        contract.withdraw_collateral(user, None, 451, T0),
        Err(LendingError::InsufficientCollateralRatio)
    );
    assert_eq!(contract.withdraw_collateral(user, None, 450, T0), Ok(550));
}

#[test]
fn withdraw_counts_accrued_interest_as_debt() {
    let user = Address::new(1);
    let mut contract = HelloContract::new();
    contract.ledger.set_position(
        user,
        Position { collateral: 1600, debt: 1000, borrow_interest: 0, last_accrual_time: 0 },
    );

    // After a year 50 of interest are due: 1575 must remain against 1050.
    assert_eq!(
        contract.withdraw_collateral(user, None, 26, 31_536_000),
        Err(LendingError::InsufficientCollateralRatio)
    );
    // A refused withdrawal does not book the interest either.
    assert_eq!(get_user_position(&contract, user).unwrap().borrow_interest, 0);

    assert_eq!(contract.withdraw_collateral(user, None, 25, 31_536_000), Ok(1575));
    let position = get_user_position(&contract, user).unwrap();
    assert_eq!(position.borrow_interest, 50);
    assert_eq!(position.last_accrual_time, 31_536_000);
    assert_eq!(contract.ledger.get_protocol_analytics().unwrap().total_value_locked, -25);
}

#[test]
fn withdraw_without_position_or_under_emergency_pause() {
    let user = Address::new(1);
    let admin = Address::new(9);
    let mut contract = HelloContract::new();

    assert_eq!(
        contract.withdraw_collateral(user, None, 1, T0),
        Err(LendingError::InsufficientCollateral)
    );
    assert!(get_user_position(&contract, user).is_none());

    contract.initialize(admin).unwrap();
    contract.set_emergency_pause(admin, true).unwrap();
    assert_eq!(contract.withdraw_collateral(user, None, 1, T0), Err(LendingError::EmergencyPaused));
}
