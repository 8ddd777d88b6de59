use stellar_lend::address::Address;
use stellar_lend::analytics::{ActivityKind, ProtocolAnalytics, UserAnalytics};
use stellar_lend::ledger::{AssetParams, LendingError};
use stellar_lend::position::Position;
use stellar_lend::risk_management::Operation;
use stellar_lend::HelloContract;

const T0: u64 = 0;

fn set_asset_params(
    contract: &mut HelloContract,
    asset: Address,
    deposit_enabled: bool,
    collateral_factor: i128,
    max_deposit: i128,
) {
    contract.ledger.set_asset_params(
        Some(asset),
        AssetParams { deposit_enabled, collateral_factor, max_deposit },
    );
}

fn get_collateral_balance(contract: &HelloContract, user: Address) -> i128 {
    contract.ledger.get_position(user).map(|p| p.collateral).unwrap_or(0)
}

fn get_user_position(contract: &HelloContract, user: Address) -> Option<Position> {
    contract.ledger.get_position(user)
}

fn get_user_analytics(contract: &HelloContract, user: Address) -> Option<UserAnalytics> {
    contract.ledger.get_user_analytics(user)
}

fn get_protocol_analytics(contract: &HelloContract) -> Option<ProtocolAnalytics> {
    contract.ledger.get_protocol_analytics()
}

#[test]
fn test_deposit_collateral_success_native() {
    let mut contract = HelloContract::new();
    let user = Address::new(1);

    let amount = 500;
    let result = contract.deposit_collateral(user, None, amount, amount, T0).unwrap();

    assert_eq!(result, amount);

    let balance = get_collateral_balance(&contract, user);
    assert_eq!(balance, amount);

    let position = get_user_position(&contract, user).unwrap();
    assert_eq!(position.collateral, amount);
    assert_eq!(position.debt, 0);

    let analytics = get_user_analytics(&contract, user).unwrap();
    assert_eq!(analytics.total_deposits, amount);
    assert_eq!(analytics.collateral_value, amount);
    assert_eq!(analytics.transaction_count, 1);

    let protocol_analytics = get_protocol_analytics(&contract).unwrap();
    assert_eq!(protocol_analytics.total_deposits, amount);
    assert_eq!(protocol_analytics.total_value_locked, amount);
}

#[test]
fn test_deposit_collateral_zero_amount() {
    let mut contract = HelloContract::new();
    let user = Address::new(1);
    let token = Address::new(100);

    let result = contract.deposit_collateral(user, Some(token), 0, 1000, T0);
    assert_eq!(result, Err(LendingError::InvalidAmount));
    assert!(get_user_position(&contract, user).is_none());
}

#[test]
fn test_deposit_collateral_negative_amount() {
    let mut contract = HelloContract::new();
    let user = Address::new(1);
    let token = Address::new(100);

    let result = contract.deposit_collateral(user, Some(token), -100, 1000, T0);
    assert_eq!(result, Err(LendingError::InvalidAmount));
    assert!(get_user_position(&contract, user).is_none());
}

#[test]
fn test_deposit_collateral_insufficient_balance() {
    let mut contract = HelloContract::new();
    let user = Address::new(1);
    let token = Address::new(100);

    set_asset_params(&mut contract, token, true, 7500, 0);

    // The user holds 100 of the token and tries to deposit 500.
    let result = contract.deposit_collateral(user, Some(token), 500, 100, T0);
    assert_eq!(result, Err(LendingError::InsufficientBalance));
    assert!(get_user_position(&contract, user).is_none());
}

#[test]
fn test_deposit_collateral_asset_not_enabled() {
    let mut contract = HelloContract::new();
    let user = Address::new(1);
    let token = Address::new(100);

    set_asset_params(&mut contract, token, false, 7500, 0);

    let result = contract.deposit_collateral(user, Some(token), 500, 500, T0);
    assert_eq!(result, Err(LendingError::AssetNotEnabled));
}

#[test]
fn test_deposit_collateral_exceeds_max_deposit() {
    let mut contract = HelloContract::new();
    let user = Address::new(1);
    let token = Address::new(100);

    set_asset_params(&mut contract, token, true, 7500, 300);

    // The limit is examined before the balance.
    let result = contract.deposit_collateral(user, Some(token), 500, 0, T0);
    assert_eq!(result, Err(LendingError::InvalidAmount));
}

#[test]
fn test_deposit_collateral_multiple_deposits() {
    let mut contract = HelloContract::new();
    let user = Address::new(1);

    let amount1 = 500;
    let result1 = contract.deposit_collateral(user, None, amount1, amount1, T0).unwrap();
    assert_eq!(result1, amount1);

    let amount2 = 300;
    let result2 = contract.deposit_collateral(user, None, amount2, amount2, T0).unwrap();
    assert_eq!(result2, amount1 + amount2);

    let balance = get_collateral_balance(&contract, user);
    assert_eq!(balance, amount1 + amount2);

    let analytics = get_user_analytics(&contract, user).unwrap();
    assert_eq!(analytics.total_deposits, amount1 + amount2);
    assert_eq!(analytics.transaction_count, 2);
}

#[test]
fn test_deposit_collateral_multiple_assets() {
    let mut contract = HelloContract::new();
    let user = Address::new(1);

    let amount1 = 500;
    let result1 = contract.deposit_collateral(user, None, amount1, 1000, T0).unwrap();
    assert_eq!(result1, amount1);

    let amount2 = 300;
    let result2 = contract.deposit_collateral(user, None, amount2, 1000, T0).unwrap();
    assert_eq!(result2, amount1 + amount2);

    let balance = get_collateral_balance(&contract, user);
    assert_eq!(balance, amount1 + amount2);
}

#[test]
fn test_deposit_collateral_events_emitted() {
    let mut contract = HelloContract::new();
    let user = Address::new(1);

    let amount = 500;
    contract.deposit_collateral(user, None, amount, amount, T0).unwrap();

    let balance = get_collateral_balance(&contract, user);
    assert_eq!(balance, amount, "Deposit should succeed and update balance");
}

#[test]
fn test_deposit_collateral_collateral_ratio_calculation() {
    let mut contract = HelloContract::new();
    let user = Address::new(1);

    let amount = 1000;
    contract.deposit_collateral(user, None, amount, amount, T0).unwrap();

    let position = get_user_position(&contract, user).unwrap();
    assert_eq!(position.collateral, amount);
    assert_eq!(position.debt, 0);

    let analytics = get_user_analytics(&contract, user).unwrap();
    assert_eq!(analytics.collateral_value, amount);
    assert_eq!(analytics.debt_value, 0);
}

#[test]
fn test_deposit_collateral_activity_log() {
    let mut contract = HelloContract::new();
    let user = Address::new(1);

    let amount = 500;
    contract.deposit_collateral(user, None, amount, amount, T0).unwrap();

    assert!(contract.ledger.activity_count() > 0, "Activity log should not be empty");
    let entry = contract.ledger.get_activity(0).unwrap();
    assert_eq!(entry.user, user);
    assert_eq!(entry.kind, ActivityKind::Deposit);
    assert_eq!(entry.amount, amount);
    assert_eq!(entry.asset, None);
    assert_eq!(entry.timestamp, T0);
    assert!(contract.ledger.get_activity(1).is_none());
}

#[test]
fn test_deposit_collateral_pause_switch() {
    let mut contract = HelloContract::new();
    let admin = Address::new(9);
    let user = Address::new(1);
    let token = Address::new(100);

    contract.initialize(admin).unwrap();
    set_asset_params(&mut contract, token, true, 7500, 0);
    contract.set_pause_switch(admin, Operation::Deposit, true).unwrap();

    let result = contract.deposit_collateral(user, Some(token), 500, 1000, T0);
    assert_eq!(result, Err(LendingError::OperationPaused(Operation::Deposit)));
    assert!(get_user_position(&contract, user).is_none());
}

#[test]
fn test_deposit_collateral_overflow_protection() {
    let mut contract = HelloContract::new();
    let user = Address::new(1);

    let amount1 = i128::MAX;
    assert_eq!(contract.deposit_collateral(user, None, amount1, amount1, T0), Ok(i128::MAX));

    let overflow_amount = 1;
    let result = contract.deposit_collateral(user, None, overflow_amount, overflow_amount, T0);
    assert_eq!(result, Err(LendingError::ArithmeticOverflow));
    assert_eq!(get_collateral_balance(&contract, user), i128::MAX);
}

#[test]
fn test_deposit_collateral_native_xlm() {
    let mut contract = HelloContract::new();
    let user = Address::new(1);

    let amount = 1000;
    let result = contract.deposit_collateral(user, None, amount, amount, T0).unwrap();

    assert_eq!(result, amount);

    let balance = get_collateral_balance(&contract, user);
    assert_eq!(balance, amount);
}

#[test]
fn test_deposit_collateral_protocol_analytics_accumulation() {
    let mut contract = HelloContract::new();
    let user1 = Address::new(1);
    let user2 = Address::new(2);

    let amount1 = 500;
    contract.deposit_collateral(user1, None, amount1, amount1, T0).unwrap();

    let amount2 = 300;
    contract.deposit_collateral(user2, None, amount2, amount2, T0).unwrap();

    let protocol_analytics = get_protocol_analytics(&contract).unwrap();
    assert_eq!(protocol_analytics.total_deposits, amount1 + amount2);
    assert_eq!(protocol_analytics.total_value_locked, amount1 + amount2);
}

#[test]
fn test_deposit_collateral_user_analytics_tracking() {
    let mut contract = HelloContract::new();
    let user = Address::new(1);

    let amount1 = 500;
    contract.deposit_collateral(user, None, amount1, amount1, T0).unwrap();

    let analytics1 = get_user_analytics(&contract, user).unwrap();
    assert_eq!(analytics1.total_deposits, amount1);
    assert_eq!(analytics1.collateral_value, amount1);
    assert_eq!(analytics1.transaction_count, 1);
    assert_eq!(analytics1.first_interaction, analytics1.last_activity);

    let amount2 = 300;
    contract.deposit_collateral(user, None, amount2, amount2, T0).unwrap();

    let analytics2 = get_user_analytics(&contract, user).unwrap();
    assert_eq!(analytics2.total_deposits, amount1 + amount2);
    assert_eq!(analytics2.collateral_value, amount1 + amount2);
    assert_eq!(analytics2.transaction_count, 2);
    assert_eq!(analytics2.first_interaction, analytics1.first_interaction);
}

#[test]
fn deposit_keeps_first_interaction_and_moves_last_activity() {
    let mut contract = HelloContract::new();
    let user = Address::new(1);

    contract.deposit_collateral(user, None, 500, 500, 10).unwrap();
    contract.deposit_collateral(user, None, 300, 300, 25).unwrap();

    let analytics = get_user_analytics(&contract, user).unwrap();
    assert_eq!(analytics.first_interaction, 10);
    assert_eq!(analytics.last_activity, 25);
    assert_eq!(analytics.collateralization_ratio, 0);
}

#[test]
fn deposit_under_emergency_pause_is_refused() {
    let mut contract = HelloContract::new();
    let admin = Address::new(9);
    let user = Address::new(1);
    contract.initialize(admin).unwrap();
    contract.set_emergency_pause(admin, true).unwrap();

    let result = contract.deposit_collateral(user, None, 500, 500, T0);
    assert_eq!(result, Err(LendingError::EmergencyPaused));

    // The operation's own switch is reported first when both are on.
    contract.set_pause_switch(admin, Operation::Deposit, true).unwrap();
    let result = contract.deposit_collateral(user, None, 500, 500, T0);
    assert_eq!(result, Err(LendingError::OperationPaused(Operation::Deposit)));
}

#[test]
fn deposit_of_native_currency_honours_its_parameters() {
    let mut contract = HelloContract::new();
    let user = Address::new(1);
    contract.ledger.set_asset_params(
        None,
        AssetParams { deposit_enabled: true, collateral_factor: 10_000, max_deposit: 300 },
    );

    assert_eq!(
        contract.deposit_collateral(user, None, 301, 301, T0),
        Err(LendingError::InvalidAmount),
    );
    assert_eq!(contract.deposit_collateral(user, None, 300, 300, T0), Ok(300));
    assert_eq!(
        contract.deposit_collateral(user, None, 300, 299, T0),
        Err(LendingError::InsufficientBalance)
    );
}

#[test]
fn deposit_accrues_interest_on_existing_debt() {
    let mut contract = HelloContract::new();
    let user = Address::new(1);
    contract.ledger.set_position(
        user,
        Position { collateral: 5000, debt: 1000, borrow_interest: 7, last_accrual_time: 0 },
    );

    // One year at 5% on 1000 is 50.
    let collateral = contract.deposit_collateral(user, None, 100, 100, 31_536_000).unwrap();
    assert_eq!(collateral, 5100);

    let position = get_user_position(&contract, user).unwrap();
    assert_eq!(position.debt, 1000);
    assert_eq!(position.borrow_interest, 57);
    assert_eq!(position.last_accrual_time, 31_536_000);

    let analytics = get_user_analytics(&contract, user).unwrap();
    assert_eq!(analytics.debt_value, 1057);
    assert_eq!(analytics.collateralization_ratio, 5100 * 10_000 / 1057);
}

#[test]
fn deposit_after_maximum_fails_for_every_further_amount() {
    for extra in [1i128, 2, 1000, i128::MAX] {
        let mut contract = HelloContract::new();
        let user = Address::new(1);
        contract.deposit_collateral(user, None, i128::MAX, i128::MAX, T0).unwrap();
        assert_eq!(
            contract.deposit_collateral(user, None, extra, i128::MAX, 5),
            Err(LendingError::ArithmeticOverflow)
        );
        assert_eq!(get_collateral_balance(&contract, user), i128::MAX);
        assert_eq!(get_user_analytics(&contract, user).unwrap().transaction_count, 1);
    }
}
