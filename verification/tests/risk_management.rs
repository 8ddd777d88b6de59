use stellar_lend::address::Address;
use stellar_lend::risk_management::{
    Operation, PauseSwitches, RiskConfig, RiskManagementError, RiskState,
};
use stellar_lend::HelloContract;

fn initialized(admin: Address) -> HelloContract {
    let mut contract = HelloContract::new();
    contract.initialize(admin).unwrap();
    contract
}

#[test]
fn test_initialize_risk_management() {
    let admin = Address::new(1);
    let contract = initialized(admin);

    let config = contract.get_risk_config();
    assert!(config.is_some());
    let config = config.unwrap();
    assert_eq!(config.min_collateral_ratio, 11_000);
    assert_eq!(config.liquidation_threshold, 10_500);
    assert_eq!(config.close_factor, 5_000);
    assert_eq!(config.liquidation_incentive, 1_000);

    let pause_deposit = Operation::from_name("pause_deposit").unwrap();
    let pause_withdraw = Operation::from_name("pause_withdraw").unwrap();
    let pause_borrow = Operation::from_name("pause_borrow").unwrap();
    let pause_repay = Operation::from_name("pause_repay").unwrap();
    let pause_liquidate = Operation::from_name("pause_liquidate").unwrap();

    assert!(!contract.is_operation_paused(pause_deposit));
    assert!(!contract.is_operation_paused(pause_withdraw));
    assert!(!contract.is_operation_paused(pause_borrow));
    assert!(!contract.is_operation_paused(pause_repay));
    assert!(!contract.is_operation_paused(pause_liquidate));

    assert!(!contract.is_emergency_paused());
}

#[test]
fn test_set_risk_params_success() {
    let admin = Address::new(1);
    let mut contract = initialized(admin);

    contract
        .set_risk_params(admin, Some(12_000), Some(11_000), Some(5_500), Some(1_100))
        .unwrap();

    assert_eq!(contract.get_min_collateral_ratio(), Ok(12_000));
    assert_eq!(contract.get_liquidation_threshold(), Ok(11_000));
    assert_eq!(contract.get_close_factor(), Ok(5_500));
    assert_eq!(contract.get_liquidation_incentive(), Ok(1_100));
}

#[test]
fn test_set_risk_params_unauthorized() {
    let admin = Address::new(1);
    let non_admin = Address::new(2);
    let mut contract = initialized(admin);

    let result = contract.set_risk_params(non_admin, Some(12_000), None, None, None);
    assert_eq!(result, Err(RiskManagementError::Unauthorized));
    assert_eq!(result.unwrap_err().code(), 1);
    assert_eq!(contract.get_min_collateral_ratio(), Ok(11_000));
}

#[test]
fn test_set_risk_params_invalid_min_collateral_ratio() {
    let admin = Address::new(1);
    let mut contract = initialized(admin);

    // Below the absolute floor and beyond the change limit: the change
    // limit is reported.
    let result = contract.set_risk_params(admin, Some(5_000), None, None, None);
    assert_eq!(result, Err(RiskManagementError::ParameterChangeTooLarge));
    assert_eq!(result.unwrap_err().code(), 3);
}

#[test]
fn test_set_risk_params_min_cr_below_liquidation_threshold() {
    let admin = Address::new(1);
    let mut contract = initialized(admin);

    let result = contract.set_risk_params(admin, Some(10_000), Some(10_500), None, None);
    assert_eq!(result, Err(RiskManagementError::InvalidCollateralRatio));
    assert_eq!(result.unwrap_err().code(), 7);
    assert_eq!(contract.get_risk_config(), Some(RiskConfig::default_config()));
}

#[test]
fn test_set_risk_params_invalid_close_factor() {
    let admin = Address::new(1);
    let mut contract = initialized(admin);

    let result = contract.set_risk_params(admin, None, None, Some(10_001), None);
    assert_eq!(result, Err(RiskManagementError::ParameterChangeTooLarge));
    assert_eq!(result.unwrap_err().code(), 3);
}

#[test]
fn test_set_risk_params_invalid_liquidation_incentive() {
    let admin = Address::new(1);
    let mut contract = initialized(admin);

    let result = contract.set_risk_params(admin, None, None, None, Some(5_001));
    assert_eq!(result, Err(RiskManagementError::ParameterChangeTooLarge));
    assert_eq!(result.unwrap_err().code(), 3);
}

#[test]
fn test_set_risk_params_change_too_large() {
    let admin = Address::new(1);
    let mut contract = initialized(admin);

    let result = contract.set_risk_params(admin, Some(15_000), None, None, None);
    assert_eq!(result, Err(RiskManagementError::ParameterChangeTooLarge));
    assert_eq!(result.unwrap_err().code(), 3);
}

#[test]
fn test_set_pause_switch_success() {
    let admin = Address::new(1);
    let mut contract = initialized(admin);

    let pause_deposit_sym = Operation::from_name("pause_deposit").unwrap();
    contract.set_pause_switch(admin, pause_deposit_sym, true).unwrap();

    assert!(contract.is_operation_paused(pause_deposit_sym));

    contract.set_pause_switch(admin, pause_deposit_sym, false).unwrap();

    assert!(!contract.is_operation_paused(pause_deposit_sym));
}

#[test]
fn test_set_pause_switch_unauthorized() {
    let admin = Address::new(1);
    let non_admin = Address::new(2);
    let mut contract = initialized(admin);

    let result = contract.set_pause_switch(non_admin, Operation::Deposit, true);
    assert_eq!(result, Err(RiskManagementError::Unauthorized));
    assert_eq!(result.unwrap_err().code(), 1);
    assert!(!contract.is_operation_paused(Operation::Deposit));
}

#[test]
fn test_set_pause_switches_multiple() {
    let admin = Address::new(1);
    let mut contract = initialized(admin);

    let mut switches = Vec::new();
    switches.push((Operation::from_name("pause_deposit").unwrap(), true));
    switches.push((Operation::from_name("pause_borrow").unwrap(), true));
    switches.push((Operation::from_name("pause_withdraw").unwrap(), false));

    contract.set_pause_switches(admin, &switches).unwrap();

    let pause_deposit_sym = Operation::from_name("pause_deposit").unwrap();
    let pause_borrow_sym = Operation::from_name("pause_borrow").unwrap();
    let pause_withdraw_sym = Operation::from_name("pause_withdraw").unwrap();
    assert!(contract.is_operation_paused(pause_deposit_sym));
    assert!(contract.is_operation_paused(pause_borrow_sym));
    assert!(!contract.is_operation_paused(pause_withdraw_sym));
}

#[test]
fn test_set_emergency_pause() {
    let admin = Address::new(1);
    let mut contract = initialized(admin);

    contract.set_emergency_pause(admin, true).unwrap();
    assert!(contract.is_emergency_paused());

    contract.set_emergency_pause(admin, false).unwrap();
    assert!(!contract.is_emergency_paused());
}

#[test]
fn test_set_emergency_pause_unauthorized() {
    let admin = Address::new(1);
    let non_admin = Address::new(2);
    let mut contract = initialized(admin);

    let result = contract.set_emergency_pause(non_admin, true);
    assert_eq!(result, Err(RiskManagementError::Unauthorized));
    assert_eq!(result.unwrap_err().code(), 1);
    assert!(!contract.is_emergency_paused());
}

#[test]
fn test_require_min_collateral_ratio_success() {
    let admin = Address::new(1);
    let contract = initialized(admin);

    assert_eq!(contract.require_min_collateral_ratio(1_100, 1_000), Ok(()));
    assert_eq!(contract.require_min_collateral_ratio(1_000, 0), Ok(()));
}

#[test]
fn test_require_min_collateral_ratio_failure() {
    let admin = Address::new(1);
    let contract = initialized(admin);

    let result = contract.require_min_collateral_ratio(1_000, 1_000);
    assert_eq!(result, Err(RiskManagementError::InsufficientCollateralRatio));
    assert_eq!(result.unwrap_err().code(), 4);
}

#[test]
fn test_can_be_liquidated() {
    let admin = Address::new(1);
    let contract = initialized(admin);

    assert!(contract.can_be_liquidated(1_000, 1_000).unwrap());
    assert!(!contract.can_be_liquidated(1_100, 1_000).unwrap());
    assert!(!contract.can_be_liquidated(1_000, 0).unwrap());
}

#[test]
fn test_get_max_liquidatable_amount() {
    let admin = Address::new(1);
    let mut contract = initialized(admin);

    let max_liquidatable = contract.get_max_liquidatable_amount(1_000).unwrap();
    assert_eq!(max_liquidatable, 500);

    contract.set_risk_params(admin, None, None, Some(5_500), None).unwrap();

    let max_liquidatable = contract.get_max_liquidatable_amount(1_000).unwrap();
    assert_eq!(max_liquidatable, 550);
}

#[test]
fn test_get_liquidation_incentive_amount() {
    let admin = Address::new(1);
    let mut contract = initialized(admin);

    let incentive = contract.get_liquidation_incentive_amount(1_000).unwrap();
    assert_eq!(incentive, 100);

    contract.set_risk_params(admin, None, None, None, Some(1_100)).unwrap();

    let incentive = contract.get_liquidation_incentive_amount(1_000).unwrap();
    assert_eq!(incentive, 110);
}

#[test]
fn test_risk_params_partial_update() {
    let admin = Address::new(1);
    let mut contract = initialized(admin);

    contract.set_risk_params(admin, Some(12_000), None, None, None).unwrap();

    assert_eq!(contract.get_min_collateral_ratio(), Ok(12_000));
    assert_eq!(contract.get_liquidation_threshold(), Ok(10_500));
    assert_eq!(contract.get_close_factor(), Ok(5_000));
    assert_eq!(contract.get_liquidation_incentive(), Ok(1_000));
}

#[test]
fn test_pause_switch_all_operations() {
    let admin = Address::new(1);
    let mut contract = initialized(admin);

    let operations = [
        "pause_deposit",
        "pause_withdraw",
        "pause_borrow",
        "pause_repay",
        "pause_liquidate",
    ];

    for op in operations.iter() {
        let op_sym = Operation::from_name(op).unwrap();
        contract.set_pause_switch(admin, op_sym, true).unwrap();
        assert!(contract.is_operation_paused(op_sym));
    }

    for op in operations.iter() {
        let op_sym = Operation::from_name(op).unwrap();
        contract.set_pause_switch(admin, op_sym, false).unwrap();
        assert!(!contract.is_operation_paused(op_sym));
    }
}

#[test]
fn test_emergency_pause_blocks_risk_param_changes() {
    let admin = Address::new(1);
    let mut contract = initialized(admin);

    contract.set_emergency_pause(admin, true).unwrap();

    let result = contract.set_risk_params(admin, Some(12_000), None, None, None);
    assert_eq!(result, Err(RiskManagementError::EmergencyPaused));
    assert_eq!(contract.get_min_collateral_ratio(), Ok(11_000));

    // Switches can still be set, and the pause can be lifted.
    contract.set_pause_switch(admin, Operation::Borrow, true).unwrap();
    contract.set_emergency_pause(admin, false).unwrap();
    assert_eq!(contract.set_risk_params(admin, Some(12_000), None, None, None), Ok(()));
}

#[test]
fn test_collateral_ratio_calculations() {
    let admin = Address::new(1);
    let contract = initialized(admin);

    assert_eq!(contract.require_min_collateral_ratio(2_000, 1_000), Ok(()));
    assert!(!contract.can_be_liquidated(2_000, 1_000).unwrap());

    assert_eq!(contract.require_min_collateral_ratio(1_500, 1_000), Ok(()));
    assert!(!contract.can_be_liquidated(1_500, 1_000).unwrap());

    assert_eq!(contract.require_min_collateral_ratio(1_100, 1_000), Ok(()));
    assert!(!contract.can_be_liquidated(1_100, 1_000).unwrap());

    assert!(!contract.can_be_liquidated(1_050, 1_000).unwrap());

    assert!(contract.can_be_liquidated(1_040, 1_000).unwrap());

    assert!(contract.can_be_liquidated(1_000, 1_000).unwrap());
}

#[test]
fn initialize_twice_is_refused() {
    let admin = Address::new(1);
    let mut contract = initialized(admin);
    contract.set_risk_params(admin, Some(12_000), None, None, None).unwrap();

    let result = contract.initialize(Address::new(2));
    assert_eq!(result, Err(RiskManagementError::AlreadyInitialized));
    assert_eq!(result.unwrap_err().code(), 9);
    assert_eq!(contract.get_min_collateral_ratio(), Ok(12_000));
    assert_eq!(contract.risk.unwrap().admin, admin);
    assert_eq!(contract.ms_get_admins(), Some(vec![admin]));
}

#[test]
fn accessors_report_missing_initialization() {
    let contract = HelloContract::new();

    assert_eq!(contract.get_risk_config(), None);
    assert_eq!(contract.get_min_collateral_ratio(), Err(RiskManagementError::NotInitialized));
    assert_eq!(contract.get_liquidation_threshold(), Err(RiskManagementError::NotInitialized));
    assert_eq!(contract.get_close_factor(), Err(RiskManagementError::NotInitialized));
    assert_eq!(contract.get_liquidation_incentive(), Err(RiskManagementError::NotInitialized));
    assert_eq!(contract.can_be_liquidated(1, 1), Err(RiskManagementError::NotInitialized));
    assert_eq!(
        contract.require_min_collateral_ratio(1, 1),
        Err(RiskManagementError::NotInitialized)
    );
    assert_eq!(contract.get_max_liquidatable_amount(1), Err(RiskManagementError::NotInitialized));
    assert_eq!(
        contract.get_liquidation_incentive_amount(1),
        Err(RiskManagementError::NotInitialized)
    );
    assert_eq!(RiskManagementError::NotInitialized.code(), 10);
    assert!(!contract.is_operation_paused(Operation::Deposit));
    assert!(!contract.is_emergency_paused());
}

#[test]
fn setters_before_initialization_are_unauthorized() {
    let mut contract = HelloContract::new();
    let caller = Address::new(1);

    assert_eq!(
        contract.set_risk_params(caller, Some(12_000), None, None, None),
        Err(RiskManagementError::Unauthorized)
    );
    assert_eq!(
        contract.set_pause_switch(caller, Operation::Deposit, true),
        Err(RiskManagementError::Unauthorized)
    );
    assert_eq!(
        contract.set_pause_switches(caller, &vec![(Operation::Deposit, true)]),
        Err(RiskManagementError::Unauthorized)
    );
    assert_eq!(contract.set_emergency_pause(caller, true), Err(RiskManagementError::Unauthorized));
    assert!(contract.risk.is_none());
}

#[test]
fn ratio_must_stay_strictly_above_threshold() {
    let admin = Address::new(1);
    let mut contract = initialized(admin);

    // Equal values are refused, one basis point apart is accepted.
    assert_eq!(
        contract.set_risk_params(admin, Some(10_500), None, None, None),
        Err(RiskManagementError::InvalidCollateralRatio)
    );
    assert_eq!(
        contract.set_risk_params(admin, Some(10_000), Some(10_000), None, None),
        Err(RiskManagementError::InvalidCollateralRatio)
    );
    assert_eq!(
        contract.set_risk_params(admin, Some(10_001), Some(10_000), Some(4_500), Some(900)),
        Ok(()),
    );
    assert_eq!(contract.get_min_collateral_ratio(), Ok(10_001));
    assert_eq!(contract.get_liquidation_threshold(), Ok(10_000));
    assert_eq!(contract.get_close_factor(), Ok(4_500));
    assert_eq!(contract.get_liquidation_incentive(), Ok(900));
}

#[test]
fn change_limit_is_ten_percent_of_the_current_value() {
    let config = RiskConfig::default_config();

    // 11_000 may move by 1_100 at most, either way.
    assert!(config.validate_update(Some(12_100), None, None, None).is_ok());
    assert_eq!(
        config.validate_update(Some(12_101), None, None, None),
        Err(RiskManagementError::ParameterChangeTooLarge)
    );
    // 9_900 is within the change limit but below the floor of 10_000.
    assert_eq!(
        config.validate_update(Some(9_900), Some(10_000), None, None),
        Err(RiskManagementError::ParameterOutOfBounds)
    );
    assert_eq!(RiskManagementError::ParameterOutOfBounds.code(), 2);
    assert_eq!(
        config.validate_update(Some(9_899), None, None, None),
        Err(RiskManagementError::ParameterChangeTooLarge)
    );
    // 5_000 may move by 500, 1_000 by 100.
    assert!(config.validate_update(None, None, Some(4_500), Some(900)).is_ok());
    assert_eq!(
        config.validate_update(None, None, Some(4_499), None),
        Err(RiskManagementError::ParameterChangeTooLarge)
    );
    assert_eq!(
        config.validate_update(None, None, None, Some(1_101)),
        Err(RiskManagementError::ParameterChangeTooLarge)
    );
    // Extreme requests do not wrap around.
    assert_eq!(
        config.validate_update(Some(i128::MAX), Some(i128::MIN), None, None),
        Err(RiskManagementError::ParameterChangeTooLarge)
    );
}

#[test]
fn oversized_change_refuses_the_whole_update() {
    let admin = Address::new(1);
    let mut contract = initialized(admin);

    // Three fields within their limits, the fourth beyond it.
    let result = contract.set_risk_params(
        admin,
        Some(12_000),
        Some(11_000),
        Some(5_500),
        Some(1_101),
    );
    assert_eq!(result, Err(RiskManagementError::ParameterChangeTooLarge));
    assert_eq!(contract.get_risk_config(), Some(RiskConfig::default_config()));

    // The change limit wins over a range violation in another field.
    let zero = RiskState {
        admin,
        config: RiskConfig {
            min_collateral_ratio: 11_000,
            liquidation_threshold: 10_500,
            close_factor: 9_500,
            liquidation_incentive: 4_900,
        },
        pause: PauseSwitches::all_clear(),
        emergency_paused: false,
    };
    contract.risk = Some(zero);
    assert_eq!(
        contract.set_risk_params(admin, Some(15_000), None, Some(10_001), None),
        Err(RiskManagementError::ParameterChangeTooLarge)
    );
    assert_eq!(
        contract.set_risk_params(admin, None, None, Some(10_001), Some(5_001)),
        Err(RiskManagementError::ParameterOutOfBounds)
    );
    assert_eq!(contract.risk, Some(zero));
}

#[test]
fn parameter_ceilings_are_enforced() {
    let admin = Address::new(1);
    let mut contract = initialized(admin);
    contract.risk = Some(RiskState {
        admin,
        config: RiskConfig {
            min_collateral_ratio: 49_000,
            liquidation_threshold: 48_000,
            close_factor: 9_800,
            liquidation_incentive: 4_950,
        },
        pause: PauseSwitches::all_clear(),
        emergency_paused: false,
    });

    assert_eq!(
        contract.set_risk_params(admin, Some(50_001), None, None, None),
        Err(RiskManagementError::ParameterOutOfBounds)
    );
    assert_eq!(
        contract.set_risk_params(admin, Some(52_000), Some(50_001), None, None),
        Err(RiskManagementError::ParameterOutOfBounds)
    );
    assert_eq!(
        contract.set_risk_params(admin, None, None, Some(10_001), None),
        Err(RiskManagementError::ParameterOutOfBounds)
    );
    assert_eq!(
        contract.set_risk_params(admin, None, None, None, Some(5_001)),
        Err(RiskManagementError::ParameterOutOfBounds)
    );
    assert_eq!(
        contract.set_risk_params(admin, Some(50_000), Some(49_999), Some(10_000), Some(5_000)),
        Ok(())
    );
}

#[test]
fn later_switch_entries_override_earlier_ones() {
    let admin = Address::new(1);
    let mut contract = initialized(admin);

    let switches = vec![
        (Operation::Repay, true),
        (Operation::Liquidate, true),
        (Operation::Repay, false),
    ];
    contract.set_pause_switches(admin, &switches).unwrap();

    assert!(!contract.is_operation_paused(Operation::Repay));
    assert!(contract.is_operation_paused(Operation::Liquidate));
    assert!(!contract.is_operation_paused(Operation::Deposit));
}

#[test]
fn liquidation_is_monotone_in_collateral() {
    let config = RiskConfig::default_config();
    let debt = 1_000;
    let mut seen_safe = false;
    for collateral in 0..1_200 {
        let liquidatable = config.can_be_liquidated(collateral, debt).unwrap();
        if !liquidatable {
            seen_safe = true;
        }
        // Once a position is safe, more collateral keeps it safe.
        assert!(!(seen_safe && liquidatable));
        assert_eq!(liquidatable, collateral < 1_050);
    }
}

#[test]
fn liquidation_threshold_boundary() {
    let config = RiskConfig::default_config();

    // Ratio 10_500 equals the threshold: not liquidatable.
    assert_eq!(config.can_be_liquidated(1_050, 1_000), Ok(false));
    // Ratio rounds down to 10_499: liquidatable.
    assert_eq!(config.can_be_liquidated(10_499, 10_000), Ok(true));
    assert_eq!(config.can_be_liquidated(1_040, 1_000), Ok(true));
    // Negative collateral against debt is as unsafe as it gets.
    assert_eq!(config.can_be_liquidated(-1, 1_000), Ok(true));
    // No debt, nothing to liquidate.
    assert_eq!(config.can_be_liquidated(0, 0), Ok(false));
    assert_eq!(config.can_be_liquidated(500, -5), Ok(false));
}

#[test]
fn ratio_and_share_overflow_is_reported() {
    let config = RiskConfig::default_config();

    assert_eq!(config.can_be_liquidated(i128::MAX, 1), Err(RiskManagementError::Overflow));
    assert_eq!(
        config.require_min_collateral_ratio(i128::MAX / 10_000 + 1, 1),
        Err(RiskManagementError::Overflow)
    );
    assert_eq!(config.require_min_collateral_ratio(i128::MAX / 10_000, 1), Ok(()));
    assert_eq!(config.max_liquidatable_amount(i128::MAX), Err(RiskManagementError::Overflow));
    assert_eq!(config.liquidation_incentive_amount(i128::MAX), Err(RiskManagementError::Overflow));
    assert_eq!(RiskManagementError::Overflow.code(), 8);
    // With overflow out of the way, no debt always passes.
    assert_eq!(config.require_min_collateral_ratio(i128::MAX, 0), Ok(()));
}

#[test]
fn shares_round_toward_zero() {
    let config = RiskConfig::default_config();

    assert_eq!(config.max_liquidatable_amount(999), Ok(499));
    assert_eq!(config.max_liquidatable_amount(1), Ok(0));
    assert_eq!(config.max_liquidatable_amount(-999), Ok(-499));
    assert_eq!(config.liquidation_incentive_amount(1_009), Ok(100));
    assert_eq!(config.liquidation_incentive_amount(0), Ok(0));
}

#[test]
fn error_codes_are_distinct() {
    let all = [
        RiskManagementError::Unauthorized,
        RiskManagementError::ParameterOutOfBounds,
        RiskManagementError::ParameterChangeTooLarge,
        RiskManagementError::InsufficientCollateralRatio,
        RiskManagementError::OperationPaused,
        RiskManagementError::EmergencyPaused,
        RiskManagementError::InvalidCollateralRatio,
        RiskManagementError::Overflow,
        RiskManagementError::AlreadyInitialized,
        RiskManagementError::NotInitialized,
    ];
    for (i, e) in all.iter().enumerate() {
        assert_eq!(e.code(), i as u32 + 1);
    }
}

#[test]
fn operations_are_found_by_the_names_of_their_switches() {
    let all = [
        (Operation::Deposit, "pause_deposit"),
        (Operation::Withdraw, "pause_withdraw"),
        (Operation::Borrow, "pause_borrow"),
        (Operation::Repay, "pause_repay"),
        (Operation::Liquidate, "pause_liquidate"),
    ];
    for (operation, name) in all {
        assert_eq!(operation.name(), name);
        assert_eq!(Operation::from_name(name), Some(operation));
        assert_eq!(Operation::from_name(operation.name()), Some(operation));
    }
    for name in [
        "",
        "pause",
        "pause_deposit ",
        "Pause_deposit",
        "pause_deposi",
        "deposit",
        "pause_répay",
    ] {
        assert_eq!(Operation::from_name(name), None);
    }
}

#[test]
fn hello_greets() {
    assert_eq!(HelloContract::new().hello(), "Hello");
}
