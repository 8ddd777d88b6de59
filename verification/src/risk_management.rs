//! The parameter store: risk parameters, pause switches and the admin.
//!
//! Everything else in the protocol reads this store. It is absent until
//! [`initialize_risk_management`] has run; accessors report that with
//! [`RiskManagementError::NotInitialized`] instead of inventing defaults.

use vstd::prelude::*;
use vstd::string::StringSliceAdditionalSpecFns;
use crate::address::Address;
use crate::math::{
    bps_of,
    checked_bps_of,
    checked_ratio_bps,
    fits_i128,
    ratio_bps,
    BASIS_POINTS_SCALE,
};

verus! {

/// Lowest admissible minimum collateral ratio (100%).
pub const MIN_COLLATERAL_RATIO_FLOOR: i128 = 10_000;

/// Highest admissible minimum collateral ratio (500%).
pub const MIN_COLLATERAL_RATIO_CEILING: i128 = 50_000;

/// Lowest admissible liquidation threshold (100%).
pub const LIQUIDATION_THRESHOLD_FLOOR: i128 = 10_000;

/// Highest admissible liquidation threshold (500%).
pub const LIQUIDATION_THRESHOLD_CEILING: i128 = 50_000;

/// Highest admissible close factor (100%).
pub const CLOSE_FACTOR_CEILING: i128 = 10_000;

/// Highest admissible liquidation incentive (50%).
pub const LIQUIDATION_INCENTIVE_CEILING: i128 = 5_000;

/// Largest relative change of one parameter in one update (10%).
pub const MAX_PARAMETER_CHANGE_BPS: i128 = 1_000;

/// Minimum collateral ratio set at initialization (110%).
pub const DEFAULT_MIN_COLLATERAL_RATIO: i128 = 11_000;

/// Liquidation threshold set at initialization (105%).
pub const DEFAULT_LIQUIDATION_THRESHOLD: i128 = 10_500;

/// Close factor set at initialization (50%).
pub const DEFAULT_CLOSE_FACTOR: i128 = 5_000;

/// Liquidation incentive set at initialization (10%).
pub const DEFAULT_LIQUIDATION_INCENTIVE: i128 = 1_000;

/// Why a parameter-store operation was refused.
#[derive(Clone, Copy, Debug, PartialEq, Eq, Structural)]
pub enum RiskManagementError {
    /// The caller is not the admin.
    Unauthorized,
    /// A requested value lies outside its absolute range.
    ParameterOutOfBounds,
    /// A requested value differs from the current one by more than 10%.
    ParameterChangeTooLarge,
    /// The collateral ratio is below the required minimum.
    InsufficientCollateralRatio,
    /// The operation's pause switch is on.
    OperationPaused,
    /// The emergency pause is on.
    EmergencyPaused,
    /// The minimum collateral ratio would not exceed the liquidation threshold.
    InvalidCollateralRatio,
    /// A product or sum left the representable range.
    Overflow,
    /// The store was initialized before.
    AlreadyInitialized,
    /// The store has not been initialized.
    NotInitialized,
}

impl RiskManagementError {
    /// The numeric code under which the error is reported to clients.
    pub open spec fn code_spec(self) -> u32 {
        match self {
            RiskManagementError::Unauthorized => 1,
            RiskManagementError::ParameterOutOfBounds => 2,
            RiskManagementError::ParameterChangeTooLarge => 3,
            RiskManagementError::InsufficientCollateralRatio => 4,
            RiskManagementError::OperationPaused => 5,
            RiskManagementError::EmergencyPaused => 6,
            RiskManagementError::InvalidCollateralRatio => 7,
            RiskManagementError::Overflow => 8,
            RiskManagementError::AlreadyInitialized => 9,
            RiskManagementError::NotInitialized => 10,
        }
    }

    /// The numeric code under which the error is reported to clients.
    pub fn code(&self) -> (c: u32)
        ensures
            c == self.code_spec(),
    {
        match self {
            RiskManagementError::Unauthorized => 1,
            RiskManagementError::ParameterOutOfBounds => 2,
            RiskManagementError::ParameterChangeTooLarge => 3,
            RiskManagementError::InsufficientCollateralRatio => 4,
            RiskManagementError::OperationPaused => 5,
            RiskManagementError::EmergencyPaused => 6,
            RiskManagementError::InvalidCollateralRatio => 7,
            RiskManagementError::Overflow => 8,
            RiskManagementError::AlreadyInitialized => 9,
            RiskManagementError::NotInitialized => 10,
        }
    }
}

/// The lending operations that can be paused one by one.
#[derive(Clone, Copy, Debug, PartialEq, Eq, Structural)]
pub enum Operation {
    Deposit,
    Withdraw,
    Borrow,
    Repay,
    Liquidate,
}

/// Whether two byte strings are the same.
fn bytes_equal(left: &[u8], right: &[u8]) -> (same: bool)
    ensures
        same == (left@ == right@),
{
    if left.len() != right.len() {
        return false;
    }
    let mut i: usize = 0;
    while i < left.len()
        invariant
            i <= left.len(),
            left.len() == right.len(),
            forall|j: int| 0 <= j < i ==> left@[j] == right@[j],
        decreases left.len() - i,
    {
        if left[i] != right[i] {
            return false;
        }
        i = i + 1;
    }
    proof {
        assert(left@ =~= right@);
    }
    true
}

impl Operation {
    /// The name under which the pause switch of the operation is known to
    /// clients: `pause_deposit`, `pause_withdraw`, `pause_borrow`,
    /// `pause_repay`, `pause_liquidate`.
    pub open spec fn switch_name(self) -> Seq<char> {
        match self {
            Operation::Deposit => "pause_deposit"@,
            Operation::Withdraw => "pause_withdraw"@,
            Operation::Borrow => "pause_borrow"@,
            Operation::Repay => "pause_repay"@,
            Operation::Liquidate => "pause_liquidate"@,
        }
    }

    /// The operation whose pause switch goes by `name`, if there is one.
    pub open spec fn named(name: Seq<char>) -> Option<Operation> {
        if name == Operation::Deposit.switch_name() {
            Some(Operation::Deposit)
        } else if name == Operation::Withdraw.switch_name() {
            Some(Operation::Withdraw)
        } else if name == Operation::Borrow.switch_name() {
            Some(Operation::Borrow)
        } else if name == Operation::Repay.switch_name() {
            Some(Operation::Repay)
        } else if name == Operation::Liquidate.switch_name() {
            Some(Operation::Liquidate)
        } else {
            None
        }
    }

    /// The name of the operation's pause switch.
    pub fn name(&self) -> (name: &'static str)
        ensures
            name@ == self.switch_name(),
    {
        match self {
            Operation::Deposit => "pause_deposit",
            Operation::Withdraw => "pause_withdraw",
            Operation::Borrow => "pause_borrow",
            Operation::Repay => "pause_repay",
            Operation::Liquidate => "pause_liquidate",
        }
    }

    /// The operation whose pause switch goes by `name`, if there is one.
    pub fn from_name(name: &str) -> (r: Option<Operation>)
        ensures
            r == Operation::named(name@),
    {
        if same_text(name, Operation::Deposit.name()) {
            Some(Operation::Deposit)
        } else if same_text(name, Operation::Withdraw.name()) {
            Some(Operation::Withdraw)
        } else if same_text(name, Operation::Borrow.name()) {
            Some(Operation::Borrow)
        } else if same_text(name, Operation::Repay.name()) {
            Some(Operation::Repay)
        } else if same_text(name, Operation::Liquidate.name()) {
            Some(Operation::Liquidate)
        } else {
            None
        }
    }
}

/// Whether two strings hold the same text.
fn same_text(left: &str, right: &str) -> (same: bool)
    ensures
        same == (left@ == right@),
{
    proof {
        vstd::utf8::encode_utf8_decode_utf8(left@);
        vstd::utf8::encode_utf8_decode_utf8(right@);
    }
    bytes_equal(left.as_bytes(), right.as_bytes())
}

/// Every operation is found again by the name of its switch: the five
/// names are pairwise different.
pub proof fn law_operation_names_are_distinct(operation: Operation)
    ensures
        Operation::named(operation.switch_name()) == Some(operation),
{
    reveal_strlit("pause_deposit");
    reveal_strlit("pause_withdraw");
    reveal_strlit("pause_borrow");
    reveal_strlit("pause_repay");
    reveal_strlit("pause_liquidate");
    assert("pause_deposit"@.len() == 13);
    assert("pause_withdraw"@.len() == 14);
    assert("pause_borrow"@.len() == 12);
    assert("pause_repay"@.len() == 11);
    assert("pause_liquidate"@.len() == 15);
}

/// One pause switch per operation; `true` means paused.
#[derive(Clone, Copy, Debug, PartialEq, Eq, Structural)]
pub struct PauseSwitches {
    pub deposit: bool,
    pub withdraw: bool,
    pub borrow: bool,
    pub repay: bool,
    pub liquidate: bool,
}

impl PauseSwitches {
    /// Whether the switch of `operation` is on.
    pub open spec fn is_paused(self, operation: Operation) -> bool {
        match operation {
            Operation::Deposit => self.deposit,
            Operation::Withdraw => self.withdraw,
            Operation::Borrow => self.borrow,
            Operation::Repay => self.repay,
            Operation::Liquidate => self.liquidate,
        }
    }

    /// These switches with the one of `operation` set to `paused`.
    pub open spec fn with(self, operation: Operation, paused: bool) -> PauseSwitches {
        match operation {
            Operation::Deposit => PauseSwitches { deposit: paused, ..self },
            Operation::Withdraw => PauseSwitches { withdraw: paused, ..self },
            Operation::Borrow => PauseSwitches { borrow: paused, ..self },
            Operation::Repay => PauseSwitches { repay: paused, ..self },
            Operation::Liquidate => PauseSwitches { liquidate: paused, ..self },
        }
    }

    /// These switches after the first `n` entries of `switches` were applied
    /// in order.
    pub open spec fn with_first(self, switches: Seq<(Operation, bool)>, n: nat) -> PauseSwitches
        decreases n,
    {
        if n == 0 || n > switches.len() {
            self
        } else {
            let entry = switches[n - 1];
            self.with_first(switches, (n - 1) as nat).with(entry.0, entry.1)
        }
    }

    /// These switches after all of `switches` were applied in order, so that
    /// a later entry for an operation overrides an earlier one.
    pub open spec fn with_all(self, switches: Seq<(Operation, bool)>) -> PauseSwitches {
        self.with_first(switches, switches.len())
    }

    /// The switches with none of them on.
    pub open spec fn none_paused() -> PauseSwitches {
        PauseSwitches {
            deposit: false,
            withdraw: false,
            borrow: false,
            repay: false,
            liquidate: false,
        }
    }

    /// All switches off.
    pub fn all_clear() -> (p: PauseSwitches)
        ensures
            p == PauseSwitches::none_paused(),
    {
        PauseSwitches {
            deposit: false,
            withdraw: false,
            borrow: false,
            repay: false,
            liquidate: false,
        }
    }

    /// Whether the switch of `operation` is on.
    pub fn get(&self, operation: Operation) -> (paused: bool)
        ensures
            paused == self.is_paused(operation),
    {
        match operation {
            Operation::Deposit => self.deposit,
            Operation::Withdraw => self.withdraw,
            Operation::Borrow => self.borrow,
            Operation::Repay => self.repay,
            Operation::Liquidate => self.liquidate,
        }
    }

    /// Sets the switch of `operation` and leaves the others alone.
    pub fn set(&mut self, operation: Operation, paused: bool)
        ensures
            *final(self) == old(self).with(operation, paused),
    {
        match operation {
            Operation::Deposit => {
                self.deposit = paused;
            },
            Operation::Withdraw => {
                self.withdraw = paused;
            },
            Operation::Borrow => {
                self.borrow = paused;
            },
            Operation::Repay => {
                self.repay = paused;
            },
            Operation::Liquidate => {
                self.liquidate = paused;
            },
        }
    }
}

/// The four risk parameters, all in basis points.
#[derive(Clone, Copy, Debug, PartialEq, Eq, Structural)]
pub struct RiskConfig {
    /// Collateral ratio below which borrowing and withdrawing are refused.
    pub min_collateral_ratio: i128,
    /// Collateral ratio below which a position can be liquidated.
    pub liquidation_threshold: i128,
    /// Largest share of a debt that one liquidation may repay.
    pub close_factor: i128,
    /// Bonus paid to a liquidator on the liquidated amount.
    pub liquidation_incentive: i128,
}

/// Whether `value` lies in the absolute range of the minimum collateral ratio.
pub open spec fn min_collateral_ratio_in_bounds(value: int) -> bool {
    MIN_COLLATERAL_RATIO_FLOOR <= value <= MIN_COLLATERAL_RATIO_CEILING
}

/// Whether `value` lies in the absolute range of the liquidation threshold.
pub open spec fn liquidation_threshold_in_bounds(value: int) -> bool {
    LIQUIDATION_THRESHOLD_FLOOR <= value <= LIQUIDATION_THRESHOLD_CEILING
}

/// Whether `value` lies in the absolute range of the close factor.
pub open spec fn close_factor_in_bounds(value: int) -> bool {
    0 <= value <= CLOSE_FACTOR_CEILING
}

/// Whether `value` lies in the absolute range of the liquidation incentive.
pub open spec fn liquidation_incentive_in_bounds(value: int) -> bool {
    0 <= value <= LIQUIDATION_INCENTIVE_CEILING
}

/// Whether moving a parameter from `current` to `requested` changes it by
/// at most 10% of `current`.
pub open spec fn change_within_limit(current: int, requested: int) -> bool {
    let change = if requested >= current {
        requested - current
    } else {
        current - requested
    };
    change * BASIS_POINTS_SCALE <= current * MAX_PARAMETER_CHANGE_BPS
}

/// Whether an optional request for a parameter stays within the change limit.
/// A parameter that is not requested does not change.
pub open spec fn request_within_limit(current: i128, request: Option<i128>) -> bool {
    match request {
        Some(value) => change_within_limit(current as int, value as int),
        None => true,
    }
}

/// The value of a parameter after an optional request.
pub open spec fn requested_or(current: i128, request: Option<i128>) -> i128 {
    match request {
        Some(value) => value,
        None => current,
    }
}

impl RiskConfig {
    /// The parameters that initialization sets: 110%, 105%, 50%, 10%.
    pub open spec fn initial() -> RiskConfig {
        RiskConfig {
            min_collateral_ratio: DEFAULT_MIN_COLLATERAL_RATIO,
            liquidation_threshold: DEFAULT_LIQUIDATION_THRESHOLD,
            close_factor: DEFAULT_CLOSE_FACTOR,
            liquidation_incentive: DEFAULT_LIQUIDATION_INCENTIVE,
        }
    }

    /// Every parameter lies within its absolute range.
    pub open spec fn in_bounds(self) -> bool {
        &&& min_collateral_ratio_in_bounds(self.min_collateral_ratio as int)
        &&& liquidation_threshold_in_bounds(self.liquidation_threshold as int)
        &&& close_factor_in_bounds(self.close_factor as int)
        &&& liquidation_incentive_in_bounds(self.liquidation_incentive as int)
    }

    /// The invariant of the store: every parameter within its range, and the
    /// minimum collateral ratio strictly above the liquidation threshold.
    pub open spec fn wf(self) -> bool {
        &&& self.in_bounds()
        &&& self.min_collateral_ratio > self.liquidation_threshold
    }

    /// This configuration with each requested parameter replaced.
    pub open spec fn with_requests(
        self,
        min_collateral_ratio: Option<i128>,
        liquidation_threshold: Option<i128>,
        close_factor: Option<i128>,
        liquidation_incentive: Option<i128>,
    ) -> RiskConfig {
        RiskConfig {
            min_collateral_ratio: requested_or(self.min_collateral_ratio, min_collateral_ratio),
            liquidation_threshold: requested_or(self.liquidation_threshold, liquidation_threshold),
            close_factor: requested_or(self.close_factor, close_factor),
            liquidation_incentive: requested_or(self.liquidation_incentive, liquidation_incentive),
        }
    }

    /// Every requested parameter stays within 10% of its current value.
    pub open spec fn requests_within_limit(
        self,
        min_collateral_ratio: Option<i128>,
        liquidation_threshold: Option<i128>,
        close_factor: Option<i128>,
        liquidation_incentive: Option<i128>,
    ) -> bool {
        &&& request_within_limit(self.min_collateral_ratio, min_collateral_ratio)
        &&& request_within_limit(self.liquidation_threshold, liquidation_threshold)
        &&& request_within_limit(self.close_factor, close_factor)
        &&& request_within_limit(self.liquidation_incentive, liquidation_incentive)
    }

    /// Every requested parameter lies within its absolute range.
    pub open spec fn requests_in_bounds(
        min_collateral_ratio: Option<i128>,
        liquidation_threshold: Option<i128>,
        close_factor: Option<i128>,
        liquidation_incentive: Option<i128>,
    ) -> bool {
        &&& min_collateral_ratio matches Some(v) ==> min_collateral_ratio_in_bounds(v as int)
        &&& liquidation_threshold matches Some(v) ==> liquidation_threshold_in_bounds(v as int)
        &&& close_factor matches Some(v) ==> close_factor_in_bounds(v as int)
        &&& liquidation_incentive matches Some(v) ==> liquidation_incentive_in_bounds(v as int)
    }

    /// The outcome of an update request, all or nothing.
    ///
    /// The change limit of every requested parameter is examined first, then
    /// the absolute ranges, then the ordering of ratio and threshold in the
    /// configuration that would result.
    pub open spec fn update_result(
        self,
        min_collateral_ratio: Option<i128>,
        liquidation_threshold: Option<i128>,
        close_factor: Option<i128>,
        liquidation_incentive: Option<i128>,
    ) -> Result<RiskConfig, RiskManagementError> {
        let next = self.with_requests(
            min_collateral_ratio,
            liquidation_threshold,
            close_factor,
            liquidation_incentive,
        );
        if !self.requests_within_limit(
            min_collateral_ratio,
            liquidation_threshold,
            close_factor,
            liquidation_incentive,
        ) {
            Err(RiskManagementError::ParameterChangeTooLarge)
        } else if !Self::requests_in_bounds(
            min_collateral_ratio,
            liquidation_threshold,
            close_factor,
            liquidation_incentive,
        ) {
            Err(RiskManagementError::ParameterOutOfBounds)
        } else if next.min_collateral_ratio <= next.liquidation_threshold {
            Err(RiskManagementError::InvalidCollateralRatio)
        } else {
            Ok(next)
        }
    }

    /// Whether a position is open to liquidation: it has debt and its
    /// collateral ratio is strictly below the liquidation threshold.
    pub open spec fn liquidatable(self, collateral_value: int, debt_value: int) -> bool {
        debt_value > 0 && ratio_bps(collateral_value, debt_value) < self.liquidation_threshold
    }

    /// Whether a position meets the minimum collateral ratio: it has no debt,
    /// or its ratio is at least the minimum.
    pub open spec fn meets_min_ratio(self, collateral_value: int, debt_value: int) -> bool {
        meets_ratio(self.min_collateral_ratio as int, collateral_value, debt_value)
    }

    /// The parameters that initialization sets.
    pub fn default_config() -> (config: RiskConfig)
        ensures
            config == RiskConfig::initial(),
            config.wf(),
    {
        RiskConfig {
            min_collateral_ratio: DEFAULT_MIN_COLLATERAL_RATIO,
            liquidation_threshold: DEFAULT_LIQUIDATION_THRESHOLD,
            close_factor: DEFAULT_CLOSE_FACTOR,
            liquidation_incentive: DEFAULT_LIQUIDATION_INCENTIVE,
        }
    }

    /// Validates an update request against this configuration and returns
    /// the configuration that results, or the first violation.
    pub fn validate_update(
        &self,
        min_collateral_ratio: Option<i128>,
        liquidation_threshold: Option<i128>,
        close_factor: Option<i128>,
        liquidation_incentive: Option<i128>,
    ) -> (r: Result<RiskConfig, RiskManagementError>)
        ensures
            r == self.update_result(
                min_collateral_ratio,
                liquidation_threshold,
                close_factor,
                liquidation_incentive,
            ),
            self.wf() && r.is_ok() ==> r.unwrap().wf(),
    {
        if !(request_is_within_limit(self.min_collateral_ratio, min_collateral_ratio)
            && request_is_within_limit(self.liquidation_threshold, liquidation_threshold)
            && request_is_within_limit(self.close_factor, close_factor)
            && request_is_within_limit(self.liquidation_incentive, liquidation_incentive)) {
            return Err(RiskManagementError::ParameterChangeTooLarge);
        }
        if !(request_is_in_range(
            min_collateral_ratio,
            MIN_COLLATERAL_RATIO_FLOOR,
            MIN_COLLATERAL_RATIO_CEILING,
        ) && request_is_in_range(
            liquidation_threshold,
            LIQUIDATION_THRESHOLD_FLOOR,
            LIQUIDATION_THRESHOLD_CEILING,
        ) && request_is_in_range(close_factor, 0, CLOSE_FACTOR_CEILING) && request_is_in_range(
            liquidation_incentive,
            0,
            LIQUIDATION_INCENTIVE_CEILING,
        )) {
            return Err(RiskManagementError::ParameterOutOfBounds);
        }
        let next = RiskConfig {
            min_collateral_ratio: value_or(self.min_collateral_ratio, min_collateral_ratio),
            liquidation_threshold: value_or(self.liquidation_threshold, liquidation_threshold),
            close_factor: value_or(self.close_factor, close_factor),
            liquidation_incentive: value_or(self.liquidation_incentive, liquidation_incentive),
        };
        if next.min_collateral_ratio <= next.liquidation_threshold {
            return Err(RiskManagementError::InvalidCollateralRatio);
        }
        Ok(next)
    }

    /// Fails with `InsufficientCollateralRatio` unless the position has no
    /// debt or its collateral ratio is at least the minimum; with `Overflow`
    /// when the ratio cannot be computed.
    pub fn require_min_collateral_ratio(&self, collateral_value: i128, debt_value: i128) -> (r:
        Result<(), RiskManagementError>)
        ensures
            r == min_ratio_result(*self, collateral_value, debt_value),
    {
        check_min_ratio(self.min_collateral_ratio, collateral_value, debt_value)
    }

    /// Whether the position can be liquidated; `Overflow` when the ratio
    /// cannot be computed.
    pub fn can_be_liquidated(&self, collateral_value: i128, debt_value: i128) -> (r: Result<
        bool,
        RiskManagementError,
    >)
        ensures
            r == liquidatable_result(*self, collateral_value, debt_value),
    {
        if debt_value <= 0 {
            return Ok(false);
        }
        match checked_ratio_bps(collateral_value, debt_value) {
            None => Err(RiskManagementError::Overflow),
            Some(ratio) => Ok(ratio < self.liquidation_threshold),
        }
    }

    /// The most that one liquidation may repay of `debt_value`:
    /// `debt_value * close_factor / 10_000`.
    pub fn max_liquidatable_amount(&self, debt_value: i128) -> (r: Result<
        i128,
        RiskManagementError,
    >)
        ensures
            r == share_result(debt_value, self.close_factor),
    {
        match checked_bps_of(debt_value, self.close_factor) {
            None => Err(RiskManagementError::Overflow),
            Some(amount) => Ok(amount),
        }
    }

    /// The bonus on `liquidated_amount`:
    /// `liquidated_amount * liquidation_incentive / 10_000`.
    pub fn liquidation_incentive_amount(&self, liquidated_amount: i128) -> (r: Result<
        i128,
        RiskManagementError,
    >)
        ensures
            r == share_result(liquidated_amount, self.liquidation_incentive),
    {
        match checked_bps_of(liquidated_amount, self.liquidation_incentive) {
            None => Err(RiskManagementError::Overflow),
            Some(amount) => Ok(amount),
        }
    }
}

/// The answer to a minimum-ratio check under `config`.
pub open spec fn min_ratio_result(config: RiskConfig, collateral_value: i128, debt_value: i128)
    -> Result<(), RiskManagementError> {
    ratio_check_result(config.min_collateral_ratio, collateral_value, debt_value)
}

/// Whether a position meets `min_ratio`: it has no debt, or its collateral
/// ratio is at least `min_ratio`.
pub open spec fn meets_ratio(min_ratio: int, collateral_value: int, debt_value: int) -> bool {
    debt_value <= 0 || ratio_bps(collateral_value, debt_value) >= min_ratio
}

/// The answer to a check of a position against `min_ratio`.
pub open spec fn ratio_check_result(min_ratio: i128, collateral_value: i128, debt_value: i128)
    -> Result<(), RiskManagementError> {
    if debt_value <= 0 {
        Ok(())
    } else if !fits_i128(collateral_value * 10_000) {
        Err(RiskManagementError::Overflow)
    } else if meets_ratio(min_ratio as int, collateral_value as int, debt_value as int) {
        Ok(())
    } else {
        Err(RiskManagementError::InsufficientCollateralRatio)
    }
}

/// Fails with `InsufficientCollateralRatio` unless the position has no debt
/// or its collateral ratio is at least `min_ratio`; with `Overflow` when the
/// ratio cannot be computed.
pub fn check_min_ratio(min_ratio: i128, collateral_value: i128, debt_value: i128) -> (r: Result<
    (),
    RiskManagementError,
>)
    ensures
        r == ratio_check_result(min_ratio, collateral_value, debt_value),
{
    if debt_value <= 0 {
        return Ok(());
    }
    match checked_ratio_bps(collateral_value, debt_value) {
        None => Err(RiskManagementError::Overflow),
        Some(ratio) => {
            if ratio >= min_ratio {
                Ok(())
            } else {
                Err(RiskManagementError::InsufficientCollateralRatio)
            }
        },
    }
}

/// The answer to a liquidation check under `config`.
pub open spec fn liquidatable_result(config: RiskConfig, collateral_value: i128, debt_value: i128)
    -> Result<bool, RiskManagementError> {
    if debt_value > 0 && !fits_i128(collateral_value * 10_000) {
        Err(RiskManagementError::Overflow)
    } else {
        Ok(config.liquidatable(collateral_value as int, debt_value as int))
    }
}

/// The share `bps` of `value`, or `Overflow` when the product leaves the
/// representable range.
pub open spec fn share_result(value: i128, bps: i128) -> Result<i128, RiskManagementError> {
    if fits_i128(value * bps) {
        Ok(bps_of(value as int, bps as int) as i128)
    } else {
        Err(RiskManagementError::Overflow)
    }
}

fn value_or(current: i128, request: Option<i128>) -> (v: i128)
    ensures
        v == requested_or(current, request),
{
    match request {
        Some(value) => value,
        None => current,
    }
}

fn request_is_in_range(request: Option<i128>, floor: i128, ceiling: i128) -> (ok: bool)
    ensures
        ok == (request matches Some(v) ==> floor <= v <= ceiling),
{
    match request {
        Some(value) => floor <= value && value <= ceiling,
        None => true,
    }
}

fn request_is_within_limit(current: i128, request: Option<i128>) -> (ok: bool)
    ensures
        ok == request_within_limit(current, request),
{
    match request {
        None => true,
        Some(value) => {
            if current < 0 {
                return false;
            }
            let change = if value >= current {
                value.checked_sub(current)
            } else {
                current.checked_sub(value)
            };
            let limit = current / (BASIS_POINTS_SCALE / MAX_PARAMETER_CHANGE_BPS);
            assert(limit == current / 10);
            match change {
                None => false,
                Some(change) => change <= limit,
            }
        },
    }
}

/// The parameter store once initialized.
#[derive(Clone, Copy, Debug, PartialEq, Eq, Structural)]
pub struct RiskState {
    /// The only caller who may change parameters and switches.
    pub admin: Address,
    /// The risk parameters in force.
    pub config: RiskConfig,
    /// The per-operation pause switches.
    pub pause: PauseSwitches,
    /// Blocks every parameter change and every lending operation.
    pub emergency_paused: bool,
}

impl RiskState {
    /// The store right after initialization by `admin`.
    pub open spec fn initial(admin: Address) -> RiskState {
        RiskState {
            admin,
            config: RiskConfig::initial(),
            pause: PauseSwitches::none_paused(),
            emergency_paused: false,
        }
    }
}

/// Whether the store, if present, holds a valid configuration.
pub open spec fn store_wf(store: Option<RiskState>) -> bool {
    store matches Some(state) ==> state.config.wf()
}

/// Whether `caller` is the admin of an initialized store.
pub open spec fn is_admin(store: Option<RiskState>, caller: Address) -> bool {
    store matches Some(state) && state.admin == caller
}

/// The outcome of an admin's update request on the store.
pub open spec fn set_risk_params_result(
    store: Option<RiskState>,
    caller: Address,
    min_collateral_ratio: Option<i128>,
    liquidation_threshold: Option<i128>,
    close_factor: Option<i128>,
    liquidation_incentive: Option<i128>,
) -> Result<RiskState, RiskManagementError> {
    if !is_admin(store, caller) {
        Err(RiskManagementError::Unauthorized)
    } else {
        apply_risk_params_result(
            store.unwrap(),
            min_collateral_ratio,
            liquidation_threshold,
            close_factor,
            liquidation_incentive,
        )
    }
}

/// The outcome of an already authorized update request: refused under
/// emergency pause, otherwise validated as a whole.
pub open spec fn apply_risk_params_result(
    state: RiskState,
    min_collateral_ratio: Option<i128>,
    liquidation_threshold: Option<i128>,
    close_factor: Option<i128>,
    liquidation_incentive: Option<i128>,
) -> Result<RiskState, RiskManagementError> {
    if state.emergency_paused {
        Err(RiskManagementError::EmergencyPaused)
    } else {
        match state.config.update_result(
            min_collateral_ratio,
            liquidation_threshold,
            close_factor,
            liquidation_incentive,
        ) {
            Ok(config) => Ok(RiskState { config, ..state }),
            Err(e) => Err(e),
        }
    }
}

/// Creates the store with the default parameters and `admin` as its admin.
///
/// Fails with `AlreadyInitialized`, changing nothing, when the store exists.
pub fn initialize_risk_management(store: &mut Option<RiskState>, admin: Address) -> (r: Result<
    (),
    RiskManagementError,
>)
    ensures
        old(store).is_none() ==> r.is_ok() && *final(store) == Some(RiskState::initial(admin)),
        old(store).is_some() ==> r == Err::<(), _>(RiskManagementError::AlreadyInitialized)
            && *final(store) == *old(store),
        store_wf(*old(store)) ==> store_wf(*final(store)),
{
    if store.is_some() {
        return Err(RiskManagementError::AlreadyInitialized);
    }
    *store = Some(
        RiskState {
            admin,
            config: RiskConfig::default_config(),
            pause: PauseSwitches::all_clear(),
            emergency_paused: false,
        },
    );
    Ok(())
}

/// Applies an update that has already been authorized, as governance does
/// when it executes a proposal. All or nothing.
pub fn apply_risk_params(
    state: &mut RiskState,
    min_collateral_ratio: Option<i128>,
    liquidation_threshold: Option<i128>,
    close_factor: Option<i128>,
    liquidation_incentive: Option<i128>,
) -> (r: Result<(), RiskManagementError>)
    ensures
        match apply_risk_params_result(
            *old(state),
            min_collateral_ratio,
            liquidation_threshold,
            close_factor,
            liquidation_incentive,
        ) {
            Ok(next) => r.is_ok() && *final(state) == next,
            Err(e) => r == Err::<(), _>(e) && *final(state) == *old(state),
        },
        old(state).config.wf() ==> final(state).config.wf(),
{
    if state.emergency_paused {
        return Err(RiskManagementError::EmergencyPaused);
    }
    match state.config.validate_update(
        min_collateral_ratio,
        liquidation_threshold,
        close_factor,
        liquidation_incentive,
    ) {
        Err(e) => Err(e),
        Ok(config) => {
            state.config = config;
            Ok(())
        },
    }
}

/// Updates the risk parameters on behalf of the admin.
///
/// Fails with `Unauthorized` unless `caller` is the admin, with
/// `EmergencyPaused` under emergency pause, and otherwise as
/// [`RiskConfig::update_result`] says. A refused request changes nothing.
pub fn set_risk_params(
    store: &mut Option<RiskState>,
    caller: Address,
    min_collateral_ratio: Option<i128>,
    liquidation_threshold: Option<i128>,
    close_factor: Option<i128>,
    liquidation_incentive: Option<i128>,
) -> (r: Result<(), RiskManagementError>)
    ensures
        match set_risk_params_result(
            *old(store),
            caller,
            min_collateral_ratio,
            liquidation_threshold,
            close_factor,
            liquidation_incentive,
        ) {
            Ok(next) => r.is_ok() && *final(store) == Some(next),
            Err(e) => r == Err::<(), _>(e) && *final(store) == *old(store),
        },
        store_wf(*old(store)) ==> store_wf(*final(store)),
{
    match store {
        None => Err(RiskManagementError::Unauthorized),
        Some(state) => {
            if state.admin != caller {
                return Err(RiskManagementError::Unauthorized);
            }
            apply_risk_params(
                state,
                min_collateral_ratio,
                liquidation_threshold,
                close_factor,
                liquidation_incentive,
            )
        },
    }
}

/// Sets one pause switch on behalf of the admin. Unconditional once
/// authorized; `Unauthorized`, changing nothing, for any other caller.
pub fn set_pause_switch(
    store: &mut Option<RiskState>,
    caller: Address,
    operation: Operation,
    paused: bool,
) -> (r: Result<(), RiskManagementError>)
    ensures
        is_admin(*old(store), caller) ==> r.is_ok() && *final(store) == Some(
            RiskState {
                pause: old(store).unwrap().pause.with(operation, paused),
                ..old(store).unwrap()
            },
        ),
        !is_admin(*old(store), caller) ==> r == Err::<(), _>(RiskManagementError::Unauthorized)
            && *final(store) == *old(store),
{
    match store {
        None => Err(RiskManagementError::Unauthorized),
        Some(state) => {
            if state.admin != caller {
                return Err(RiskManagementError::Unauthorized);
            }
            state.pause.set(operation, paused);
            Ok(())
        },
    }
}

/// Sets several pause switches at once on behalf of the admin, in the order
/// given. `Unauthorized`, changing nothing, for any other caller.
pub fn set_pause_switches(
    store: &mut Option<RiskState>,
    caller: Address,
    switches: &Vec<(Operation, bool)>,
) -> (r: Result<(), RiskManagementError>)
    ensures
        is_admin(*old(store), caller) ==> r.is_ok() && *final(store) == Some(
            RiskState {
                pause: old(store).unwrap().pause.with_all(switches@),
                ..old(store).unwrap()
            },
        ),
        !is_admin(*old(store), caller) ==> r == Err::<(), _>(RiskManagementError::Unauthorized)
            && *final(store) == *old(store),
{
    match store {
        None => Err(RiskManagementError::Unauthorized),
        Some(state) => {
            if state.admin != caller {
                return Err(RiskManagementError::Unauthorized);
            }
            let ghost before = *state;
            let mut pause = state.pause;
            let mut i: usize = 0;
            while i < switches.len()
                invariant
                    i <= switches.len(),
                    pause == before.pause.with_first(switches@, i as nat),
                decreases switches.len() - i,
            {
                let entry = switches[i];
                pause.set(entry.0, entry.1);
                i = i + 1;
            }
            state.pause = pause;
            Ok(())
        },
    }
}

/// Turns the emergency pause on or off on behalf of the admin.
/// `Unauthorized`, changing nothing, for any other caller.
pub fn set_emergency_pause(store: &mut Option<RiskState>, caller: Address, paused: bool) -> (r:
    Result<(), RiskManagementError>)
    ensures
        is_admin(*old(store), caller) ==> r.is_ok() && *final(store) == Some(
            RiskState { emergency_paused: paused, ..old(store).unwrap() },
        ),
        !is_admin(*old(store), caller) ==> r == Err::<(), _>(RiskManagementError::Unauthorized)
            && *final(store) == *old(store),
{
    match store {
        None => Err(RiskManagementError::Unauthorized),
        Some(state) => {
            if state.admin != caller {
                return Err(RiskManagementError::Unauthorized);
            }
            state.emergency_paused = paused;
            Ok(())
        },
    }
}

/// The configuration in force, if the store is initialized.
pub fn get_risk_config(store: &Option<RiskState>) -> (config: Option<RiskConfig>)
    ensures
        config == match *store {
            Some(state) => Some(state.config),
            None => None,
        },
{
    match store {
        Some(state) => Some(state.config),
        None => None,
    }
}

/// The minimum collateral ratio in force.
pub fn get_min_collateral_ratio(store: &Option<RiskState>) -> (r: Result<i128, RiskManagementError>)
    ensures
        r == match *store {
            Some(state) => Ok(state.config.min_collateral_ratio),
            None => Err(RiskManagementError::NotInitialized),
        },
{
    match store {
        Some(state) => Ok(state.config.min_collateral_ratio),
        None => Err(RiskManagementError::NotInitialized),
    }
}

/// The liquidation threshold in force.
pub fn get_liquidation_threshold(store: &Option<RiskState>) -> (r: Result<
    i128,
    RiskManagementError,
>)
    ensures
        r == match *store {
            Some(state) => Ok(state.config.liquidation_threshold),
            None => Err(RiskManagementError::NotInitialized),
        },
{
    match store {
        Some(state) => Ok(state.config.liquidation_threshold),
        None => Err(RiskManagementError::NotInitialized),
    }
}

/// The close factor in force.
pub fn get_close_factor(store: &Option<RiskState>) -> (r: Result<i128, RiskManagementError>)
    ensures
        r == match *store {
            Some(state) => Ok(state.config.close_factor),
            None => Err(RiskManagementError::NotInitialized),
        },
{
    match store {
        Some(state) => Ok(state.config.close_factor),
        None => Err(RiskManagementError::NotInitialized),
    }
}

/// The liquidation incentive in force.
pub fn get_liquidation_incentive(store: &Option<RiskState>) -> (r: Result<
    i128,
    RiskManagementError,
>)
    ensures
        r == match *store {
            Some(state) => Ok(state.config.liquidation_incentive),
            None => Err(RiskManagementError::NotInitialized),
        },
{
    match store {
        Some(state) => Ok(state.config.liquidation_incentive),
        None => Err(RiskManagementError::NotInitialized),
    }
}

/// Whether the switch of `operation` is on. Nothing is paused before
/// initialization.
pub open spec fn operation_paused(store: Option<RiskState>, operation: Operation) -> bool {
    store matches Some(state) && state.pause.is_paused(operation)
}

/// Whether the emergency pause is on. It is off before initialization.
pub open spec fn emergency_paused(store: Option<RiskState>) -> bool {
    store matches Some(state) && state.emergency_paused
}

/// What stands in the way of `operation`: its own pause switch first, then
/// the emergency pause.
pub open spec fn pause_check(store: Option<RiskState>, operation: Operation) -> Result<
    (),
    RiskManagementError,
> {
    if operation_paused(store, operation) {
        Err(RiskManagementError::OperationPaused)
    } else if emergency_paused(store) {
        Err(RiskManagementError::EmergencyPaused)
    } else {
        Ok(())
    }
}

/// Fails with `OperationPaused` when the switch of `operation` is on, and
/// with `EmergencyPaused` when only the emergency pause is.
pub fn require_not_paused(store: &Option<RiskState>, operation: Operation) -> (r: Result<
    (),
    RiskManagementError,
>)
    ensures
        r == pause_check(*store, operation),
{
    if is_operation_paused(store, operation) {
        Err(RiskManagementError::OperationPaused)
    } else if is_emergency_paused(store) {
        Err(RiskManagementError::EmergencyPaused)
    } else {
        Ok(())
    }
}

/// Whether the switch of `operation` is on.
pub fn is_operation_paused(store: &Option<RiskState>, operation: Operation) -> (paused: bool)
    ensures
        paused == operation_paused(*store, operation),
{
    match store {
        Some(state) => state.pause.get(operation),
        None => false,
    }
}

/// Whether the emergency pause is on.
pub fn is_emergency_paused(store: &Option<RiskState>) -> (paused: bool)
    ensures
        paused == emergency_paused(*store),
{
    match store {
        Some(state) => state.emergency_paused,
        None => false,
    }
}

/// Checks a position against the minimum collateral ratio in force.
pub fn require_min_collateral_ratio(
    store: &Option<RiskState>,
    collateral_value: i128,
    debt_value: i128,
) -> (r: Result<(), RiskManagementError>)
    ensures
        r == match *store {
            Some(state) => min_ratio_result(state.config, collateral_value, debt_value),
            None => Err(RiskManagementError::NotInitialized),
        },
{
    match store {
        Some(state) => state.config.require_min_collateral_ratio(collateral_value, debt_value),
        None => Err(RiskManagementError::NotInitialized),
    }
}

/// Whether a position can be liquidated under the threshold in force.
pub fn can_be_liquidated(store: &Option<RiskState>, collateral_value: i128, debt_value: i128) -> (r:
    Result<bool, RiskManagementError>)
    ensures
        r == match *store {
            Some(state) => liquidatable_result(state.config, collateral_value, debt_value),
            None => Err(RiskManagementError::NotInitialized),
        },
{
    match store {
        Some(state) => state.config.can_be_liquidated(collateral_value, debt_value),
        None => Err(RiskManagementError::NotInitialized),
    }
}

/// The most that one liquidation may repay of `debt_value` under the close
/// factor in force.
pub fn get_max_liquidatable_amount(store: &Option<RiskState>, debt_value: i128) -> (r: Result<
    i128,
    RiskManagementError,
>)
    ensures
        r == match *store {
            Some(state) => share_result(debt_value, state.config.close_factor),
            None => Err(RiskManagementError::NotInitialized),
        },
{
    match store {
        Some(state) => state.config.max_liquidatable_amount(debt_value),
        None => Err(RiskManagementError::NotInitialized),
    }
}

/// The liquidator's bonus on `liquidated_amount` under the incentive in
/// force.
pub fn get_liquidation_incentive_amount(store: &Option<RiskState>, liquidated_amount: i128) -> (r:
    Result<i128, RiskManagementError>)
    ensures
        r == match *store {
            Some(state) => share_result(liquidated_amount, state.config.liquidation_incentive),
            None => Err(RiskManagementError::NotInitialized),
        },
{
    match store {
        Some(state) => state.config.liquidation_incentive_amount(liquidated_amount),
        None => Err(RiskManagementError::NotInitialized),
    }
}

/// For a fixed positive debt, a position that can be liquidated can still be
/// liquidated with less collateral; equivalently, adding collateral never
/// makes a position liquidatable. The same holds of the answers that
/// [`RiskConfig::can_be_liquidated`] gives where it can compute them.
pub proof fn law_liquidation_monotone_in_collateral(
    config: RiskConfig,
    lower: i128,
    higher: i128,
    debt_value: i128,
)
    requires
        debt_value > 0,
        lower <= higher,
    ensures
        config.liquidatable(higher as int, debt_value as int) ==> config.liquidatable(
            lower as int,
            debt_value as int,
        ),
        liquidatable_result(config, higher, debt_value) == Ok::<bool, RiskManagementError>(true)
            && liquidatable_result(config, lower, debt_value) is Ok ==> liquidatable_result(
            config,
            lower,
            debt_value,
        ) == Ok::<bool, RiskManagementError>(true),
{
    crate::math::lemma_ratio_monotone(lower as int, higher as int, debt_value as int);
}

/// A position whose collateral ratio equals the liquidation threshold
/// cannot be liquidated; one basis point below the threshold it can.
pub proof fn law_liquidation_threshold_boundary(
    config: RiskConfig,
    collateral_value: int,
    debt_value: int,
)
    requires
        debt_value > 0,
    ensures
        ratio_bps(collateral_value, debt_value) == config.liquidation_threshold
            ==> !config.liquidatable(collateral_value, debt_value),
        ratio_bps(collateral_value, debt_value) == config.liquidation_threshold - 1
            ==> config.liquidatable(collateral_value, debt_value),
{
}

/// An update by the admin, outside emergency pause, that asks of any
/// parameter a change of more than 10% of its current value is refused with
/// `ParameterChangeTooLarge`, whatever it asks of the other parameters. As
/// every refusal, it leaves all parameters as they were.
pub proof fn law_oversized_change_is_refused(
    store: Option<RiskState>,
    caller: Address,
    min_collateral_ratio: Option<i128>,
    liquidation_threshold: Option<i128>,
    close_factor: Option<i128>,
    liquidation_incentive: Option<i128>,
)
    requires
        is_admin(store, caller),
        !emergency_paused(store),
        !store.unwrap().config.requests_within_limit(
            min_collateral_ratio,
            liquidation_threshold,
            close_factor,
            liquidation_incentive,
        ),
    ensures
        set_risk_params_result(
            store,
            caller,
            min_collateral_ratio,
            liquidation_threshold,
            close_factor,
            liquidation_incentive,
        ) == Err::<RiskState, _>(RiskManagementError::ParameterChangeTooLarge),
{
}

/// An accepted update leaves a valid configuration valid, and moved every
/// requested parameter by at most 10% of its former value.
pub proof fn law_accepted_update_is_bounded(
    config: RiskConfig,
    min_collateral_ratio: Option<i128>,
    liquidation_threshold: Option<i128>,
    close_factor: Option<i128>,
    liquidation_incentive: Option<i128>,
)
    requires
        config.wf(),
        config.update_result(
            min_collateral_ratio,
            liquidation_threshold,
            close_factor,
            liquidation_incentive,
        ) is Ok,
    ensures
        ({
            let next = config.update_result(
                min_collateral_ratio,
                liquidation_threshold,
                close_factor,
                liquidation_incentive,
            ).unwrap();
            &&& next.wf()
            &&& change_within_limit(
                config.min_collateral_ratio as int,
                next.min_collateral_ratio as int,
            )
            &&& change_within_limit(
                config.liquidation_threshold as int,
                next.liquidation_threshold as int,
            )
            &&& change_within_limit(config.close_factor as int, next.close_factor as int)
            &&& change_within_limit(
                config.liquidation_incentive as int,
                next.liquidation_incentive as int,
            )
        }),
{
}

/// Under emergency pause no risk parameter changes, whoever asks: the
/// admin's update and an update on behalf of governance are both refused.
pub proof fn law_emergency_pause_blocks_parameter_changes(
    store: Option<RiskState>,
    caller: Address,
    min_collateral_ratio: Option<i128>,
    liquidation_threshold: Option<i128>,
    close_factor: Option<i128>,
    liquidation_incentive: Option<i128>,
)
    requires
        emergency_paused(store),
    ensures
        set_risk_params_result(
            store,
            caller,
            min_collateral_ratio,
            liquidation_threshold,
            close_factor,
            liquidation_incentive,
        ) is Err,
        apply_risk_params_result(
            store.unwrap(),
            min_collateral_ratio,
            liquidation_threshold,
            close_factor,
            liquidation_incentive,
        ) == Err::<RiskState, _>(RiskManagementError::EmergencyPaused),
{
}

} // verus!
