//! Accounting and governance core of a collateralized lending protocol.
//!
//! The crate keeps per-user collateral and debt positions, enforces the
//! solvency rules around them, and gates every change behind risk
//! parameters, pause switches and a two-tier governance process.
//!
//! [`HelloContract`] holds the whole state and offers one method per
//! operation. The caller's identity is taken as authenticated, the current
//! time and the caller's asset balance are passed in, and moving assets is
//! left to the caller: every method only decides and keeps the books.

use vstd::prelude::*;

pub mod address;
pub mod analytics;
pub mod borrow;
pub mod deposit;
pub mod governance;
pub mod ledger;
pub mod math;
pub mod position;
pub mod repay;
pub mod risk_management;
pub mod withdraw;

use crate::address::Address;
use crate::borrow::borrow_result;
use crate::deposit::deposit_result;
use crate::governance::{
    approvers_of,
    vote_of,
    Governance,
    GovernanceError,
    GovernanceView,
    Proposal,
    ProposalType,
    Vote,
    DEFAULT_MULTISIG_THRESHOLD,
    DEFAULT_VOTING_PERIOD,
};
use crate::ledger::{Ledger, LedgerView, LendingError};
use crate::position::DEFAULT_INTEREST_RATE_BPS;
use crate::repay::repay_result;
use crate::risk_management::{
    emergency_paused,
    is_admin,
    liquidatable_result,
    min_ratio_result,
    operation_paused,
    set_risk_params_result,
    share_result,
    store_wf,
    Operation,
    RiskConfig,
    RiskManagementError,
    RiskState,
};
use crate::withdraw::withdraw_result;

verus! {

/// The protocol: parameter store, position ledger and governance.
pub struct HelloContract {
    /// The parameter store; absent until [`HelloContract::initialize`].
    pub risk: Option<RiskState>,
    /// Positions, asset parameters and counters.
    pub ledger: Ledger,
    /// Proposals, votes and the multisig.
    pub governance: Governance,
}

/// The protocol's state as a mathematical value.
pub struct ContractView {
    pub risk: Option<RiskState>,
    pub ledger: LedgerView,
    pub governance: GovernanceView,
}

impl ContractView {
    /// The protocol before initialization, charging `interest_rate_bps` per
    /// year on debt.
    pub open spec fn uninitialized(interest_rate_bps: i128) -> ContractView {
        ContractView {
            risk: None,
            ledger: LedgerView::empty(interest_rate_bps),
            governance: GovernanceView::empty(),
        }
    }

    /// The risk parameters are valid and every position and proposal on
    /// record is well formed.
    pub open spec fn wf(self) -> bool {
        &&& store_wf(self.risk)
        &&& self.ledger.wf()
        &&& self.governance.wf()
    }
}

impl View for HelloContract {
    type V = ContractView;

    open spec fn view(&self) -> ContractView {
        ContractView { risk: self.risk, ledger: self.ledger@, governance: self.governance@ }
    }
}

impl HelloContract {
    /// A protocol that has not been initialized and charges the default
    /// annual rate of 5% on debt.
    pub fn new() -> (contract: HelloContract)
        ensures
            contract@ == ContractView::uninitialized(DEFAULT_INTEREST_RATE_BPS),
            contract@.wf(),
    {
        HelloContract {
            risk: None,
            ledger: Ledger::new(DEFAULT_INTEREST_RATE_BPS),
            governance: Governance::new(),
        }
    }

    /// A protocol that has not been initialized and charges
    /// `interest_rate_bps` per year on debt.
    pub fn with_interest_rate(interest_rate_bps: i128) -> (contract: HelloContract)
        ensures
            contract@ == ContractView::uninitialized(interest_rate_bps),
            contract@.wf(),
    {
        HelloContract {
            risk: None,
            ledger: Ledger::new(interest_rate_bps),
            governance: Governance::new(),
        }
    }

    /// The greeting `"Hello"`.
    pub fn hello(&self) -> (greeting: String)
        ensures
            greeting@ == "Hello"@,
    {
        "Hello".to_owned()
    }

    /// Initializes the parameter store with its defaults and `admin`, and
    /// makes `admin` the only multisig admin with one approval required.
    ///
    /// Fails with `AlreadyInitialized` when the parameter store exists, and
    /// with `Unauthorized` when only governance has admins already. A failed
    /// initialization changes nothing.
    pub fn initialize(&mut self, admin: Address) -> (r: Result<(), RiskManagementError>)
        ensures
            old(self)@.risk.is_some() ==> r == Err::<(), _>(RiskManagementError::AlreadyInitialized)
                && final(self)@ == old(self)@,
            old(self)@.risk.is_none() && old(self)@.governance.multisig_admins.is_some() ==> r
                == Err::<(), _>(RiskManagementError::Unauthorized) && final(self)@ == old(self)@,
            old(self)@.risk.is_none() && old(self)@.governance.multisig_admins.is_none()
                ==> r.is_ok() && final(self)@ == (ContractView {
                risk: Some(RiskState::initial(admin)),
                governance: GovernanceView {
                    multisig_admins: Some(seq![admin]),
                    multisig_threshold: DEFAULT_MULTISIG_THRESHOLD,
                    ..old(self)@.governance
                },
                ..old(self)@
            }),
            old(self)@.wf() ==> final(self)@.wf(),
    {
        if self.risk.is_some() {
            return Err(RiskManagementError::AlreadyInitialized);
        }
        if self.governance.multisig_admins.is_some() {
            return Err(RiskManagementError::Unauthorized);
        }
        let _ = crate::governance::initialize_governance(&mut self.governance, admin);
        crate::risk_management::initialize_risk_management(&mut self.risk, admin)
    }

    /// Deposits `amount` of `asset` as collateral of `user` and returns the
    /// user's new collateral, as [`deposit_result`] says.
    pub fn deposit_collateral(
        &mut self,
        user: Address,
        asset: Option<Address>,
        amount: i128,
        balance: i128,
        now: u64,
    ) -> (r: Result<i128, LendingError>)
        ensures
            match deposit_result(
                old(self)@.ledger,
                old(self)@.risk,
                user,
                asset,
                amount,
                balance,
                now,
            ) {
                Ok((ledger, collateral)) => r == Ok::<i128, LendingError>(collateral)
                    && final(self)@ == (ContractView { ledger, ..old(self)@ }),
                Err(e) => r == Err::<i128, LendingError>(e) && final(self)@ == old(self)@,
            },
            old(self)@.wf() ==> final(self)@.wf(),
    {
        crate::deposit::deposit_collateral(
            &mut self.ledger,
            &self.risk,
            user,
            asset,
            amount,
            balance,
            now,
        )
    }

    /// Updates the risk parameters on behalf of the admin, as
    /// [`set_risk_params_result`] says. All or nothing.
    pub fn set_risk_params(
        &mut self,
        caller: Address,
        min_collateral_ratio: Option<i128>,
        liquidation_threshold: Option<i128>,
        close_factor: Option<i128>,
        liquidation_incentive: Option<i128>,
    ) -> (r: Result<(), RiskManagementError>)
        ensures
            match set_risk_params_result(
                old(self)@.risk,
                caller,
                min_collateral_ratio,
                liquidation_threshold,
                close_factor,
                liquidation_incentive,
            ) {
                Ok(next) => r.is_ok() && final(self)@ == (ContractView {
                    risk: Some(next),
                    ..old(self)@
                }),
                Err(e) => r == Err::<(), _>(e) && final(self)@ == old(self)@,
            },
            old(self)@.wf() ==> final(self)@.wf(),
    {
        crate::risk_management::set_risk_params(
            &mut self.risk,
            caller,
            min_collateral_ratio,
            liquidation_threshold,
            close_factor,
            liquidation_incentive,
        )
    }

    /// Sets the pause switch of `operation` on behalf of the admin.
    /// `Unauthorized`, changing nothing, for any other caller.
    pub fn set_pause_switch(&mut self, caller: Address, operation: Operation, paused: bool) -> (r:
        Result<(), RiskManagementError>)
        ensures
            is_admin(old(self)@.risk, caller) ==> r.is_ok() && final(self)@ == (ContractView {
                risk: Some(
                    RiskState {
                        pause: old(self)@.risk.unwrap().pause.with(operation, paused),
                        ..old(self)@.risk.unwrap()
                    },
                ),
                ..old(self)@
            }),
            !is_admin(old(self)@.risk, caller) ==> r == Err::<(), _>(
                RiskManagementError::Unauthorized,
            ) && final(self)@ == old(self)@,
            old(self)@.wf() ==> final(self)@.wf(),
    {
        crate::risk_management::set_pause_switch(&mut self.risk, caller, operation, paused)
    }

    /// Sets several pause switches on behalf of the admin, in the order
    /// given. `Unauthorized`, changing nothing, for any other caller.
    pub fn set_pause_switches(&mut self, caller: Address, switches: &Vec<(Operation, bool)>) -> (r:
        Result<(), RiskManagementError>)
        ensures
            is_admin(old(self)@.risk, caller) ==> r.is_ok() && final(self)@ == (ContractView {
                risk: Some(
                    RiskState {
                        pause: old(self)@.risk.unwrap().pause.with_all(switches@),
                        ..old(self)@.risk.unwrap()
                    },
                ),
                ..old(self)@
            }),
            !is_admin(old(self)@.risk, caller) ==> r == Err::<(), _>(
                RiskManagementError::Unauthorized,
            ) && final(self)@ == old(self)@,
            old(self)@.wf() ==> final(self)@.wf(),
    {
        crate::risk_management::set_pause_switches(&mut self.risk, caller, switches)
    }

    /// Turns the emergency pause on or off on behalf of the admin.
    /// `Unauthorized`, changing nothing, for any other caller.
    pub fn set_emergency_pause(&mut self, caller: Address, paused: bool) -> (r: Result<
        (),
        RiskManagementError,
    >)
        ensures
            is_admin(old(self)@.risk, caller) ==> r.is_ok() && final(self)@ == (ContractView {
                risk: Some(RiskState { emergency_paused: paused, ..old(self)@.risk.unwrap() }),
                ..old(self)@
            }),
            !is_admin(old(self)@.risk, caller) ==> r == Err::<(), _>(
                RiskManagementError::Unauthorized,
            ) && final(self)@ == old(self)@,
            old(self)@.wf() ==> final(self)@.wf(),
    {
        crate::risk_management::set_emergency_pause(&mut self.risk, caller, paused)
    }

    /// The risk parameters in force, or `None` before initialization.
    pub fn get_risk_config(&self) -> (config: Option<RiskConfig>)
        ensures
            config == match self@.risk {
                Some(state) => Some(state.config),
                None => None,
            },
    {
        crate::risk_management::get_risk_config(&self.risk)
    }

    /// The minimum collateral ratio in force.
    pub fn get_min_collateral_ratio(&self) -> (r: Result<i128, RiskManagementError>)
        ensures
            r == match self@.risk {
                Some(state) => Ok(state.config.min_collateral_ratio),
                None => Err(RiskManagementError::NotInitialized),
            },
    {
        crate::risk_management::get_min_collateral_ratio(&self.risk)
    }

    /// The liquidation threshold in force.
    pub fn get_liquidation_threshold(&self) -> (r: Result<i128, RiskManagementError>)
        ensures
            r == match self@.risk {
                Some(state) => Ok(state.config.liquidation_threshold),
                None => Err(RiskManagementError::NotInitialized),
            },
    {
        crate::risk_management::get_liquidation_threshold(&self.risk)
    }

    /// The close factor in force.
    pub fn get_close_factor(&self) -> (r: Result<i128, RiskManagementError>)
        ensures
            r == match self@.risk {
                Some(state) => Ok(state.config.close_factor),
                None => Err(RiskManagementError::NotInitialized),
            },
    {
        crate::risk_management::get_close_factor(&self.risk)
    }

    /// The liquidation incentive in force.
    pub fn get_liquidation_incentive(&self) -> (r: Result<i128, RiskManagementError>)
        ensures
            r == match self@.risk {
                Some(state) => Ok(state.config.liquidation_incentive),
                None => Err(RiskManagementError::NotInitialized),
            },
    {
        crate::risk_management::get_liquidation_incentive(&self.risk)
    }

    /// Whether the pause switch of `operation` is on.
    pub fn is_operation_paused(&self, operation: Operation) -> (paused: bool)
        ensures
            paused == operation_paused(self@.risk, operation),
    {
        crate::risk_management::is_operation_paused(&self.risk, operation)
    }

    /// Whether the emergency pause is on.
    pub fn is_emergency_paused(&self) -> (paused: bool)
        ensures
            paused == emergency_paused(self@.risk),
    {
        crate::risk_management::is_emergency_paused(&self.risk)
    }

    /// Checks a position against the minimum collateral ratio in force.
    pub fn require_min_collateral_ratio(&self, collateral_value: i128, debt_value: i128) -> (r:
        Result<(), RiskManagementError>)
        ensures
            r == match self@.risk {
                Some(state) => min_ratio_result(state.config, collateral_value, debt_value),
                None => Err(RiskManagementError::NotInitialized),
            },
    {
        crate::risk_management::require_min_collateral_ratio(
            &self.risk,
            collateral_value,
            debt_value,
        )
    }

    /// Whether a position can be liquidated under the threshold in force.
    pub fn can_be_liquidated(&self, collateral_value: i128, debt_value: i128) -> (r: Result<
        bool,
        RiskManagementError,
    >)
        ensures
            r == match self@.risk {
                Some(state) => liquidatable_result(state.config, collateral_value, debt_value),
                None => Err(RiskManagementError::NotInitialized),
            },
    {
        crate::risk_management::can_be_liquidated(&self.risk, collateral_value, debt_value)
    }

    /// The most that one liquidation may repay of `debt_value`.
    pub fn get_max_liquidatable_amount(&self, debt_value: i128) -> (r: Result<
        i128,
        RiskManagementError,
    >)
        ensures
            r == match self@.risk {
                Some(state) => share_result(debt_value, state.config.close_factor),
                None => Err(RiskManagementError::NotInitialized),
            },
    {
        crate::risk_management::get_max_liquidatable_amount(&self.risk, debt_value)
    }

    /// The liquidator's bonus on `liquidated_amount`.
    pub fn get_liquidation_incentive_amount(&self, liquidated_amount: i128) -> (r: Result<
        i128,
        RiskManagementError,
    >)
        ensures
            r == match self@.risk {
                Some(state) => share_result(liquidated_amount, state.config.liquidation_incentive),
                None => Err(RiskManagementError::NotInitialized),
            },
    {
        crate::risk_management::get_liquidation_incentive_amount(&self.risk, liquidated_amount)
    }

    /// Withdraws `amount` of `user`'s collateral and returns what remains,
    /// as [`withdraw_result`] says.
    pub fn withdraw_collateral(
        &mut self,
        user: Address,
        asset: Option<Address>,
        amount: i128,
        now: u64,
    ) -> (r: Result<i128, LendingError>)
        ensures
            match withdraw_result(old(self)@.ledger, old(self)@.risk, user, asset, amount, now) {
                Ok((ledger, collateral)) => r == Ok::<i128, LendingError>(collateral)
                    && final(self)@ == (ContractView { ledger, ..old(self)@ }),
                Err(e) => r == Err::<i128, LendingError>(e) && final(self)@ == old(self)@,
            },
            old(self)@.wf() ==> final(self)@.wf(),
    {
        crate::withdraw::withdraw_collateral(&mut self.ledger, &self.risk, user, asset, amount, now)
    }

    /// Repays up to `amount` of `user`'s debt, interest first, and returns
    /// `(remaining_debt, interest_paid, principal_paid)`, as
    /// [`repay_result`] says.
    pub fn repay_debt(
        &mut self,
        user: Address,
        asset: Option<Address>,
        amount: i128,
        now: u64,
    ) -> (r: Result<(i128, i128, i128), LendingError>)
        ensures
            match repay_result(old(self)@.ledger, old(self)@.risk, user, asset, amount, now) {
                Ok((ledger, outcome)) => r == Ok::<(i128, i128, i128), LendingError>(outcome)
                    && final(self)@ == (ContractView { ledger, ..old(self)@ }),
                Err(e) => r == Err::<(i128, i128, i128), LendingError>(e)
                    && final(self)@ == old(self)@,
            },
            old(self)@.wf() ==> final(self)@.wf(),
    {
        crate::repay::repay_debt(&mut self.ledger, &self.risk, user, asset, amount, now)
    }

    /// Borrows `amount` of `asset` against `user`'s collateral and returns
    /// the user's new total debt, as [`borrow_result`] says.
    pub fn borrow_asset(
        &mut self,
        user: Address,
        asset: Option<Address>,
        amount: i128,
        now: u64,
    ) -> (r: Result<i128, LendingError>)
        ensures
            match borrow_result(old(self)@.ledger, old(self)@.risk, user, asset, amount, now) {
                Ok((ledger, total)) => r == Ok::<i128, LendingError>(total) && final(self)@ == (
                ContractView { ledger, ..old(self)@ }),
                Err(e) => r == Err::<i128, LendingError>(e) && final(self)@ == old(self)@,
            },
            old(self)@.wf() ==> final(self)@.wf(),
    {
        crate::borrow::borrow_asset(&mut self.ledger, &self.risk, user, asset, amount, now)
    }

    /// Creates a proposal and returns its id, as
    /// [`GovernanceView::create_result`] says.
    pub fn gov_create_proposal(
        &mut self,
        proposer: Address,
        proposal_type: ProposalType,
        description: String,
        voting_period: Option<u64>,
        execution_timelock: Option<u64>,
        voting_threshold: Option<i128>,
        now: u64,
    ) -> (r: Result<u64, GovernanceError>)
        ensures
            match old(self)@.governance.create_result(
                proposer,
                proposal_type,
                description,
                voting_period,
                execution_timelock,
                voting_threshold,
                now,
            ) {
                Ok((governance, id)) => r == Ok::<u64, GovernanceError>(id) && final(self)@ == (
                ContractView { governance, ..old(self)@ }),
                Err(e) => r == Err::<u64, GovernanceError>(e) && final(self)@ == old(self)@,
            },
            old(self)@.wf() ==> final(self)@.wf(),
    {
        crate::governance::create_proposal(
            &mut self.governance,
            proposer,
            proposal_type,
            description,
            voting_period,
            execution_timelock,
            voting_threshold,
            now,
        )
    }

    /// Casts `voter`'s vote on a proposal, as
    /// [`GovernanceView::vote_result`] says.
    pub fn gov_vote(
        &mut self,
        voter: Address,
        proposal_id: u64,
        vote: Vote,
        voting_power: i128,
        now: u64,
    ) -> (r: Result<(), GovernanceError>)
        ensures
            match old(self)@.governance.vote_result(voter, proposal_id, vote, voting_power, now) {
                Ok(governance) => r.is_ok() && final(self)@ == (ContractView {
                    governance,
                    ..old(self)@
                }),
                Err(e) => r == Err::<(), _>(e) && final(self)@ == old(self)@,
            },
            old(self)@.wf() ==> final(self)@.wf(),
    {
        crate::governance::vote(&mut self.governance, voter, proposal_id, vote, voting_power, now)
    }

    /// Executes a passed proposal whose timelock has elapsed, as
    /// [`GovernanceView::execute_result`] says.
    pub fn gov_execute_proposal(&mut self, executor: Address, proposal_id: u64, now: u64) -> (r:
        Result<(), GovernanceError>)
        ensures
            match old(self)@.governance.execute_result(old(self)@.risk, proposal_id, now) {
                Ok((governance, state)) => r.is_ok() && final(self)@ == (ContractView {
                    governance,
                    risk: Some(state),
                    ..old(self)@
                }),
                Err(e) => r == Err::<(), _>(e) && final(self)@ == old(self)@,
            },
            old(self)@.wf() ==> final(self)@.wf(),
    {
        crate::governance::execute_proposal(
            &mut self.governance,
            &mut self.risk,
            executor,
            proposal_id,
            now,
        )
    }

    /// Marks an active proposal failed once its voting period is over, as
    /// [`GovernanceView::mark_failed_result`] says.
    pub fn gov_mark_proposal_failed(&mut self, proposal_id: u64, now: u64) -> (r: Result<
        (),
        GovernanceError,
    >)
        ensures
            match old(self)@.governance.mark_failed_result(proposal_id, now) {
                Ok(governance) => r.is_ok() && final(self)@ == (ContractView {
                    governance,
                    ..old(self)@
                }),
                Err(e) => r == Err::<(), _>(e) && final(self)@ == old(self)@,
            },
            old(self)@.wf() ==> final(self)@.wf(),
    {
        crate::governance::mark_proposal_failed(&mut self.governance, proposal_id, now)
    }

    /// The proposal with the given id.
    pub fn gov_get_proposal(&self, proposal_id: u64) -> (r: Option<Proposal>)
        ensures
            r == (if self@.governance.proposals.contains_key(proposal_id) {
                Some(self@.governance.proposals[proposal_id])
            } else {
                None
            }),
    {
        crate::governance::get_proposal(&self.governance, proposal_id)
    }

    /// The vote of `voter` on a proposal, if one is on record.
    pub fn gov_get_vote(&self, proposal_id: u64, voter: Address) -> (r: Option<Vote>)
        ensures
            r == vote_of(self@.governance.ballots, proposal_id, voter),
    {
        crate::governance::get_vote(&self.governance, proposal_id, voter)
    }

    /// Replaces the multisig admins on behalf of a current multisig admin.
    /// `Unauthorized`, changing nothing, for any other caller.
    pub fn ms_set_admins(&mut self, caller: Address, admins: Vec<Address>) -> (r: Result<
        (),
        GovernanceError,
    >)
        ensures
            old(self)@.governance.is_multisig_admin(caller) ==> r.is_ok() && final(self)@ == (
            ContractView {
                governance: GovernanceView {
                    multisig_admins: Some(admins@),
                    ..old(self)@.governance
                },
                ..old(self)@
            }),
            !old(self)@.governance.is_multisig_admin(caller) ==> r == Err::<(), _>(
                GovernanceError::Unauthorized,
            ) && final(self)@ == old(self)@,
            old(self)@.wf() ==> final(self)@.wf(),
    {
        crate::governance::set_multisig_admins(&mut self.governance, caller, admins)
    }

    /// Sets the number of approvals a multisig execution requires, on
    /// behalf of a multisig admin. `Unauthorized`, changing nothing, for any
    /// other caller.
    pub fn ms_set_threshold(&mut self, caller: Address, threshold: u32) -> (r: Result<
        (),
        GovernanceError,
    >)
        ensures
            old(self)@.governance.is_multisig_admin(caller) ==> r.is_ok() && final(self)@ == (
            ContractView {
                governance: GovernanceView {
                    multisig_threshold: threshold,
                    ..old(self)@.governance
                },
                ..old(self)@
            }),
            !old(self)@.governance.is_multisig_admin(caller) ==> r == Err::<(), _>(
                GovernanceError::Unauthorized,
            ) && final(self)@ == old(self)@,
            old(self)@.wf() ==> final(self)@.wf(),
    {
        crate::governance::set_multisig_threshold(&mut self.governance, caller, threshold)
    }

    /// Creates, on behalf of a multisig admin, a standard proposal to set
    /// the minimum collateral ratio to `new_ratio`. `Unauthorized`,
    /// changing nothing, for any other caller.
    pub fn ms_propose_set_min_cr(&mut self, proposer: Address, new_ratio: i128, now: u64) -> (r:
        Result<u64, GovernanceError>)
        ensures
            !old(self)@.governance.is_multisig_admin(proposer) ==> r == Err::<u64, _>(
                GovernanceError::Unauthorized,
            ) && final(self)@ == old(self)@,
            old(self)@.governance.is_multisig_admin(proposer) ==> (match r {
                Ok(id) => {
                    &&& final(self)@.governance.descriptions.contains_key(id)
                    &&& final(self)@.governance.descriptions[id]@
                        == crate::governance::min_ratio_proposal_description()
                    &&& old(self)@.governance.create_result(
                        proposer,
                        ProposalType::SetMinCollateralRatio(new_ratio),
                        final(self)@.governance.descriptions[id],
                        None,
                        None,
                        None,
                        now,
                    ) == Ok::<_, GovernanceError>((final(self)@.governance, id))
                    &&& final(self)@ == (ContractView {
                        governance: final(self)@.governance,
                        ..old(self)@
                    })
                },
                Err(e) => {
                    &&& final(self)@ == old(self)@
                    &&& e == GovernanceError::ArithmeticOverflow
                    &&& old(self)@.governance.proposal_count == u64::MAX || now
                        + DEFAULT_VOTING_PERIOD > u64::MAX
                },
            }),
            old(self)@.wf() ==> final(self)@.wf(),
    {
        crate::governance::propose_set_min_collateral_ratio(
            &mut self.governance,
            proposer,
            new_ratio,
            now,
        )
    }

    /// Records a multisig admin's approval of a proposal, as
    /// [`GovernanceView::approve_result`] says.
    pub fn ms_approve(&mut self, approver: Address, proposal_id: u64) -> (r: Result<
        (),
        GovernanceError,
    >)
        ensures
            match old(self)@.governance.approve_result(approver, proposal_id) {
                Ok(governance) => r.is_ok() && final(self)@ == (ContractView {
                    governance,
                    ..old(self)@
                }),
                Err(e) => r == Err::<(), _>(e) && final(self)@ == old(self)@,
            },
            old(self)@.wf() ==> final(self)@.wf(),
    {
        crate::governance::approve_proposal(&mut self.governance, approver, proposal_id)
    }

    /// Executes a proposal through the multisig, as
    /// [`GovernanceView::execute_multisig_result`] says.
    pub fn ms_execute(&mut self, executor: Address, proposal_id: u64, now: u64) -> (r: Result<
        (),
        GovernanceError,
    >)
        ensures
            match old(self)@.governance.execute_multisig_result(
                old(self)@.risk,
                executor,
                proposal_id,
                now,
            ) {
                Ok((governance, state)) => r.is_ok() && final(self)@ == (ContractView {
                    governance,
                    risk: Some(state),
                    ..old(self)@
                }),
                Err(e) => r == Err::<(), _>(e) && final(self)@ == old(self)@,
            },
            old(self)@.wf() ==> final(self)@.wf(),
    {
        crate::governance::execute_multisig_proposal(
            &mut self.governance,
            &mut self.risk,
            executor,
            proposal_id,
            now,
        )
    }

    /// The multisig admins, once the protocol is initialized.
    pub fn ms_get_admins(&self) -> (r: Option<Vec<Address>>)
        ensures
            match r {
                Some(admins) => self@.governance.multisig_admins == Some(admins@),
                None => self@.governance.multisig_admins.is_none(),
            },
    {
        crate::governance::get_multisig_admins(&self.governance)
    }

    /// The number of approvals a multisig execution requires; one while the
    /// protocol is not initialized.
    pub fn ms_get_threshold(&self) -> (r: u32)
        ensures
            r == (if self@.governance.multisig_admins.is_some() {
                self@.governance.multisig_threshold
            } else {
                DEFAULT_MULTISIG_THRESHOLD
            }),
    {
        crate::governance::get_multisig_threshold(&self.governance)
    }

    /// The admins who approved a proposal, in the order in which they did,
    /// or `None` while nobody has.
    pub fn ms_get_approvals(&self, proposal_id: u64) -> (r: Option<Vec<Address>>)
        ensures
            match r {
                Some(approvers) => approvers@ == approvers_of(
                    self@.governance.approvals,
                    proposal_id,
                ) && approvers@.len() > 0,
                None => approvers_of(self@.governance.approvals, proposal_id).len() == 0,
            },
    {
        crate::governance::get_proposal_approvals(&self.governance, proposal_id)
    }
}

/// Under emergency pause every lending operation is refused, whatever the
/// pause switches of the single operations say.
pub proof fn law_emergency_pause_blocks_lending(
    ledger: LedgerView,
    risk: Option<RiskState>,
    user: Address,
    asset: Option<Address>,
    amount: i128,
    balance: i128,
    now: u64,
)
    requires
        emergency_paused(risk),
    ensures
        deposit_result(ledger, risk, user, asset, amount, balance, now) is Err,
        withdraw_result(ledger, risk, user, asset, amount, now) is Err,
        borrow_result(ledger, risk, user, asset, amount, now) is Err,
        repay_result(ledger, risk, user, asset, amount, now) is Err,
{
}

/// No lending operation accepts an amount that is not positive.
pub proof fn law_lending_needs_a_positive_amount(
    ledger: LedgerView,
    risk: Option<RiskState>,
    user: Address,
    asset: Option<Address>,
    amount: i128,
    balance: i128,
    now: u64,
)
    requires
        amount <= 0,
    ensures
        deposit_result(ledger, risk, user, asset, amount, balance, now) == Err::<
            (LedgerView, i128),
            _,
        >(LendingError::InvalidAmount),
        withdraw_result(ledger, risk, user, asset, amount, now) == Err::<(LedgerView, i128), _>(
            LendingError::InvalidAmount,
        ),
        borrow_result(ledger, risk, user, asset, amount, now) == Err::<(LedgerView, i128), _>(
            LendingError::InvalidAmount,
        ),
        repay_result(ledger, risk, user, asset, amount, now) == Err::<
            (LedgerView, (i128, i128, i128)),
            _,
        >(LendingError::InvalidAmount),
{
}

} // verus!
