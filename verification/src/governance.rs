//! Governance: proposals that change the parameter store under a timelock,
//! voted on by stake, and the admin multisig that co-gates their execution.

use std::collections::HashMap;
use vstd::prelude::*;
use crate::address::Address;
use crate::math::{checked_ratio_bps, fits_i128, ratio_bps};
use crate::risk_management::{
    apply_risk_params,
    apply_risk_params_result,
    Operation,
    RiskManagementError,
    RiskState,
};

verus! {

/// Voting period of a proposal created without one: seven days.
pub const DEFAULT_VOTING_PERIOD: u64 = 604_800;

/// Execution timelock of a proposal created without one: two days.
pub const DEFAULT_EXECUTION_TIMELOCK: u64 = 172_800;

/// Voting threshold of a proposal created without one: 50%.
pub const DEFAULT_VOTING_THRESHOLD: i128 = 5_000;

/// Highest admissible voting threshold: 100%.
pub const MAX_VOTING_THRESHOLD: i128 = 10_000;

/// Approvals required by the multisig at initialization, and reported while
/// it is not initialized.
pub const DEFAULT_MULTISIG_THRESHOLD: u32 = 1;

/// Why a governance operation was refused.
#[derive(Clone, Copy, Debug, PartialEq, Eq, Structural)]
pub enum GovernanceError {
    /// The caller is not a multisig admin.
    Unauthorized,
    /// No proposal has the given id.
    ProposalNotFound,
    /// The proposal's voting threshold exceeds 100%.
    InvalidProposal,
    /// The voting power is not positive.
    InvalidVote,
    /// The voter has voted, or the admin has approved, before.
    AlreadyVoted,
    /// The voting period is over.
    VotingPeriodEnded,
    /// The voting period is not over yet.
    VotingPeriodNotEnded,
    /// The proposal has failed or has been executed.
    ProposalNotActive,
    /// The proposal has not passed.
    ThresholdNotMet,
    /// The execution timelock has not elapsed.
    TimelockNotExpired,
    /// The proposal has been executed before.
    ProposalAlreadyExecuted,
    /// Fewer admins have approved than the multisig requires.
    InsufficientApprovals,
    /// The parameter store refused the proposal's change.
    ExecutionFailed(RiskManagementError),
    /// Governance was initialized before.
    AlreadyInitialized,
    /// A tally, a deadline or the proposal counter left its range.
    ArithmeticOverflow,
}

/// A voter's choice.
#[derive(Clone, Copy, Debug, PartialEq, Eq, Structural)]
pub enum Vote {
    For,
    Against,
    Abstain,
}

/// Where a proposal stands. `Failed` and `Executed` are final.
#[derive(Clone, Copy, Debug, PartialEq, Eq, Structural)]
pub enum ProposalStatus {
    Active,
    Passed,
    Failed,
    Executed,
}

impl ProposalStatus {
    /// Whether a proposal in this status can come to be in `next`:
    /// an active proposal can pass or fail, a passed one can be executed,
    /// and nothing else ever changes.
    pub open spec fn may_become(self, next: ProposalStatus) -> bool {
        ||| next == self
        ||| self == ProposalStatus::Active && next == ProposalStatus::Passed
        ||| self == ProposalStatus::Active && next == ProposalStatus::Failed
        ||| self == ProposalStatus::Passed && next == ProposalStatus::Executed
    }

    /// `Failed` and `Executed` are final.
    pub open spec fn is_final(self) -> bool {
        self == ProposalStatus::Failed || self == ProposalStatus::Executed
    }
}

/// The change a proposal makes to the parameter store when executed.
#[derive(Clone, Copy, Debug, PartialEq, Eq, Structural)]
pub enum ProposalType {
    /// Sets the minimum collateral ratio.
    SetMinCollateralRatio(i128),
    /// Sets any of minimum collateral ratio, liquidation threshold, close
    /// factor and liquidation incentive, in that order.
    SetRiskParams(Option<i128>, Option<i128>, Option<i128>, Option<i128>),
    /// Sets the pause switch of one operation.
    SetPauseSwitch(Operation, bool),
    /// Turns the emergency pause on or off.
    SetEmergencyPause(bool),
}

/// A proposal and its tally.
#[derive(Clone, Copy, Debug, PartialEq, Eq, Structural)]
pub struct Proposal {
    pub id: u64,
    pub proposer: Address,
    pub proposal_type: ProposalType,
    pub status: ProposalStatus,
    pub votes_for: i128,
    pub votes_against: i128,
    pub votes_abstain: i128,
    /// Sum of the three tallies.
    pub total_voting_power: i128,
    pub voting_start: u64,
    /// Last moment at which a vote is accepted.
    pub voting_end: u64,
    /// First moment at which a passed proposal may be executed.
    pub execution_timelock: u64,
    /// Share of the votes cast that must be in favour, in basis points.
    pub voting_threshold: i128,
}

/// One vote on record.
#[derive(Clone, Copy, Debug, PartialEq, Eq, Structural)]
pub struct Ballot {
    pub proposal_id: u64,
    pub voter: Address,
    pub vote: Vote,
}

/// One multisig approval on record.
#[derive(Clone, Copy, Debug, PartialEq, Eq, Structural)]
pub struct Approval {
    pub proposal_id: u64,
    pub approver: Address,
}

impl ProposalType {
    /// The parameter store after this change, or the store's refusal.
    /// Parameter updates are validated like the admin's; switches are set
    /// unconditionally. Nothing can be applied to a store that has not been
    /// initialized.
    pub open spec fn applied(self, store: Option<RiskState>) -> Result<
        RiskState,
        RiskManagementError,
    > {
        match store {
            None => Err(RiskManagementError::NotInitialized),
            Some(state) => match self {
                ProposalType::SetMinCollateralRatio(value) => apply_risk_params_result(
                    state,
                    Some(value),
                    None,
                    None,
                    None,
                ),
                ProposalType::SetRiskParams(a, b, c, d) => apply_risk_params_result(
                    state,
                    a,
                    b,
                    c,
                    d,
                ),
                ProposalType::SetPauseSwitch(operation, paused) => Ok(
                    RiskState { pause: state.pause.with(operation, paused), ..state },
                ),
                ProposalType::SetEmergencyPause(paused) => Ok(
                    RiskState { emergency_paused: paused, ..state },
                ),
            },
        }
    }

    /// Computes the parameter store after this change without writing it.
    pub fn apply(&self, store: &Option<RiskState>) -> (r: Result<RiskState, RiskManagementError>)
        ensures
            r == self.applied(*store),
            r matches Ok(next) ==> (store.unwrap().config.wf() ==> next.config.wf()),
    {
        match store {
            None => Err(RiskManagementError::NotInitialized),
            Some(state) => {
                let mut next = *state;
                match self {
                    ProposalType::SetMinCollateralRatio(value) => {
                        apply_risk_params(&mut next, Some(*value), None, None, None)?;
                    },
                    ProposalType::SetRiskParams(a, b, c, d) => {
                        apply_risk_params(&mut next, *a, *b, *c, *d)?;
                    },
                    ProposalType::SetPauseSwitch(operation, paused) => {
                        next.pause.set(*operation, *paused);
                    },
                    ProposalType::SetEmergencyPause(paused) => {
                        next.emergency_paused = *paused;
                    },
                }
                Ok(next)
            },
        }
    }
}

impl Proposal {
    /// The proposal as created at `now`: active, with empty tallies, open
    /// for votes until `now + voting_period` and executable from
    /// `now + execution_timelock`.
    pub open spec fn created(
        id: u64,
        proposer: Address,
        proposal_type: ProposalType,
        voting_period: u64,
        execution_timelock: u64,
        voting_threshold: i128,
        now: u64,
    ) -> Proposal {
        Proposal {
            id,
            proposer,
            proposal_type,
            status: ProposalStatus::Active,
            votes_for: 0,
            votes_against: 0,
            votes_abstain: 0,
            total_voting_power: 0,
            voting_start: now,
            voting_end: (now + voting_period) as u64,
            execution_timelock: (now + execution_timelock) as u64,
            voting_threshold,
        }
    }

    /// The tallies are non-negative and add up to the total.
    pub open spec fn wf(self) -> bool {
        &&& self.votes_for >= 0
        &&& self.votes_against >= 0
        &&& self.votes_abstain >= 0
        &&& self.total_voting_power == self.votes_for + self.votes_against + self.votes_abstain
    }

    /// Whether the share of votes in favour reaches the threshold:
    /// `votes_for * 10_000 / total_voting_power >= voting_threshold`.
    /// Reaching it exactly counts.
    pub open spec fn threshold_met(self) -> bool {
        self.total_voting_power > 0 && ratio_bps(
            self.votes_for as int,
            self.total_voting_power as int,
        ) >= self.voting_threshold
    }

    /// The tally that `vote` adds to.
    pub open spec fn tally_of(self, vote: Vote) -> i128 {
        match vote {
            Vote::For => self.votes_for,
            Vote::Against => self.votes_against,
            Vote::Abstain => self.votes_abstain,
        }
    }

    /// The proposal with `voting_power` added to the tally of `vote` and to
    /// the total, its status untouched.
    pub open spec fn counted(self, vote: Vote, voting_power: i128) -> Proposal {
        let tally = (self.tally_of(vote) + voting_power) as i128;
        Proposal {
            votes_for: if vote == Vote::For {
                tally
            } else {
                self.votes_for
            },
            votes_against: if vote == Vote::Against {
                tally
            } else {
                self.votes_against
            },
            votes_abstain: if vote == Vote::Abstain {
                tally
            } else {
                self.votes_abstain
            },
            total_voting_power: (self.total_voting_power + voting_power) as i128,
            ..self
        }
    }

    /// The proposal after a vote at `now`, or the reason the vote is
    /// refused.
    ///
    /// Votes are accepted up to and including `voting_end` and while the
    /// proposal has neither failed nor been executed. An active proposal
    /// passes the moment the counted votes meet the threshold; a passed one
    /// stays passed.
    pub open spec fn tallied(self, vote: Vote, voting_power: i128, now: u64) -> Result<
        Proposal,
        GovernanceError,
    > {
        let counted = self.counted(vote, voting_power);
        if now > self.voting_end {
            Err(GovernanceError::VotingPeriodEnded)
        } else if self.status == ProposalStatus::Failed || self.status
            == ProposalStatus::Executed {
            Err(GovernanceError::ProposalNotActive)
        } else if !fits_i128(self.tally_of(vote) + voting_power) || !fits_i128(
            self.total_voting_power + voting_power,
        ) {
            Err(GovernanceError::ArithmeticOverflow)
        } else if self.status == ProposalStatus::Active && counted.total_voting_power > 0
            && !fits_i128(counted.votes_for * 10_000) {
            Err(GovernanceError::ArithmeticOverflow)
        } else if self.status == ProposalStatus::Active && counted.threshold_met() {
            Ok(Proposal { status: ProposalStatus::Passed, ..counted })
        } else {
            Ok(counted)
        }
    }

    /// Whether the proposal may be executed at `now`: it must have passed
    /// and its timelock must have elapsed.
    pub open spec fn executable(self, now: u64) -> Result<(), GovernanceError> {
        match self.status {
            ProposalStatus::Executed => Err(GovernanceError::ProposalAlreadyExecuted),
            ProposalStatus::Active => Err(GovernanceError::ThresholdNotMet),
            ProposalStatus::Failed => Err(GovernanceError::ThresholdNotMet),
            ProposalStatus::Passed => if now < self.execution_timelock {
                Err(GovernanceError::TimelockNotExpired)
            } else {
                Ok(())
            },
        }
    }

    /// The proposal after being marked failed at `now`, or the reason it
    /// cannot be: only an active proposal whose voting period is over fails.
    pub open spec fn marked_failed(self, now: u64) -> Result<Proposal, GovernanceError> {
        if self.status != ProposalStatus::Active {
            Err(GovernanceError::ProposalNotActive)
        } else if now <= self.voting_end {
            Err(GovernanceError::VotingPeriodNotEnded)
        } else {
            Ok(Proposal { status: ProposalStatus::Failed, ..self })
        }
    }

    /// Counts a vote cast at `now`.
    pub fn tally(&self, vote: Vote, voting_power: i128, now: u64) -> (r: Result<
        Proposal,
        GovernanceError,
    >)
        ensures
            r == self.tallied(vote, voting_power, now),
            self.wf() && voting_power > 0 && r.is_ok() ==> r.unwrap().wf(),
    {
        if now > self.voting_end {
            return Err(GovernanceError::VotingPeriodEnded);
        }
        match self.status {
            ProposalStatus::Failed => {
                return Err(GovernanceError::ProposalNotActive);
            },
            ProposalStatus::Executed => {
                return Err(GovernanceError::ProposalNotActive);
            },
            _ => {},
        }
        let current = match vote {
            Vote::For => self.votes_for,
            Vote::Against => self.votes_against,
            Vote::Abstain => self.votes_abstain,
        };
        let (tally, total) = match (
            current.checked_add(voting_power),
            self.total_voting_power.checked_add(voting_power),
        ) {
            (Some(tally), Some(total)) => (tally, total),
            _ => {
                return Err(GovernanceError::ArithmeticOverflow);
            },
        };
        let mut next = *self;
        match vote {
            Vote::For => {
                next.votes_for = tally;
            },
            Vote::Against => {
                next.votes_against = tally;
            },
            Vote::Abstain => {
                next.votes_abstain = tally;
            },
        }
        next.total_voting_power = total;
        if self.status == ProposalStatus::Active && total > 0 {
            match checked_ratio_bps(next.votes_for, total) {
                None => {
                    return Err(GovernanceError::ArithmeticOverflow);
                },
                Some(share) => {
                    if share >= next.voting_threshold {
                        next.status = ProposalStatus::Passed;
                    }
                },
            }
        }
        Ok(next)
    }

    /// Checks that the proposal may be executed at `now`.
    pub fn check_executable(&self, now: u64) -> (r: Result<(), GovernanceError>)
        ensures
            r == self.executable(now),
    {
        match self.status {
            ProposalStatus::Executed => Err(GovernanceError::ProposalAlreadyExecuted),
            ProposalStatus::Active => Err(GovernanceError::ThresholdNotMet),
            ProposalStatus::Failed => Err(GovernanceError::ThresholdNotMet),
            ProposalStatus::Passed => if now < self.execution_timelock {
                Err(GovernanceError::TimelockNotExpired)
            } else {
                Ok(())
            },
        }
    }

    /// Marks the proposal failed at `now`.
    pub fn mark_failed(&self, now: u64) -> (r: Result<Proposal, GovernanceError>)
        ensures
            r == self.marked_failed(now),
    {
        if self.status != ProposalStatus::Active {
            return Err(GovernanceError::ProposalNotActive);
        }
        if now <= self.voting_end {
            return Err(GovernanceError::VotingPeriodNotEnded);
        }
        let mut next = *self;
        next.status = ProposalStatus::Failed;
        Ok(next)
    }
}

/// The vote of `voter` on proposal `proposal_id` among the first `n`
/// ballots: the earliest one on record.
pub open spec fn vote_among(ballots: Seq<Ballot>, n: nat, proposal_id: u64, voter: Address)
    -> Option<Vote>
    decreases n,
{
    if n == 0 || n > ballots.len() {
        None
    } else {
        match vote_among(ballots, (n - 1) as nat, proposal_id, voter) {
            Some(vote) => Some(vote),
            None => if ballots[n - 1].proposal_id == proposal_id && ballots[n - 1].voter == voter {
                Some(ballots[n - 1].vote)
            } else {
                None
            },
        }
    }
}

/// The vote of `voter` on proposal `proposal_id`, if one is on record.
pub open spec fn vote_of(ballots: Seq<Ballot>, proposal_id: u64, voter: Address) -> Option<Vote> {
    vote_among(ballots, ballots.len(), proposal_id, voter)
}

/// The admins who approved proposal `proposal_id` among the first `n`
/// approvals, in the order in which they approved.
pub open spec fn approvers_among(approvals: Seq<Approval>, n: nat, proposal_id: u64) -> Seq<
    Address,
>
    decreases n,
{
    if n == 0 || n > approvals.len() {
        Seq::empty()
    } else {
        let earlier = approvers_among(approvals, (n - 1) as nat, proposal_id);
        if approvals[n - 1].proposal_id == proposal_id {
            earlier.push(approvals[n - 1].approver)
        } else {
            earlier
        }
    }
}

/// The admins who approved proposal `proposal_id`, in the order in which
/// they approved.
pub open spec fn approvers_of(approvals: Seq<Approval>, proposal_id: u64) -> Seq<Address> {
    approvers_among(approvals, approvals.len(), proposal_id)
}

/// No voter has two ballots on the same proposal.
pub open spec fn ballots_distinct(ballots: Seq<Ballot>) -> bool {
    forall|i: int, j: int|
        0 <= i < j < ballots.len() ==> !((#[trigger] ballots[i]).proposal_id == (
        #[trigger] ballots[j]).proposal_id && ballots[i].voter == ballots[j].voter)
}

/// No admin has approved the same proposal twice.
pub open spec fn approvals_distinct(approvals: Seq<Approval>) -> bool {
    forall|i: int, j: int|
        0 <= i < j < approvals.len() ==> #[trigger] approvals[i] != #[trigger] approvals[j]
}

/// Governance's stored state.
pub struct Governance {
    /// Every proposal, by its id.
    pub proposals: HashMap<u64, Proposal>,
    /// The description given with each proposal, by the proposal's id.
    pub descriptions: HashMap<u64, String>,
    /// Number of proposals created so far; the next id is one more.
    pub proposal_count: u64,
    /// Every vote cast, oldest first.
    pub ballots: Vec<Ballot>,
    /// The multisig admins, once governance is initialized.
    pub multisig_admins: Option<Vec<Address>>,
    /// Number of approvals a multisig execution requires.
    pub multisig_threshold: u32,
    /// Every approval given, oldest first.
    pub approvals: Vec<Approval>,
}

/// Governance as a mathematical value.
pub struct GovernanceView {
    pub proposals: Map<u64, Proposal>,
    pub descriptions: Map<u64, String>,
    pub proposal_count: u64,
    pub ballots: Seq<Ballot>,
    pub multisig_admins: Option<Seq<Address>>,
    pub multisig_threshold: u32,
    pub approvals: Seq<Approval>,
}

impl View for Governance {
    type V = GovernanceView;

    open spec fn view(&self) -> GovernanceView {
        GovernanceView {
            proposals: self.proposals@,
            descriptions: self.descriptions@,
            proposal_count: self.proposal_count,
            ballots: self.ballots@,
            multisig_admins: match self.multisig_admins {
                Some(admins) => Some(admins@),
                None => None,
            },
            multisig_threshold: self.multisig_threshold,
            approvals: self.approvals@,
        }
    }
}

impl GovernanceView {
    /// Governance with no proposals, no votes and no admins.
    pub open spec fn empty() -> GovernanceView {
        GovernanceView {
            proposals: Map::empty(),
            descriptions: Map::empty(),
            proposal_count: 0,
            ballots: Seq::empty(),
            multisig_admins: None,
            multisig_threshold: DEFAULT_MULTISIG_THRESHOLD,
            approvals: Seq::empty(),
        }
    }

    /// Every proposal carries the id it is stored under, was issued by the
    /// counter, and has a consistent tally; nobody has voted on a proposal,
    /// or approved one, twice.
    pub open spec fn wf(self) -> bool {
        &&& forall|id: u64| #[trigger]
            self.proposals.contains_key(id) ==> {
                &&& self.proposals[id].id == id
                &&& 1 <= id <= self.proposal_count
                &&& self.proposals[id].wf()
            }
        &&& ballots_distinct(self.ballots)
        &&& approvals_distinct(self.approvals)
    }

    /// Whether `caller` is one of the multisig admins.
    pub open spec fn is_multisig_admin(self, caller: Address) -> bool {
        self.multisig_admins matches Some(admins) && admins.contains(caller)
    }

    /// The outcome of creating a proposal: the state that results and the
    /// new proposal's id, which is one more than the number of proposals
    /// created before.
    pub open spec fn create_result(
        self,
        proposer: Address,
        proposal_type: ProposalType,
        description: String,
        voting_period: Option<u64>,
        execution_timelock: Option<u64>,
        voting_threshold: Option<i128>,
        now: u64,
    ) -> Result<(GovernanceView, u64), GovernanceError> {
        let period = match voting_period {
            Some(v) => v,
            None => DEFAULT_VOTING_PERIOD,
        };
        let timelock = match execution_timelock {
            Some(v) => v,
            None => DEFAULT_EXECUTION_TIMELOCK,
        };
        let threshold = match voting_threshold {
            Some(v) => v,
            None => DEFAULT_VOTING_THRESHOLD,
        };
        let id = (self.proposal_count + 1) as u64;
        if threshold > MAX_VOTING_THRESHOLD {
            Err(GovernanceError::InvalidProposal)
        } else if self.proposal_count == u64::MAX || now + period > u64::MAX || now + timelock
            > u64::MAX {
            Err(GovernanceError::ArithmeticOverflow)
        } else {
            Ok(
                (
                    GovernanceView {
                        proposals: self.proposals.insert(
                            id,
                            Proposal::created(
                                id,
                                proposer,
                                proposal_type,
                                period,
                                timelock,
                                threshold,
                                now,
                            ),
                        ),
                        descriptions: self.descriptions.insert(id, description),
                        proposal_count: id,
                        ..self
                    },
                    id,
                ),
            )
        }
    }

    /// The outcome of a vote: the state that results, or the reason the
    /// vote is refused.
    ///
    /// The voting power must be positive, the proposal must exist, and the
    /// voter must not have voted on it before; then the proposal decides as
    /// [`Proposal::tallied`] says. An accepted vote is put on record.
    pub open spec fn vote_result(
        self,
        voter: Address,
        proposal_id: u64,
        vote: Vote,
        voting_power: i128,
        now: u64,
    ) -> Result<GovernanceView, GovernanceError> {
        if voting_power <= 0 {
            Err(GovernanceError::InvalidVote)
        } else if !self.proposals.contains_key(proposal_id) {
            Err(GovernanceError::ProposalNotFound)
        } else if vote_of(self.ballots, proposal_id, voter) is Some {
            Err(GovernanceError::AlreadyVoted)
        } else {
            match self.proposals[proposal_id].tallied(vote, voting_power, now) {
                Err(e) => Err(e),
                Ok(proposal) => Ok(
                    GovernanceView {
                        proposals: self.proposals.insert(proposal_id, proposal),
                        ballots: self.ballots.push(Ballot { proposal_id, voter, vote }),
                        ..self
                    },
                ),
            }
        }
    }

    /// The outcome of executing a proposal at `now`: the governance state
    /// and the parameter store that result, or the reason for refusing.
    ///
    /// The proposal must exist, have passed, and be past its timelock, and
    /// the parameter store must accept its change. Then the change is
    /// applied and the proposal becomes `Executed`.
    pub open spec fn execute_result(self, store: Option<RiskState>, proposal_id: u64, now: u64)
        -> Result<(GovernanceView, RiskState), GovernanceError> {
        if !self.proposals.contains_key(proposal_id) {
            Err(GovernanceError::ProposalNotFound)
        } else {
            let proposal = self.proposals[proposal_id];
            match proposal.executable(now) {
                Err(e) => Err(e),
                Ok(_) => match proposal.proposal_type.applied(store) {
                    Err(e) => Err(GovernanceError::ExecutionFailed(e)),
                    Ok(next) => Ok(
                        (
                            GovernanceView {
                                proposals: self.proposals.insert(
                                    proposal_id,
                                    Proposal { status: ProposalStatus::Executed, ..proposal },
                                ),
                                ..self
                            },
                            next,
                        ),
                    ),
                },
            }
        }
    }

    /// The outcome of marking a proposal failed at `now`.
    pub open spec fn mark_failed_result(self, proposal_id: u64, now: u64) -> Result<
        GovernanceView,
        GovernanceError,
    > {
        if !self.proposals.contains_key(proposal_id) {
            Err(GovernanceError::ProposalNotFound)
        } else {
            match self.proposals[proposal_id].marked_failed(now) {
                Err(e) => Err(e),
                Ok(proposal) => Ok(
                    GovernanceView {
                        proposals: self.proposals.insert(proposal_id, proposal),
                        ..self
                    },
                ),
            }
        }
    }

    /// The outcome of an approval: the approver must be a multisig admin,
    /// the proposal must exist, and the approver must not have approved it
    /// before. An accepted approval is put on record.
    pub open spec fn approve_result(self, approver: Address, proposal_id: u64) -> Result<
        GovernanceView,
        GovernanceError,
    > {
        if !self.is_multisig_admin(approver) {
            Err(GovernanceError::Unauthorized)
        } else if !self.proposals.contains_key(proposal_id) {
            Err(GovernanceError::ProposalNotFound)
        } else if approvers_of(self.approvals, proposal_id).contains(approver) {
            Err(GovernanceError::AlreadyVoted)
        } else {
            Ok(
                GovernanceView {
                    approvals: self.approvals.push(Approval { proposal_id, approver }),
                    ..self
                },
            )
        }
    }

    /// The outcome of a multisig execution at `now`: the executor must be a
    /// multisig admin and the approvals on record must reach the multisig
    /// threshold; then the proposal is executed as [`Self::execute_result`]
    /// says, which asks on its own that it has passed and that its timelock
    /// has elapsed.
    pub open spec fn execute_multisig_result(
        self,
        store: Option<RiskState>,
        executor: Address,
        proposal_id: u64,
        now: u64,
    ) -> Result<(GovernanceView, RiskState), GovernanceError> {
        if !self.is_multisig_admin(executor) {
            Err(GovernanceError::Unauthorized)
        } else if approvers_of(self.approvals, proposal_id).len() < self.multisig_threshold {
            Err(GovernanceError::InsufficientApprovals)
        } else {
            self.execute_result(store, proposal_id, now)
        }
    }
}

/// Whether `addresses` holds `address`.
pub fn contains_address(addresses: &Vec<Address>, address: Address) -> (found: bool)
    ensures
        found == addresses@.contains(address),
{
    let mut i: usize = 0;
    while i < addresses.len()
        invariant
            i <= addresses.len(),
            forall|j: int| 0 <= j < i ==> addresses@[j] != address,
        decreases addresses.len() - i,
    {
        if addresses[i] == address {
            return true;
        }
        i = i + 1;
    }
    false
}

/// A copy of `addresses`.
pub fn copy_addresses(addresses: &Vec<Address>) -> (copy: Vec<Address>)
    ensures
        copy@ == addresses@,
{
    let mut copy: Vec<Address> = Vec::new();
    let mut i: usize = 0;
    while i < addresses.len()
        invariant
            i <= addresses.len(),
            copy@ == addresses@.take(i as int),
        decreases addresses.len() - i,
    {
        copy.push(addresses[i]);
        proof {
            assert(addresses@.take(i + 1) =~= addresses@.take(i as int).push(addresses@[i as int]));
        }
        i = i + 1;
    }
    proof {
        assert(addresses@.take(addresses@.len() as int) =~= addresses@);
    }
    copy
}

/// Makes `admin` the only multisig admin, with one approval required.
///
/// Fails with `AlreadyInitialized`, changing nothing, when governance has
/// admins already.
pub fn initialize_governance(governance: &mut Governance, admin: Address) -> (r: Result<
    (),
    GovernanceError,
>)
    ensures
        old(governance)@.multisig_admins.is_none() ==> r.is_ok() && final(governance)@ == (
        GovernanceView {
            multisig_admins: Some(seq![admin]),
            multisig_threshold: DEFAULT_MULTISIG_THRESHOLD,
            ..old(governance)@
        }),
        old(governance)@.multisig_admins.is_some() ==> r == Err::<(), _>(
            GovernanceError::AlreadyInitialized,
        ) && final(governance)@ == old(governance)@,
        old(governance)@.wf() ==> final(governance)@.wf(),
{
    if governance.multisig_admins.is_some() {
        return Err(GovernanceError::AlreadyInitialized);
    }
    let mut admins: Vec<Address> = Vec::new();
    admins.push(admin);
    proof {
        assert(admins@ =~= seq![admin]);
    }
    governance.multisig_admins = Some(admins);
    governance.multisig_threshold = DEFAULT_MULTISIG_THRESHOLD;
    Ok(())
}

/// Creates a proposal and returns its id.
///
/// A missing voting period, timelock or threshold takes its default: seven
/// days, two days, 50%. A threshold above 100% is refused with
/// `InvalidProposal`. A refused proposal changes nothing.
pub fn create_proposal(
    governance: &mut Governance,
    proposer: Address,
    proposal_type: ProposalType,
    description: String,
    voting_period: Option<u64>,
    execution_timelock: Option<u64>,
    voting_threshold: Option<i128>,
    now: u64,
) -> (r: Result<u64, GovernanceError>)
    ensures
        match old(governance)@.create_result(
            proposer,
            proposal_type,
            description,
            voting_period,
            execution_timelock,
            voting_threshold,
            now,
        ) {
            Ok((next, id)) => r == Ok::<u64, GovernanceError>(id) && final(governance)@ == next,
            Err(e) => r == Err::<u64, GovernanceError>(e) && final(governance)@ == old(governance)@,
        },
        old(governance)@.wf() ==> final(governance)@.wf(),
{
    let period = match voting_period {
        Some(v) => v,
        None => DEFAULT_VOTING_PERIOD,
    };
    let timelock = match execution_timelock {
        Some(v) => v,
        None => DEFAULT_EXECUTION_TIMELOCK,
    };
    let threshold = match voting_threshold {
        Some(v) => v,
        None => DEFAULT_VOTING_THRESHOLD,
    };
    if threshold > MAX_VOTING_THRESHOLD {
        return Err(GovernanceError::InvalidProposal);
    }
    let (id, voting_end, unlock) = match (
        governance.proposal_count.checked_add(1),
        now.checked_add(period),
        now.checked_add(timelock),
    ) {
        (Some(id), Some(voting_end), Some(unlock)) => (id, voting_end, unlock),
        _ => {
            return Err(GovernanceError::ArithmeticOverflow);
        },
    };
    let proposal = Proposal {
        id,
        proposer,
        proposal_type,
        status: ProposalStatus::Active,
        votes_for: 0,
        votes_against: 0,
        votes_abstain: 0,
        total_voting_power: 0,
        voting_start: now,
        voting_end,
        execution_timelock: unlock,
        voting_threshold: threshold,
    };
    governance.proposals.insert(id, proposal);
    governance.descriptions.insert(id, description);
    governance.proposal_count = id;
    Ok(id)
}

/// The vote of `voter` on proposal `proposal_id`, if one is on record.
pub fn get_vote(governance: &Governance, proposal_id: u64, voter: Address) -> (r: Option<Vote>)
    ensures
        r == vote_of(governance@.ballots, proposal_id, voter),
{
    let mut i: usize = 0;
    while i < governance.ballots.len()
        invariant
            i <= governance.ballots.len(),
            vote_among(governance.ballots@, i as nat, proposal_id, voter).is_none(),
        decreases governance.ballots.len() - i,
    {
        let ballot = governance.ballots[i];
        if ballot.proposal_id == proposal_id && ballot.voter == voter {
            proof {
                lemma_vote_among_stable(
                    governance.ballots@,
                    (i + 1) as nat,
                    governance.ballots@.len(),
                    proposal_id,
                    voter,
                );
            }
            return Some(ballot.vote);
        }
        i = i + 1;
    }
    None
}

/// Once a vote is found among the first `n` ballots, later ballots do not
/// change the answer.
pub proof fn lemma_vote_among_stable(
    ballots: Seq<Ballot>,
    n: nat,
    m: nat,
    proposal_id: u64,
    voter: Address,
)
    requires
        n <= m <= ballots.len(),
        vote_among(ballots, n, proposal_id, voter).is_some(),
    ensures
        vote_among(ballots, m, proposal_id, voter) == vote_among(ballots, n, proposal_id, voter),
    decreases m,
{
    if m > n {
        lemma_vote_among_stable(ballots, n, (m - 1) as nat, proposal_id, voter);
    }
}

/// Adding a ballot does not change what the earlier ballots say.
pub proof fn lemma_vote_among_push(
    ballots: Seq<Ballot>,
    ballot: Ballot,
    n: nat,
    proposal_id: u64,
    voter: Address,
)
    requires
        n <= ballots.len(),
    ensures
        vote_among(ballots.push(ballot), n, proposal_id, voter) == vote_among(
            ballots,
            n,
            proposal_id,
            voter,
        ),
    decreases n,
{
    if n > 0 {
        lemma_vote_among_push(ballots, ballot, (n - 1) as nat, proposal_id, voter);
        assert(ballots.push(ballot)[n - 1] == ballots[n - 1]);
    }
}

/// No vote is found among the first `n` ballots exactly when none of them
/// is by `voter` on `proposal_id`.
pub proof fn lemma_vote_among_none(ballots: Seq<Ballot>, n: nat, proposal_id: u64, voter: Address)
    requires
        n <= ballots.len(),
    ensures
        vote_among(ballots, n, proposal_id, voter).is_none() <==> forall|i: int|
            0 <= i < n ==> !((#[trigger] ballots[i]).proposal_id == proposal_id && ballots[i].voter
                == voter),
    decreases n,
{
    if n > 0 {
        lemma_vote_among_none(ballots, (n - 1) as nat, proposal_id, voter);
    }
}

/// The proposal with the given id.
pub fn get_proposal(governance: &Governance, proposal_id: u64) -> (r: Option<Proposal>)
    ensures
        r == (if governance@.proposals.contains_key(proposal_id) {
            Some(governance@.proposals[proposal_id])
        } else {
            None
        }),
{
    match governance.proposals.get(&proposal_id) {
        Some(proposal) => Some(*proposal),
        None => None,
    }
}

/// Casts `voter`'s vote on a proposal with the given voting power.
///
/// The power is taken as given. A refused vote changes nothing: neither
/// the tallies nor the ballots on record.
pub fn vote(
    governance: &mut Governance,
    voter: Address,
    proposal_id: u64,
    choice: Vote,
    voting_power: i128,
    now: u64,
) -> (r: Result<(), GovernanceError>)
    ensures
        match old(governance)@.vote_result(voter, proposal_id, choice, voting_power, now) {
            Ok(next) => r.is_ok() && final(governance)@ == next,
            Err(e) => r == Err::<(), _>(e) && final(governance)@ == old(governance)@,
        },
        old(governance)@.wf() ==> final(governance)@.wf(),
{
    if voting_power <= 0 {
        return Err(GovernanceError::InvalidVote);
    }
    let proposal = match get_proposal(governance, proposal_id) {
        Some(proposal) => proposal,
        None => {
            return Err(GovernanceError::ProposalNotFound);
        },
    };
    if get_vote(governance, proposal_id, voter).is_some() {
        return Err(GovernanceError::AlreadyVoted);
    }
    let next = proposal.tally(choice, voting_power, now)?;
    proof {
        lemma_vote_among_none(
            governance.ballots@,
            governance.ballots@.len(),
            proposal_id,
            voter,
        );
    }
    governance.proposals.insert(proposal_id, next);
    governance.ballots.push(Ballot { proposal_id, voter, vote: choice });
    Ok(())
}

/// Executes a passed proposal whose timelock has elapsed: applies its
/// change to the parameter store and marks it `Executed`.
///
/// Anyone may execute. A refused execution changes neither governance nor
/// the parameter store, so a proposal is never applied twice.
pub fn execute_proposal(
    governance: &mut Governance,
    store: &mut Option<RiskState>,
    executor: Address,
    proposal_id: u64,
    now: u64,
) -> (r: Result<(), GovernanceError>)
    ensures
        match old(governance)@.execute_result(*old(store), proposal_id, now) {
            Ok((next, state)) => r.is_ok() && final(governance)@ == next && *final(store) == Some(
                state,
            ),
            Err(e) => r == Err::<(), _>(e) && final(governance)@ == old(governance)@
                && *final(store) == *old(store),
        },
        old(governance)@.wf() ==> final(governance)@.wf(),
        crate::risk_management::store_wf(*old(store)) ==> crate::risk_management::store_wf(
            *final(store),
        ),
{
    let proposal = match get_proposal(governance, proposal_id) {
        Some(proposal) => proposal,
        None => {
            return Err(GovernanceError::ProposalNotFound);
        },
    };
    proposal.check_executable(now)?;
    let state = match proposal.proposal_type.apply(store) {
        Ok(state) => state,
        Err(e) => {
            return Err(GovernanceError::ExecutionFailed(e));
        },
    };
    let mut executed = proposal;
    executed.status = ProposalStatus::Executed;
    governance.proposals.insert(proposal_id, executed);
    *store = Some(state);
    Ok(())
}

/// Marks an active proposal failed once its voting period is over.
///
/// Refused, changing nothing, for a proposal that has passed, failed or
/// been executed, and while votes are still accepted.
pub fn mark_proposal_failed(governance: &mut Governance, proposal_id: u64, now: u64) -> (r: Result<
    (),
    GovernanceError,
>)
    ensures
        match old(governance)@.mark_failed_result(proposal_id, now) {
            Ok(next) => r.is_ok() && final(governance)@ == next,
            Err(e) => r == Err::<(), _>(e) && final(governance)@ == old(governance)@,
        },
        old(governance)@.wf() ==> final(governance)@.wf(),
{
    let proposal = match get_proposal(governance, proposal_id) {
        Some(proposal) => proposal,
        None => {
            return Err(GovernanceError::ProposalNotFound);
        },
    };
    let failed = proposal.mark_failed(now)?;
    governance.proposals.insert(proposal_id, failed);
    Ok(())
}

/// Whether `caller` is one of the multisig admins.
pub fn is_multisig_admin(governance: &Governance, caller: Address) -> (r: bool)
    ensures
        r == governance@.is_multisig_admin(caller),
{
    match &governance.multisig_admins {
        Some(admins) => contains_address(admins, caller),
        None => false,
    }
}

/// Replaces the multisig admins. Only a current multisig admin may do so;
/// anyone else gets `Unauthorized` and nothing changes.
pub fn set_multisig_admins(
    governance: &mut Governance,
    caller: Address,
    admins: Vec<Address>,
) -> (r: Result<(), GovernanceError>)
    ensures
        old(governance)@.is_multisig_admin(caller) ==> r.is_ok() && final(governance)@ == (
        GovernanceView { multisig_admins: Some(admins@), ..old(governance)@ }),
        !old(governance)@.is_multisig_admin(caller) ==> r == Err::<(), _>(
            GovernanceError::Unauthorized,
        ) && final(governance)@ == old(governance)@,
        old(governance)@.wf() ==> final(governance)@.wf(),
{
    if !is_multisig_admin(governance, caller) {
        return Err(GovernanceError::Unauthorized);
    }
    governance.multisig_admins = Some(admins);
    Ok(())
}

/// Sets how many approvals a multisig execution requires. Only a multisig
/// admin may do so; anyone else gets `Unauthorized` and nothing changes.
pub fn set_multisig_threshold(governance: &mut Governance, caller: Address, threshold: u32) -> (r:
    Result<(), GovernanceError>)
    ensures
        old(governance)@.is_multisig_admin(caller) ==> r.is_ok() && final(governance)@ == (
        GovernanceView { multisig_threshold: threshold, ..old(governance)@ }),
        !old(governance)@.is_multisig_admin(caller) ==> r == Err::<(), _>(
            GovernanceError::Unauthorized,
        ) && final(governance)@ == old(governance)@,
        old(governance)@.wf() ==> final(governance)@.wf(),
{
    if !is_multisig_admin(governance, caller) {
        return Err(GovernanceError::Unauthorized);
    }
    governance.multisig_threshold = threshold;
    Ok(())
}

/// The text under which [`propose_set_min_collateral_ratio`] files its
/// proposals.
pub open spec fn min_ratio_proposal_description() -> Seq<char> {
    "set_min_collateral_ratio"@
}

/// Creates, on behalf of a multisig admin, a standard proposal to set the
/// minimum collateral ratio to `new_ratio`, with the default voting period,
/// timelock and threshold. Anyone else gets `Unauthorized`.
pub fn propose_set_min_collateral_ratio(
    governance: &mut Governance,
    proposer: Address,
    new_ratio: i128,
    now: u64,
) -> (r: Result<u64, GovernanceError>)
    ensures
        !old(governance)@.is_multisig_admin(proposer) ==> r == Err::<u64, _>(
            GovernanceError::Unauthorized,
        ) && final(governance)@ == old(governance)@,
        old(governance)@.is_multisig_admin(proposer) ==> (match r {
            Ok(id) => {
                &&& final(governance)@.descriptions.contains_key(id)
                &&& final(governance)@.descriptions[id]@ == min_ratio_proposal_description()
                &&& old(governance)@.create_result(
                    proposer,
                    ProposalType::SetMinCollateralRatio(new_ratio),
                    final(governance)@.descriptions[id],
                    None,
                    None,
                    None,
                    now,
                ) == Ok::<_, GovernanceError>((final(governance)@, id))
            },
            Err(e) => {
                &&& final(governance)@ == old(governance)@
                &&& e == GovernanceError::ArithmeticOverflow
                &&& old(governance)@.proposal_count == u64::MAX || now + DEFAULT_VOTING_PERIOD
                    > u64::MAX
            },
        }),
        old(governance)@.wf() ==> final(governance)@.wf(),
{
    if !is_multisig_admin(governance, proposer) {
        return Err(GovernanceError::Unauthorized);
    }
    let description = "set_min_collateral_ratio".to_owned();
    create_proposal(
        governance,
        proposer,
        ProposalType::SetMinCollateralRatio(new_ratio),
        description,
        None,
        None,
        None,
        now,
    )
}

/// The admins who approved proposal `proposal_id`, in the order in which
/// they approved.
pub fn collect_approvers(governance: &Governance, proposal_id: u64) -> (r: Vec<Address>)
    ensures
        r@ == approvers_of(governance@.approvals, proposal_id),
{
    let mut approvers: Vec<Address> = Vec::new();
    let mut i: usize = 0;
    while i < governance.approvals.len()
        invariant
            i <= governance.approvals.len(),
            approvers@ == approvers_among(governance.approvals@, i as nat, proposal_id),
        decreases governance.approvals.len() - i,
    {
        let approval = governance.approvals[i];
        if approval.proposal_id == proposal_id {
            approvers.push(approval.approver);
        }
        i = i + 1;
    }
    approvers
}

/// Adding an approval does not change what the earlier approvals say.
pub proof fn lemma_approvers_among_push(
    approvals: Seq<Approval>,
    approval: Approval,
    n: nat,
    proposal_id: u64,
)
    requires
        n <= approvals.len(),
    ensures
        approvers_among(approvals.push(approval), n, proposal_id) == approvers_among(
            approvals,
            n,
            proposal_id,
        ),
    decreases n,
{
    if n > 0 {
        lemma_approvers_among_push(approvals, approval, (n - 1) as nat, proposal_id);
        assert(approvals.push(approval)[n - 1] == approvals[n - 1]);
    }
}

/// An admin is among the approvers found in the first `n` approvals exactly
/// when one of them is that admin's approval of `proposal_id`.
pub proof fn lemma_approvers_among_contains(
    approvals: Seq<Approval>,
    n: nat,
    proposal_id: u64,
    approver: Address,
)
    requires
        n <= approvals.len(),
    ensures
        approvers_among(approvals, n, proposal_id).contains(approver) <==> exists|i: int|
            0 <= i < n && #[trigger] approvals[i] == (Approval { proposal_id, approver }),
    decreases n,
{
    let target = Approval { proposal_id, approver };
    if n > 0 {
        lemma_approvers_among_contains(approvals, (n - 1) as nat, proposal_id, approver);
        let earlier = approvers_among(approvals, (n - 1) as nat, proposal_id);
        let last = approvals[n - 1];
        if last.proposal_id == proposal_id {
            let all = earlier.push(last.approver);
            assert(all[earlier.len() as int] == last.approver);
            if all.contains(approver) {
                let k = choose|k: int| 0 <= k < all.len() && all[k] == approver;
                if k < earlier.len() {
                    assert(earlier[k] == approver);
                    assert(earlier.contains(approver));
                } else {
                    assert(approvals[n - 1] == target);
                }
            }
            if exists|i: int| 0 <= i < n && #[trigger] approvals[i] == target {
                let i = choose|i: int| 0 <= i < n && #[trigger] approvals[i] == target;
                if i < n - 1 {
                    assert(earlier.contains(approver));
                    let k = choose|k: int| 0 <= k < earlier.len() && earlier[k] == approver;
                    assert(all[k] == approver);
                } else {
                    assert(all[earlier.len() as int] == approver);
                }
            }
        } else {
            if exists|i: int| 0 <= i < n && #[trigger] approvals[i] == target {
                let i = choose|i: int| 0 <= i < n && #[trigger] approvals[i] == target;
                assert(i < n - 1);
            }
        }
    } else {
        assert(!Seq::<Address>::empty().contains(approver));
    }
}

/// Records `approver`'s approval of a proposal.
///
/// Only a multisig admin may approve, only an existing proposal, and only
/// once: a repeat is refused with `AlreadyVoted`. A refused approval
/// changes nothing.
pub fn approve_proposal(governance: &mut Governance, approver: Address, proposal_id: u64) -> (r:
    Result<(), GovernanceError>)
    ensures
        match old(governance)@.approve_result(approver, proposal_id) {
            Ok(next) => r.is_ok() && final(governance)@ == next,
            Err(e) => r == Err::<(), _>(e) && final(governance)@ == old(governance)@,
        },
        old(governance)@.wf() ==> final(governance)@.wf(),
{
    if !is_multisig_admin(governance, approver) {
        return Err(GovernanceError::Unauthorized);
    }
    if get_proposal(governance, proposal_id).is_none() {
        return Err(GovernanceError::ProposalNotFound);
    }
    let approvers = collect_approvers(governance, proposal_id);
    if contains_address(&approvers, approver) {
        return Err(GovernanceError::AlreadyVoted);
    }
    proof {
        lemma_approvers_among_contains(
            governance.approvals@,
            governance.approvals@.len(),
            proposal_id,
            approver,
        );
    }
    governance.approvals.push(Approval { proposal_id, approver });
    Ok(())
}

/// Executes a proposal through the multisig: the executor must be a
/// multisig admin, enough admins must have approved, and the proposal must
/// on its own account have passed and be past its timelock.
///
/// A refused execution changes neither governance nor the parameter store.
pub fn execute_multisig_proposal(
    governance: &mut Governance,
    store: &mut Option<RiskState>,
    executor: Address,
    proposal_id: u64,
    now: u64,
) -> (r: Result<(), GovernanceError>)
    ensures
        match old(governance)@.execute_multisig_result(*old(store), executor, proposal_id, now) {
            Ok((next, state)) => r.is_ok() && final(governance)@ == next && *final(store) == Some(
                state,
            ),
            Err(e) => r == Err::<(), _>(e) && final(governance)@ == old(governance)@
                && *final(store) == *old(store),
        },
        old(governance)@.wf() ==> final(governance)@.wf(),
        crate::risk_management::store_wf(*old(store)) ==> crate::risk_management::store_wf(
            *final(store),
        ),
{
    if !is_multisig_admin(governance, executor) {
        return Err(GovernanceError::Unauthorized);
    }
    let approvers = collect_approvers(governance, proposal_id);
    if approvers.len() < governance.multisig_threshold as usize {
        return Err(GovernanceError::InsufficientApprovals);
    }
    execute_proposal(governance, store, executor, proposal_id, now)
}

/// The multisig admins, once governance is initialized.
pub fn get_multisig_admins(governance: &Governance) -> (r: Option<Vec<Address>>)
    ensures
        match r {
            Some(admins) => governance@.multisig_admins == Some(admins@),
            None => governance@.multisig_admins.is_none(),
        },
{
    match &governance.multisig_admins {
        Some(admins) => Some(copy_addresses(admins)),
        None => None,
    }
}

/// The number of approvals a multisig execution requires; one while
/// governance is not initialized.
pub fn get_multisig_threshold(governance: &Governance) -> (r: u32)
    ensures
        r == (if governance@.multisig_admins.is_some() {
            governance@.multisig_threshold
        } else {
            DEFAULT_MULTISIG_THRESHOLD
        }),
{
    if governance.multisig_admins.is_some() {
        governance.multisig_threshold
    } else {
        DEFAULT_MULTISIG_THRESHOLD
    }
}

/// The admins who approved a proposal, in the order in which they did, or
/// `None` while nobody has.
pub fn get_proposal_approvals(governance: &Governance, proposal_id: u64) -> (r: Option<
    Vec<Address>,
>)
    ensures
        match r {
            Some(approvers) => approvers@ == approvers_of(governance@.approvals, proposal_id)
                && approvers@.len() > 0,
            None => approvers_of(governance@.approvals, proposal_id).len() == 0,
        },
{
    let approvers = collect_approvers(governance, proposal_id);
    if approvers.len() == 0 {
        None
    } else {
        Some(approvers)
    }
}

impl Governance {
    /// Governance with no proposals and no admins.
    pub fn new() -> (governance: Governance)
        ensures
            governance@ == GovernanceView::empty(),
            governance@.wf(),
    {
        Governance {
            proposals: HashMap::new(),
            descriptions: HashMap::new(),
            proposal_count: 0,
            ballots: Vec::new(),
            multisig_admins: None,
            multisig_threshold: DEFAULT_MULTISIG_THRESHOLD,
            approvals: Vec::new(),
        }
    }

    /// Stores `proposal` under its own id, replacing what was on record.
    pub fn set_proposal(&mut self, proposal: Proposal)
        ensures
            final(self)@ == (GovernanceView {
                proposals: old(self)@.proposals.insert(proposal.id, proposal),
                ..old(self)@
            }),
    {
        self.proposals.insert(proposal.id, proposal);
    }
}

/// A voter whose vote on a proposal has been accepted cannot vote on it
/// again: the vote is on record, and every further vote by the same voter
/// on the same proposal is refused, with `AlreadyVoted` if it carries
/// positive power. A refused vote leaves tallies and ballots as they were.
pub proof fn law_second_vote_is_refused(
    governance: GovernanceView,
    voter: Address,
    proposal_id: u64,
    first: Vote,
    first_power: i128,
    first_now: u64,
    second: Vote,
    second_power: i128,
    second_now: u64,
)
    requires
        governance.vote_result(voter, proposal_id, first, first_power, first_now) is Ok,
    ensures
        ({
            let after = governance.vote_result(
                voter,
                proposal_id,
                first,
                first_power,
                first_now,
            ).unwrap();
            let again = after.vote_result(voter, proposal_id, second, second_power, second_now);
            &&& vote_of(after.ballots, proposal_id, voter) == Some(first)
            &&& again is Err
            &&& second_power > 0 ==> again == Err::<GovernanceView, _>(
                GovernanceError::AlreadyVoted,
            )
        }),
{
    let ballot = Ballot { proposal_id, voter, vote: first };
    lemma_vote_among_push(
        governance.ballots,
        ballot,
        governance.ballots.len(),
        proposal_id,
        voter,
    );
    assert(governance.ballots.push(ballot)[governance.ballots.len() as int] == ballot);
}

/// Whoever has a vote on record for a proposal is refused on every further
/// attempt to vote on it.
pub proof fn law_recorded_voter_is_refused(
    governance: GovernanceView,
    voter: Address,
    proposal_id: u64,
    vote: Vote,
    voting_power: i128,
    now: u64,
)
    requires
        vote_of(governance.ballots, proposal_id, voter) is Some,
    ensures
        governance.vote_result(voter, proposal_id, vote, voting_power, now) is Err,
{
}

/// Votes stay on record: an accepted vote, by whomever and on whichever
/// proposal, changes no vote recorded earlier.
pub proof fn law_votes_stay_on_record(
    governance: GovernanceView,
    recorded_voter: Address,
    recorded_proposal: u64,
    voter: Address,
    proposal_id: u64,
    vote: Vote,
    voting_power: i128,
    now: u64,
)
    requires
        vote_of(governance.ballots, recorded_proposal, recorded_voter) is Some,
        governance.vote_result(voter, proposal_id, vote, voting_power, now) is Ok,
    ensures
        vote_of(
            governance.vote_result(voter, proposal_id, vote, voting_power, now).unwrap().ballots,
            recorded_proposal,
            recorded_voter,
        ) == vote_of(governance.ballots, recorded_proposal, recorded_voter),
{
    let ballot = Ballot { proposal_id, voter, vote };
    let n = governance.ballots.len();
    lemma_vote_among_push(governance.ballots, ballot, n, recorded_proposal, recorded_voter);
    lemma_vote_among_stable(
        governance.ballots.push(ballot),
        n,
        n + 1,
        recorded_proposal,
        recorded_voter,
    );
}

/// A vote that is accepted adds its power to the matching tally and to the
/// total, and never takes a proposal out of `Passed`.
pub proof fn law_vote_adds_to_tally(proposal: Proposal, vote: Vote, voting_power: i128, now: u64)
    requires
        proposal.tallied(vote, voting_power, now) is Ok,
    ensures
        ({
            let next = proposal.tallied(vote, voting_power, now).unwrap();
            &&& next.tally_of(vote) == proposal.tally_of(vote) + voting_power
            &&& next.total_voting_power == proposal.total_voting_power + voting_power
            &&& now <= proposal.voting_end
            &&& next.status == ProposalStatus::Passed <==> proposal.status
                == ProposalStatus::Passed || next.threshold_met()
            &&& next.status == ProposalStatus::Active || next.status == ProposalStatus::Passed
        }),
{
}

/// A multisig execution succeeds only if both gates are open: the
/// approvals on record reach the multisig threshold, and the proposal has
/// passed the vote and is past its timelock. It also takes a multisig admin
/// to execute. Where any of these is missing the call fails, and a failed
/// call leaves every proposal as it was.
pub proof fn law_multisig_execution_needs_both_gates(
    governance: GovernanceView,
    store: Option<RiskState>,
    executor: Address,
    proposal_id: u64,
    now: u64,
)
    ensures
        governance.execute_multisig_result(store, executor, proposal_id, now) is Ok ==> {
            &&& governance.is_multisig_admin(executor)
            &&& approvers_of(governance.approvals, proposal_id).len()
                >= governance.multisig_threshold
            &&& governance.proposals.contains_key(proposal_id)
            &&& governance.proposals[proposal_id].status == ProposalStatus::Passed
            &&& now >= governance.proposals[proposal_id].execution_timelock
        },
        governance.is_multisig_admin(executor) && approvers_of(
            governance.approvals,
            proposal_id,
        ).len() < governance.multisig_threshold ==> governance.execute_multisig_result(
            store,
            executor,
            proposal_id,
            now,
        ) == Err::<(GovernanceView, RiskState), _>(GovernanceError::InsufficientApprovals),
        governance.proposals.contains_key(proposal_id) && (governance.proposals[proposal_id].status
            != ProposalStatus::Passed || now < governance.proposals[proposal_id].execution_timelock)
            ==> governance.execute_multisig_result(store, executor, proposal_id, now) is Err,
{
}

/// A proposal is executed at most once: after a successful execution it is
/// `Executed`, and every further attempt, direct or through the multisig,
/// fails without applying its change again.
pub proof fn law_executed_proposal_stays_executed(
    governance: GovernanceView,
    store: Option<RiskState>,
    proposal_id: u64,
    now: u64,
    later_store: Option<RiskState>,
    later_executor: Address,
    later: u64,
)
    requires
        governance.execute_result(store, proposal_id, now) is Ok,
    ensures
        ({
            let after = governance.execute_result(store, proposal_id, now).unwrap().0;
            &&& after.proposals[proposal_id].status == ProposalStatus::Executed
            &&& after.execute_result(later_store, proposal_id, later) == Err::<
                (GovernanceView, RiskState),
                _,
            >(GovernanceError::ProposalAlreadyExecuted)
            &&& after.execute_multisig_result(later_store, later_executor, proposal_id, later)
                is Err
        }),
{
}

/// An admin whose approval of a proposal has been accepted cannot approve
/// it again: the admin is among the approvers on record, and a further
/// approval by the same admin of the same proposal is refused, with
/// `AlreadyVoted` as long as the admin is still a multisig admin.
pub proof fn law_second_approval_is_refused(
    governance: GovernanceView,
    approver: Address,
    proposal_id: u64,
)
    requires
        governance.approve_result(approver, proposal_id) is Ok,
    ensures
        ({
            let after = governance.approve_result(approver, proposal_id).unwrap();
            &&& approvers_of(after.approvals, proposal_id) == approvers_of(
                governance.approvals,
                proposal_id,
            ).push(approver)
            &&& after.approve_result(approver, proposal_id) == Err::<GovernanceView, _>(
                GovernanceError::AlreadyVoted,
            )
        }),
{
    let approval = Approval { proposal_id, approver };
    let n = governance.approvals.len();
    lemma_approvers_among_push(governance.approvals, approval, n, proposal_id);
    let after = governance.approvals.push(approval);
    assert(after[n as int] == approval);
    let approvers = approvers_of(after, proposal_id);
    assert(approvers[approvers.len() - 1] == approver);
}

/// The approvers of a proposal are pairwise different, so their number is
/// the number of admins who approved it.
pub proof fn law_approvers_are_distinct(governance: GovernanceView, proposal_id: u64)
    requires
        governance.wf(),
    ensures
        approvers_of(governance.approvals, proposal_id).no_duplicates(),
{
    lemma_approvers_among_distinct(
        governance.approvals,
        governance.approvals.len(),
        proposal_id,
    );
}

/// Among distinct approvals, the approvers of a proposal found in the first
/// `n` are pairwise different.
pub proof fn lemma_approvers_among_distinct(approvals: Seq<Approval>, n: nat, proposal_id: u64)
    requires
        n <= approvals.len(),
        approvals_distinct(approvals),
    ensures
        approvers_among(approvals, n, proposal_id).no_duplicates(),
    decreases n,
{
    if n > 0 {
        lemma_approvers_among_distinct(approvals, (n - 1) as nat, proposal_id);
        let last = approvals[n - 1];
        if last.proposal_id == proposal_id {
            let earlier = approvers_among(approvals, (n - 1) as nat, proposal_id);
            lemma_approvers_among_contains(
                approvals,
                (n - 1) as nat,
                proposal_id,
                last.approver,
            );
            if earlier.contains(last.approver) {
                let i = choose|i: int|
                    0 <= i < n - 1 && #[trigger] approvals[i] == (Approval {
                        proposal_id,
                        approver: last.approver,
                    });
                assert(approvals[i] == approvals[n - 1]);
                assert(false);
            }
            let all = earlier.push(last.approver);
            assert forall|i: int, j: int|
                0 <= i < all.len() && 0 <= j < all.len() && i != j implies all[i] != all[j] by {
                if i < earlier.len() && j < earlier.len() {
                    assert(earlier[i] != earlier[j]);
                } else if i < earlier.len() {
                    assert(earlier[i] == all[i]);
                    assert(earlier.contains(all[i]));
                } else {
                    assert(earlier[j] == all[j]);
                    assert(earlier.contains(all[j]));
                }
            }
        }
    }
}

/// A proposal only ever moves forward: a vote can take it from `Active`
/// to `Passed`, the end of the voting period from `Active` to `Failed`, an
/// execution from `Passed` to `Executed`. Everything else about it but
/// tally and status stays as it was created.
pub proof fn law_status_moves_forward(
    governance: GovernanceView,
    store: Option<RiskState>,
    voter: Address,
    proposal_id: u64,
    vote: Vote,
    voting_power: i128,
    now: u64,
)
    requires
        governance.proposals.contains_key(proposal_id),
    ensures
        ({
            let before = governance.proposals[proposal_id];
            &&& governance.vote_result(voter, proposal_id, vote, voting_power, now) matches Ok(
                after,
            ) ==> before.status.may_become(after.proposals[proposal_id].status)
                && after.proposals[proposal_id].status != ProposalStatus::Failed
                && after.proposals[proposal_id].status != ProposalStatus::Executed
            &&& governance.mark_failed_result(proposal_id, now) matches Ok(after) ==> before.status
                == ProposalStatus::Active && after.proposals[proposal_id] == (Proposal {
                status: ProposalStatus::Failed,
                ..before
            })
            &&& governance.execute_result(store, proposal_id, now) matches Ok((after, _))
                ==> before.status == ProposalStatus::Passed && after.proposals[proposal_id] == (
            Proposal { status: ProposalStatus::Executed, ..before })
        }),
{
}

/// A proposal that has failed or has been executed does not change any
/// more: it takes no votes, cannot be marked failed and cannot be executed.
pub proof fn law_final_status_is_final(
    proposal: Proposal,
    vote: Vote,
    voting_power: i128,
    now: u64,
)
    requires
        proposal.status.is_final(),
    ensures
        proposal.tallied(vote, voting_power, now) is Err,
        proposal.marked_failed(now) is Err,
        proposal.executable(now) is Err,
{
}

/// Proposal ids are handed out in sequence: the first proposal gets id 1,
/// and each further one the id after the one before.
pub proof fn law_proposal_ids_are_sequential(
    governance: GovernanceView,
    proposer: Address,
    proposal_type: ProposalType,
    description: String,
    voting_period: Option<u64>,
    execution_timelock: Option<u64>,
    voting_threshold: Option<i128>,
    now: u64,
)
    requires
        governance.create_result(
            proposer,
            proposal_type,
            description,
            voting_period,
            execution_timelock,
            voting_threshold,
            now,
        ) is Ok,
    ensures
        ({
            let (after, id) = governance.create_result(
                proposer,
                proposal_type,
                description,
                voting_period,
                execution_timelock,
                voting_threshold,
                now,
            ).unwrap();
            &&& id == governance.proposal_count + 1
            &&& governance.proposal_count == 0 ==> id == 1
            &&& after.proposal_count == id
            &&& after.proposals.contains_key(id)
            &&& after.proposals[id].id == id
            &&& after.proposals[id].status == ProposalStatus::Active
            &&& after.proposals[id].total_voting_power == 0
            &&& after.proposals[id].voting_threshold <= MAX_VOTING_THRESHOLD
            &&& forall|other: u64|
                other != id ==> (after.proposals.contains_key(other)
                    == governance.proposals.contains_key(other) && (
                governance.proposals.contains_key(other) ==> after.proposals[other]
                    == governance.proposals[other]))
        }),
{
}

} // verus!
