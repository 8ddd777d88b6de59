//! The position ledger: who holds what, under which asset parameters, and
//! the bookkeeping that every lending operation ends with.

use std::collections::HashMap;
use vstd::prelude::*;
use crate::address::Address;
use crate::analytics::{Activity, ActivityKind, ProtocolAnalytics, UserAnalytics};
use crate::position::Position;
use crate::risk_management::{
    emergency_paused,
    operation_paused,
    require_not_paused,
    Operation,
    RiskManagementError,
    RiskState,
};

verus! {

/// Minimum collateral ratio applied while the parameter store has not been
/// initialized (150%).
pub const FALLBACK_MIN_COLLATERAL_RATIO: i128 = 15_000;

/// Collateral factor of an asset without parameters on record (100%).
pub const FULL_COLLATERAL_FACTOR: i128 = 10_000;

/// Why a lending operation was refused.
#[derive(Clone, Copy, Debug, PartialEq, Eq, Structural)]
pub enum LendingError {
    /// The amount is not positive, or exceeds the asset's deposit limit.
    InvalidAmount,
    /// The caller's balance does not cover the amount.
    InsufficientBalance,
    /// Deposits of the asset are switched off.
    AssetNotEnabled,
    /// The pause switch of the operation is on.
    OperationPaused(Operation),
    /// The emergency pause is on.
    EmergencyPaused,
    /// The position holds less collateral than the operation needs.
    InsufficientCollateral,
    /// The collateral ratio would fall below the minimum.
    InsufficientCollateralRatio,
    /// The debt would exceed what the collateral supports.
    MaxBorrowExceeded,
    /// There is neither principal nor interest to repay.
    NoDebt,
    /// A sum or product left the representable range.
    ArithmeticOverflow,
}

/// Parameters of one asset.
#[derive(Clone, Copy, Debug, PartialEq, Eq, Structural)]
pub struct AssetParams {
    pub deposit_enabled: bool,
    /// Share of the collateral that counts toward borrowing, in basis points.
    pub collateral_factor: i128,
    /// Largest single deposit; zero means unlimited.
    pub max_deposit: i128,
}

/// The ledger's stored state.
pub struct Ledger {
    /// Position of each user, by the user's id.
    pub positions: HashMap<u64, Position>,
    /// Parameters of each token asset, by the asset's id.
    pub asset_params: HashMap<u64, AssetParams>,
    /// Parameters of the native currency.
    pub native_params: Option<AssetParams>,
    /// Counters of each user, by the user's id.
    pub user_analytics: HashMap<u64, UserAnalytics>,
    /// Counters of the protocol; absent before the first operation.
    pub protocol_analytics: Option<ProtocolAnalytics>,
    /// Every successful operation, oldest first.
    pub activity_log: Vec<Activity>,
    /// Annual borrow rate in basis points.
    pub interest_rate_bps: i128,
}

/// The ledger as a mathematical value.
pub struct LedgerView {
    pub positions: Map<u64, Position>,
    pub asset_params: Map<u64, AssetParams>,
    pub native_params: Option<AssetParams>,
    pub user_analytics: Map<u64, UserAnalytics>,
    pub protocol_analytics: Option<ProtocolAnalytics>,
    pub activity_log: Seq<Activity>,
    pub interest_rate_bps: i128,
}

impl View for Ledger {
    type V = LedgerView;

    open spec fn view(&self) -> LedgerView {
        LedgerView {
            positions: self.positions@,
            asset_params: self.asset_params@,
            native_params: self.native_params,
            user_analytics: self.user_analytics@,
            protocol_analytics: self.protocol_analytics,
            activity_log: self.activity_log@,
            interest_rate_bps: self.interest_rate_bps,
        }
    }
}

/// What must hold before any lending operation proceeds: a positive amount,
/// the operation's switch off, and no emergency pause, examined in that
/// order.
pub open spec fn gate(risk: Option<RiskState>, operation: Operation, amount: i128) -> Result<
    (),
    LendingError,
> {
    if amount <= 0 {
        Err(LendingError::InvalidAmount)
    } else if operation_paused(risk, operation) {
        Err(LendingError::OperationPaused(operation))
    } else if emergency_paused(risk) {
        Err(LendingError::EmergencyPaused)
    } else {
        Ok(())
    }
}

/// The minimum collateral ratio that lending operations enforce: the one in
/// the parameter store, or 150% while the store is not initialized.
pub open spec fn min_ratio_in_force(risk: Option<RiskState>) -> i128 {
    match risk {
        Some(state) => state.config.min_collateral_ratio,
        None => FALLBACK_MIN_COLLATERAL_RATIO,
    }
}

impl LedgerView {
    /// The ledger with nothing on record, charging `interest_rate_bps` per
    /// year on debt.
    pub open spec fn empty(interest_rate_bps: i128) -> LedgerView {
        LedgerView {
            positions: Map::empty(),
            asset_params: Map::empty(),
            native_params: None,
            user_analytics: Map::empty(),
            protocol_analytics: None,
            activity_log: Seq::empty(),
            interest_rate_bps,
        }
    }

    /// Every position on record is well formed.
    pub open spec fn wf(self) -> bool {
        forall|id: u64| #[trigger] self.positions.contains_key(id) ==> self.positions[id].wf()
    }

    /// The position of `user`, or an empty one as of `now`.
    pub open spec fn position_of(self, user: Address, now: u64) -> Position {
        if self.positions.contains_key(user.id) {
            self.positions[user.id]
        } else {
            Position::empty_at(now)
        }
    }

    /// The parameters on record for `asset`, if any.
    pub open spec fn params_of(self, asset: Option<Address>) -> Option<AssetParams> {
        match asset {
            None => self.native_params,
            Some(token) => if self.asset_params.contains_key(token.id) {
                Some(self.asset_params[token.id])
            } else {
                None
            },
        }
    }

    /// The collateral factor of `asset`: the one on record, or 100%.
    pub open spec fn collateral_factor_of(self, asset: Option<Address>) -> i128 {
        match self.params_of(asset) {
            Some(params) => params.collateral_factor,
            None => FULL_COLLATERAL_FACTOR,
        }
    }

    /// The counters of `user` to start from.
    pub open spec fn analytics_of(self, user: Address, now: u64) -> UserAnalytics {
        UserAnalytics::or_fresh(
            if self.user_analytics.contains_key(user.id) {
                Some(self.user_analytics[user.id])
            } else {
                None
            },
            now,
        )
    }

    /// Whether the bookkeeping of an operation keeps all counters
    /// representable.
    pub open spec fn recording_fits(
        self,
        user: Address,
        kind: ActivityKind,
        amount: i128,
        position: Position,
        now: u64,
    ) -> bool {
        &&& self.analytics_of(user, now).recording_fits(kind, amount, position)
        &&& ProtocolAnalytics::or_zero(self.protocol_analytics).recording_fits(kind, amount)
    }

    /// The ledger after an operation of `kind` and `amount` by `user` that
    /// left the user with `position`: the position is stored, both sets of
    /// counters are updated, and the operation is appended to the log.
    /// Asset parameters and the interest rate stay as they are.
    pub open spec fn recorded(
        self,
        user: Address,
        asset: Option<Address>,
        kind: ActivityKind,
        amount: i128,
        position: Position,
        now: u64,
    ) -> LedgerView {
        LedgerView {
            positions: self.positions.insert(user.id, position),
            user_analytics: self.user_analytics.insert(
                user.id,
                self.analytics_of(user, now).recorded(kind, amount, position, now),
            ),
            protocol_analytics: Some(
                ProtocolAnalytics::or_zero(self.protocol_analytics).recorded(kind, amount),
            ),
            activity_log: self.activity_log.push(
                Activity { user, kind, amount, asset, timestamp: now },
            ),
            ..self
        }
    }
}

impl Ledger {
    /// An empty ledger that charges `interest_rate_bps` per year on debt.
    pub fn new(interest_rate_bps: i128) -> (ledger: Ledger)
        ensures
            ledger@ == LedgerView::empty(interest_rate_bps),
            ledger@.wf(),
    {
        Ledger {
            positions: HashMap::new(),
            asset_params: HashMap::new(),
            native_params: None,
            user_analytics: HashMap::new(),
            protocol_analytics: None,
            activity_log: Vec::new(),
            interest_rate_bps,
        }
    }

    /// The position on record for `user`.
    pub fn get_position(&self, user: Address) -> (r: Option<Position>)
        ensures
            r == (if self@.positions.contains_key(user.id) {
                Some(self@.positions[user.id])
            } else {
                None
            }),
    {
        match self.positions.get(&user.id) {
            Some(position) => Some(*position),
            None => None,
        }
    }

    /// The position of `user`, or an empty one as of `now`.
    pub fn position_or_new(&self, user: Address, now: u64) -> (p: Position)
        ensures
            p == self@.position_of(user, now),
    {
        match self.positions.get(&user.id) {
            Some(position) => *position,
            None => Position::new_at(now),
        }
    }

    /// Stores `position` for `user`, replacing what was on record.
    pub fn set_position(&mut self, user: Address, position: Position)
        ensures
            final(self)@ == (LedgerView {
                positions: old(self)@.positions.insert(user.id, position),
                ..old(self)@
            }),
            old(self)@.wf() && position.wf() ==> final(self)@.wf(),
    {
        self.positions.insert(user.id, position);
    }

    /// The parameters on record for `asset`.
    pub fn get_asset_params(&self, asset: Option<Address>) -> (r: Option<AssetParams>)
        ensures
            r == self@.params_of(asset),
    {
        match asset {
            None => self.native_params,
            Some(token) => match self.asset_params.get(&token.id) {
                Some(params) => Some(*params),
                None => None,
            },
        }
    }

    /// Stores the parameters of `asset`, replacing what was on record.
    pub fn set_asset_params(&mut self, asset: Option<Address>, params: AssetParams)
        ensures
            final(self)@ == (match asset {
                None => LedgerView { native_params: Some(params), ..old(self)@ },
                Some(token) => LedgerView {
                    asset_params: old(self)@.asset_params.insert(token.id, params),
                    ..old(self)@
                },
            }),
            final(self)@.params_of(asset) == Some(params),
            old(self)@.wf() ==> final(self)@.wf(),
    {
        match asset {
            None => {
                self.native_params = Some(params);
            },
            Some(token) => {
                self.asset_params.insert(token.id, params);
            },
        }
    }

    /// The collateral factor of `asset`: the one on record, or 100%.
    pub fn collateral_factor(&self, asset: Option<Address>) -> (factor: i128)
        ensures
            factor == self@.collateral_factor_of(asset),
    {
        match self.get_asset_params(asset) {
            Some(params) => params.collateral_factor,
            None => FULL_COLLATERAL_FACTOR,
        }
    }

    /// The counters on record for `user`.
    pub fn get_user_analytics(&self, user: Address) -> (r: Option<UserAnalytics>)
        ensures
            r == (if self@.user_analytics.contains_key(user.id) {
                Some(self@.user_analytics[user.id])
            } else {
                None
            }),
    {
        match self.user_analytics.get(&user.id) {
            Some(analytics) => Some(*analytics),
            None => None,
        }
    }

    /// Stores the counters of `user`, replacing what was on record.
    pub fn set_user_analytics(&mut self, user: Address, analytics: UserAnalytics)
        ensures
            final(self)@ == (LedgerView {
                user_analytics: old(self)@.user_analytics.insert(user.id, analytics),
                ..old(self)@
            }),
            old(self)@.wf() ==> final(self)@.wf(),
    {
        self.user_analytics.insert(user.id, analytics);
    }

    /// The counters of the protocol.
    pub fn get_protocol_analytics(&self) -> (r: Option<ProtocolAnalytics>)
        ensures
            r == self@.protocol_analytics,
    {
        self.protocol_analytics
    }

    /// Number of entries in the activity log.
    pub fn activity_count(&self) -> (n: usize)
        ensures
            n == self@.activity_log.len(),
    {
        self.activity_log.len()
    }

    /// The `index`-th entry of the activity log, oldest first.
    pub fn get_activity(&self, index: usize) -> (r: Option<Activity>)
        ensures
            r == (if index < self@.activity_log.len() {
                Some(self@.activity_log[index as int])
            } else {
                None
            }),
    {
        if index < self.activity_log.len() {
            Some(self.activity_log[index])
        } else {
            None
        }
    }

    /// Ends a successful operation: stores the position, updates the
    /// counters and appends to the log, or fails with `ArithmeticOverflow`
    /// and changes nothing when a counter would overflow.
    pub fn record(
        &mut self,
        user: Address,
        asset: Option<Address>,
        kind: ActivityKind,
        amount: i128,
        position: Position,
        now: u64,
    ) -> (r: Result<(), LendingError>)
        ensures
            old(self)@.recording_fits(user, kind, amount, position, now) ==> r.is_ok()
                && final(self)@ == old(self)@.recorded(user, asset, kind, amount, position, now),
            !old(self)@.recording_fits(user, kind, amount, position, now) ==> r == Err::<(), _>(
                LendingError::ArithmeticOverflow,
            ) && final(self)@ == old(self)@,
            old(self)@.wf() && position.wf() ==> final(self)@.wf(),
    {
        let user_before = match self.user_analytics.get(&user.id) {
            Some(analytics) => *analytics,
            None => UserAnalytics::new_at(now),
        };
        let protocol_before = match self.protocol_analytics {
            Some(analytics) => analytics,
            None => ProtocolAnalytics::new(),
        };
        let user_after = match user_before.record(kind, amount, &position, now) {
            Some(analytics) => analytics,
            None => {
                return Err(LendingError::ArithmeticOverflow);
            },
        };
        let protocol_after = match protocol_before.record(kind, amount) {
            Some(analytics) => analytics,
            None => {
                return Err(LendingError::ArithmeticOverflow);
            },
        };
        self.positions.insert(user.id, position);
        self.user_analytics.insert(user.id, user_after);
        self.protocol_analytics = Some(protocol_after);
        self.activity_log.push(Activity { user, kind, amount, asset, timestamp: now });
        Ok(())
    }
}

/// Checks the conditions common to all lending operations.
pub fn check_gate(risk: &Option<RiskState>, operation: Operation, amount: i128) -> (r: Result<
    (),
    LendingError,
>)
    ensures
        r == gate(*risk, operation, amount),
{
    if amount <= 0 {
        return Err(LendingError::InvalidAmount);
    }
    match require_not_paused(risk, operation) {
        Ok(_) => Ok(()),
        Err(RiskManagementError::OperationPaused) => Err(LendingError::OperationPaused(operation)),
        Err(_) => Err(LendingError::EmergencyPaused),
    }
}

/// The minimum collateral ratio that lending operations enforce.
pub fn min_collateral_ratio_in_force(risk: &Option<RiskState>) -> (ratio: i128)
    ensures
        ratio == min_ratio_in_force(*risk),
{
    match risk {
        Some(state) => state.config.min_collateral_ratio,
        None => FALLBACK_MIN_COLLATERAL_RATIO,
    }
}

/// The bookkeeping of an operation touches the records of one user only:
/// every other user keeps position and counters, no position is ever
/// removed, asset parameters and interest rate stay, and the log grows by
/// exactly one entry, at its end.
pub proof fn law_bookkeeping_touches_one_user(
    ledger: LedgerView,
    user: Address,
    asset: Option<Address>,
    kind: ActivityKind,
    amount: i128,
    position: Position,
    now: u64,
    other: Address,
)
    requires
        other != user,
    ensures
        ({
            let next = ledger.recorded(user, asset, kind, amount, position, now);
            &&& next.positions.contains_key(other.id) == ledger.positions.contains_key(other.id)
            &&& ledger.positions.contains_key(other.id) ==> next.positions[other.id]
                == ledger.positions[other.id]
            &&& next.user_analytics.contains_key(other.id) == ledger.user_analytics.contains_key(
                other.id,
            )
            &&& ledger.user_analytics.contains_key(other.id) ==> next.user_analytics[other.id]
                == ledger.user_analytics[other.id]
            &&& next.positions[user.id] == position
            &&& next.asset_params == ledger.asset_params
            &&& next.native_params == ledger.native_params
            &&& next.interest_rate_bps == ledger.interest_rate_bps
            &&& next.activity_log.len() == ledger.activity_log.len() + 1
            &&& next.activity_log.take(ledger.activity_log.len() as int) == ledger.activity_log
            &&& next.activity_log.last() == (Activity { user, kind, amount, asset, timestamp: now })
        }),
{
    let next = ledger.recorded(user, asset, kind, amount, position, now);
    assert(next.activity_log.take(ledger.activity_log.len() as int) =~= ledger.activity_log);
}

} // verus!
