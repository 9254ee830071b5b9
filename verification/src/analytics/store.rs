//! The contract storage that the analytics read and write.

use vstd::prelude::*;
use vstd::hash_map::StringHashMap;
use crate::analytics::collateral::{assets_unique, MAX_COLLATERAL_HISTORY, MAX_COLLATERAL_SNAPSHOTS};
use crate::analytics::history::{metrics_unique, MAX_METRICS_HISTORY, MAX_TRIGGERED_ALERTS};
use crate::analytics::types::{
    ActivityEntry, BudgetPlan, CollateralRatioSnapshot, CollateralRatioTrend,
    CollateralRiskThresholds, MetricAlertThreshold, MetricsSnapshot, Position,
    ProtocolAnalytics, ProtocolHealthScore, ProtocolMetrics, TriggeredAlert, UserAnalytics,
    UserMetrics,
};

verus! {

/// The most entries the activity log keeps; the oldest goes first.
pub const MAX_ACTIVITY_LOG_SIZE: usize = 10_000;

/// The contract storage seen by the analytics. Accounts are keyed by their
/// address text.
pub struct AnalyticsStore {
    /// Protocol totals kept by the deposit module (zeros when absent).
    pub protocol_analytics: ProtocolAnalytics,
    /// Positions kept by the deposit module.
    pub positions: StringHashMap<Position>,
    /// Per-user totals kept by the deposit module.
    pub user_analytics: StringHashMap<UserAnalytics>,
    /// The protocol admin kept by the governance module, once set.
    pub admin: Option<String>,
    /// Cached protocol metrics.
    pub protocol_metrics: Option<ProtocolMetrics>,
    /// Cached per-user metrics.
    pub user_metrics: StringHashMap<UserMetrics>,
    /// Bounded log of protocol activity, oldest first.
    pub activity_log: Vec<ActivityEntry>,
    /// Count of unique protocol users.
    pub total_users: u64,
    /// Count of all protocol transactions.
    pub total_transactions: u64,
    /// Cached composite protocol health score.
    pub protocol_health_score: Option<ProtocolHealthScore>,
    /// Bounded history of metric snapshots, oldest first.
    pub metrics_history: Vec<MetricsSnapshot>,
    /// Configured metric alert thresholds.
    pub alert_thresholds: Vec<MetricAlertThreshold>,
    /// Bounded log of triggered alerts, oldest first.
    pub triggered_alerts: Vec<TriggeredAlert>,
    /// The thresholds that the last alert check found crossed; an alert is
    /// logged only for a threshold that is not among them.
    pub crossed_thresholds: Vec<MetricAlertThreshold>,
    /// Bounded history of collateral ratio trends, oldest first.
    pub collateral_ratio_history: Vec<CollateralRatioTrend>,
    /// Current collateral ratio snapshot of each asset.
    pub collateral_ratio_snapshots: Vec<CollateralRatioSnapshot>,
    /// Configured collateral risk thresholds.
    pub collateral_risk_thresholds: Option<CollateralRiskThresholds>,
    /// Budget plans, by lender.
    pub budget_plans: StringHashMap<BudgetPlan>,
}

impl AnalyticsStore {
    /// The bounds and uniqueness that the analytics keep: every log within
    /// its bound, one collateral snapshot per asset and one alert
    /// threshold per metric.
    pub open spec fn well_formed(&self) -> bool {
        &&& self.activity_log.len() <= MAX_ACTIVITY_LOG_SIZE
        &&& self.metrics_history.len() <= MAX_METRICS_HISTORY
        &&& self.triggered_alerts.len() <= MAX_TRIGGERED_ALERTS
        &&& self.collateral_ratio_history.len() <= MAX_COLLATERAL_HISTORY
        &&& self.collateral_ratio_snapshots.len() <= MAX_COLLATERAL_SNAPSHOTS
        &&& assets_unique(self.collateral_ratio_snapshots@)
        &&& metrics_unique(self.alert_thresholds@)
    }

    /// Empty storage.
    pub fn new() -> (r: Self)
        ensures
            r.protocol_analytics == (ProtocolAnalytics {
                total_deposits: 0,
                total_borrows: 0,
                total_value_locked: 0,
            }),
            r.positions@ == Map::<Seq<char>, Position>::empty(),
            r.user_analytics@ == Map::<Seq<char>, UserAnalytics>::empty(),
            r.admin is None,
            r.protocol_metrics is None,
            r.user_metrics@ == Map::<Seq<char>, UserMetrics>::empty(),
            r.activity_log@.len() == 0,
            r.total_users == 0,
            r.total_transactions == 0,
            r.protocol_health_score is None,
            r.metrics_history@.len() == 0,
            r.alert_thresholds@.len() == 0,
            r.triggered_alerts@.len() == 0,
            r.crossed_thresholds@.len() == 0,
            r.collateral_ratio_history@.len() == 0,
            r.collateral_ratio_snapshots@.len() == 0,
            r.collateral_risk_thresholds is None,
            r.budget_plans@ == Map::<Seq<char>, BudgetPlan>::empty(),
            r.well_formed(),
    {
        AnalyticsStore {
            protocol_analytics: ProtocolAnalytics {
                total_deposits: 0,
                total_borrows: 0,
                total_value_locked: 0,
            },
            positions: StringHashMap::new(),
            user_analytics: StringHashMap::new(),
            admin: None,
            protocol_metrics: None,
            user_metrics: StringHashMap::new(),
            activity_log: Vec::new(),
            total_users: 0,
            total_transactions: 0,
            protocol_health_score: None,
            metrics_history: Vec::new(),
            alert_thresholds: Vec::new(),
            triggered_alerts: Vec::new(),
            crossed_thresholds: Vec::new(),
            collateral_ratio_history: Vec::new(),
            collateral_ratio_snapshots: Vec::new(),
            collateral_risk_thresholds: None,
            budget_plans: StringHashMap::new(),
        }
    }

    /// The position kept for `user`, if any.
    pub open spec fn position_of(&self, user: Seq<char>) -> Option<Position> {
        if self.positions@.contains_key(user) {
            Some(self.positions@[user])
        } else {
            None
        }
    }

    /// The deposit-module totals kept for `user`, if any.
    pub open spec fn user_analytics_of(&self, user: Seq<char>) -> Option<UserAnalytics> {
        if self.user_analytics@.contains_key(user) {
            Some(self.user_analytics@[user])
        } else {
            None
        }
    }

    /// Store the position of `user`.
    pub fn set_position(&mut self, user: String, position: Position)
        ensures
            old(self).well_formed() ==> final(self).well_formed(),
            final(self).positions@ == old(self).positions@.insert(user@, position),
            *final(self) == (AnalyticsStore { positions: final(self).positions, ..*old(self) }),
    {
        self.positions.insert(user, position);
    }

    /// Store the deposit-module totals of `user`.
    pub fn set_user_analytics(&mut self, user: String, analytics: UserAnalytics)
        ensures
            old(self).well_formed() ==> final(self).well_formed(),
            final(self).user_analytics@ == old(self).user_analytics@.insert(user@, analytics),
            *final(self) == (AnalyticsStore {
                user_analytics: final(self).user_analytics,
                ..*old(self)
            }),
    {
        self.user_analytics.insert(user, analytics);
    }
}

} // verus!
