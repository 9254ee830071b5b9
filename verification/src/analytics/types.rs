//! The analytics records, and the records of the lending modules that the
//! analytics read.

use vstd::prelude::*;

verus! {

/// Errors that can occur during analytics operations.
#[derive(Clone, Copy, Debug, PartialEq, Eq, PartialOrd, Ord, Structural)]
pub enum AnalyticsError {
    /// Analytics system has not been initialized
    NotInitialized,
    /// Invalid parameter supplied to an analytics function
    InvalidParameter,
    /// Arithmetic overflow during calculation
    Overflow,
    /// Requested data (user position, activity, etc.) was not found
    DataNotFound,
    /// Caller is not authorized to configure analytics (e.g. alert thresholds)
    Unauthorized,
}

impl AnalyticsError {
    /// The numeric code under which the contract reports this error.
    pub fn code(&self) -> (r: u32)
        ensures
            r == match *self {
                AnalyticsError::NotInitialized => 1u32,
                AnalyticsError::InvalidParameter => 2,
                AnalyticsError::Overflow => 3,
                AnalyticsError::DataNotFound => 4,
                AnalyticsError::Unauthorized => 5,
            },
    {
        match self {
            AnalyticsError::NotInitialized => 1,
            AnalyticsError::InvalidParameter => 2,
            AnalyticsError::Overflow => 3,
            AnalyticsError::DataNotFound => 4,
            AnalyticsError::Unauthorized => 5,
        }
    }
}

/// The keys under which the analytics keep their records in contract
/// storage; accounts are named by their address text.
#[derive(Debug, PartialEq, Eq)]
pub enum AnalyticsDataKey {
    ProtocolMetrics,
    UserMetrics(String),
    ActivityLog,
    TotalUsers,
    TotalTransactions,
    ProtocolHealthScore,
    MetricsHistory,
    AlertThresholds,
    TriggeredAlerts,
    CrossedThresholds,
    CollateralRatioHistory,
    CollateralRatioSnapshots,
    CollateralRiskThresholds,
    BudgetPlan(String),
}

/// Protocol-wide totals kept by the deposit module.
#[derive(Clone, Copy, Debug, PartialEq, Eq, Structural)]
pub struct ProtocolAnalytics {
    pub total_deposits: i128,
    pub total_borrows: i128,
    pub total_value_locked: i128,
}

/// Per-user totals kept by the deposit module.
#[derive(Clone, Copy, Debug, PartialEq, Eq, Structural)]
pub struct UserAnalytics {
    pub total_deposits: i128,
    pub total_borrows: i128,
    pub total_withdrawals: i128,
    pub total_repayments: i128,
    pub transaction_count: u64,
}

/// A user's position as kept by the deposit module.
#[derive(Clone, Copy, Debug, PartialEq, Eq, Structural)]
pub struct Position {
    pub collateral: i128,
    pub debt: i128,
    pub borrow_interest: i128,
    pub last_accrual_time: u64,
}

/// A user's health across assets, as the cross-asset module reports it.
#[derive(Clone, Copy, Debug, PartialEq, Eq, Structural)]
pub struct UnifiedHealthSummary {
    pub health_factor: i128,
    pub weighted_debt_value: i128,
}

/// Snapshot of protocol-wide metrics.
#[derive(Clone, Copy, Debug, PartialEq, Eq, Structural)]
pub struct ProtocolMetrics {
    /// Total value locked across all deposited collateral
    pub total_value_locked: i128,
    /// Cumulative deposit volume
    pub total_deposits: i128,
    /// Cumulative borrow volume
    pub total_borrows: i128,
    /// Current utilization rate in basis points (borrows / deposits * 10000)
    pub utilization_rate: i128,
    /// Weighted average borrow interest rate in basis points
    pub average_borrow_rate: i128,
    /// Number of unique protocol users
    pub total_users: u64,
    /// Total transaction count
    pub total_transactions: u64,
    /// Timestamp of last metrics update
    pub last_update: u64,
}

/// Per-user computed metrics.
#[derive(Clone, Copy, Debug, PartialEq, Eq, Structural)]
pub struct UserMetrics {
    pub collateral: i128,
    pub debt: i128,
    /// Health factor in basis points (collateral / debt * 10000)
    pub health_factor: i128,
    pub total_deposits: i128,
    pub total_borrows: i128,
    pub total_withdrawals: i128,
    pub total_repayments: i128,
    /// Transaction count * 100 + deposits / 1000
    pub activity_score: i128,
    /// Risk level from 1 (low) to 5 (critical), by health factor
    pub risk_level: i128,
    pub transaction_count: u64,
}

/// A single activity log entry.
#[derive(Debug, PartialEq, Eq)]
pub struct ActivityEntry {
    /// User who performed the activity
    pub user: String,
    /// Type of activity (e.g., "deposit", "borrow", "repay", "withdraw")
    pub activity_type: String,
    /// Amount involved in the activity
    pub amount: i128,
    /// Asset address (None for native XLM)
    pub asset: Option<String>,
    /// Ledger timestamp when activity occurred
    pub timestamp: u64,
    /// Additional metadata key-value pairs
    pub metadata: Vec<(String, i128)>,
}

/// The mathematical model of an `ActivityEntry`: texts by their characters.
pub struct ActivityEntryView {
    pub user: Seq<char>,
    pub activity_type: Seq<char>,
    pub amount: i128,
    pub asset: Option<Seq<char>>,
    pub timestamp: u64,
    pub metadata: Seq<(Seq<char>, i128)>,
}

/// The model of a metadata pair.
pub open spec fn metadata_pair_view(p: (String, i128)) -> (Seq<char>, i128) {
    (p.0@, p.1)
}

/// The model of optional text.
pub open spec fn opt_text_view(t: Option<String>) -> Option<Seq<char>> {
    match t {
        Some(s) => Some(s@),
        None => None,
    }
}

impl View for ActivityEntry {
    type V = ActivityEntryView;

    open spec fn view(&self) -> ActivityEntryView {
        ActivityEntryView {
            user: self.user@,
            activity_type: self.activity_type@,
            amount: self.amount,
            asset: opt_text_view(self.asset),
            timestamp: self.timestamp,
            metadata: self.metadata@.map_values(|p: (String, i128)| metadata_pair_view(p)),
        }
    }
}

/// The models of a sequence of entries.
pub open spec fn entries_view(s: Seq<ActivityEntry>) -> Seq<ActivityEntryView> {
    s.map_values(|e: ActivityEntry| e@)
}

/// The models of a sequence of texts.
pub open spec fn texts_view(s: Seq<String>) -> Seq<Seq<char>> {
    s.map_values(|t: String| t@)
}

/// A copy of optional text.
pub fn copy_opt_text(t: &Option<String>) -> (r: Option<String>)
    ensures
        r == *t,
{
    match t {
        Some(s) => Some(s.clone()),
        None => None,
    }
}

/// A copy of a list of texts.
pub fn copy_texts(v: &Vec<String>) -> (r: Vec<String>)
    ensures
        r@ == v@,
{
    let mut out: Vec<String> = Vec::new();
    let mut i: usize = 0;
    while i < v.len()
        invariant
            i <= v.len(),
            out@ == v@.take(i as int),
        decreases v.len() - i,
    {
        out.push(v[i].clone());
        assert(out@ =~= v@.take(i + 1));
        i += 1;
    }
    assert(v@.take(v.len() as int) =~= v@);
    out
}

impl Clone for ActivityEntry {
    fn clone(&self) -> (r: Self)
        ensures
            r@ == self@,
    {
        let mut metadata: Vec<(String, i128)> = Vec::new();
        let mut i: usize = 0;
        while i < self.metadata.len()
            invariant
                i <= self.metadata.len(),
                metadata@ == self.metadata@.take(i as int),
            decreases self.metadata.len() - i,
        {
            let key = self.metadata[i].0.clone();
            metadata.push((key, self.metadata[i].1));
            assert(metadata@ =~= self.metadata@.take(i + 1));
            i += 1;
        }
        assert(self.metadata@.take(self.metadata.len() as int) =~= self.metadata@);
        let r = ActivityEntry {
            user: self.user.clone(),
            activity_type: self.activity_type.clone(),
            amount: self.amount,
            asset: copy_opt_text(&self.asset),
            timestamp: self.timestamp,
            metadata,
        };
        assert(r.metadata@.map_values(|p: (String, i128)| metadata_pair_view(p))
            =~= self.metadata@.map_values(|p: (String, i128)| metadata_pair_view(p)));
        r
    }
}

/// Protocol-level analytics report.
#[derive(Clone, Copy, Debug, PartialEq, Eq, Structural)]
pub struct ProtocolReport {
    pub metrics: ProtocolMetrics,
    pub timestamp: u64,
}

/// User-level analytics report.
#[derive(Debug, PartialEq, Eq)]
pub struct UserReport {
    pub user: String,
    pub metrics: UserMetrics,
    pub position: Position,
    /// Most recent activities for this user, newest first
    pub recent_activities: Vec<ActivityEntry>,
    pub timestamp: u64,
}

/// Composite protocol health score, from utilization and average borrow
/// rate.
#[derive(Clone, Copy, Debug, PartialEq, Eq)]
pub struct ProtocolHealthScore {
    /// Overall composite score, 0-100.
    pub overall_score: i128,
    /// Capital-efficiency sub-score (0-100).
    pub capital_efficiency_score: i128,
    /// Rate-stability sub-score (0-100).
    pub rate_stability_score: i128,
    /// (capital efficiency weight, rate stability weight), summing to 10000.
    pub component_weights_bps: (i128, i128),
    pub last_update: u64,
}

/// A point-in-time snapshot of protocol-wide metrics.
#[derive(Clone, Copy, Debug, PartialEq, Eq, Structural)]
pub struct MetricsSnapshot {
    pub timestamp: u64,
    pub total_value_locked: i128,
    pub utilization_rate: i128,
    pub average_borrow_rate: i128,
}

/// A configured alert threshold for a named metric ("tvl", "utilization"
/// or "avg_rate"); the alert fires when the metric is at or above it.
#[derive(Debug, PartialEq, Eq)]
pub struct MetricAlertThreshold {
    pub metric: String,
    pub threshold: i128,
}

impl Clone for MetricAlertThreshold {
    fn clone(&self) -> (r: Self)
        ensures
            r == *self,
    {
        MetricAlertThreshold { metric: self.metric.clone(), threshold: self.threshold }
    }
}

/// A record of a triggered alert.
#[derive(Debug, PartialEq, Eq)]
pub struct TriggeredAlert {
    pub metric: String,
    pub value: i128,
    pub threshold: i128,
    pub timestamp: u64,
}

impl Clone for TriggeredAlert {
    fn clone(&self) -> (r: Self)
        ensures
            r == *self,
    {
        TriggeredAlert {
            metric: self.metric.clone(),
            value: self.value,
            threshold: self.threshold,
            timestamp: self.timestamp,
        }
    }
}

/// A snapshot of collateral ratio metrics for an asset.
#[derive(Debug, PartialEq, Eq)]
pub struct CollateralRatioSnapshot {
    pub asset: String,
    /// basis points
    pub current_ratio: i128,
    /// basis points
    pub required_ratio: i128,
    pub health_factor: i128,
    /// "safe", "warning", "danger" or "critical"
    pub risk_level: String,
    pub collateral_value: i128,
    pub debt_value: i128,
    pub timestamp: u64,
}

impl Clone for CollateralRatioSnapshot {
    fn clone(&self) -> (r: Self)
        ensures
            r == *self,
    {
        CollateralRatioSnapshot {
            asset: self.asset.clone(),
            current_ratio: self.current_ratio,
            required_ratio: self.required_ratio,
            health_factor: self.health_factor,
            risk_level: self.risk_level.clone(),
            collateral_value: self.collateral_value,
            debt_value: self.debt_value,
            timestamp: self.timestamp,
        }
    }
}

/// Historical trend data for collateral ratio monitoring.
#[derive(Debug, PartialEq, Eq)]
pub struct CollateralRatioTrend {
    pub asset: String,
    pub timestamp: u64,
    pub avg_health_factor: i128,
    pub min_health_factor: i128,
    pub max_health_factor: i128,
    pub position_count: u64,
    pub danger_count: u64,
    pub critical_count: u64,
}

impl Clone for CollateralRatioTrend {
    fn clone(&self) -> (r: Self)
        ensures
            r == *self,
    {
        CollateralRatioTrend {
            asset: self.asset.clone(),
            timestamp: self.timestamp,
            avg_health_factor: self.avg_health_factor,
            min_health_factor: self.min_health_factor,
            max_health_factor: self.max_health_factor,
            position_count: self.position_count,
            danger_count: self.danger_count,
            critical_count: self.critical_count,
        }
    }
}

/// Risk threshold configuration for collateral ratios.
#[derive(Clone, Copy, Debug, PartialEq, Eq, Structural)]
pub struct CollateralRiskThresholds {
    /// health factor >= this is safe
    pub safe_threshold: i128,
    /// health factor >= this is a warning
    pub warning_threshold: i128,
    /// health factor >= this is danger; below it, critical
    pub danger_threshold: i128,
}

/// Aggregated dashboard snapshot bundling all real-time dashboard panels.
#[derive(Debug, PartialEq, Eq)]
pub struct DashboardSnapshot {
    pub protocol: ProtocolMetrics,
    pub collateral_ratios: Vec<CollateralRatioSnapshot>,
    /// Metric names whose alert threshold is currently breached.
    pub active_alerts: Vec<String>,
    pub recent_activity: Vec<ActivityEntry>,
    pub generated_at: u64,
}

/// Per-user risk distribution across the users seen in the activity log.
#[derive(Clone, Copy, Debug, PartialEq, Eq, Structural)]
pub struct RiskDistributionSummary {
    pub users_sampled: u32,
    pub level_1: u32,
    pub level_2: u32,
    pub level_3: u32,
    pub level_4: u32,
    pub level_5: u32,
}

/// Volumes by activity type over the activity log.
#[derive(Clone, Copy, Debug, PartialEq, Eq, Structural)]
pub struct VolumeSummary {
    pub total_deposit_volume: i128,
    pub total_borrow_volume: i128,
    pub total_withdrawal_volume: i128,
    pub total_repayment_volume: i128,
    pub total_liquidation_volume: i128,
    pub entry_count: u32,
}

/// Scenario parameters for what-if position health simulation.
#[derive(Clone, Copy, Debug, PartialEq, Eq, Structural)]
pub struct PositionSimulationScenario {
    /// Change in collateral price in basis points (-2000 = -20%).
    pub price_change_bps: i128,
    pub deposit_amount: i128,
    pub withdraw_amount: i128,
    pub borrow_amount: i128,
    pub repay_amount: i128,
}

/// Result of a position health simulation.
#[derive(Clone, Copy, Debug, PartialEq, Eq, Structural)]
pub struct PositionSimulationResult {
    pub initial_collateral: i128,
    pub initial_debt: i128,
    pub simulated_collateral: i128,
    pub simulated_debt: i128,
    pub initial_health_factor: i128,
    pub simulated_health_factor: i128,
    pub initial_risk_level: i128,
    pub simulated_risk_level: i128,
    pub is_liquidatable: bool,
    pub liquidation_price_drop_bps: i128,
    pub max_withdrawable_amount: i128,
    pub max_borrowable_amount: i128,
}

/// A lender's budget plan.
#[derive(Debug, PartialEq, Eq)]
pub struct BudgetPlan {
    pub lender: String,
    pub total_budget: i128,
    pub risk_appetite: String,
    pub allocated_deposit: i128,
    pub allocated_reserve: i128,
    pub expected_apy_bps: i128,
    pub projected_yield: i128,
    pub recommendations: Vec<String>,
    pub created_at: u64,
}

/// The mathematical model of a `BudgetPlan`.
pub struct BudgetPlanView {
    pub lender: Seq<char>,
    pub total_budget: i128,
    pub risk_appetite: Seq<char>,
    pub allocated_deposit: i128,
    pub allocated_reserve: i128,
    pub expected_apy_bps: i128,
    pub projected_yield: i128,
    pub recommendations: Seq<Seq<char>>,
    pub created_at: u64,
}

impl View for BudgetPlan {
    type V = BudgetPlanView;

    open spec fn view(&self) -> BudgetPlanView {
        BudgetPlanView {
            lender: self.lender@,
            total_budget: self.total_budget,
            risk_appetite: self.risk_appetite@,
            allocated_deposit: self.allocated_deposit,
            allocated_reserve: self.allocated_reserve,
            expected_apy_bps: self.expected_apy_bps,
            projected_yield: self.projected_yield,
            recommendations: texts_view(self.recommendations@),
            created_at: self.created_at,
        }
    }
}

impl Clone for BudgetPlan {
    fn clone(&self) -> (r: Self)
        ensures
            r@ == self@,
    {
        BudgetPlan {
            lender: self.lender.clone(),
            total_budget: self.total_budget,
            risk_appetite: self.risk_appetite.clone(),
            allocated_deposit: self.allocated_deposit,
            allocated_reserve: self.allocated_reserve,
            expected_apy_bps: self.expected_apy_bps,
            projected_yield: self.projected_yield,
            recommendations: copy_texts(&self.recommendations),
            created_at: self.created_at,
        }
    }
}

/// Yield projections for the three risk profiles over a period.
#[derive(Debug, PartialEq, Eq)]
pub struct YieldProjection {
    pub period_days: u32,
    pub conservative_apy_bps: i128,
    pub moderate_apy_bps: i128,
    pub aggressive_apy_bps: i128,
    pub projected_return_conservative: i128,
    pub projected_return_moderate: i128,
    pub projected_return_aggressive: i128,
    pub assumptions: String,
}

/// A predefined allocation template for lenders.
#[derive(Debug, PartialEq, Eq)]
pub struct AllocationStrategy {
    pub strategy_name: String,
    pub deposit_pct_bps: i128,
    pub reserve_pct_bps: i128,
    pub expected_apy_bps: i128,
    pub risk_level: String,
    pub description: String,
}

} // verus!
