use stellarlend::analytics::activity::{
    get_activity_by_type, get_recent_activity, get_risk_distribution, get_user_activity_feed,
    get_volume_summary, record_activity,
};
use stellarlend::analytics::budget::{
    calculate_risk_adjusted_return, compare_budget_scenarios, create_budget_plan,
    get_allocation_strategies, get_budget_plan, project_yields,
};
use stellarlend::analytics::collateral::{
    classify_collateral_risk_level, get_all_collateral_ratio_history,
    get_collateral_ratio_history, get_collateral_ratio_snapshot, get_collateral_ratio_snapshots,
    get_collateral_risk_thresholds, record_collateral_ratio_snapshot,
    record_collateral_ratio_trend, set_collateral_risk_thresholds,
};
use stellarlend::analytics::history::{
    check_metric_alerts, forecast_tvl, get_metric_alert_thresholds, get_metrics_history,
    get_triggered_alerts, record_metrics_snapshot, set_metric_alert_threshold,
};
use stellarlend::analytics::protocol::{
    calculate_protocol_health_score, calculate_weighted_avg_interest_rate,
    get_protocol_health_score, get_protocol_stats, get_protocol_utilization,
    get_total_value_locked, score_capital_efficiency, score_rate_stability,
    update_protocol_metrics,
};
use stellarlend::analytics::reports::{
    generate_protocol_report, generate_user_report, get_dashboard_snapshot,
};
use stellarlend::analytics::simulation::{
    portfolio_risk_score, simulate_position_health, simulate_what_if,
};
use stellarlend::analytics::store::AnalyticsStore;
use stellarlend::analytics::types::{
    AnalyticsError, CollateralRiskThresholds, MetricsSnapshot, Position,
    PositionSimulationScenario, ProtocolAnalytics, UnifiedHealthSummary, UserAnalytics,
};
use stellarlend::analytics::users::{
    calculate_health_factor, calculate_multi_health_factors, calculate_user_risk_level,
    get_multi_user_activity_summaries, get_user_activity_summary, get_user_position_summary,
    update_user_metrics,
};

fn store_with(deposits: i128, borrows: i128, tvl: i128) -> AnalyticsStore {
    let mut store = AnalyticsStore::new();
    store.protocol_analytics = ProtocolAnalytics {
        total_deposits: deposits,
        total_borrows: borrows,
        total_value_locked: tvl,
    };
    store
}

fn position(collateral: i128, debt: i128) -> Position {
    Position { collateral, debt, borrow_interest: 0, last_accrual_time: 0 }
}

fn neutral() -> PositionSimulationScenario {
    PositionSimulationScenario {
        price_change_bps: 0,
        deposit_amount: 0,
        withdraw_amount: 0,
        borrow_amount: 0,
        repay_amount: 0,
    }
}

#[test]
fn utilization_and_rate_formulas() {
    let store = store_with(1_000_000, 800_000, 1_500_000);
    assert_eq!(get_total_value_locked(&store), Ok(1_500_000));
    assert_eq!(get_protocol_utilization(&store), Ok(8_000));
    assert_eq!(calculate_weighted_avg_interest_rate(&store), Ok(208));
    let idle = store_with(0, 0, 0);
    assert_eq!(get_protocol_utilization(&idle), Ok(0));
    assert_eq!(calculate_weighted_avg_interest_rate(&idle), Ok(0));
}

#[test]
fn protocol_metrics_are_cached() {
    let mut store = store_with(1_000, 500, 2_000);
    store.total_users = 3;
    store.total_transactions = 9;
    let m = update_protocol_metrics(&mut store, 42).unwrap();
    assert_eq!(m.utilization_rate, 5_000);
    assert_eq!(m.average_borrow_rate, 205);
    assert_eq!(m.total_users, 3);
    assert_eq!(m.total_transactions, 9);
    assert_eq!(m.last_update, 42);
    assert_eq!(store.protocol_metrics, Some(m));
    store.protocol_analytics.total_borrows = 900;
    assert_eq!(get_protocol_stats(&mut store, 50), Ok(m));
    let report = generate_protocol_report(&mut store, 60).unwrap();
    assert_eq!(report.timestamp, 60);
    assert_eq!(report.metrics.utilization_rate, 9_000);
}

#[test]
fn health_scores() {
    assert_eq!(score_capital_efficiency(8_000), 100);
    assert_eq!(score_capital_efficiency(3_500), 50);
    assert_eq!(score_capital_efficiency(9_500), 50);
    assert_eq!(score_capital_efficiency(-10), 0);
    assert_eq!(score_capital_efficiency(20_000), 0);
    assert_eq!(score_rate_stability(1_000), 100);
    assert_eq!(score_rate_stability(3_500), 50);
    assert_eq!(score_rate_stability(6_000), 0);
    let mut store = store_with(1_000, 800, 0);
    let m = get_protocol_stats(&mut store, 1).unwrap();
    let score = calculate_protocol_health_score(&mut store, &m, 2);
    assert_eq!(score.capital_efficiency_score, 100);
    assert_eq!(score.rate_stability_score, 100);
    assert_eq!(score.overall_score, 100);
    assert_eq!(score.component_weights_bps, (6_000, 4_000));
    assert_eq!(get_protocol_health_score(&mut store, 3), Ok(score));
    let mut fresh = store_with(1_000, 350, 0);
    let s = get_protocol_health_score(&mut fresh, 4).unwrap();
    assert_eq!(s.capital_efficiency_score, 50);
    assert_eq!(s.overall_score, 70);
    assert_eq!(fresh.protocol_health_score, Some(s));
}

#[test]
fn health_factor_and_risk_levels() {
    let mut store = AnalyticsStore::new();
    let alice = String::from("GALICE");
    let bob = String::from("GBOB");
    let carol = String::from("GCAROL");
    store.set_position(alice.clone(), position(15_000, 10_000));
    store.set_position(bob.clone(), position(500, 0));
    assert_eq!(calculate_health_factor(&store, &alice), Ok(15_000));
    assert_eq!(calculate_health_factor(&store, &bob), Ok(i128::MAX));
    assert_eq!(calculate_health_factor(&store, &carol), Err(AnalyticsError::DataNotFound));
    assert_eq!(get_user_position_summary(&store, &alice), Ok(position(15_000, 10_000)));
    let all = calculate_multi_health_factors(&store, &vec![alice.clone(), carol.clone()]);
    assert_eq!(all, vec![Ok(15_000), Err(AnalyticsError::DataNotFound)]);
    assert_eq!(calculate_user_risk_level(15_000), 1);
    assert_eq!(calculate_user_risk_level(12_000), 2);
    assert_eq!(calculate_user_risk_level(11_000), 3);
    assert_eq!(calculate_user_risk_level(10_500), 4);
    assert_eq!(calculate_user_risk_level(10_499), 5);
    assert_eq!(calculate_user_risk_level(i128::MIN), 5);
}

#[test]
fn user_activity_summary() {
    let mut store = AnalyticsStore::new();
    let alice = String::from("GALICE");
    let nobody = String::from("GNOBODY");
    store.set_position(alice.clone(), position(12_000, 10_000));
    store.set_user_analytics(
        alice.clone(),
        UserAnalytics {
            total_deposits: 25_000,
            total_borrows: 10_000,
            total_withdrawals: 1,
            total_repayments: 2,
            transaction_count: 4,
        },
    );
    let m = get_user_activity_summary(&store, &alice).unwrap();
    assert_eq!(m.health_factor, 12_000);
    assert_eq!(m.risk_level, 2);
    assert_eq!(m.activity_score, 425);
    assert_eq!(m.collateral, 12_000);
    assert_eq!(m.transaction_count, 4);
    assert_eq!(get_user_activity_summary(&store, &nobody), Err(AnalyticsError::DataNotFound));
    let both = get_multi_user_activity_summaries(&store, &vec![alice.clone(), nobody.clone()]);
    assert_eq!(both[0], Ok(m));
    assert_eq!(both[1], Err(AnalyticsError::DataNotFound));
    assert_eq!(update_user_metrics(&mut store, &alice), Ok(m));
    let report = generate_user_report(&store, &alice, 77).unwrap();
    assert_eq!(report.user, alice);
    assert_eq!(report.metrics, m);
    assert_eq!(report.timestamp, 77);
    assert!(report.recent_activities.is_empty());
}

fn log_activities(store: &mut AnalyticsStore) {
    let users = ["GA", "GB", "GA", "GC", "GA"];
    let kinds = ["deposit", "borrow", "repay", "deposit", "withdraw"];
    for i in 0..5 {
        record_activity(
            store,
            &String::from(users[i]),
            String::from(kinds[i]),
            (i as i128 + 1) * 100,
            None,
            i as u64,
        )
        .unwrap();
    }
}

#[test]
fn activity_log_pages_newest_first() {
    let mut store = AnalyticsStore::new();
    log_activities(&mut store);
    assert_eq!(store.total_transactions, 5);
    let recent = get_recent_activity(&store, 2, 1).unwrap();
    let amounts: Vec<i128> = recent.iter().map(|e| e.amount).collect();
    assert_eq!(amounts, vec![400, 300]);
    let all = get_recent_activity(&store, 100, 0).unwrap();
    assert_eq!(all.len(), 5);
    assert_eq!(all[0].amount, 500);
    assert!(get_recent_activity(&store, 3, 5).unwrap().is_empty());
    let all_but_newest = get_recent_activity(&store, u32::MAX, 1).unwrap();
    let amounts: Vec<i128> = all_but_newest.iter().map(|e| e.amount).collect();
    assert_eq!(amounts, vec![400, 300, 200, 100]);
    let feed = get_user_activity_feed(&store, &String::from("GA"), 2, 0).unwrap();
    let amounts: Vec<i128> = feed.iter().map(|e| e.amount).collect();
    assert_eq!(amounts, vec![500, 300]);
    let feed = get_user_activity_feed(&store, &String::from("GA"), 5, 1).unwrap();
    let amounts: Vec<i128> = feed.iter().map(|e| e.amount).collect();
    assert_eq!(amounts, vec![300, 100]);
    let deposits = get_activity_by_type(&store, &String::from("deposit"), 5).unwrap();
    let amounts: Vec<i128> = deposits.iter().map(|e| e.amount).collect();
    assert_eq!(amounts, vec![400, 100]);
    let one = get_activity_by_type(&store, &String::from("deposit"), 1).unwrap();
    assert_eq!(one.len(), 1);
    assert_eq!(one[0].amount, 400);
}

#[test]
fn activity_log_is_bounded() {
    let mut store = AnalyticsStore::new();
    let user = String::from("GU");
    for i in 0..10_001u64 {
        record_activity(&mut store, &user, String::from("deposit"), i as i128, None, i).unwrap();
    }
    assert_eq!(store.activity_log.len(), 10_000);
    assert_eq!(store.activity_log[0].amount, 1);
    assert_eq!(store.activity_log[9_999].amount, 10_000);
    assert_eq!(store.total_transactions, 10_001);
}

#[test]
fn risk_distribution_and_volume() {
    let mut store = AnalyticsStore::new();
    log_activities(&mut store);
    store.set_position(String::from("GA"), position(20_000, 10_000));
    store.set_position(String::from("GB"), position(10_000, 10_000));
    let summary = get_risk_distribution(&store);
    assert_eq!(summary.users_sampled, 3);
    assert_eq!(summary.level_1, 2);
    assert_eq!(summary.level_5, 1);
    assert_eq!(
        summary.level_1 + summary.level_2 + summary.level_3 + summary.level_4 + summary.level_5,
        summary.users_sampled
    );
    let volume = get_volume_summary(&store);
    assert_eq!(volume.total_deposit_volume, 500);
    assert_eq!(volume.total_borrow_volume, 200);
    assert_eq!(volume.total_repayment_volume, 300);
    assert_eq!(volume.total_withdrawal_volume, 500);
    assert_eq!(volume.total_liquidation_volume, 0);
    assert_eq!(volume.entry_count, 5);
}

#[test]
fn metrics_history_and_forecast() {
    let mut store = store_with(1_000, 0, 100);
    assert_eq!(forecast_tvl(&store, 1), Err(AnalyticsError::DataNotFound));
    for tvl in [100i128, 200, 300] {
        store.protocol_analytics.total_value_locked = tvl;
        record_metrics_snapshot(&mut store, tvl as u64).unwrap();
    }
    assert_eq!(get_metrics_history(&store).len(), 3);
    assert_eq!(forecast_tvl(&store, 1), Ok(400));
    assert_eq!(forecast_tvl(&store, 3), Ok(600));
    let mut flat = store_with(1_000, 0, 0);
    for i in 0..4u64 {
        flat.metrics_history.push(MetricsSnapshot {
            timestamp: i,
            total_value_locked: 777,
            utilization_rate: 0,
            average_borrow_rate: 0,
        });
    }
    assert_eq!(forecast_tvl(&flat, 10), Ok(777));
    let mut huge = store_with(1_000, 0, 0);
    for i in 0..2u64 {
        huge.metrics_history.push(MetricsSnapshot {
            timestamp: i,
            total_value_locked: i128::MAX,
            utilization_rate: 0,
            average_borrow_rate: 0,
        });
    }
    assert_eq!(forecast_tvl(&huge, 1), Err(AnalyticsError::Overflow));
}

#[test]
fn metrics_history_is_bounded() {
    let mut store = store_with(0, 0, 5);
    for i in 0..95u64 {
        record_metrics_snapshot(&mut store, i).unwrap();
    }
    let history = get_metrics_history(&store);
    assert_eq!(history.len(), 90);
    assert_eq!(history[0].timestamp, 5);
    assert_eq!(history[89].timestamp, 94);
}

#[test]
fn metric_alerts() {
    let mut store = store_with(1_000, 900, 5_000);
    let admin = String::from("GADMIN");
    assert_eq!(
        set_metric_alert_threshold(&mut store, &admin, String::from("tvl"), 1),
        Err(AnalyticsError::NotInitialized)
    );
    store.admin = Some(admin.clone());
    assert_eq!(
        set_metric_alert_threshold(&mut store, &String::from("GX"), String::from("tvl"), 1),
        Err(AnalyticsError::Unauthorized)
    );
    set_metric_alert_threshold(&mut store, &admin, String::from("tvl"), 10_000).unwrap();
    set_metric_alert_threshold(&mut store, &admin, String::from("utilization"), 8_000).unwrap();
    set_metric_alert_threshold(&mut store, &admin, String::from("bogus"), 0).unwrap();
    set_metric_alert_threshold(&mut store, &admin, String::from("tvl"), 4_000).unwrap();
    let thresholds = get_metric_alert_thresholds(&store);
    assert_eq!(thresholds.len(), 3);
    assert_eq!(thresholds[0].threshold, 4_000);
    let fired = check_metric_alerts(&mut store, 11).unwrap();
    assert_eq!(fired, vec![String::from("tvl"), String::from("utilization")]);
    let log = get_triggered_alerts(&store);
    assert_eq!(log.len(), 2);
    assert_eq!(log[1].value, 9_000);
    assert_eq!(log[1].threshold, 8_000);
    assert_eq!(log[1].timestamp, 11);
    // Nothing changed: both thresholds are still crossed, none newly.
    let again = check_metric_alerts(&mut store, 12).unwrap();
    assert_eq!(again, vec![String::from("tvl"), String::from("utilization")]);
    assert_eq!(get_triggered_alerts(&store).len(), 2);
    record_metrics_snapshot(&mut store, 13).unwrap();
    assert_eq!(get_triggered_alerts(&store).len(), 2);
    // The TVL threshold is raised out of reach, then lowered again: the
    // second crossing is new and logged.
    set_metric_alert_threshold(&mut store, &admin, String::from("tvl"), 6_000).unwrap();
    assert_eq!(check_metric_alerts(&mut store, 14).unwrap(), vec![String::from("utilization")]);
    assert_eq!(get_triggered_alerts(&store).len(), 2);
    set_metric_alert_threshold(&mut store, &admin, String::from("tvl"), 4_000).unwrap();
    assert_eq!(
        check_metric_alerts(&mut store, 15).unwrap(),
        vec![String::from("tvl"), String::from("utilization")]
    );
    let log = get_triggered_alerts(&store);
    assert_eq!(log.len(), 3);
    assert_eq!(log[2].metric, "tvl");
    assert_eq!(log[2].timestamp, 15);
}

#[test]
fn collateral_monitoring() {
    let mut store = AnalyticsStore::new();
    let xlm = String::from("XLM");
    let usdc = String::from("USDC");
    let s = record_collateral_ratio_snapshot(&mut store, xlm.clone(), 30_000, 15_000, 1, 2, 5)
        .unwrap();
    assert_eq!(s.health_factor, 20_000);
    assert_eq!(s.risk_level, "safe");
    record_collateral_ratio_snapshot(&mut store, usdc.clone(), 12_000, 10_000, 0, 0, 6).unwrap();
    let s2 = record_collateral_ratio_snapshot(&mut store, xlm.clone(), 10_000, 10_000, 0, 0, 7)
        .unwrap();
    assert_eq!(s2.risk_level, "critical");
    assert_eq!(get_collateral_ratio_snapshots(&store).len(), 2);
    assert_eq!(get_collateral_ratio_snapshot(&store, &xlm).unwrap().timestamp, 7);
    assert!(get_collateral_ratio_snapshot(&store, &String::from("BTC")).is_none());
    let free = record_collateral_ratio_snapshot(&mut store, String::from("ETH"), 1, 0, 0, 0, 8)
        .unwrap();
    assert_eq!(free.health_factor, i128::MAX);
    assert_eq!(classify_collateral_risk_level(&store, 15_000), "warning");
    assert_eq!(classify_collateral_risk_level(&store, 11_000), "danger");
    assert_eq!(get_collateral_risk_thresholds(&store).safe_threshold, 20_000);
    let admin = String::from("GADMIN");
    let custom = CollateralRiskThresholds {
        safe_threshold: 30_000,
        warning_threshold: 20_000,
        danger_threshold: 10_000,
    };
    assert_eq!(
        set_collateral_risk_thresholds(&mut store, &admin, custom),
        Err(AnalyticsError::NotInitialized)
    );
    store.admin = Some(admin.clone());
    assert_eq!(
        set_collateral_risk_thresholds(&mut store, &String::from("GX"), custom),
        Err(AnalyticsError::Unauthorized)
    );
    set_collateral_risk_thresholds(&mut store, &admin, custom).unwrap();
    assert_eq!(classify_collateral_risk_level(&store, 25_000), "warning");
    for i in 0..95u64 {
        let asset = if i % 2 == 0 { xlm.clone() } else { usdc.clone() };
        record_collateral_ratio_trend(&mut store, asset, 1, 0, 2, 3, 0, 0, i).unwrap();
    }
    assert_eq!(get_all_collateral_ratio_history(&store).len(), 90);
    let xs = get_collateral_ratio_history(&store, &xlm);
    assert_eq!(xs.len(), 45);
    assert!(xs.iter().all(|t| t.asset == xlm));
}

#[test]
fn collateral_snapshots_are_bounded() {
    let mut store = AnalyticsStore::new();
    for i in 0..105u64 {
        record_collateral_ratio_snapshot(&mut store, format!("A{}", i), 1, 1, 0, 0, i).unwrap();
    }
    let snaps = get_collateral_ratio_snapshots(&store);
    assert_eq!(snaps.len(), 100);
    assert_eq!(snaps[0].asset, "A5");
}

#[test]
fn dashboard_is_read_only() {
    let mut store = store_with(1_000, 900, 5_000);
    store.admin = Some(String::from("GADMIN"));
    set_metric_alert_threshold(&mut store, &String::from("GADMIN"), String::from("avg_rate"), 200)
        .unwrap();
    log_activities(&mut store);
    let d = get_dashboard_snapshot(&store, 99).unwrap();
    assert_eq!(d.protocol.utilization_rate, 9_000);
    assert_eq!(d.active_alerts, vec![String::from("avg_rate")]);
    assert_eq!(d.recent_activity.len(), 5);
    assert_eq!(d.generated_at, 99);
    assert!(store.protocol_metrics.is_none());
    assert!(store.triggered_alerts.is_empty());
}

#[test]
fn portfolio_risk() {
    let s = |hf: i128, debt: i128| Some(UnifiedHealthSummary { health_factor: hf, weighted_debt_value: debt });
    assert_eq!(portfolio_risk_score(None), Err(AnalyticsError::DataNotFound));
    assert_eq!(portfolio_risk_score(s(1_000, 0)), Ok(0));
    assert_eq!(portfolio_risk_score(s(20_000, 5)), Ok(0));
    assert_eq!(portfolio_risk_score(s(4_000, 5)), Ok(10_000));
    assert_eq!(portfolio_risk_score(s(10_000, 5)), Ok(5_000));
}

#[test]
fn what_if_simulation() {
    let r = simulate_what_if(20_000, 10_000, neutral()).unwrap();
    assert_eq!(r.initial_health_factor, 20_000);
    assert_eq!(r.simulated_health_factor, 20_000);
    assert_eq!(r.simulated_collateral, 20_000);
    assert_eq!(r.simulated_debt, 10_000);
    assert_eq!(r.initial_risk_level, 1);
    assert!(!r.is_liquidatable);
    assert_eq!(r.liquidation_price_drop_bps, 5_000);
    assert_eq!(r.max_withdrawable_amount, 10_000);
    assert_eq!(r.max_borrowable_amount, 10_000);
    let crash = PositionSimulationScenario { price_change_bps: -6_000, ..neutral() };
    let r = simulate_what_if(20_000, 10_000, crash).unwrap();
    assert_eq!(r.simulated_collateral, 8_000);
    assert_eq!(r.simulated_health_factor, 8_000);
    assert!(r.is_liquidatable);
    assert_eq!(r.simulated_risk_level, 5);
    let repay_all = PositionSimulationScenario { repay_amount: 50_000, ..neutral() };
    let r = simulate_what_if(20_000, 10_000, repay_all).unwrap();
    assert_eq!(r.simulated_debt, 0);
    assert_eq!(r.simulated_health_factor, i128::MAX);
    let mut store = AnalyticsStore::new();
    assert_eq!(
        simulate_position_health(&store, &String::from("GA"), neutral()),
        Err(AnalyticsError::DataNotFound)
    );
    store.set_position(String::from("GA"), position(5, 10));
    let r = simulate_position_health(&store, &String::from("GA"), neutral()).unwrap();
    assert_eq!(r.initial_health_factor, 5_000);
    assert_eq!(r.max_withdrawable_amount, 0);
}

#[test]
fn budget_planning() {
    let mut store = store_with(10_000, 9_000, 0);
    let lender = String::from("GLENDER");
    assert_eq!(
        create_budget_plan(&mut store, lender.clone(), 0, String::from("moderate"), 1),
        Err(AnalyticsError::InvalidParameter)
    );
    let plan =
        create_budget_plan(&mut store, lender.clone(), 1_000_000, String::from("conservative"), 3)
            .unwrap();
    assert_eq!(plan.allocated_deposit, 600_000);
    assert_eq!(plan.allocated_reserve, 400_000);
    assert_eq!(plan.expected_apy_bps, 302);
    assert_eq!(plan.projected_yield, 18_120);
    assert_eq!(
        plan.recommendations,
        vec![
            String::from("high_utilization_boost_yields"),
            String::from("consider_increasing_reserve"),
            String::from("diversify_across_pools"),
            String::from("compound_yields_regularly"),
        ]
    );
    assert_eq!(get_budget_plan(&store, &lender), Some(plan));
    assert!(get_budget_plan(&store, &String::from("GOTHER")).is_none());
    let p = project_yields(&store, 365_000, &String::from("aggressive"), 365).unwrap();
    assert_eq!(p.projected_return_conservative, 18_250);
    assert_eq!(p.projected_return_moderate, 29_200);
    assert_eq!(p.projected_return_aggressive, 43_800);
    assert_eq!(p.assumptions, "high_utilization_environment");
    assert_eq!(
        project_yields(&store, 1, &String::from("x"), 0).unwrap_err(),
        AnalyticsError::InvalidParameter
    );
    let strategies = get_allocation_strategies();
    assert_eq!(strategies.len(), 3);
    assert!(strategies.iter().all(|s| s.deposit_pct_bps + s.reserve_pct_bps == 10_000));
    assert_eq!(
        calculate_risk_adjusted_return(1_000_000, 500, &String::from("low")),
        Ok(25_000)
    );
    assert_eq!(
        calculate_risk_adjusted_return(1_000_000, 500, &String::from("high")),
        Ok(12_500)
    );
    assert_eq!(
        calculate_risk_adjusted_return(10_000, 1_000, &String::from("low")),
        Ok(500)
    );
    assert_eq!(
        calculate_risk_adjusted_return(10_000, 1_000, &String::from("medium")),
        Ok(333)
    );
    assert_eq!(
        calculate_risk_adjusted_return(0, 500, &String::from("high")),
        Err(AnalyticsError::InvalidParameter)
    );
    let scenarios = compare_budget_scenarios(&mut store, 100_000, 9).unwrap();
    let appetites: Vec<&str> = scenarios.iter().map(|p| p.risk_appetite.as_str()).collect();
    assert_eq!(appetites, vec!["conservative", "moderate", "aggressive"]);
    assert!(scenarios.iter().all(|p| p.allocated_deposit + p.allocated_reserve == 100_000));
    let placeholder = "_".repeat(70);
    assert_eq!(get_budget_plan(&store, &placeholder).unwrap().risk_appetite, "aggressive");
}

#[test]
fn analytics_error_codes_match_contract_numbering() {
    assert_eq!(AnalyticsError::NotInitialized.code(), 1);
    assert_eq!(AnalyticsError::InvalidParameter.code(), 2);
    assert_eq!(AnalyticsError::Overflow.code(), 3);
    assert_eq!(AnalyticsError::DataNotFound.code(), 4);
    assert_eq!(AnalyticsError::Unauthorized.code(), 5);
}
