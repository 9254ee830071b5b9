//! Reports and the dashboard snapshot.

use vstd::prelude::*;
use crate::analytics::store::AnalyticsStore;
use crate::analytics::activity::{
    by_user, get_recent_activity, get_user_activity_feed, newest_page, DASHBOARD_ACTIVITY_LIMIT,
};
use crate::analytics::collateral::get_collateral_ratio_snapshots;
use crate::analytics::history::{alert_names, current_snapshot, fired_alerts, fired_alerts_for, fresh_snapshot, names_of_alerts};
use crate::analytics::protocol::{compute_protocol_metrics, current_metrics, rate_computable, update_protocol_metrics, fresh_metrics};
use crate::analytics::types::{
    entries_view, ActivityEntry, AnalyticsError, DashboardSnapshot, ProtocolReport, UserReport,
};
use crate::analytics::users::{get_user_activity_summary, get_user_position_summary};

verus! {

/// Entries of a user report's recent-activity panel.
pub const USER_REPORT_ACTIVITY_LIMIT: u32 = 10;

/// Recompute and cache the protocol metrics and report them with the time
/// `now`. On failure nothing changes.
pub fn generate_protocol_report(store: &mut AnalyticsStore, now: u64) -> (r: Result<
    ProtocolReport,
    AnalyticsError,
>)
    requires
        rate_computable(old(store).protocol_analytics),
    ensures
        match fresh_metrics(*old(store), now) {
            Ok(m) => r == Ok::<ProtocolReport, AnalyticsError>(
                ProtocolReport { metrics: m, timestamp: now },
            ) && *final(store) == (AnalyticsStore { protocol_metrics: Some(m), ..*old(store) }),
            Err(e) => r == Err::<ProtocolReport, AnalyticsError>(e) && *final(store)
                == *old(store),
        },
{
    let metrics = update_protocol_metrics(store, now)?;
    Ok(ProtocolReport { metrics, timestamp: now })
}

/// Report on `user` at time `now`: the activity summary, the position and
/// the user's newest activities, newest first.
///
/// Fails as the activity summary does, and with `DataNotFound` when the
/// user has no position.
pub fn generate_user_report(store: &AnalyticsStore, user: &String, now: u64) -> (r: Result<
    UserReport,
    AnalyticsError,
>)
    requires
        store.user_analytics_of(user@) is Some ==> store.user_health_computable(user@),
    ensures
        match store.user_summary(user@) {
            Err(e) => r == Err::<UserReport, AnalyticsError>(e),
            Ok(m) => match store.position_of(user@) {
                None => r == Err::<UserReport, AnalyticsError>(AnalyticsError::DataNotFound),
                Some(p) => {
                    let rep = r->Ok_0;
                    &&& r is Ok
                    &&& rep.user == *user
                    &&& rep.metrics == m
                    &&& rep.position == p
                    &&& entries_view(rep.recent_activities@) == newest_page(
                        store.log_view().filter(by_user(user@)),
                        0,
                        USER_REPORT_ACTIVITY_LIMIT as int,
                    )
                    &&& rep.timestamp == now
                },
            },
        },
{
    let metrics = get_user_activity_summary(store, user)?;
    let position = get_user_position_summary(store, user)?;
    let recent_activities = match get_user_activity_feed(
        store,
        user,
        USER_REPORT_ACTIVITY_LIMIT,
        0,
    ) {
        Ok(v) => v,
        Err(_) => Vec::new(),
    };
    Ok(
        UserReport {
            user: user.clone(),
            metrics,
            position,
            recent_activities,
            timestamp: now,
        },
    )
}

/// The dashboard at time `now`, read without changing anything: the
/// cached (or else fresh) protocol metrics, every collateral ratio
/// snapshot, the names of the metrics whose alert threshold the current
/// figures reach (none when they cannot be had), and the newest activity
/// entries, newest first.
///
/// Fails as the protocol metrics do.
pub fn get_dashboard_snapshot(store: &AnalyticsStore, now: u64) -> (r: Result<
    DashboardSnapshot,
    AnalyticsError,
>)
    requires
        rate_computable(store.protocol_analytics),
        store.activity_log.len() <= u32::MAX,
    ensures
        match current_metrics(*store, now) {
            Err(e) => r == Err::<DashboardSnapshot, AnalyticsError>(e),
            Ok(m) => {
                let d = r->Ok_0;
                &&& r is Ok
                &&& d.protocol == m
                &&& d.collateral_ratios@ == store.collateral_ratio_snapshots@
                &&& d.active_alerts@ == match fresh_snapshot(*store, now) {
                    Ok(s) => alert_names(fired_alerts(store.alert_thresholds@, s)),
                    Err(_) => Seq::empty(),
                }
                &&& entries_view(d.recent_activity@) == newest_page(
                    store.log_view(),
                    0,
                    DASHBOARD_ACTIVITY_LIMIT as int,
                )
                &&& d.generated_at == now
            },
        },
{
    let protocol = match store.protocol_metrics {
        Some(m) => m,
        None => compute_protocol_metrics(store, now)?,
    };
    let collateral_ratios = get_collateral_ratio_snapshots(store);
    let active_alerts = match current_snapshot(store, now) {
        Ok(snapshot) => {
            let fired = fired_alerts_for(store, &snapshot);
            names_of_alerts(&fired)
        },
        Err(_) => Vec::new(),
    };
    let recent_activity: Vec<ActivityEntry> = match get_recent_activity(
        store,
        DASHBOARD_ACTIVITY_LIMIT,
        0,
    ) {
        Ok(v) => v,
        Err(_) => Vec::new(),
    };
    Ok(
        DashboardSnapshot {
            protocol,
            collateral_ratios,
            active_alerts,
            recent_activity,
            generated_at: now,
        },
    )
}

} // verus!
