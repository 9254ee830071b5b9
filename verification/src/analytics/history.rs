//! Historical metric snapshots, the linear TVL forecast, and metric
//! threshold alerts.

use vstd::prelude::*;
use crate::analytics::store::AnalyticsStore;
use crate::analytics::protocol::{
    calculate_weighted_avg_interest_rate, get_protocol_utilization, get_total_value_locked,
    rate_computable, rate_result, utilization_result,
};
use crate::analytics::types::{AnalyticsError, MetricAlertThreshold, MetricsSnapshot, TriggeredAlert};
use crate::numeric::{fits_i128, lemma_tdiv_exact, tdiv};
use crate::bounded::{keep_newest, law_keep_newest_bounded, trim_oldest};

verus! {

/// Most metric snapshots kept; the oldest go first.
pub const MAX_METRICS_HISTORY: usize = 90;
/// Most triggered alerts kept; the oldest go first.
pub const MAX_TRIGGERED_ALERTS: usize = 200;

/// A snapshot of the current real-time figures at time `now`.
pub open spec fn fresh_snapshot(store: AnalyticsStore, now: u64) -> Result<
    MetricsSnapshot,
    AnalyticsError,
> {
    let pa = store.protocol_analytics;
    match utilization_result(pa) {
        Err(e) => Err(e),
        Ok(u) => match rate_result(pa) {
            Err(e) => Err(e),
            Ok(rate) => Ok(
                MetricsSnapshot {
                    timestamp: now,
                    total_value_locked: pa.total_value_locked,
                    utilization_rate: u,
                    average_borrow_rate: rate,
                },
            ),
        },
    }
}

/// The value of the metric named `metric` in `snapshot`: "tvl",
/// "utilization" and "avg_rate" name the snapshot's figures; other names
/// name nothing.
pub open spec fn metric_value(metric: Seq<char>, snapshot: MetricsSnapshot) -> Option<i128> {
    if metric == "tvl"@ {
        Some(snapshot.total_value_locked)
    } else if metric == "utilization"@ {
        Some(snapshot.utilization_rate)
    } else if metric == "avg_rate"@ {
        Some(snapshot.average_borrow_rate)
    } else {
        None
    }
}

/// The alerts that `thresholds` raise on `snapshot`, in threshold order:
/// one for each threshold whose metric has a value at or above it.
pub open spec fn fired_alerts(thresholds: Seq<MetricAlertThreshold>, snapshot: MetricsSnapshot) -> Seq<
    TriggeredAlert,
>
    decreases thresholds.len(),
{
    if thresholds.len() == 0 {
        Seq::empty()
    } else {
        let earlier = fired_alerts(thresholds.drop_last(), snapshot);
        let t = thresholds.last();
        match metric_value(t.metric@, snapshot) {
            Some(v) => if v >= t.threshold {
                earlier.push(
                    TriggeredAlert {
                        metric: t.metric,
                        value: v,
                        threshold: t.threshold,
                        timestamp: snapshot.timestamp,
                    },
                )
            } else {
                earlier
            },
            None => earlier,
        }
    }
}

/// The names of the metrics of `alerts`, in order.
pub open spec fn alert_names(alerts: Seq<TriggeredAlert>) -> Seq<String> {
    alerts.map_values(|a: TriggeredAlert| a.metric)
}

/// The triggered-alert log after `alerts` fired: appended and bounded when
/// any fired, unchanged otherwise.
pub open spec fn log_alerts(log: Seq<TriggeredAlert>, alerts: Seq<TriggeredAlert>) -> Seq<
    TriggeredAlert,
> {
    if alerts.len() > 0 {
        keep_newest(log + alerts, MAX_TRIGGERED_ALERTS as int)
    } else {
        log
    }
}

/// The threshold that `alert` reports as crossed.
pub open spec fn alert_threshold(alert: TriggeredAlert) -> MetricAlertThreshold {
    MetricAlertThreshold { metric: alert.metric, threshold: alert.threshold }
}

/// The thresholds that `alerts` report as crossed, in order.
pub open spec fn crossed_by(alerts: Seq<TriggeredAlert>) -> Seq<MetricAlertThreshold> {
    alerts.map_values(|a: TriggeredAlert| alert_threshold(a))
}

/// Whether `crossed` holds the threshold of `alert`: the same metric at the
/// same threshold.
pub open spec fn was_crossed(crossed: Seq<MetricAlertThreshold>, alert: TriggeredAlert) -> bool {
    exists|i: int|
        0 <= i < crossed.len() && #[trigger] crossed[i].metric@ == alert.metric@
            && crossed[i].threshold == alert.threshold
}

/// Whether an alert's threshold is not among `crossed`.
pub open spec fn not_crossed(crossed: Seq<MetricAlertThreshold>) -> spec_fn(TriggeredAlert) -> bool {
    |a: TriggeredAlert| !was_crossed(crossed, a)
}

/// The alerts of `fired` whose threshold is newly crossed, that is, was not
/// among the thresholds `crossed` at the last check, in order.
pub open spec fn newly_crossed(fired: Seq<TriggeredAlert>, crossed: Seq<MetricAlertThreshold>) -> Seq<
    TriggeredAlert,
> {
    fired.filter(not_crossed(crossed))
}

/// Running least-squares sums `(Σx, Σy, Σxy, Σx²)` over the first `k`
/// points `(i, ys[i])`, or `None` when one of them leaves `i128` on the
/// way.
pub open spec fn ls_sums(ys: Seq<i128>, k: nat) -> Option<(int, int, int, int)>
    decreases k,
{
    if k == 0 {
        Some((0, 0, 0, 0))
    } else {
        match ls_sums(ys, (k - 1) as nat) {
            None => None,
            Some(t) => {
                let x = (k - 1) as int;
                let y = ys[k - 1] as int;
                if fits_i128(t.0 + x) && fits_i128(t.1 + y) && fits_i128(x * y) && fits_i128(
                    t.2 + x * y,
                ) && fits_i128(x * x) && fits_i128(t.3 + x * x) {
                    Some((t.0 + x, t.1 + y, t.2 + x * y, t.3 + x * x))
                } else {
                    None
                }
            },
        }
    }
}

/// The least-squares forecast from the sums of `n` points, the last value
/// `last_y`, `periods` intervals past the last point `target`: the line's
/// `slope * target + intercept`, over the common denominator,
/// `(slope_num * target * n + Σy * denom - slope_num * Σx) / (denom * n)`
/// with `denom = n Σx² - (Σx)²` and `slope_num = n Σxy - Σx Σy`, each step
/// checked against `i128`; the last value when `denom` is 0.
pub open spec fn forecast_from_sums(
    n: int,
    sums: (int, int, int, int),
    last_y: i128,
    periods: u32,
) -> Result<i128, AnalyticsError> {
    let (sx, sy, sxy, sxx) = sums;
    let n_sxx = n * sxx;
    let sx_sq = sx * sx;
    let denom = n_sxx - sx_sq;
    if !fits_i128(n_sxx) || !fits_i128(sx_sq) || !fits_i128(denom) {
        Err(AnalyticsError::Overflow)
    } else if denom == 0 {
        Ok(last_y)
    } else {
        let n_sxy = n * sxy;
        let sx_sy = sx * sy;
        let slope_num = n_sxy - sx_sy;
        let target = (n - 1) + periods;
        let slope_target = slope_num * target;
        let slope_target_n = slope_target * n;
        let sy_denom = sy * denom;
        let slope_sx = slope_num * sx;
        let intercept_num = sy_denom - slope_sx;
        let num = slope_target_n + intercept_num;
        let den = denom * n;
        if !fits_i128(n_sxy) || !fits_i128(sx_sy) || !fits_i128(slope_num) || !fits_i128(target)
            || !fits_i128(slope_target) || !fits_i128(slope_target_n) || !fits_i128(sy_denom)
            || !fits_i128(slope_sx)
            || !fits_i128(intercept_num) || !fits_i128(num) || !fits_i128(den) || den == 0
            || !fits_i128(tdiv(num, den)) {
            Err(AnalyticsError::Overflow)
        } else {
            Ok(tdiv(num, den) as i128)
        }
    }
}

/// The linear TVL forecast over values `ys`, `periods` intervals past the
/// last: `DataNotFound` with fewer than two values, `Overflow` when a step
/// leaves `i128`.
pub open spec fn forecast_of(ys: Seq<i128>, periods: u32) -> Result<i128, AnalyticsError> {
    if ys.len() < 2 {
        Err(AnalyticsError::DataNotFound)
    } else {
        match ls_sums(ys, ys.len()) {
            None => Err(AnalyticsError::Overflow),
            Some(t) => forecast_from_sums(ys.len() as int, t, ys.last(), periods),
        }
    }
}

/// The TVL of each snapshot, oldest first.
pub open spec fn tvl_values(history: Seq<MetricsSnapshot>) -> Seq<i128> {
    history.map_values(|s: MetricsSnapshot| s.total_value_locked)
}

/// The first index of `thresholds` whose metric is named `metric`.
pub open spec fn first_metric_index(thresholds: Seq<MetricAlertThreshold>, metric: Seq<char>) -> int {
    choose|i: int|
        0 <= i < thresholds.len() && thresholds[i].metric@ == metric && forall|j: int|
            0 <= j < i ==> #[trigger] thresholds[j].metric@ != metric
}

/// Whether some threshold of `thresholds` is for `metric`.
pub open spec fn has_metric(thresholds: Seq<MetricAlertThreshold>, metric: Seq<char>) -> bool {
    exists|i: int| 0 <= i < thresholds.len() && #[trigger] thresholds[i].metric@ == metric
}

/// `thresholds` with the first threshold for `t`'s metric replaced by `t`,
/// or `t` appended when there is none.
pub open spec fn upsert_threshold(thresholds: Seq<MetricAlertThreshold>, t: MetricAlertThreshold) -> Seq<
    MetricAlertThreshold,
> {
    if has_metric(thresholds, t.metric@) {
        thresholds.update(first_metric_index(thresholds, t.metric@), t)
    } else {
        thresholds.push(t)
    }
}

/// A running-sums step that fails leaves every later prefix failed too.
proof fn lemma_ls_sums_none_stays(ys: Seq<i128>, k: nat, m: nat)
    requires
        k <= m,
        ls_sums(ys, k) is None,
    ensures
        ls_sums(ys, m) is None,
    decreases m - k,
{
    if k < m {
        lemma_ls_sums_none_stays(ys, k, (m - 1) as nat);
    }
}

/// Record a snapshot of the current real-time figures at time `now` in the
/// bounded history, then check it against the alert thresholds (logging
/// the alerts whose threshold is newly crossed). On failure nothing changes.
pub fn record_metrics_snapshot(store: &mut AnalyticsStore, now: u64) -> (r: Result<
    MetricsSnapshot,
    AnalyticsError,
>)
    requires
        rate_computable(old(store).protocol_analytics),
    ensures
        r == fresh_snapshot(*old(store), now),
        r is Ok ==> {
            let fired = fired_alerts(old(store).alert_thresholds@, r->Ok_0);
            &&& final(store).metrics_history@ == keep_newest(
                old(store).metrics_history@.push(r->Ok_0),
                MAX_METRICS_HISTORY as int,
            )
            &&& final(store).triggered_alerts@ == log_alerts(
                old(store).triggered_alerts@,
                newly_crossed(fired, old(store).crossed_thresholds@),
            )
            &&& final(store).crossed_thresholds@ == crossed_by(fired)
            &&& old(store).well_formed() ==> final(store).well_formed()
            &&& *final(store) == (AnalyticsStore {
                metrics_history: final(store).metrics_history,
                triggered_alerts: final(store).triggered_alerts,
                crossed_thresholds: final(store).crossed_thresholds,
                ..*old(store)
            })
        },
        r is Err ==> *final(store) == *old(store),
{
    let tvl = get_total_value_locked(store)?;
    let utilization = get_protocol_utilization(store)?;
    let avg_rate = calculate_weighted_avg_interest_rate(store)?;
    let snapshot = MetricsSnapshot {
        timestamp: now,
        total_value_locked: tvl,
        utilization_rate: utilization,
        average_borrow_rate: avg_rate,
    };
    store.metrics_history.push(snapshot);
    trim_oldest(&mut store.metrics_history, MAX_METRICS_HISTORY);
    let _fired = check_metric_alerts_internal(store, &snapshot);
    proof {
        law_keep_newest_bounded(old(store).metrics_history@.push(snapshot), MAX_METRICS_HISTORY as int);
    }
    Ok(snapshot)
}

/// The bounded snapshot history, oldest first.
pub fn get_metrics_history(store: &AnalyticsStore) -> (r: Vec<MetricsSnapshot>)
    ensures
        r@ == store.metrics_history@,
{
    let mut out: Vec<MetricsSnapshot> = Vec::new();
    let mut i: usize = 0;
    while i < store.metrics_history.len()
        invariant
            i <= store.metrics_history.len(),
            out@ == store.metrics_history@.take(i as int),
        decreases store.metrics_history.len() - i,
    {
        out.push(store.metrics_history[i]);
        assert(out@ =~= store.metrics_history@.take(i + 1));
        i += 1;
    }
    assert(store.metrics_history@.take(store.metrics_history.len() as int) =~= store.metrics_history@);
    out
}

/// Forecast the TVL `periods_ahead` snapshot intervals past the last
/// snapshot by a least-squares line through the history (snapshot `i` at
/// `x = i`), rounded toward zero.
///
/// Fails with `DataNotFound` with fewer than two snapshots and with
/// `Overflow` when a step of the computation leaves `i128`.
pub fn forecast_tvl(store: &AnalyticsStore, periods_ahead: u32) -> (r: Result<i128, AnalyticsError>)
    ensures
        r == forecast_of(tvl_values(store.metrics_history@), periods_ahead),
{
    let history = get_metrics_history(store);
    let ghost ys = tvl_values(history@);
    if history.len() < 2 {
        return Err(AnalyticsError::DataNotFound);
    }
    let len = history.len();
    let n = len as i128;
    let mut sum_x: i128 = 0;
    let mut sum_y: i128 = 0;
    let mut sum_xy: i128 = 0;
    let mut sum_xx: i128 = 0;
    let mut i: usize = 0;
    while i < len
        invariant
            len == history.len(),
            len >= 2,
            ys.len() == len,
            history@ == store.metrics_history@,
            i <= len,
            ys == tvl_values(history@),
            ls_sums(ys, i as nat) == Some((sum_x as int, sum_y as int, sum_xy as int, sum_xx as int)),
        decreases len - i,
    {
        let x = i as i128;
        let y = history[i].total_value_locked;
        assert(ys[i as int] == y);
        let ghost overflow_ends = !(fits_i128(sum_x + x) && fits_i128(sum_y + y) && fits_i128(
            x * y,
        ) && fits_i128(sum_xy + x * y) && fits_i128(x * x) && fits_i128(sum_xx + x * x));
        proof {
            if overflow_ends {
                assert(ls_sums(ys, (i + 1) as nat) is None);
                lemma_ls_sums_none_stays(ys, (i + 1) as nat, len as nat);
                assert(forecast_of(ys, periods_ahead) == Err::<i128, AnalyticsError>(
                    AnalyticsError::Overflow,
                ));
            }
        }
        sum_x = match sum_x.checked_add(x) {
            Some(v) => v,
            None => return Err(AnalyticsError::Overflow),
        };
        sum_y = match sum_y.checked_add(y) {
            Some(v) => v,
            None => return Err(AnalyticsError::Overflow),
        };
        let xy = match x.checked_mul(y) {
            Some(v) => v,
            None => return Err(AnalyticsError::Overflow),
        };
        sum_xy = match sum_xy.checked_add(xy) {
            Some(v) => v,
            None => return Err(AnalyticsError::Overflow),
        };
        let xx = match x.checked_mul(x) {
            Some(v) => v,
            None => return Err(AnalyticsError::Overflow),
        };
        sum_xx = match sum_xx.checked_add(xx) {
            Some(v) => v,
            None => return Err(AnalyticsError::Overflow),
        };
        i += 1;
    }
    assert(ys.len() == len);
    let n_sum_xx = match n.checked_mul(sum_xx) {
        Some(v) => v,
        None => return Err(AnalyticsError::Overflow),
    };
    let sum_x_sq = match sum_x.checked_mul(sum_x) {
        Some(v) => v,
        None => return Err(AnalyticsError::Overflow),
    };
    let denom = match n_sum_xx.checked_sub(sum_x_sq) {
        Some(v) => v,
        None => return Err(AnalyticsError::Overflow),
    };
    if denom == 0 {
        assert(ys.last() == history[len - 1].total_value_locked);
        return Ok(history[len - 1].total_value_locked);
    }
    let n_sum_xy = match n.checked_mul(sum_xy) {
        Some(v) => v,
        None => return Err(AnalyticsError::Overflow),
    };
    let sum_x_sum_y = match sum_x.checked_mul(sum_y) {
        Some(v) => v,
        None => return Err(AnalyticsError::Overflow),
    };
    let slope_num = match n_sum_xy.checked_sub(sum_x_sum_y) {
        Some(v) => v,
        None => return Err(AnalyticsError::Overflow),
    };
    let last_x = (len - 1) as i128;
    let target_x = match last_x.checked_add(periods_ahead as i128) {
        Some(v) => v,
        None => return Err(AnalyticsError::Overflow),
    };
    let slope_times_target = match slope_num.checked_mul(target_x) {
        Some(v) => v,
        None => return Err(AnalyticsError::Overflow),
    };
    // Over the common denominator `denom * n`, the slope term carries `n`.
    let slope_times_target_n = match slope_times_target.checked_mul(n) {
        Some(v) => v,
        None => return Err(AnalyticsError::Overflow),
    };
    let sum_y_times_denom = match sum_y.checked_mul(denom) {
        Some(v) => v,
        None => return Err(AnalyticsError::Overflow),
    };
    let slope_num_times_sum_x = match slope_num.checked_mul(sum_x) {
        Some(v) => v,
        None => return Err(AnalyticsError::Overflow),
    };
    let intercept_num = match sum_y_times_denom.checked_sub(slope_num_times_sum_x) {
        Some(v) => v,
        None => return Err(AnalyticsError::Overflow),
    };
    let forecast_num = match slope_times_target_n.checked_add(intercept_num) {
        Some(v) => v,
        None => return Err(AnalyticsError::Overflow),
    };
    let forecast_denom = match denom.checked_mul(n) {
        Some(v) => v,
        None => return Err(AnalyticsError::Overflow),
    };
    match forecast_num.checked_div(forecast_denom) {
        Some(v) => Ok(v),
        None => Err(AnalyticsError::Overflow),
    }
}

/// Configure (or update) the alert threshold of `metric`: the first
/// threshold for that metric is replaced, or one is appended.
///
/// Fails with `NotInitialized` when no admin is set and with `Unauthorized`
/// unless `admin` is the admin; a failure changes nothing.
pub fn set_metric_alert_threshold(
    store: &mut AnalyticsStore,
    admin: &String,
    metric: String,
    threshold: i128,
) -> (r: Result<(), AnalyticsError>)
    ensures
        old(store).admin is None ==> r == Err::<(), AnalyticsError>(AnalyticsError::NotInitialized),
        old(store).admin is Some && old(store).admin->0@ != admin@ ==> r == Err::<
            (),
            AnalyticsError,
        >(AnalyticsError::Unauthorized),
        r is Err ==> *final(store) == *old(store),
        old(store).admin is Some && old(store).admin->0@ == admin@ ==> {
            &&& r is Ok
            &&& final(store).alert_thresholds@ == upsert_threshold(
                old(store).alert_thresholds@,
                MetricAlertThreshold { metric, threshold },
            )
            &&& old(store).well_formed() ==> final(store).well_formed()
            &&& *final(store) == (AnalyticsStore {
                alert_thresholds: final(store).alert_thresholds,
                ..*old(store)
            })
        },
{
    let configured_admin = match &store.admin {
        Some(a) => a,
        None => return Err(AnalyticsError::NotInitialized),
    };
    if *admin != *configured_admin {
        return Err(AnalyticsError::Unauthorized);
    }
    let ghost ts = store.alert_thresholds@;
    let ghost t = MetricAlertThreshold { metric, threshold };
    let mut i: usize = 0;
    while i < store.alert_thresholds.len()
        invariant
            i <= store.alert_thresholds.len(),
            *store == *old(store),
            old(store).admin is Some && old(store).admin->0@ == admin@,
            ts == old(store).alert_thresholds@,
            t == (MetricAlertThreshold { metric, threshold }),
            forall|j: int| 0 <= j < i ==> #[trigger] ts[j].metric@ != metric@,
        decreases store.alert_thresholds.len() - i,
    {
        if store.alert_thresholds[i].metric == metric {
            proof {
                assert(has_metric(ts, metric@));
                let k = first_metric_index(ts, metric@);
                if k != i {
                    assert(ts[i as int].metric@ == metric@);
                }
            }
            store.alert_thresholds.set(i, MetricAlertThreshold { metric, threshold });
            proof {
                if old(store).well_formed() {
                    law_threshold_set_is_unique(ts, t);
                }
            }
            return Ok(());
        }
        i += 1;
    }
    assert(!has_metric(ts, metric@));
    store.alert_thresholds.push(MetricAlertThreshold { metric, threshold });
    proof {
        if old(store).well_formed() {
            law_threshold_set_is_unique(ts, t);
        }
    }
    Ok(())
}

/// All configured alert thresholds.
pub fn get_metric_alert_thresholds(store: &AnalyticsStore) -> (r: Vec<MetricAlertThreshold>)
    ensures
        r@ == store.alert_thresholds@,
{
    let mut out: Vec<MetricAlertThreshold> = Vec::new();
    let mut i: usize = 0;
    while i < store.alert_thresholds.len()
        invariant
            i <= store.alert_thresholds.len(),
            out@ == store.alert_thresholds@.take(i as int),
        decreases store.alert_thresholds.len() - i,
    {
        out.push(store.alert_thresholds[i].clone());
        assert(out@ =~= store.alert_thresholds@.take(i + 1));
        i += 1;
    }
    assert(store.alert_thresholds@.take(store.alert_thresholds.len() as int) =~= store.alert_thresholds@);
    out
}

/// The bounded log of triggered alerts, oldest first.
pub fn get_triggered_alerts(store: &AnalyticsStore) -> (r: Vec<TriggeredAlert>)
    ensures
        r@ == store.triggered_alerts@,
{
    let mut out: Vec<TriggeredAlert> = Vec::new();
    let mut i: usize = 0;
    while i < store.triggered_alerts.len()
        invariant
            i <= store.triggered_alerts.len(),
            out@ == store.triggered_alerts@.take(i as int),
        decreases store.triggered_alerts.len() - i,
    {
        out.push(store.triggered_alerts[i].clone());
        assert(out@ =~= store.triggered_alerts@.take(i + 1));
        i += 1;
    }
    assert(store.triggered_alerts@.take(store.triggered_alerts.len() as int) =~= store.triggered_alerts@);
    out
}

/// The alerts that the configured thresholds raise on `snapshot`, in
/// threshold order.
pub fn fired_alerts_for(store: &AnalyticsStore, snapshot: &MetricsSnapshot) -> (r: Vec<
    TriggeredAlert,
>)
    ensures
        r@ == fired_alerts(store.alert_thresholds@, *snapshot),
{
    let ghost ts = store.alert_thresholds@;
    let tvl = String::from_str("tvl");
    let utilization = String::from_str("utilization");
    let avg_rate = String::from_str("avg_rate");
    let mut fired: Vec<TriggeredAlert> = Vec::new();
    let mut i: usize = 0;
    while i < store.alert_thresholds.len()
        invariant
            i <= store.alert_thresholds.len(),
            ts == store.alert_thresholds@,
            tvl@ == "tvl"@,
            utilization@ == "utilization"@,
            avg_rate@ == "avg_rate"@,
            fired@ == fired_alerts(ts.take(i as int), *snapshot),
        decreases store.alert_thresholds.len() - i,
    {
        proof {
            assert(ts.take(i + 1).drop_last() =~= ts.take(i as int));
            assert(ts.take(i + 1).last() == ts[i as int]);
        }
        let t = &store.alert_thresholds[i];
        let current_value: Option<i128> = if t.metric == tvl {
            Some(snapshot.total_value_locked)
        } else if t.metric == utilization {
            Some(snapshot.utilization_rate)
        } else if t.metric == avg_rate {
            Some(snapshot.average_borrow_rate)
        } else {
            None
        };
        match current_value {
            Some(value) => {
                if value >= t.threshold {
                    fired.push(
                        TriggeredAlert {
                            metric: t.metric.clone(),
                            value,
                            threshold: t.threshold,
                            timestamp: snapshot.timestamp,
                        },
                    );
                }
            },
            None => {},
        }
        i += 1;
    }
    assert(ts.take(ts.len() as int) =~= ts);
    fired
}

/// The metric names of `alerts`, in order.
pub fn names_of_alerts(alerts: &Vec<TriggeredAlert>) -> (r: Vec<String>)
    ensures
        r@ == alert_names(alerts@),
{
    let mut names: Vec<String> = Vec::new();
    let mut i: usize = 0;
    while i < alerts.len()
        invariant
            i <= alerts.len(),
            names@ == alert_names(alerts@).take(i as int),
        decreases alerts.len() - i,
    {
        names.push(alerts[i].metric.clone());
        assert(names@ =~= alert_names(alerts@).take(i + 1));
        i += 1;
    }
    assert(alert_names(alerts@).take(alerts.len() as int) =~= alert_names(alerts@));
    names
}

/// A snapshot of the current real-time figures at time `now`.
pub fn current_snapshot(store: &AnalyticsStore, now: u64) -> (r: Result<MetricsSnapshot, AnalyticsError>)
    requires
        rate_computable(store.protocol_analytics),
    ensures
        r == fresh_snapshot(*store, now),
{
    let tvl = get_total_value_locked(store)?;
    let utilization = get_protocol_utilization(store)?;
    let avg_rate = calculate_weighted_avg_interest_rate(store)?;
    Ok(
        MetricsSnapshot {
            timestamp: now,
            total_value_locked: tvl,
            utilization_rate: utilization,
            average_borrow_rate: avg_rate,
        },
    )
}

/// Whether `crossed` holds the threshold of `alert`.
fn threshold_was_crossed(crossed: &Vec<MetricAlertThreshold>, alert: &TriggeredAlert) -> (r: bool)
    ensures
        r == was_crossed(crossed@, *alert),
{
    let mut i: usize = 0;
    while i < crossed.len()
        invariant
            i <= crossed.len(),
            forall|j: int|
                0 <= j < i ==> !(#[trigger] crossed@[j].metric@ == alert.metric@
                    && crossed@[j].threshold == alert.threshold),
        decreases crossed.len() - i,
    {
        if crossed[i].metric == alert.metric && crossed[i].threshold == alert.threshold {
            return true;
        }
        i += 1;
    }
    false
}

/// The alerts of `fired` whose threshold is not among `crossed`, in order.
fn newly_crossed_alerts(fired: &Vec<TriggeredAlert>, crossed: &Vec<MetricAlertThreshold>) -> (r: Vec<
    TriggeredAlert,
>)
    ensures
        r@ == newly_crossed(fired@, crossed@),
{
    let ghost pred = not_crossed(crossed@);
    let mut out: Vec<TriggeredAlert> = Vec::new();
    let mut i: usize = 0;
    proof {
        reveal(Seq::filter);
        assert(fired@.take(0).filter(pred) =~= Seq::<TriggeredAlert>::empty());
    }
    while i < fired.len()
        invariant
            i <= fired.len(),
            pred == not_crossed(crossed@),
            out@ == fired@.take(i as int).filter(pred),
        decreases fired.len() - i,
    {
        let seen = threshold_was_crossed(crossed, &fired[i]);
        proof {
            reveal(Seq::filter);
            assert(fired@.take(i + 1).drop_last() =~= fired@.take(i as int));
            assert(fired@.take(i + 1).last() == fired@[i as int]);
            assert(seen == !pred(fired@[i as int]));
        }
        if !seen {
            out.push(fired[i].clone());
            assert(out@ =~= fired@.take(i + 1).filter(pred));
        } else {
            assert(out@ =~= fired@.take(i + 1).filter(pred));
        }
        i += 1;
    }
    assert(fired@.take(fired.len() as int) =~= fired@);
    out
}

/// The thresholds that `fired` reports as crossed, in order.
fn thresholds_crossed_by(fired: &Vec<TriggeredAlert>) -> (r: Vec<MetricAlertThreshold>)
    ensures
        r@ == crossed_by(fired@),
{
    let mut out: Vec<MetricAlertThreshold> = Vec::new();
    let mut i: usize = 0;
    while i < fired.len()
        invariant
            i <= fired.len(),
            out@ == crossed_by(fired@).take(i as int),
        decreases fired.len() - i,
    {
        out.push(
            MetricAlertThreshold { metric: fired[i].metric.clone(), threshold: fired[i].threshold },
        );
        assert(out@ =~= crossed_by(fired@).take(i + 1));
        i += 1;
    }
    assert(crossed_by(fired@).take(fired.len() as int) =~= crossed_by(fired@));
    out
}

/// Check `snapshot` against the configured thresholds: the names of the
/// metrics whose threshold it reaches are returned in threshold order; the
/// alerts whose threshold is newly crossed (not crossed at the last check)
/// are appended to the bounded triggered-alert log, and the thresholds
/// crossed now are remembered for the next check.
fn check_metric_alerts_internal(store: &mut AnalyticsStore, snapshot: &MetricsSnapshot) -> (r: Vec<
    String,
>)
    ensures
        ({
            let fired = fired_alerts(old(store).alert_thresholds@, *snapshot);
            &&& r@ == alert_names(fired)
            &&& final(store).triggered_alerts@ == log_alerts(
                old(store).triggered_alerts@,
                newly_crossed(fired, old(store).crossed_thresholds@),
            )
            &&& final(store).crossed_thresholds@ == crossed_by(fired)
        }),
        *final(store) == (AnalyticsStore {
            triggered_alerts: final(store).triggered_alerts,
            crossed_thresholds: final(store).crossed_thresholds,
            ..*old(store)
        }),
        old(store).triggered_alerts.len() <= MAX_TRIGGERED_ALERTS ==> final(store).triggered_alerts.len()
            <= MAX_TRIGGERED_ALERTS,
{
    let fired = fired_alerts_for(store, snapshot);
    let names = names_of_alerts(&fired);
    let fresh = newly_crossed_alerts(&fired, &store.crossed_thresholds);
    proof {
        law_keep_newest_bounded(old(store).triggered_alerts@ + fresh@, MAX_TRIGGERED_ALERTS as int);
    }
    if fresh.len() > 0 {
        let mut j: usize = 0;
        let ghost before = store.triggered_alerts@;
        while j < fresh.len()
            invariant
                j <= fresh.len(),
                store.triggered_alerts@ == before + fresh@.take(j as int),
                *store == (AnalyticsStore { triggered_alerts: store.triggered_alerts, ..*old(store) }),
            decreases fresh.len() - j,
        {
            store.triggered_alerts.push(fresh[j].clone());
            assert(store.triggered_alerts@ =~= before + fresh@.take(j + 1));
            j += 1;
        }
        assert(fresh@.take(fresh.len() as int) =~= fresh@);
        trim_oldest(&mut store.triggered_alerts, MAX_TRIGGERED_ALERTS);
    }
    store.crossed_thresholds = thresholds_crossed_by(&fired);
    names
}

/// Check the current real-time figures, at time `now`, against the
/// configured thresholds: the names of the metrics whose threshold is
/// reached are returned; only the thresholds newly crossed since the last
/// check are logged as alerts.
pub fn check_metric_alerts(store: &mut AnalyticsStore, now: u64) -> (r: Result<
    Vec<String>,
    AnalyticsError,
>)
    requires
        rate_computable(old(store).protocol_analytics),
    ensures
        match fresh_snapshot(*old(store), now) {
            Err(e) => r == Err::<Vec<String>, AnalyticsError>(e) && *final(store) == *old(store),
            Ok(s) => {
                let fired = fired_alerts(old(store).alert_thresholds@, s);
                &&& r is Ok
                &&& r->Ok_0@ == alert_names(fired)
                &&& final(store).triggered_alerts@ == log_alerts(
                    old(store).triggered_alerts@,
                    newly_crossed(fired, old(store).crossed_thresholds@),
                )
                &&& final(store).crossed_thresholds@ == crossed_by(fired)
                &&& old(store).well_formed() ==> final(store).well_formed()
                &&& *final(store) == (AnalyticsStore {
                    triggered_alerts: final(store).triggered_alerts,
                    crossed_thresholds: final(store).crossed_thresholds,
                    ..*old(store)
                })
            },
        },
{
    let snapshot = current_snapshot(store, now)?;
    Ok(check_metric_alerts_internal(store, &snapshot))
}

/// Filtering keeps nothing when no element passes.
proof fn lemma_filter_nothing_passes<A>(s: Seq<A>, pred: spec_fn(A) -> bool)
    requires
        forall|i: int| 0 <= i < s.len() ==> !pred(#[trigger] s[i]),
    ensures
        s.filter(pred).len() == 0,
    decreases s.len(),
{
    reveal(Seq::filter);
    if s.len() > 0 {
        assert(forall|i: int| 0 <= i < s.drop_last().len() ==> s.drop_last()[i] == s[i]);
        lemma_filter_nothing_passes(s.drop_last(), pred);
        assert(!pred(s[s.len() - 1]));
    }
}

/// Checking again with nothing changed logs nothing: once a check has
/// remembered the thresholds that its alerts cross, the same alerts are
/// not newly crossed, and the triggered-alert log stays as it is.
pub proof fn law_repeat_check_logs_nothing(log: Seq<TriggeredAlert>, fired: Seq<TriggeredAlert>)
    ensures
        newly_crossed(fired, crossed_by(fired)).len() == 0,
        log_alerts(log, newly_crossed(fired, crossed_by(fired))) == log,
{
    let crossed = crossed_by(fired);
    assert forall|i: int| 0 <= i < fired.len() implies !not_crossed(crossed)(#[trigger] fired[i]) by {
        assert(crossed[i].metric@ == fired[i].metric@);
        assert(was_crossed(crossed, fired[i]));
    }
    lemma_filter_nothing_passes(fired, not_crossed(crossed));
}

/// Whether no two thresholds of `thresholds` are for the same metric.
pub open spec fn metrics_unique(thresholds: Seq<MetricAlertThreshold>) -> bool {
    forall|i: int, j: int|
        0 <= i < j < thresholds.len() ==> #[trigger] thresholds[i].metric@ != #[trigger] thresholds[j].metric@
}

/// Setting a threshold keeps one threshold per metric: when the metrics
/// were distinct they stay distinct, and the metric's threshold is then the
/// one just set.
pub proof fn law_threshold_set_is_unique(thresholds: Seq<MetricAlertThreshold>, t: MetricAlertThreshold)
    requires
        metrics_unique(thresholds),
    ensures
        metrics_unique(upsert_threshold(thresholds, t)),
        has_metric(upsert_threshold(thresholds, t), t.metric@),
        forall|i: int|
            0 <= i < upsert_threshold(thresholds, t).len() && #[trigger] upsert_threshold(
                thresholds,
                t,
            )[i].metric@ == t.metric@ ==> upsert_threshold(thresholds, t)[i] == t,
{
    let r = upsert_threshold(thresholds, t);
    if has_metric(thresholds, t.metric@) {
        let w = choose|i: int| 0 <= i < thresholds.len() && #[trigger] thresholds[i].metric@ == t.metric@;
        assert(forall|j: int| 0 <= j < w ==> #[trigger] thresholds[j].metric@ != t.metric@);
        let k = first_metric_index(thresholds, t.metric@);
        assert(k == w);
        assert(r[k] == t);
    } else {
        assert(r[thresholds.len() as int] == t);
    }
}

/// Running sums over a history on the line `a + b·x`: `Σy = k·a + b·Σx`,
/// `Σxy = a·Σx + b·Σx²`, `2·Σx = k(k-1)` and `6·Σx² = (k-1)k(2k-1)`.
proof fn lemma_linear_sums(ys: Seq<i128>, a: int, b: int, k: nat)
    requires
        k <= ys.len(),
        forall|i: int| 0 <= i < ys.len() ==> ys[i] == a + b * i,
        ls_sums(ys, k) is Some,
    ensures
        ({
            let t = ls_sums(ys, k)->0;
            &&& t.1 == k * a + b * t.0
            &&& t.2 == a * t.0 + b * t.3
            &&& 2 * t.0 == k * (k - 1)
            &&& 6 * t.3 == (k - 1) * k * (2 * k - 1)
        }),
    decreases k,
{
    if k > 0 {
        let k1 = (k - 1) as nat;
        assert(ls_sums(ys, k1) is Some);
        lemma_linear_sums(ys, a, b, k1);
        let t = ls_sums(ys, k1)->0;
        let x = k1 as int;
        let y = ys[x] as int;
        assert(y == a + b * x);
        assert(ls_sums(ys, k) == Some((t.0 + x, t.1 + y, t.2 + x * y, t.3 + x * x)));
        assert(t.1 + y == k * a + b * (t.0 + x)) by (nonlinear_arith)
            requires
                t.1 == k1 * a + b * t.0,
                y == a + b * x,
                x == k1,
                k == k1 + 1,
        ;
        assert(t.2 + x * y == a * (t.0 + x) + b * (t.3 + x * x)) by (nonlinear_arith)
            requires
                t.2 == a * t.0 + b * t.3,
                y == a + b * x,
        ;
        assert(2 * (t.0 + x) == k * (k - 1)) by (nonlinear_arith)
            requires
                2 * t.0 == k1 * (k1 - 1),
                x == k1,
                k == k1 + 1,
        ;
        assert(6 * (t.3 + x * x) == (k - 1) * k * (2 * k - 1)) by (nonlinear_arith)
            requires
                6 * t.3 == (k1 - 1) * k1 * (2 * k1 - 1),
                x == k1,
                k == k1 + 1,
        ;
        let t2 = ls_sums(ys, k)->0;
        assert(t2.1 == k * a + b * t2.0);
        assert(t2.2 == a * t2.0 + b * t2.3);
        assert(2 * t2.0 == k * (k - 1));
        assert(6 * t2.3 == (k - 1) * k * (2 * k - 1));
    } else {
        assert(ls_sums(ys, k)->0 == (0int, 0int, 0int, 0int));
        assert(k * a == 0 && k * (k - 1) == 0 && (k - 1) * k * (2 * k - 1) == 0) by (nonlinear_arith)
            requires
                k == 0,
        ;
        assert(b * 0 == 0 && a * 0 == 0) by (nonlinear_arith);
    }
}

/// A history on a line forecasts the line: when the TVL of snapshot `i` is
/// `a + b·i` and the forecast can be computed, it is the line's value
/// `periods` intervals past the last snapshot.
pub proof fn law_linear_history_forecasts_line(ys: Seq<i128>, a: int, b: int, periods: u32)
    requires
        ys.len() >= 2,
        forall|i: int| 0 <= i < ys.len() ==> ys[i] == a + b * i,
        forecast_of(ys, periods) is Ok,
    ensures
        forecast_of(ys, periods)->Ok_0 == a + b * ((ys.len() - 1) + periods),
{
    let n = ys.len();
    assert(ls_sums(ys, n) is Some);
    lemma_linear_sums(ys, a, b, n);
    let t = ls_sums(ys, n)->0;
    let (sx, sy, sxy, sxx) = t;
    let nn = n as int;
    let denom = nn * sxx - sx * sx;
    assert(12 * denom == nn * nn * (nn - 1) * (nn + 1)) by (nonlinear_arith)
        requires
            denom == nn * sxx - sx * sx,
            2 * sx == nn * (nn - 1),
            6 * sxx == (nn - 1) * nn * (2 * nn - 1),
    ;
    assert(nn * nn * (nn - 1) * (nn + 1) > 0) by (nonlinear_arith)
        requires
            nn >= 2,
    ;
    let slope_num = nn * sxy - sx * sy;
    assert(slope_num == b * denom) by (nonlinear_arith)
        requires
            sy == nn * a + b * sx,
            sxy == a * sx + b * sxx,
            slope_num == nn * sxy - sx * sy,
            denom == nn * sxx - sx * sx,
    ;
    let target = (nn - 1) + periods;
    let num = slope_num * target * nn + (sy * denom - slope_num * sx);
    let den = denom * nn;
    let line = a + b * target;
    assert(sy * denom - slope_num * sx == nn * a * denom) by (nonlinear_arith)
        requires
            slope_num == b * denom,
            sy == nn * a + b * sx,
    ;
    assert(slope_num * target * nn == b * target * denom * nn) by (nonlinear_arith)
        requires
            slope_num == b * denom,
    ;
    assert(line * den == a * denom * nn + b * target * denom * nn) by (nonlinear_arith)
        requires
            line == a + b * target,
            den == denom * nn,
    ;
    assert(nn * a * denom == a * denom * nn) by (nonlinear_arith);
    assert(num == line * den);
    assert(den != 0) by (nonlinear_arith)
        requires
            12 * denom > 0,
            nn >= 2,
            den == denom * nn,
    ;
    lemma_tdiv_exact(line, den);
}

/// A flat history forecasts itself: when every snapshot has the same TVL
/// and the forecast can be computed, it is that TVL.
pub proof fn law_flat_history_forecasts_flat(ys: Seq<i128>, c: i128, periods: u32)
    requires
        ys.len() >= 2,
        forall|i: int| 0 <= i < ys.len() ==> ys[i] == c,
        forecast_of(ys, periods) is Ok,
    ensures
        forecast_of(ys, periods) == Ok::<i128, AnalyticsError>(c),
{
    assert forall|i: int| 0 <= i < ys.len() implies ys[i] == c + 0 * i by {
        assert(0 * i == 0);
    }
    law_linear_history_forecasts_line(ys, c as int, 0, periods);
    assert(0 * ((ys.len() - 1) + periods) == 0);
}

} // verus!
