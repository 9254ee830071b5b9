//! Protocol-wide figures: total value locked, utilization, the average
//! borrow rate, the cached protocol metrics and the composite health score.

use vstd::prelude::*;
use crate::analytics::store::AnalyticsStore;
use crate::analytics::types::{AnalyticsError, ProtocolAnalytics, ProtocolHealthScore, ProtocolMetrics};
use crate::numeric::{fits_i128, lemma_tdiv_toward_zero, tdiv, BASIS_POINTS};

verus! {

/// Base of the average borrow rate, in basis points.
pub const BASE_BORROW_RATE_BPS: i128 = 200;
pub const BPS_DIVISOR: i128 = 10_000;
/// Utilization band considered efficient, in basis points.
pub const OPTIMAL_UTILIZATION_MIN_BPS: i128 = 7_000;
pub const OPTIMAL_UTILIZATION_MAX_BPS: i128 = 9_000;
/// Average borrow rate at or below which rates are fully healthy.
pub const HEALTHY_BORROW_RATE_BPS: i128 = 2_000;
/// Average borrow rate at or above which rate stability scores 0.
pub const STRESSED_BORROW_RATE_BPS: i128 = 5_000;
pub const CAPITAL_EFFICIENCY_WEIGHT_BPS: i128 = 6_000;
pub const RATE_STABILITY_WEIGHT_BPS: i128 = 4_000;

/// Whether the utilization of `pa` can be computed without leaving `i128`
/// (the contract aborts when it cannot).
pub open spec fn utilization_computable(pa: ProtocolAnalytics) -> bool {
    pa.total_deposits == 0 || fits_i128(pa.total_borrows * BASIS_POINTS)
}

/// Utilization in basis points: `borrows * 10000 / deposits`, or 0 without
/// deposits.
pub open spec fn utilization_result(pa: ProtocolAnalytics) -> Result<i128, AnalyticsError> {
    if pa.total_deposits == 0 {
        Ok(0)
    } else {
        let q = tdiv(pa.total_borrows * BASIS_POINTS, pa.total_deposits as int);
        if fits_i128(q) {
            Ok(q as i128)
        } else {
            Err(AnalyticsError::Overflow)
        }
    }
}

/// Whether the average borrow rate of `pa` can be computed without leaving
/// `i128`.
pub open spec fn rate_computable(pa: ProtocolAnalytics) -> bool {
    &&& utilization_computable(pa)
    &&& (pa.total_borrows != 0 && utilization_result(pa) is Ok) ==> fits_i128(
        utilization_result(pa)->Ok_0 * 10,
    )
}

/// Average borrow rate in basis points: `200 + utilization * 10 / 10000`,
/// or 0 without borrows.
pub open spec fn rate_result(pa: ProtocolAnalytics) -> Result<i128, AnalyticsError> {
    if pa.total_borrows == 0 {
        Ok(0)
    } else {
        match utilization_result(pa) {
            Ok(u) => Ok((BASE_BORROW_RATE_BPS + tdiv(u * 10, BASIS_POINTS as int)) as i128),
            Err(e) => Err(e),
        }
    }
}

/// Fresh protocol metrics from the store at time `now`.
pub open spec fn fresh_metrics(store: AnalyticsStore, now: u64) -> Result<
    ProtocolMetrics,
    AnalyticsError,
> {
    let pa = store.protocol_analytics;
    match utilization_result(pa) {
        Err(e) => Err(e),
        Ok(u) => match rate_result(pa) {
            Err(e) => Err(e),
            Ok(rate) => Ok(
                ProtocolMetrics {
                    total_value_locked: pa.total_value_locked,
                    total_deposits: pa.total_deposits,
                    total_borrows: pa.total_borrows,
                    utilization_rate: u,
                    average_borrow_rate: rate,
                    total_users: store.total_users,
                    total_transactions: store.total_transactions,
                    last_update: now,
                },
            ),
        },
    }
}

/// The cached protocol metrics, or fresh ones.
pub open spec fn current_metrics(store: AnalyticsStore, now: u64) -> Result<
    ProtocolMetrics,
    AnalyticsError,
> {
    match store.protocol_metrics {
        Some(m) => Ok(m),
        None => fresh_metrics(store, now),
    }
}

/// The capital-efficiency score of a utilization: 100 inside the optimal
/// band, falling linearly to 0 at 0% and at 100% utilization.
pub open spec fn capital_efficiency_score(utilization_bps: int) -> int {
    let u = if utilization_bps < 0 {
        0
    } else if utilization_bps > BPS_DIVISOR {
        BPS_DIVISOR as int
    } else {
        utilization_bps
    };
    if OPTIMAL_UTILIZATION_MIN_BPS <= u <= OPTIMAL_UTILIZATION_MAX_BPS {
        100
    } else if u < OPTIMAL_UTILIZATION_MIN_BPS {
        (u * 100) / (OPTIMAL_UTILIZATION_MIN_BPS as int)
    } else {
        let s = 100 - ((u - OPTIMAL_UTILIZATION_MAX_BPS) * 100) / ((BPS_DIVISOR
            - OPTIMAL_UTILIZATION_MAX_BPS) as int);
        if s < 0 {
            0
        } else {
            s
        }
    }
}

/// The rate-stability score of an average borrow rate: 100 at or below the
/// healthy ceiling, 0 at or above the stressed threshold, linear between.
pub open spec fn rate_stability_score(rate_bps: int) -> int {
    let r = if rate_bps < 0 {
        0
    } else {
        rate_bps
    };
    if r <= HEALTHY_BORROW_RATE_BPS {
        100
    } else if r >= STRESSED_BORROW_RATE_BPS {
        0
    } else {
        100 - ((r - HEALTHY_BORROW_RATE_BPS) * 100) / ((STRESSED_BORROW_RATE_BPS
            - HEALTHY_BORROW_RATE_BPS) as int)
    }
}

/// The composite score: the weighted mean of the two sub-scores.
pub open spec fn overall_score(capital_efficiency: int, rate_stability: int) -> int {
    (capital_efficiency * CAPITAL_EFFICIENCY_WEIGHT_BPS + rate_stability
        * RATE_STABILITY_WEIGHT_BPS) / (BPS_DIVISOR as int)
}

/// The health score of `metrics` at time `now`.
pub open spec fn health_score_of(metrics: ProtocolMetrics, now: u64) -> ProtocolHealthScore {
    let ce = capital_efficiency_score(metrics.utilization_rate as int);
    let rs = rate_stability_score(metrics.average_borrow_rate as int);
    ProtocolHealthScore {
        overall_score: overall_score(ce, rs) as i128,
        capital_efficiency_score: ce as i128,
        rate_stability_score: rs as i128,
        component_weights_bps: (CAPITAL_EFFICIENCY_WEIGHT_BPS, RATE_STABILITY_WEIGHT_BPS),
        last_update: now,
    }
}

/// The total value locked in the protocol.
pub fn get_total_value_locked(store: &AnalyticsStore) -> (r: Result<i128, AnalyticsError>)
    ensures
        r == Ok::<i128, AnalyticsError>(store.protocol_analytics.total_value_locked),
{
    Ok(store.protocol_analytics.total_value_locked)
}

/// The protocol utilization in basis points, `borrows * 10000 / deposits`
/// rounded toward zero, or 0 without deposits.
pub fn get_protocol_utilization(store: &AnalyticsStore) -> (r: Result<i128, AnalyticsError>)
    requires
        utilization_computable(store.protocol_analytics),
    ensures
        r == utilization_result(store.protocol_analytics),
{
    let pa = store.protocol_analytics;
    if pa.total_deposits == 0 {
        return Ok(0);
    }
    match (pa.total_borrows * BASIS_POINTS).checked_div(pa.total_deposits) {
        Some(u) => Ok(u),
        None => Err(AnalyticsError::Overflow),
    }
}

/// The average borrow rate in basis points, `200 + utilization * 10 / 10000`,
/// or 0 without borrows.
pub fn calculate_weighted_avg_interest_rate(store: &AnalyticsStore) -> (r: Result<
    i128,
    AnalyticsError,
>)
    requires
        rate_computable(store.protocol_analytics),
    ensures
        r == rate_result(store.protocol_analytics),
{
    if store.protocol_analytics.total_borrows == 0 {
        return Ok(0);
    }
    let utilization = get_protocol_utilization(store)?;
    proof {
        lemma_tdiv_toward_zero(utilization * 10, BASIS_POINTS as int);
    }
    let base_rate: i128 = BASE_BORROW_RATE_BPS;
    let rate = base_rate + (utilization * 10) / BASIS_POINTS;
    Ok(rate)
}

/// Fresh protocol metrics at time `now`, without caching them.
pub fn compute_protocol_metrics(store: &AnalyticsStore, now: u64) -> (r: Result<
    ProtocolMetrics,
    AnalyticsError,
>)
    requires
        rate_computable(store.protocol_analytics),
    ensures
        r == fresh_metrics(*store, now),
{
    let tvl = get_total_value_locked(store)?;
    let utilization = get_protocol_utilization(store)?;
    let avg_rate = calculate_weighted_avg_interest_rate(store)?;
    Ok(
        ProtocolMetrics {
            total_value_locked: tvl,
            total_deposits: store.protocol_analytics.total_deposits,
            total_borrows: store.protocol_analytics.total_borrows,
            utilization_rate: utilization,
            average_borrow_rate: avg_rate,
            total_users: store.total_users,
            total_transactions: store.total_transactions,
            last_update: now,
        },
    )
}

/// Recompute the protocol metrics at time `now` and cache them.
///
/// On failure nothing is stored.
pub fn update_protocol_metrics(store: &mut AnalyticsStore, now: u64) -> (r: Result<
    ProtocolMetrics,
    AnalyticsError,
>)
    requires
        rate_computable(old(store).protocol_analytics),
    ensures
        r == fresh_metrics(*old(store), now),
        r is Ok ==> *final(store) == (AnalyticsStore {
            protocol_metrics: Some(r->Ok_0),
            ..*old(store)
        }),
        r is Err ==> *final(store) == *old(store),
{
    let metrics = compute_protocol_metrics(store, now)?;
    store.protocol_metrics = Some(metrics);
    Ok(metrics)
}

/// The cached protocol metrics, or, when none are cached, fresh ones that
/// are cached.
pub fn get_protocol_stats(store: &mut AnalyticsStore, now: u64) -> (r: Result<
    ProtocolMetrics,
    AnalyticsError,
>)
    requires
        rate_computable(old(store).protocol_analytics),
    ensures
        r == current_metrics(*old(store), now),
        old(store).protocol_metrics is None && r is Ok ==> *final(store) == (AnalyticsStore {
            protocol_metrics: Some(r->Ok_0),
            ..*old(store)
        }),
        old(store).protocol_metrics is Some || r is Err ==> *final(store) == *old(store),
{
    match store.protocol_metrics {
        Some(m) => Ok(m),
        None => update_protocol_metrics(store, now),
    }
}

/// Scores utilization against the optimal band: 100 inside the band,
/// falling off linearly to 0 at 0% or at 100%+ utilization.
pub fn score_capital_efficiency(utilization_rate_bps: i128) -> (r: i128)
    ensures
        r == capital_efficiency_score(utilization_rate_bps as int),
        0 <= r <= 100,
{
    let utilization = if utilization_rate_bps < 0 {
        0
    } else if utilization_rate_bps > BPS_DIVISOR {
        BPS_DIVISOR
    } else {
        utilization_rate_bps
    };
    if utilization >= OPTIMAL_UTILIZATION_MIN_BPS && utilization <= OPTIMAL_UTILIZATION_MAX_BPS {
        return 100;
    }
    if utilization < OPTIMAL_UTILIZATION_MIN_BPS {
        assert(0 <= (utilization * 100) / 7000 <= 100) by (nonlinear_arith)
            requires
                0 <= utilization < 7000,
        ;
        return (utilization * 100) / OPTIMAL_UTILIZATION_MIN_BPS;
    }
    let headroom = BPS_DIVISOR - OPTIMAL_UTILIZATION_MAX_BPS;
    let over = utilization - OPTIMAL_UTILIZATION_MAX_BPS;
    assert(0 <= (over * 100) / 1000 <= 100) by (nonlinear_arith)
        requires
            0 < over <= 1000,
    ;
    let s = 100 - (over * 100) / headroom;
    if s < 0 {
        0
    } else {
        s
    }
}

/// Scores the average borrow rate: 100 at or below the healthy ceiling, 0
/// at or above the stressed threshold, linear in between.
pub fn score_rate_stability(average_borrow_rate_bps: i128) -> (r: i128)
    ensures
        r == rate_stability_score(average_borrow_rate_bps as int),
        0 <= r <= 100,
{
    let rate = if average_borrow_rate_bps < 0 {
        0
    } else {
        average_borrow_rate_bps
    };
    if rate <= HEALTHY_BORROW_RATE_BPS {
        return 100;
    }
    if rate >= STRESSED_BORROW_RATE_BPS {
        return 0;
    }
    let span = STRESSED_BORROW_RATE_BPS - HEALTHY_BORROW_RATE_BPS;
    assert(0 <= ((rate - 2000) * 100) / 3000 <= 100) by (nonlinear_arith)
        requires
            2000 < rate < 5000,
    ;
    100 - ((rate - HEALTHY_BORROW_RATE_BPS) * 100) / span
}

/// Compute the composite health score of `metrics` at time `now` and cache
/// it.
pub fn calculate_protocol_health_score(
    store: &mut AnalyticsStore,
    metrics: &ProtocolMetrics,
    now: u64,
) -> (r: ProtocolHealthScore)
    ensures
        r == health_score_of(*metrics, now),
        *final(store) == (AnalyticsStore { protocol_health_score: Some(r), ..*old(store) }),
{
    let capital_efficiency_score = score_capital_efficiency(metrics.utilization_rate);
    let rate_stability_score = score_rate_stability(metrics.average_borrow_rate);
    let overall_score = (capital_efficiency_score * CAPITAL_EFFICIENCY_WEIGHT_BPS
        + rate_stability_score * RATE_STABILITY_WEIGHT_BPS) / BPS_DIVISOR;
    let score = ProtocolHealthScore {
        overall_score,
        capital_efficiency_score,
        rate_stability_score,
        component_weights_bps: (CAPITAL_EFFICIENCY_WEIGHT_BPS, RATE_STABILITY_WEIGHT_BPS),
        last_update: now,
    };
    store.protocol_health_score = Some(score);
    score
}

/// The cached health score, or, when none is cached, the score of the
/// current protocol metrics, which is cached (as are fresh metrics).
pub fn get_protocol_health_score(store: &mut AnalyticsStore, now: u64) -> (r: Result<
    ProtocolHealthScore,
    AnalyticsError,
>)
    requires
        rate_computable(old(store).protocol_analytics),
    ensures
        old(store).protocol_health_score is Some ==> r == Ok::<
            ProtocolHealthScore,
            AnalyticsError,
        >(old(store).protocol_health_score->0) && *final(store) == *old(store),
        old(store).protocol_health_score is None ==> match current_metrics(*old(store), now) {
            Ok(m) => r == Ok::<ProtocolHealthScore, AnalyticsError>(health_score_of(m, now))
                && final(store).protocol_health_score == Some(health_score_of(m, now))
                && final(store).protocol_metrics == Some(m),
            Err(e) => r == Err::<ProtocolHealthScore, AnalyticsError>(e) && *final(store)
                == *old(store),
        },
{
    match store.protocol_health_score {
        Some(score) => return Ok(score),
        None => {},
    }
    let metrics = get_protocol_stats(store, now)?;
    Ok(calculate_protocol_health_score(store, &metrics, now))
}

/// Without deposits utilization is 0, and without borrows the average
/// borrow rate is 0.
pub proof fn law_idle_protocol_figures(pa: ProtocolAnalytics)
    ensures
        pa.total_deposits == 0 ==> utilization_result(pa) == Ok::<i128, AnalyticsError>(0),
        pa.total_borrows == 0 ==> rate_result(pa) == Ok::<i128, AnalyticsError>(0),
{
}

/// The health score is a weighted mean of its sub-scores: every score lies
/// between 0 and 100, and the weights sum to the whole.
pub proof fn law_health_score_bounded(metrics: ProtocolMetrics, now: u64)
    ensures
        ({
            let h = health_score_of(metrics, now);
            &&& 0 <= h.capital_efficiency_score <= 100
            &&& 0 <= h.rate_stability_score <= 100
            &&& 0 <= h.overall_score <= 100
            &&& h.component_weights_bps.0 + h.component_weights_bps.1 == BPS_DIVISOR
        }),
{
    let u = metrics.utilization_rate as int;
    let clamped = if u < 0 { 0 } else if u > 10000 { 10000 } else { u };
    if clamped < 7000 {
        assert(0 <= (clamped * 100) / 7000 <= 100) by (nonlinear_arith)
            requires
                0 <= clamped < 7000,
        ;
    } else if clamped > 9000 {
        assert(0 <= ((clamped - 9000) * 100) / 1000 <= 100) by (nonlinear_arith)
            requires
                9000 < clamped <= 10000,
        ;
    }
    let r = metrics.average_borrow_rate as int;
    if 2000 < r < 5000 {
        assert(0 <= ((r - 2000) * 100) / 3000 <= 100) by (nonlinear_arith)
            requires
                2000 < r < 5000,
        ;
    }
    let ce = capital_efficiency_score(u);
    let rs = rate_stability_score(r);
    assert(0 <= (ce * 6000 + rs * 4000) / 10000 <= 100) by (nonlinear_arith)
        requires
            0 <= ce <= 100,
            0 <= rs <= 100,
    ;
}

/// Utilization inside the optimal band scores full capital efficiency.
pub proof fn law_optimal_band_scores_full(utilization_bps: int)
    requires
        OPTIMAL_UTILIZATION_MIN_BPS <= utilization_bps <= OPTIMAL_UTILIZATION_MAX_BPS,
    ensures
        capital_efficiency_score(utilization_bps) == 100,
{
}

/// A higher average borrow rate never scores better rate stability.
pub proof fn law_rate_stability_monotone(lower: int, higher: int)
    requires
        lower <= higher,
    ensures
        rate_stability_score(higher) <= rate_stability_score(lower),
{
    let a = if lower < 0 { 0 } else { lower };
    let b = if higher < 0 { 0 } else { higher };
    if 2000 < a && b < 5000 {
        assert(((a - 2000) * 100) / 3000 <= ((b - 2000) * 100) / 3000) by (nonlinear_arith)
            requires
                2000 < a <= b < 5000,
        ;
    } else if 2000 < a && a < 5000 {
        assert(((a - 2000) * 100) / 3000 <= 100) by (nonlinear_arith)
            requires
                2000 < a < 5000,
        ;
    } else if 2000 < b && b < 5000 {
        assert(((b - 2000) * 100) / 3000 >= 0) by (nonlinear_arith)
            requires
                2000 < b < 5000,
        ;
    }
}

} // verus!
