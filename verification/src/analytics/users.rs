//! Per-user figures: positions, health factors, risk levels and activity
//! summaries.

use vstd::prelude::*;
use crate::analytics::store::AnalyticsStore;
use crate::analytics::types::{AnalyticsError, Position, UserAnalytics, UserMetrics};
use crate::numeric::{fits_i128, lemma_tdiv_toward_zero, sat_add, sat_mul, saturate_i128, tdiv, BASIS_POINTS};

verus! {

/// Whether the health factor of `pos` can be computed without leaving
/// `i128` (the contract aborts when it cannot).
pub open spec fn health_computable(pos: Position) -> bool {
    pos.debt == 0 || fits_i128(pos.collateral * BASIS_POINTS)
}

/// Health factor in basis points: `collateral * 10000 / debt` rounded toward
/// zero, or `i128::MAX` without debt.
pub open spec fn health_factor_of(pos: Position) -> Result<i128, AnalyticsError> {
    if pos.debt == 0 {
        Ok(i128::MAX)
    } else {
        let q = tdiv(pos.collateral * BASIS_POINTS, pos.debt as int);
        if fits_i128(q) {
            Ok(q as i128)
        } else {
            Err(AnalyticsError::Overflow)
        }
    }
}

/// The risk level (1 low to 5 critical) of a health factor.
pub open spec fn risk_level_of(health_factor: int) -> i128 {
    if health_factor >= 15_000 {
        1
    } else if health_factor >= 12_000 {
        2
    } else if health_factor >= 11_000 {
        3
    } else if health_factor >= 10_500 {
        4
    } else {
        5
    }
}

/// The position used when a user has none.
pub open spec fn empty_position() -> Position {
    Position { collateral: 0, debt: 0, borrow_interest: 0, last_accrual_time: 0 }
}

impl AnalyticsStore {
    /// Whether the health factor of `user` can be computed, when the user
    /// has a position.
    pub open spec fn user_health_computable(&self, user: Seq<char>) -> bool {
        self.position_of(user) matches Some(p) ==> health_computable(p)
    }

    /// The health factor of `user`, or `DataNotFound` without a position.
    pub open spec fn health_factor_result(&self, user: Seq<char>) -> Result<i128, AnalyticsError> {
        match self.position_of(user) {
            Some(p) => health_factor_of(p),
            None => Err(AnalyticsError::DataNotFound),
        }
    }

    /// The health factor of `user`, `i128::MAX` when it cannot be had.
    pub open spec fn health_factor_or_max(&self, user: Seq<char>) -> i128 {
        match self.health_factor_result(user) {
            Ok(h) => h,
            Err(_) => i128::MAX,
        }
    }

    /// The activity summary of `user`.
    pub open spec fn user_summary(&self, user: Seq<char>) -> Result<UserMetrics, AnalyticsError> {
        match self.user_analytics_of(user) {
            None => Err(AnalyticsError::DataNotFound),
            Some(ua) => {
                let pos = match self.position_of(user) {
                    Some(p) => p,
                    None => empty_position(),
                };
                let hf = self.health_factor_or_max(user);
                Ok(
                    UserMetrics {
                        collateral: pos.collateral,
                        debt: pos.debt,
                        health_factor: hf,
                        total_deposits: ua.total_deposits,
                        total_borrows: ua.total_borrows,
                        total_withdrawals: ua.total_withdrawals,
                        total_repayments: ua.total_repayments,
                        activity_score: activity_score_of(ua) as i128,
                        risk_level: risk_level_of(hf as int),
                        transaction_count: ua.transaction_count,
                    },
                )
            },
        }
    }
}

/// Activity score: transaction count * 100 plus deposits / 1000, each step
/// saturating.
pub open spec fn activity_score_of(ua: UserAnalytics) -> int {
    saturate_i128(
        saturate_i128(ua.transaction_count * 100) + tdiv(ua.total_deposits as int, 1000),
    )
}

/// The position of `user`.
///
/// Fails with `DataNotFound` when the user has none.
pub fn get_user_position_summary(store: &AnalyticsStore, user: &String) -> (r: Result<
    Position,
    AnalyticsError,
>)
    ensures
        r == match store.position_of(user@) {
            Some(p) => Ok::<Position, AnalyticsError>(p),
            None => Err::<Position, AnalyticsError>(AnalyticsError::DataNotFound),
        },
{
    match store.positions.get(user.as_str()) {
        Some(p) => Ok(*p),
        None => Err(AnalyticsError::DataNotFound),
    }
}

/// The health factor of `user` in basis points, `collateral * 10000 /
/// debt` rounded toward zero, or `i128::MAX` without debt.
///
/// Fails with `DataNotFound` when the user has no position.
pub fn calculate_health_factor(store: &AnalyticsStore, user: &String) -> (r: Result<
    i128,
    AnalyticsError,
>)
    requires
        store.user_health_computable(user@),
    ensures
        r == store.health_factor_result(user@),
{
    let position = get_user_position_summary(store, user)?;
    if position.debt == 0 {
        return Ok(i128::MAX);
    }
    match (position.collateral * BASIS_POINTS).checked_div(position.debt) {
        Some(h) => Ok(h),
        None => Err(AnalyticsError::Overflow),
    }
}

/// The health factor of each user, in order.
pub fn calculate_multi_health_factors(store: &AnalyticsStore, users: &Vec<String>) -> (r: Vec<
    Result<i128, AnalyticsError>,
>)
    requires
        forall|i: int| 0 <= i < users.len() ==> store.user_health_computable(#[trigger] users@[i]@),
    ensures
        r.len() == users.len(),
        forall|i: int| 0 <= i < users.len() ==> r@[i] == store.health_factor_result(#[trigger] users@[i]@),
{
    let mut results: Vec<Result<i128, AnalyticsError>> = Vec::new();
    let mut i: usize = 0;
    while i < users.len()
        invariant
            i <= users.len(),
            results.len() == i,
            forall|j: int| 0 <= j < users.len() ==> store.user_health_computable(#[trigger] users@[j]@),
            forall|j: int| 0 <= j < i ==> results@[j] == store.health_factor_result(#[trigger] users@[j]@),
        decreases users.len() - i,
    {
        results.push(calculate_health_factor(store, &users[i]));
        i += 1;
    }
    results
}

/// The activity summary of each user, in order.
pub fn get_multi_user_activity_summaries(store: &AnalyticsStore, users: &Vec<String>) -> (r: Vec<
    Result<UserMetrics, AnalyticsError>,
>)
    requires
        forall|i: int| 0 <= i < users.len() ==> (store.user_analytics_of(#[trigger] users@[i]@) is Some
            ==> store.user_health_computable(users@[i]@)),
    ensures
        r.len() == users.len(),
        forall|i: int| 0 <= i < users.len() ==> r@[i] == store.user_summary(#[trigger] users@[i]@),
{
    let mut results: Vec<Result<UserMetrics, AnalyticsError>> = Vec::new();
    let mut i: usize = 0;
    while i < users.len()
        invariant
            i <= users.len(),
            results.len() == i,
            forall|j: int| 0 <= j < users.len() ==> (store.user_analytics_of(#[trigger] users@[j]@) is Some
                ==> store.user_health_computable(users@[j]@)),
            forall|j: int| 0 <= j < i ==> results@[j] == store.user_summary(#[trigger] users@[j]@),
        decreases users.len() - i,
    {
        results.push(get_user_activity_summary(store, &users[i]));
        i += 1;
    }
    results
}

/// Map a health factor to a risk level: 1 at or above 15000, 2 at or above
/// 12000, 3 at or above 11000, 4 at or above 10500, and 5 below.
pub fn calculate_user_risk_level(health_factor: i128) -> (r: i128)
    ensures
        r == risk_level_of(health_factor as int),
        1 <= r <= 5,
{
    if health_factor >= 15_000 {
        1
    } else if health_factor >= 12_000 {
        2
    } else if health_factor >= 11_000 {
        3
    } else if health_factor >= 10_500 {
        4
    } else {
        5
    }
}

/// The activity summary of `user`: the deposit-module totals, the
/// position (zeros without one), the health factor (`i128::MAX` when it
/// cannot be had) with its risk level, and the activity score.
///
/// Fails with `DataNotFound` when the user has no deposit-module totals.
pub fn get_user_activity_summary(store: &AnalyticsStore, user: &String) -> (r: Result<
    UserMetrics,
    AnalyticsError,
>)
    requires
        store.user_analytics_of(user@) is Some ==> store.user_health_computable(user@),
    ensures
        r == store.user_summary(user@),
{
    let user_analytics = match store.user_analytics.get(user.as_str()) {
        Some(ua) => *ua,
        None => return Err(AnalyticsError::DataNotFound),
    };
    let position = match get_user_position_summary(store, user) {
        Ok(p) => p,
        Err(_) => Position { collateral: 0, debt: 0, borrow_interest: 0, last_accrual_time: 0 },
    };
    let health_factor = match calculate_health_factor(store, user) {
        Ok(h) => h,
        Err(_) => i128::MAX,
    };
    let risk_level = calculate_user_risk_level(health_factor);
    let activity_score = sat_add(
        sat_mul(user_analytics.transaction_count as i128, 100),
        user_analytics.total_deposits / 1000,
    );
    Ok(
        UserMetrics {
            collateral: position.collateral,
            debt: position.debt,
            health_factor,
            total_deposits: user_analytics.total_deposits,
            total_borrows: user_analytics.total_borrows,
            total_withdrawals: user_analytics.total_withdrawals,
            total_repayments: user_analytics.total_repayments,
            activity_score,
            risk_level,
            transaction_count: user_analytics.transaction_count,
        },
    )
}

/// Recompute the activity summary of `user` and cache it.
///
/// On failure nothing is stored.
pub fn update_user_metrics(store: &mut AnalyticsStore, user: &String) -> (r: Result<
    UserMetrics,
    AnalyticsError,
>)
    requires
        old(store).user_analytics_of(user@) is Some ==> old(store).user_health_computable(user@),
    ensures
        r == old(store).user_summary(user@),
        r is Ok ==> final(store).user_metrics@ == old(store).user_metrics@.insert(user@, r->Ok_0),
        *final(store) == (AnalyticsStore { user_metrics: final(store).user_metrics, ..*old(store) }),
        r is Err ==> *final(store) == *old(store),
{
    let metrics = get_user_activity_summary(store, user)?;
    store.user_metrics.insert(user.clone(), metrics);
    Ok(metrics)
}

/// The risk level lies between 1 and 5 and never rises as the health
/// factor grows.
pub proof fn law_risk_level_monotone(lower: int, higher: int)
    requires
        lower <= higher,
    ensures
        1 <= risk_level_of(lower) <= 5,
        1 <= risk_level_of(higher) <= 5,
        risk_level_of(higher) <= risk_level_of(lower),
{
}

/// A position without debt has the greatest health factor and the lowest
/// risk level.
pub proof fn law_debt_free_is_safest(pos: Position)
    requires
        pos.debt == 0,
    ensures
        health_factor_of(pos) == Ok::<i128, AnalyticsError>(i128::MAX),
        risk_level_of(i128::MAX as int) == 1,
{
}

/// The risk bands: a health factor of 1.5x or more is level 1, from 1.2x
/// level 2, from 1.1x level 3, from 1.05x level 4, and below 1.05x level 5.
pub proof fn law_risk_level_bands(health_factor: int)
    ensures
        risk_level_of(health_factor) == 1 <==> health_factor >= 15_000,
        risk_level_of(health_factor) == 2 <==> 12_000 <= health_factor < 15_000,
        risk_level_of(health_factor) == 3 <==> 11_000 <= health_factor < 12_000,
        risk_level_of(health_factor) == 4 <==> 10_500 <= health_factor < 11_000,
        risk_level_of(health_factor) == 5 <==> health_factor < 10_500,
{
}

} // verus!
