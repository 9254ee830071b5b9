//! Portfolio risk scoring and what-if simulation of position health.

use vstd::prelude::*;
use crate::analytics::store::AnalyticsStore;
use crate::analytics::types::{
    AnalyticsError, Position, PositionSimulationResult, PositionSimulationScenario,
    UnifiedHealthSummary,
};
use crate::analytics::users::{calculate_user_risk_level, get_user_position_summary, risk_level_of};
use crate::numeric::{fits_i128, lemma_tdiv_by_negative, lemma_tdiv_exact, lemma_tdiv_toward_zero, sat_add, sat_mul, sat_sub, saturate_i128, tdiv, BASIS_POINTS};

verus! {

/// The portfolio risk score in basis points (0 none, 10000 critical) of a
/// cross-asset health summary: 0 without weighted debt or at a health
/// factor of 1.5x or more, 10000 at 0.5x or less, linear in between.
pub open spec fn portfolio_risk_of(summary: UnifiedHealthSummary) -> int {
    if summary.weighted_debt_value == 0 {
        0
    } else {
        let hf = summary.health_factor as int;
        let hf_risk = if hf >= 15_000 {
            0
        } else if hf <= 5_000 {
            10_000
        } else {
            ((15_000 - hf) * 10_000) / 10_000
        };
        if hf_risk > 10_000 {
            10_000
        } else {
            hf_risk
        }
    }
}

/// A health factor from a collateral and a debt as the simulation computes
/// it: `sat(collateral * 10000) / debt` rounded toward zero, `i128::MAX`
/// without debt.
pub open spec fn simulated_health(collateral: i128, debt: i128) -> int {
    if debt == 0 {
        i128::MAX as int
    } else {
        tdiv(saturate_i128(collateral * BASIS_POINTS), debt as int)
    }
}

/// Whether the simulation can run without leaving `i128` where the
/// contract would abort: the surplus of collateral over debt is computed
/// unchecked.
pub open spec fn simulation_computable(collateral: i128, debt: i128) -> bool {
    collateral > debt ==> fits_i128(collateral - debt)
}

/// The collateral after the scenario: deposits added and withdrawals taken
/// out, then scaled by the price change; each step saturating.
pub open spec fn simulated_collateral_of(collateral: i128, s: PositionSimulationScenario) -> int {
    let after_ops = saturate_i128(
        saturate_i128(collateral + s.deposit_amount) - s.withdraw_amount,
    );
    let factor = saturate_i128(BASIS_POINTS + s.price_change_bps);
    let price_factor = if factor < 0 {
        0
    } else {
        factor
    };
    tdiv(saturate_i128(after_ops * price_factor), BASIS_POINTS as int)
}

/// The debt after the scenario: borrows added and repayments taken out,
/// each step saturating, and never below zero.
pub open spec fn simulated_debt_of(debt: i128, s: PositionSimulationScenario) -> int {
    let d = saturate_i128(saturate_i128(debt + s.borrow_amount) - s.repay_amount);
    if d < 0 {
        0
    } else {
        d
    }
}

/// The surplus of collateral over debt, 0 when there is none.
pub open spec fn surplus_of(collateral: i128, debt: i128) -> int {
    if collateral <= debt {
        0
    } else {
        collateral - debt
    }
}

/// The result of simulating `s` on a position of `collateral` and `debt`.
pub open spec fn simulation_of(collateral: i128, debt: i128, s: PositionSimulationScenario) -> Result<
    PositionSimulationResult,
    AnalyticsError,
> {
    let ihf = simulated_health(collateral, debt);
    if !fits_i128(ihf) {
        Err(AnalyticsError::Overflow)
    } else {
        let sc = simulated_collateral_of(collateral, s);
        let sd = simulated_debt_of(debt, s);
        let shf = simulated_health(sc as i128, sd as i128);
        Ok(
            PositionSimulationResult {
                initial_collateral: collateral,
                initial_debt: debt,
                simulated_collateral: sc as i128,
                simulated_debt: sd as i128,
                initial_health_factor: ihf as i128,
                simulated_health_factor: shf as i128,
                initial_risk_level: risk_level_of(ihf),
                simulated_risk_level: risk_level_of(shf),
                is_liquidatable: shf < BASIS_POINTS,
                liquidation_price_drop_bps: if collateral == 0 || debt == 0 || collateral <= debt {
                    0
                } else {
                    tdiv(saturate_i128((collateral - debt) * BASIS_POINTS), collateral as int)
                } as i128,
                max_withdrawable_amount: surplus_of(collateral, debt) as i128,
                max_borrowable_amount: surplus_of(collateral, debt) as i128,
            },
        )
    }
}

/// The portfolio risk score in basis points of the user's cross-asset
/// health `summary`, as the cross-asset module reports it (`None` when it
/// could not).
///
/// Fails with `DataNotFound` when there is no summary.
pub fn portfolio_risk_score(summary: Option<UnifiedHealthSummary>) -> (r: Result<
    i128,
    AnalyticsError,
>)
    ensures
        match summary {
            None => r == Err::<i128, AnalyticsError>(AnalyticsError::DataNotFound),
            Some(s) => r == Ok::<i128, AnalyticsError>(portfolio_risk_of(s) as i128),
        },
        r is Ok ==> 0 <= r->Ok_0 <= 10_000,
{
    let summary = match summary {
        Some(s) => s,
        None => return Err(AnalyticsError::DataNotFound),
    };
    if summary.weighted_debt_value == 0 {
        return Ok(0);
    }
    let hf = summary.health_factor;
    let hf_risk: i128 = if hf >= 15_000 {
        0
    } else if hf <= 5_000 {
        10_000
    } else {
        ((15_000 - hf) * 10_000) / 10_000
    };
    Ok(
        if hf_risk > 10_000 {
            10_000
        } else {
            hf_risk
        },
    )
}

/// Simulate `scenario` on the position of `user`.
///
/// Fails with `DataNotFound` when the user has no position, and as
/// `simulate_what_if` does.
pub fn simulate_position_health(
    store: &AnalyticsStore,
    user: &String,
    scenario: PositionSimulationScenario,
) -> (r: Result<PositionSimulationResult, AnalyticsError>)
    requires
        store.position_of(user@) matches Some(p) ==> simulation_computable(p.collateral, p.debt),
    ensures
        r == match store.position_of(user@) {
            None => Err::<PositionSimulationResult, AnalyticsError>(AnalyticsError::DataNotFound),
            Some(p) => simulation_of(p.collateral, p.debt, scenario),
        },
{
    let position = get_user_position_summary(store, user)?;
    simulate_what_if(position.collateral, position.debt, scenario)
}

/// What-if analysis of a position of `collateral` and `debt` under
/// `scenario`: the initial and simulated health factors (`sat(collateral *
/// 10000) / debt`, `i128::MAX` without debt) with their risk levels, the
/// simulated collateral and debt, whether the simulated position is
/// liquidatable (health below 1.0x), the price drop that would reach
/// liquidation, and the surplus that can be withdrawn or borrowed.
///
/// Fails with `Overflow` when the initial health factor leaves `i128`.
pub fn simulate_what_if(collateral: i128, debt: i128, scenario: PositionSimulationScenario) -> (r:
    Result<PositionSimulationResult, AnalyticsError>)
    requires
        simulation_computable(collateral, debt),
    ensures
        r == simulation_of(collateral, debt, scenario),
{
    let initial_health_factor = if debt == 0 {
        i128::MAX
    } else {
        match sat_mul(collateral, BASIS_POINTS).checked_div(debt) {
            Some(h) => h,
            None => return Err(AnalyticsError::Overflow),
        }
    };
    let initial_risk_level = calculate_user_risk_level(initial_health_factor);
    let collateral_after_ops = sat_sub(
        sat_add(collateral, scenario.deposit_amount),
        scenario.withdraw_amount,
    );
    let factor = sat_add(BASIS_POINTS, scenario.price_change_bps);
    let price_factor = if factor < 0 {
        0
    } else {
        factor
    };
    let simulated_collateral = sat_mul(collateral_after_ops, price_factor) / BASIS_POINTS;
    let debt_after_ops = sat_sub(sat_add(debt, scenario.borrow_amount), scenario.repay_amount);
    let simulated_debt = if debt_after_ops < 0 {
        0
    } else {
        debt_after_ops
    };
    let simulated_health_factor = if simulated_debt == 0 {
        i128::MAX
    } else {
        let scaled = sat_mul(simulated_collateral, BASIS_POINTS);
        proof {
            lemma_tdiv_toward_zero(scaled as int, simulated_debt as int);
        }
        match scaled.checked_div(simulated_debt) {
            Some(h) => h,
            None => 0,
        }
    };
    let simulated_risk_level = calculate_user_risk_level(simulated_health_factor);
    let is_liquidatable = simulated_health_factor < BASIS_POINTS;
    let liquidation_price_drop_bps = if collateral == 0 || debt == 0 || collateral <= debt {
        0
    } else {
        let scaled = sat_mul(collateral - debt, BASIS_POINTS);
        proof {
            if collateral > 0 {
                lemma_tdiv_toward_zero(scaled as int, collateral as int);
            } else {
                lemma_tdiv_by_negative(scaled as int, collateral as int);
            }
        }
        match scaled.checked_div(collateral) {
            Some(v) => v,
            None => 0,
        }
    };
    let max_withdrawable_amount = if collateral <= debt {
        0
    } else {
        collateral - debt
    };
    let max_borrowable_amount = if collateral <= debt {
        0
    } else {
        collateral - debt
    };
    Ok(
        PositionSimulationResult {
            initial_collateral: collateral,
            initial_debt: debt,
            simulated_collateral,
            simulated_debt,
            initial_health_factor,
            simulated_health_factor,
            initial_risk_level,
            simulated_risk_level,
            is_liquidatable,
            liquidation_price_drop_bps,
            max_withdrawable_amount,
            max_borrowable_amount,
        },
    )
}

/// A simulation reports consistent figures: the surplus that can be
/// withdrawn is the surplus that can be borrowed, the position is
/// liquidatable exactly when its simulated health is below 1.0x, and each
/// risk level is that of its health factor.
pub proof fn law_simulation_consistent(collateral: i128, debt: i128, s: PositionSimulationScenario)
    requires
        simulation_of(collateral, debt, s) is Ok,
    ensures
        ({
            let r = simulation_of(collateral, debt, s)->Ok_0;
            &&& r.max_withdrawable_amount == r.max_borrowable_amount
            &&& r.is_liquidatable == (r.simulated_health_factor < BASIS_POINTS)
            &&& r.initial_risk_level == risk_level_of(r.initial_health_factor as int)
            &&& r.simulated_risk_level == risk_level_of(r.simulated_health_factor as int)
            &&& r.simulated_debt >= 0
        }),
{
    let sc = simulated_collateral_of(collateral, s);
    let sd = simulated_debt_of(debt, s);
    let shf = simulated_health(sc as i128, sd as i128);
    assert(fits_i128(sc)) by {
        let after_ops = saturate_i128(
            saturate_i128(collateral + s.deposit_amount) - s.withdraw_amount,
        );
        let factor = saturate_i128(BASIS_POINTS + s.price_change_bps);
        let price_factor = if factor < 0 { 0 } else { factor };
        let m = saturate_i128(after_ops * price_factor);
        lemma_tdiv_toward_zero(m, BASIS_POINTS as int);
        lemma_tdiv_toward_zero(-m, BASIS_POINTS as int);
    }
    if sd != 0 {
        lemma_tdiv_toward_zero(saturate_i128(sc * BASIS_POINTS), sd);
    }
}

/// A scenario that changes nothing leaves a position as it is: with no
/// deposit, withdrawal, borrow, repayment or price change, a position with
/// non-negative debt whose scaled collateral fits keeps its collateral, its
/// debt and its health factor.
pub proof fn law_neutral_scenario_keeps_position(collateral: i128, debt: i128)
    requires
        debt >= 0,
        fits_i128(collateral * BASIS_POINTS),
        simulation_of(
            collateral,
            debt,
            PositionSimulationScenario {
                price_change_bps: 0,
                deposit_amount: 0,
                withdraw_amount: 0,
                borrow_amount: 0,
                repay_amount: 0,
            },
        ) is Ok,
    ensures
        ({
            let r = simulation_of(
                collateral,
                debt,
                PositionSimulationScenario {
                    price_change_bps: 0,
                    deposit_amount: 0,
                    withdraw_amount: 0,
                    borrow_amount: 0,
                    repay_amount: 0,
                },
            )->Ok_0;
            &&& r.simulated_collateral == collateral
            &&& r.simulated_debt == debt
            &&& r.simulated_health_factor == r.initial_health_factor
            &&& r.simulated_risk_level == r.initial_risk_level
        }),
{
    lemma_tdiv_exact(collateral as int, BASIS_POINTS as int);
}

/// A scenario that only moves the price, by `bps` basis points.
pub open spec fn price_move(bps: i128) -> PositionSimulationScenario {
    PositionSimulationScenario {
        price_change_bps: bps,
        deposit_amount: 0,
        withdraw_amount: 0,
        borrow_amount: 0,
        repay_amount: 0,
    }
}

/// A price drop of `drop` basis points (at most the whole) leaves a
/// solvent position with debt liquidatable exactly when the collateral's
/// remaining value falls short of the debt.
proof fn lemma_price_drop_liquidates(collateral: i128, debt: i128, drop: int)
    requires
        0 < debt < collateral,
        fits_i128(collateral * BASIS_POINTS),
        0 <= drop <= BASIS_POINTS,
    ensures
        simulation_of(collateral, debt, price_move((-drop) as i128)) is Ok,
        simulation_of(collateral, debt, price_move((-drop) as i128))->Ok_0.is_liquidatable
            <==> collateral * (BASIS_POINTS - drop) < debt * BASIS_POINTS,
{
    let c = collateral as int;
    let d = debt as int;
    let f = BASIS_POINTS - drop;
    assert(0 <= c * f <= c * 10000) by (nonlinear_arith)
        requires
            c > 0,
            0 <= f <= 10000,
    ;
    let sc = (c * f) / 10000;
    assert(0 <= sc <= c) by (nonlinear_arith)
        requires
            0 <= c * f <= c * 10000,
            sc == (c * f) / 10000,
            c > 0,
    ;
    assert(simulated_collateral_of(collateral, price_move((-drop) as i128)) == sc);
    assert(simulated_debt_of(debt, price_move((-drop) as i128)) == d);
    assert(0 <= sc * 10000 <= c * 10000) by (nonlinear_arith)
        requires
            0 <= sc <= c,
    ;
    let shf = (sc * 10000) / d;
    assert(simulated_health(sc as i128, debt) == shf);
    assert(0 <= (c * 10000) / d <= c * 10000) by (nonlinear_arith)
        requires
            c > 0,
            d >= 1,
    ;
    assert(simulated_health(collateral, debt) == (c * 10000) / d);
    // The health stays at or above 1.0x exactly when the remaining
    // collateral covers the debt.
    assert((sc * 10000) / d >= 10000 <==> sc >= d) by (nonlinear_arith)
        requires
            d >= 1,
            sc >= 0,
    ;
    assert(sc >= d <==> c * f >= d * 10000) by (nonlinear_arith)
        requires
            sc == (c * f) / 10000,
            c * f >= 0,
            d >= 1,
    ;
}

/// The reported liquidation price drop is exact: for a solvent position
/// with debt, a price drop of that many basis points leaves the position
/// safe, and a drop of one basis point more makes it liquidatable.
pub proof fn law_liquidation_drop_is_exact(collateral: i128, debt: i128)
    requires
        0 < debt < collateral,
        fits_i128(collateral * BASIS_POINTS),
    ensures
        ({
            let p = simulation_of(collateral, debt, price_move(0))->Ok_0.liquidation_price_drop_bps;
            &&& simulation_of(collateral, debt, price_move(0)) is Ok
            &&& p == ((collateral - debt) * BASIS_POINTS) / (collateral as int)
            &&& simulation_of(collateral, debt, price_move((-p) as i128)) is Ok
            &&& !simulation_of(collateral, debt, price_move((-p) as i128))->Ok_0.is_liquidatable
            &&& simulation_of(collateral, debt, price_move((-(p + 1)) as i128)) is Ok
            &&& simulation_of(
                collateral,
                debt,
                price_move((-(p + 1)) as i128),
            )->Ok_0.is_liquidatable
        }),
{
    let c = collateral as int;
    let d = debt as int;
    assert(0 < (c - d) * 10000 < c * 10000) by (nonlinear_arith)
        requires
            0 < d < c,
    ;
    let p = ((c - d) * 10000) / c;
    assert(0 <= p < 10000 && p * c <= (c - d) * 10000 && (p + 1) * c > (c - d) * 10000)
        by (nonlinear_arith)
        requires
            0 < (c - d) * 10000 < c * 10000,
            c > 0,
            p == ((c - d) * 10000) / c,
    ;
    lemma_price_drop_liquidates(collateral, debt, 0);
    assert(price_move((-0int) as i128) == price_move(0));
    assert(simulation_of(collateral, debt, price_move(0))->Ok_0.liquidation_price_drop_bps == p);
    lemma_price_drop_liquidates(collateral, debt, p);
    lemma_price_drop_liquidates(collateral, debt, p + 1);
    assert(c * (10000 - p) >= d * 10000) by (nonlinear_arith)
        requires
            p * c <= (c - d) * 10000,
    ;
    assert(c * (10000 - (p + 1)) < d * 10000) by (nonlinear_arith)
        requires
            (p + 1) * c > (c - d) * 10000,
    ;
}

/// Where no step saturates, a simulation moves the position as the
/// scenario says: the debt grows by what is borrowed and shrinks by what is
/// repaid (never below zero), the collateral grows by the deposit, shrinks
/// by the withdrawal and is then scaled by the price change (a drop of the
/// whole or more leaves nothing), the health factor is the simulated
/// collateral over the simulated debt in basis points (`i128::MAX`
/// without debt), and the surplus that can be withdrawn is what the
/// collateral exceeds the debt by.
pub proof fn law_simulation_applies_scenario(
    collateral: i128,
    debt: i128,
    s: PositionSimulationScenario,
)
    requires
        simulation_computable(collateral, debt),
        simulation_of(collateral, debt, s) is Ok,
        fits_i128(debt + s.borrow_amount),
        fits_i128(debt + s.borrow_amount - s.repay_amount),
        fits_i128(collateral + s.deposit_amount),
        fits_i128(collateral + s.deposit_amount - s.withdraw_amount),
        fits_i128(BASIS_POINTS + s.price_change_bps),
        fits_i128(
            (collateral + s.deposit_amount - s.withdraw_amount) * (if BASIS_POINTS
                + s.price_change_bps < 0 {
                0
            } else {
                BASIS_POINTS + s.price_change_bps
            }),
        ),
    ensures
        ({
            let r = simulation_of(collateral, debt, s)->Ok_0;
            let after_ops = collateral + s.deposit_amount - s.withdraw_amount;
            let factor = if BASIS_POINTS + s.price_change_bps < 0 {
                0
            } else {
                BASIS_POINTS + s.price_change_bps
            };
            let d = debt + s.borrow_amount - s.repay_amount;
            &&& r.simulated_debt == (if d < 0 { 0 } else { d })
            &&& r.simulated_collateral == tdiv(after_ops * factor, 10_000)
            &&& r.simulated_debt == 0 ==> r.simulated_health_factor == i128::MAX
            &&& r.simulated_debt > 0 && fits_i128(r.simulated_collateral * 10_000)
                ==> r.simulated_health_factor == tdiv(
                r.simulated_collateral * 10_000,
                r.simulated_debt as int,
            )
            &&& r.max_withdrawable_amount == (if collateral > debt { collateral - debt } else { 0 })
            &&& r.initial_collateral == collateral
            &&& r.initial_debt == debt
            &&& debt == 0 ==> r.initial_health_factor == i128::MAX
            &&& debt != 0 && fits_i128(collateral * 10_000) ==> r.initial_health_factor == tdiv(
                collateral * 10_000,
                debt as int,
            )
        }),
{
    let after_ops = collateral + s.deposit_amount - s.withdraw_amount;
    let factor = if BASIS_POINTS + s.price_change_bps < 0 {
        0
    } else {
        BASIS_POINTS + s.price_change_bps
    };
    let m = after_ops * factor;
    lemma_tdiv_toward_zero(m, BASIS_POINTS as int);
    let sc = tdiv(m, BASIS_POINTS as int);
    assert(simulated_collateral_of(collateral, s) == sc);
    let d = debt + s.borrow_amount - s.repay_amount;
    assert(simulated_debt_of(debt, s) == (if d < 0 { 0 } else { d }));
}

} // verus!
