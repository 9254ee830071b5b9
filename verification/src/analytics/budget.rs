//! Budget planning for lenders: allocation between lending and reserve,
//! yield projections, allocation templates and risk-adjusted returns.

use vstd::prelude::*;
use crate::analytics::store::AnalyticsStore;
use crate::analytics::protocol::{get_protocol_utilization, utilization_computable, utilization_result};
use crate::analytics::types::{
    copy_texts, texts_view, AllocationStrategy, AnalyticsError, BudgetPlan, BudgetPlanView,
    YieldProjection,
};
use crate::numeric::{fits_i128, lemma_tdiv_toward_zero, tdiv, BASIS_POINTS};

verus! {

/// The lender under which budget scenarios are planned.
pub open spec fn scenario_lender() -> Seq<char> {
    "______________________________________________________________________"@
}

/// The split and base yield of a risk appetite: (lending share, reserve
/// share, base APY), all in basis points; "conservative" and "aggressive"
/// have their own, any other appetite is moderate.
pub open spec fn appetite_split(appetite: Seq<char>) -> (i128, i128, i128) {
    if appetite == "conservative"@ {
        (6000, 4000, 300)
    } else if appetite == "aggressive"@ {
        (9000, 1000, 800)
    } else {
        (7500, 2500, 500)
    }
}

/// The utilization a plan assumes: the protocol's, or 5000 when it cannot
/// be had.
pub open spec fn planning_utilization(store: AnalyticsStore) -> int {
    match utilization_result(store.protocol_analytics) {
        Ok(u) => u as int,
        Err(_) => 5000,
    }
}

/// The APY bonus of a utilization above 70%: `(u - 7000) * 10 / 10000`.
pub open spec fn utilization_bonus(u: int) -> int {
    if u > 7000 {
        tdiv((u - 7000) * 10, BASIS_POINTS as int)
    } else {
        0
    }
}

/// The share of `total` that a plan for `appetite` lends out.
pub open spec fn allocated_deposit_of(total: i128, appetite: Seq<char>) -> int {
    tdiv(total * appetite_split(appetite).0, BASIS_POINTS as int)
}

/// The APY a plan for `appetite` expects under `store`'s utilization.
pub open spec fn expected_apy_of(store: AnalyticsStore, appetite: Seq<char>) -> int {
    appetite_split(appetite).2 + utilization_bonus(planning_utilization(store))
}

/// The recommendations of a plan for `appetite` at utilization `u`.
pub open spec fn recommendations_of(appetite: Seq<char>, u: int) -> Seq<Seq<char>> {
    let a = if u > 8000 {
        seq!["high_utilization_boost_yields"@]
    } else {
        Seq::empty()
    };
    let b = if u < 4000 {
        seq!["low_utilization_consider_staking"@]
    } else {
        Seq::empty()
    };
    let c = if appetite == "conservative"@ && u > 7000 {
        seq!["consider_increasing_reserve"@]
    } else {
        Seq::empty()
    };
    let d = if appetite == "aggressive"@ && u < 5000 {
        seq!["deploy_more_capital"@]
    } else {
        Seq::empty()
    };
    a + b + c + d + seq!["diversify_across_pools"@, "compound_yields_regularly"@]
}

/// Whether a plan for `total` and `appetite` can be computed without
/// leaving `i128` where the contract would abort.
pub open spec fn budget_plan_computable(store: AnalyticsStore, total: i128, appetite: Seq<char>) -> bool {
    total > 0 ==> {
        let u = planning_utilization(store);
        &&& fits_i128(total * appetite_split(appetite).0)
        &&& utilization_computable(store.protocol_analytics)
        &&& (u > 7000 ==> fits_i128((u - 7000) * 10))
        &&& fits_i128(allocated_deposit_of(total, appetite) * expected_apy_of(store, appetite))
    }
}

/// The plan for `lender`, `total` and `appetite` made at `now`.
pub open spec fn budget_plan_of(
    store: AnalyticsStore,
    lender: Seq<char>,
    total: i128,
    appetite: Seq<char>,
    now: u64,
) -> BudgetPlanView {
    let deposit = allocated_deposit_of(total, appetite);
    let apy = expected_apy_of(store, appetite);
    BudgetPlanView {
        lender,
        total_budget: total,
        risk_appetite: appetite,
        allocated_deposit: deposit as i128,
        allocated_reserve: (total - deposit) as i128,
        expected_apy_bps: apy as i128,
        projected_yield: tdiv(deposit * apy, BASIS_POINTS as int) as i128,
        recommendations: recommendations_of(appetite, planning_utilization(store)),
        created_at: now,
    }
}

/// The projection APYs of a risk appetite: (conservative, moderate,
/// aggressive) in basis points.
pub open spec fn projection_apys(appetite: Seq<char>) -> (i128, i128, i128) {
    if appetite == "conservative"@ {
        (250, 350, 500)
    } else if appetite == "aggressive"@ {
        (500, 800, 1200)
    } else {
        (350, 500, 700)
    }
}

/// The return of `total` at `apy` over `days`: `total * apy * days /
/// (10000 * 365)` rounded toward zero.
pub open spec fn projected_return(total: i128, apy: i128, days: u32) -> int {
    tdiv(total * apy * days, BASIS_POINTS * 365)
}

/// Whether a projection for `total`, `appetite` and `days` can be computed
/// without leaving `i128` where the contract would abort.
pub open spec fn projection_computable(
    store: AnalyticsStore,
    total: i128,
    appetite: Seq<char>,
    days: u32,
) -> bool {
    (total > 0 && days > 0) ==> {
        let (c, m, a) = projection_apys(appetite);
        &&& fits_i128(total * c) && fits_i128(total * c * days)
        &&& fits_i128(total * m) && fits_i128(total * m * days)
        &&& fits_i128(total * a) && fits_i128(total * a * days)
        &&& utilization_computable(store.protocol_analytics)
    }
}

/// The market description of a utilization.
pub open spec fn assumptions_of(u: int) -> Seq<char> {
    if u > 7000 {
        "high_utilization_environment"@
    } else if u < 4000 {
        "low_utilization_environment"@
    } else {
        "normal_market_conditions"@
    }
}

/// The risk factor of a risk level: 1 for "low", 3 for "high", 2 otherwise.
pub open spec fn risk_factor_of(risk_level: Seq<char>) -> int {
    if risk_level == "low"@ {
        1
    } else if risk_level == "high"@ {
        3
    } else {
        2
    }
}

/// The lender placeholder of budget scenarios.
fn scenario_lender_text() -> (r: String)
    ensures
        r@ == scenario_lender(),
{
    String::from_str("______________________________________________________________________")
}

/// The recommendations of a plan for `appetite` at utilization `u`.
fn plan_recommendations(appetite: &String, u: i128) -> (r: Vec<String>)
    ensures
        texts_view(r@) == recommendations_of(appetite@, u as int),
{
    let conservative = String::from_str("conservative");
    let aggressive = String::from_str("aggressive");
    let mut recommendations: Vec<String> = Vec::new();
    let ghost a: Seq<Seq<char>> = if u > 8000 {
        seq!["high_utilization_boost_yields"@]
    } else {
        Seq::empty()
    };
    let ghost b: Seq<Seq<char>> = if u < 4000 {
        seq!["low_utilization_consider_staking"@]
    } else {
        Seq::empty()
    };
    let ghost c: Seq<Seq<char>> = if appetite@ == "conservative"@ && u > 7000 {
        seq!["consider_increasing_reserve"@]
    } else {
        Seq::empty()
    };
    let ghost d: Seq<Seq<char>> = if appetite@ == "aggressive"@ && u < 5000 {
        seq!["deploy_more_capital"@]
    } else {
        Seq::empty()
    };
    if u > 8000 {
        recommendations.push(String::from_str("high_utilization_boost_yields"));
    }
    assert(texts_view(recommendations@) =~= a);
    if u < 4000 {
        recommendations.push(String::from_str("low_utilization_consider_staking"));
    }
    assert(texts_view(recommendations@) =~= a + b);
    if *appetite == conservative && u > 7000 {
        recommendations.push(String::from_str("consider_increasing_reserve"));
    }
    assert(texts_view(recommendations@) =~= a + b + c);
    if *appetite == aggressive && u < 5000 {
        recommendations.push(String::from_str("deploy_more_capital"));
    }
    assert(texts_view(recommendations@) =~= a + b + c + d);
    recommendations.push(String::from_str("diversify_across_pools"));
    recommendations.push(String::from_str("compound_yields_regularly"));
    assert(texts_view(recommendations@) =~= a + b + c + d + seq![
        "diversify_across_pools"@,
        "compound_yields_regularly"@,
    ]);
    recommendations
}

/// Make a budget plan for `lender` at time `now`: `total_budget` is split
/// between lending and reserve by the risk appetite ("conservative",
/// "aggressive", or otherwise moderate), the expected APY is the
/// appetite's base plus a bonus for utilization above 70%, the projected
/// yield is the lent share at that APY, and recommendations follow from
/// the utilization (5000 when it cannot be had). The plan is stored for
/// the lender.
///
/// Fails with `InvalidParameter`, changing nothing, when the budget is not
/// positive.
pub fn create_budget_plan(
    store: &mut AnalyticsStore,
    lender: String,
    total_budget: i128,
    risk_appetite: String,
    now: u64,
) -> (r: Result<BudgetPlan, AnalyticsError>)
    requires
        budget_plan_computable(*old(store), total_budget, risk_appetite@),
    ensures
        total_budget <= 0 ==> r == Err::<BudgetPlan, AnalyticsError>(
            AnalyticsError::InvalidParameter,
        ) && *final(store) == *old(store),
        total_budget > 0 ==> {
            &&& r is Ok
            &&& r->Ok_0@ == budget_plan_of(*old(store), lender@, total_budget, risk_appetite@, now)
            &&& final(store).budget_plans@.dom() == old(store).budget_plans@.dom().insert(lender@)
            &&& final(store).budget_plans@[lender@]@ == r->Ok_0@
            &&& forall|k: Seq<char>|
                k != lender@ && #[trigger] old(store).budget_plans@.contains_key(k)
                    ==> final(store).budget_plans@[k] == old(store).budget_plans@[k]
            &&& *final(store) == (AnalyticsStore {
                budget_plans: final(store).budget_plans,
                ..*old(store)
            })
        },
{
    if total_budget <= 0 {
        return Err(AnalyticsError::InvalidParameter);
    }
    let conservative = String::from_str("conservative");
    let aggressive = String::from_str("aggressive");
    let (deposit_pct, _reserve_pct, base_apy): (i128, i128, i128) = if risk_appetite
        == conservative {
        (6000, 4000, 300)
    } else if risk_appetite == aggressive {
        (9000, 1000, 800)
    } else {
        (7500, 2500, 500)
    };
    let allocated_deposit = (total_budget * deposit_pct) / BASIS_POINTS;
    proof {
        lemma_tdiv_toward_zero(total_budget * deposit_pct, BASIS_POINTS as int);
        assert(0 <= allocated_deposit <= total_budget) by (nonlinear_arith)
            requires
                total_budget > 0,
                0 < deposit_pct <= 10000,
                allocated_deposit == (total_budget * deposit_pct) / 10000,
        ;
    }
    let allocated_reserve = total_budget - allocated_deposit;
    let utilization = match get_protocol_utilization(store) {
        Ok(u) => u,
        Err(_) => 5000,
    };
    let utilization_bonus: i128 = if utilization > 7000 {
        proof {
            lemma_tdiv_toward_zero((utilization - 7000) * 10, BASIS_POINTS as int);
        }
        (utilization - 7000) * 10 / BASIS_POINTS
    } else {
        0
    };
    let expected_apy = base_apy + utilization_bonus;
    proof {
        lemma_tdiv_toward_zero(allocated_deposit * expected_apy, BASIS_POINTS as int);
        lemma_tdiv_toward_zero(-(allocated_deposit * expected_apy), BASIS_POINTS as int);
    }
    let projected_yield = (allocated_deposit * expected_apy) / BASIS_POINTS;
    let recommendations = plan_recommendations(&risk_appetite, utilization);
    let plan = BudgetPlan {
        lender: lender.clone(),
        total_budget,
        risk_appetite,
        allocated_deposit,
        allocated_reserve,
        expected_apy_bps: expected_apy,
        projected_yield,
        recommendations,
        created_at: now,
    };
    let result = plan.clone();
    store.budget_plans.insert(lender, plan);
    Ok(result)
}

/// The stored budget plan of `lender`, if any.
pub fn get_budget_plan(store: &AnalyticsStore, lender: &String) -> (r: Option<BudgetPlan>)
    ensures
        store.budget_plans@.contains_key(lender@) ==> r is Some && r->0@
            == store.budget_plans@[lender@]@,
        !store.budget_plans@.contains_key(lender@) ==> r is None,
{
    match store.budget_plans.get(lender.as_str()) {
        Some(plan) => Some(plan.clone()),
        None => None,
    }
}

/// Project the returns of `total_budget` over `period_days` for the three
/// APYs of the risk appetite (`total * apy * days / (10000 * 365)`, rounded
/// toward zero), with a description of the market from the utilization
/// (5000 when it cannot be had).
///
/// Fails with `InvalidParameter` when the budget is not positive or the
/// period is zero.
pub fn project_yields(
    store: &AnalyticsStore,
    total_budget: i128,
    risk_appetite: &String,
    period_days: u32,
) -> (r: Result<YieldProjection, AnalyticsError>)
    requires
        projection_computable(*store, total_budget, risk_appetite@, period_days),
    ensures
        total_budget <= 0 || period_days == 0 ==> r == Err::<YieldProjection, AnalyticsError>(
            AnalyticsError::InvalidParameter,
        ),
        total_budget > 0 && period_days > 0 ==> {
            let (c, m, a) = projection_apys(risk_appetite@);
            let p = r->Ok_0;
            &&& r is Ok
            &&& p.period_days == period_days
            &&& p.conservative_apy_bps == c
            &&& p.moderate_apy_bps == m
            &&& p.aggressive_apy_bps == a
            &&& p.projected_return_conservative == projected_return(total_budget, c, period_days)
            &&& p.projected_return_moderate == projected_return(total_budget, m, period_days)
            &&& p.projected_return_aggressive == projected_return(total_budget, a, period_days)
            &&& p.assumptions@ == assumptions_of(planning_utilization(*store))
        },
{
    if total_budget <= 0 || period_days == 0 {
        return Err(AnalyticsError::InvalidParameter);
    }
    let conservative = String::from_str("conservative");
    let aggressive = String::from_str("aggressive");
    let (conservative_apy, moderate_apy, aggressive_apy): (i128, i128, i128) = if *risk_appetite
        == conservative {
        (250, 350, 500)
    } else if *risk_appetite == aggressive {
        (500, 800, 1200)
    } else {
        (350, 500, 700)
    };
    let periods = period_days as i128;
    let divisor = BASIS_POINTS * 365;
    let conservative_return = (total_budget * conservative_apy * periods) / divisor;
    let moderate_return = (total_budget * moderate_apy * periods) / divisor;
    let aggressive_return = (total_budget * aggressive_apy * periods) / divisor;
    let utilization = match get_protocol_utilization(store) {
        Ok(u) => u,
        Err(_) => 5000,
    };
    let assumptions = if utilization > 7000 {
        String::from_str("high_utilization_environment")
    } else if utilization < 4000 {
        String::from_str("low_utilization_environment")
    } else {
        String::from_str("normal_market_conditions")
    };
    Ok(
        YieldProjection {
            period_days,
            conservative_apy_bps: conservative_apy,
            moderate_apy_bps: moderate_apy,
            aggressive_apy_bps: aggressive_apy,
            projected_return_conservative: conservative_return,
            projected_return_moderate: moderate_return,
            projected_return_aggressive: aggressive_return,
            assumptions,
        },
    )
}

/// The three predefined allocation templates: conservative (60/40, 3%),
/// moderate (75/25, 5%) and aggressive (90/10, 8%).
pub fn get_allocation_strategies() -> (r: Vec<AllocationStrategy>)
    ensures
        r.len() == 3,
        r@[0].strategy_name@ == "conservative"@ && r@[0].deposit_pct_bps == 6000
            && r@[0].reserve_pct_bps == 4000 && r@[0].expected_apy_bps == 300
            && r@[0].risk_level@ == "low"@ && r@[0].description@ == "steady_income_minimal_risk"@,
        r@[1].strategy_name@ == "moderate"@ && r@[1].deposit_pct_bps == 7500
            && r@[1].reserve_pct_bps == 2500 && r@[1].expected_apy_bps == 500
            && r@[1].risk_level@ == "medium"@ && r@[1].description@ == "balanced_yield_and_safety"@,
        r@[2].strategy_name@ == "aggressive"@ && r@[2].deposit_pct_bps == 9000
            && r@[2].reserve_pct_bps == 1000 && r@[2].expected_apy_bps == 800
            && r@[2].risk_level@ == "high"@ && r@[2].description@
            == "maximize_yield_accept_higher_risk"@,
{
    let mut strategies: Vec<AllocationStrategy> = Vec::new();
    strategies.push(
        AllocationStrategy {
            strategy_name: String::from_str("conservative"),
            deposit_pct_bps: 6000,
            reserve_pct_bps: 4000,
            expected_apy_bps: 300,
            risk_level: String::from_str("low"),
            description: String::from_str("steady_income_minimal_risk"),
        },
    );
    strategies.push(
        AllocationStrategy {
            strategy_name: String::from_str("moderate"),
            deposit_pct_bps: 7500,
            reserve_pct_bps: 2500,
            expected_apy_bps: 500,
            risk_level: String::from_str("medium"),
            description: String::from_str("balanced_yield_and_safety"),
        },
    );
    strategies.push(
        AllocationStrategy {
            strategy_name: String::from_str("aggressive"),
            deposit_pct_bps: 9000,
            reserve_pct_bps: 1000,
            expected_apy_bps: 800,
            risk_level: String::from_str("high"),
            description: String::from_str("maximize_yield_accept_higher_risk"),
        },
    );
    strategies
}

/// A Sharpe-like risk-adjusted return: the annual return
/// `allocated * apy / 10000` divided by `risk_factor + 1`, each rounded
/// toward zero, the risk factor being 1 for "low", 3 for "high" and 2
/// otherwise.
///
/// Fails with `InvalidParameter` when the allocation is not positive.
pub fn calculate_risk_adjusted_return(
    allocated_amount: i128,
    expected_apy_bps: i128,
    risk_level: &String,
) -> (r: Result<i128, AnalyticsError>)
    requires
        allocated_amount > 0 ==> fits_i128(allocated_amount * expected_apy_bps),
    ensures
        allocated_amount <= 0 ==> r == Err::<i128, AnalyticsError>(AnalyticsError::InvalidParameter),
        allocated_amount > 0 ==> r == Ok::<i128, AnalyticsError>(
            tdiv(
                tdiv(allocated_amount * expected_apy_bps, BASIS_POINTS as int),
                risk_factor_of(risk_level@) + 1,
            ) as i128,
        ),
{
    if allocated_amount <= 0 {
        return Err(AnalyticsError::InvalidParameter);
    }
    let low = String::from_str("low");
    let high = String::from_str("high");
    let risk_factor: i128 = if *risk_level == low {
        1
    } else if *risk_level == high {
        3
    } else {
        2
    };
    proof {
        lemma_tdiv_toward_zero(allocated_amount * expected_apy_bps, BASIS_POINTS as int);
        lemma_tdiv_toward_zero(-(allocated_amount * expected_apy_bps), BASIS_POINTS as int);
    }
    let annual_return = (allocated_amount * expected_apy_bps) / BASIS_POINTS;
    let risk_adjusted = annual_return / (risk_factor + 1);
    Ok(risk_adjusted)
}

/// Plan the budget under each of the conservative, moderate and aggressive
/// appetites, in that order, for the scenario lender; each plan is stored
/// in turn, so the aggressive one remains.
///
/// Fails with `InvalidParameter`, changing nothing, when the budget is not
/// positive.
pub fn compare_budget_scenarios(store: &mut AnalyticsStore, total_budget: i128, now: u64) -> (r:
    Result<Vec<BudgetPlan>, AnalyticsError>)
    requires
        budget_plan_computable(*old(store), total_budget, "conservative"@),
        budget_plan_computable(*old(store), total_budget, "moderate"@),
        budget_plan_computable(*old(store), total_budget, "aggressive"@),
    ensures
        total_budget <= 0 ==> r == Err::<Vec<BudgetPlan>, AnalyticsError>(
            AnalyticsError::InvalidParameter,
        ) && *final(store) == *old(store),
        total_budget > 0 ==> {
            let plans = r->Ok_0@;
            &&& r is Ok
            &&& plans.len() == 3
            &&& plans[0]@ == budget_plan_of(
                *old(store),
                scenario_lender(),
                total_budget,
                "conservative"@,
                now,
            )
            &&& plans[1]@ == budget_plan_of(*old(store), scenario_lender(), total_budget, "moderate"@, now)
            &&& plans[2]@ == budget_plan_of(
                *old(store),
                scenario_lender(),
                total_budget,
                "aggressive"@,
                now,
            )
            &&& final(store).budget_plans@.dom() == old(store).budget_plans@.dom().insert(
                scenario_lender(),
            )
            &&& final(store).budget_plans@[scenario_lender()]@ == plans[2]@
            &&& forall|k: Seq<char>|
                k != scenario_lender() && #[trigger] old(store).budget_plans@.contains_key(k)
                    ==> final(store).budget_plans@[k] == old(store).budget_plans@[k]
            &&& *final(store) == (AnalyticsStore {
                budget_plans: final(store).budget_plans,
                ..*old(store)
            })
        },
{
    if total_budget <= 0 {
        return Err(AnalyticsError::InvalidParameter);
    }
    let ghost s0 = *store;
    let mut scenarios: Vec<BudgetPlan> = Vec::new();
    let conservative = create_budget_plan(
        store,
        scenario_lender_text(),
        total_budget,
        String::from_str("conservative"),
        now,
    )?;
    scenarios.push(conservative);
    let ghost s1 = *store;
    assert(budget_plan_computable(s1, total_budget, "moderate"@));
    let moderate = create_budget_plan(
        store,
        scenario_lender_text(),
        total_budget,
        String::from_str("moderate"),
        now,
    )?;
    scenarios.push(moderate);
    let ghost s2 = *store;
    assert(budget_plan_computable(s2, total_budget, "aggressive"@));
    let aggressive = create_budget_plan(
        store,
        scenario_lender_text(),
        total_budget,
        String::from_str("aggressive"),
        now,
    )?;
    scenarios.push(aggressive);
    assert(s1.protocol_analytics == s0.protocol_analytics);
    assert(store.protocol_analytics == s0.protocol_analytics);
    assert(scenarios@.len() == 3);
    assert(scenarios@[1]@ == budget_plan_of(s0, scenario_lender(), total_budget, "moderate"@, now));
    assert(scenarios@[2]@ == budget_plan_of(s0, scenario_lender(), total_budget, "aggressive"@, now));
    assert(store.budget_plans@.dom() =~= s0.budget_plans@.dom().insert(scenario_lender()));
    assert forall|k: Seq<char>|
        k != scenario_lender() && #[trigger] s0.budget_plans@.contains_key(k) implies store.budget_plans@[k]
            == s0.budget_plans@[k] by {
        assert(s1.budget_plans@.contains_key(k));
        assert(s2.budget_plans@.contains_key(k));
    }
    assert(*store == (AnalyticsStore { budget_plans: store.budget_plans, ..s0 }));
    Ok(scenarios)
}

/// A budget plan allocates the whole budget: the lent share and the
/// reserve add up to the budget, and the lent share lies within it.
pub proof fn law_budget_fully_allocated(
    store: AnalyticsStore,
    lender: Seq<char>,
    total: i128,
    appetite: Seq<char>,
    now: u64,
)
    requires
        total > 0,
        budget_plan_computable(store, total, appetite),
    ensures
        ({
            let p = budget_plan_of(store, lender, total, appetite, now);
            &&& p.allocated_deposit + p.allocated_reserve == total
            &&& 0 <= p.allocated_deposit <= total
            &&& p.total_budget == total
        }),
{
    let pct = appetite_split(appetite).0;
    let d = allocated_deposit_of(total, appetite);
    assert(0 <= d <= total) by (nonlinear_arith)
        requires
            total > 0,
            0 < pct <= 10000,
            d == (total * pct) / 10000,
    ;
}

/// Each allocation template splits the whole between lending and reserve.
pub proof fn law_templates_split_whole()
    ensures
        appetite_split("conservative"@).0 + appetite_split("conservative"@).1 == BASIS_POINTS,
        appetite_split("aggressive"@).0 + appetite_split("aggressive"@).1 == BASIS_POINTS,
        appetite_split("moderate"@).0 + appetite_split("moderate"@).1 == BASIS_POINTS,
{
}

/// A plan follows the allocation template of its appetite, as
/// `get_allocation_strategies` lists them: a conservative plan lends 60%
/// of the budget at a base APY of 3%, an aggressive one 90% at 8%, and any
/// other (moderate) 75% at 5%; the rest is held in reserve, the expected
/// APY adds a tenth of a basis point for each basis point of utilization
/// above 70%, and the projected yield is the lent amount at that APY.
pub proof fn law_plan_follows_template(
    store: AnalyticsStore,
    lender: Seq<char>,
    total: i128,
    appetite: Seq<char>,
    now: u64,
)
    requires
        total > 0,
        budget_plan_computable(store, total, appetite),
    ensures
        ({
            let p = budget_plan_of(store, lender, total, appetite, now);
            let u = planning_utilization(store);
            let (lend_bps, base_apy) = if appetite == "conservative"@ {
                (6000int, 300int)
            } else if appetite == "aggressive"@ {
                (9000int, 800int)
            } else {
                (7500int, 500int)
            };
            let bonus = if u > 7000 { (u - 7000) * 10 / 10_000 } else { 0 };
            &&& p.allocated_deposit == total * lend_bps / 10_000
            &&& p.allocated_reserve == total - total * lend_bps / 10_000
            &&& p.expected_apy_bps == base_apy + bonus
            &&& p.projected_yield == tdiv(p.allocated_deposit * p.expected_apy_bps, 10_000)
            &&& p.lender == lender
            &&& p.risk_appetite == appetite
            &&& p.created_at == now
        }),
{
    let pct = appetite_split(appetite).0;
    assert(total * pct >= 0) by (nonlinear_arith)
        requires
            total > 0,
            pct > 0,
    ;
    law_budget_fully_allocated(store, lender, total, appetite, now);
    let u = planning_utilization(store);
    if u > 7000 {
        assert((u - 7000) * 10 >= 0) by (nonlinear_arith)
            requires
                u > 7000,
        ;
    }
    let deposit = allocated_deposit_of(total, appetite);
    let apy = expected_apy_of(store, appetite);
    assert(fits_i128(apy)) by {
        if u > 7000 {
            lemma_tdiv_toward_zero((u - 7000) * 10, BASIS_POINTS as int);
        }
        assert(u <= i128::MAX);
    }
}

} // verus!
