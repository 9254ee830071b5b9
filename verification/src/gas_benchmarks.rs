//! The arithmetic that the gas-estimation benchmarks measure: the average
//! cost of a set of operations, and the savings of batching them.

use vstd::prelude::*;

verus! {

/// Share of the individual costs that a batch costs, in percent.
pub const BATCH_COST_PERCENT: u64 = 60;

/// The sum of `s`.
pub open spec fn cost_sum(s: Seq<u64>) -> nat
    decreases s.len(),
{
    if s.len() == 0 {
        0
    } else {
        cost_sum(s.drop_last()) + s.last() as nat
    }
}

/// The sum of the costs, computed in `u64`.
fn total_cost(costs: &Vec<u64>) -> (r: u64)
    requires
        cost_sum(costs@) <= u64::MAX,
    ensures
        r == cost_sum(costs@),
{
    let mut total: u64 = 0;
    let mut i: usize = 0;
    while i < costs.len()
        invariant
            i <= costs.len(),
            cost_sum(costs@) <= u64::MAX,
            total == cost_sum(costs@.take(i as int)),
        decreases costs.len() - i,
    {
        proof {
            assert(costs@.take(i + 1).drop_last() =~= costs@.take(i as int));
            lemma_cost_sum_prefix(costs@, i + 1);
        }
        total = total + costs[i];
        i += 1;
    }
    assert(costs@.take(costs.len() as int) =~= costs@);
    total
}

/// A prefix costs no more than the whole.
proof fn lemma_cost_sum_prefix(s: Seq<u64>, k: int)
    requires
        0 <= k <= s.len(),
    ensures
        cost_sum(s.take(k)) <= cost_sum(s),
    decreases s.len(),
{
    if k < s.len() {
        assert(s.drop_last().take(k) =~= s.take(k));
        lemma_cost_sum_prefix(s.drop_last(), k);
    } else {
        assert(s.take(k) =~= s);
    }
}

/// The operation costs of the optimisation analysis.
pub fn optimization_analysis_costs() -> (r: Vec<u64>)
    ensures
        r@ == seq![10000u64, 15000, 12000, 11000, 25000, 18000, 8000, 9000],
{
    vec![10000u64, 15000, 12000, 11000, 25000, 18000, 8000, 9000]
}

/// The individual operation costs of the batching analysis.
pub fn batch_operation_costs() -> (r: Vec<u64>)
    ensures
        r@ == seq![10000u64, 15000, 12000, 11000],
{
    vec![10000u64, 15000, 12000, 11000]
}

/// The average cost of the operations, rounded down.
pub fn average_operation_cost(costs: &Vec<u64>) -> (r: u64)
    requires
        costs.len() > 0,
        cost_sum(costs@) <= u64::MAX,
    ensures
        r == cost_sum(costs@) / (costs.len() as nat),
{
    let total = total_cost(costs);
    total / (costs.len() as u64)
}

/// What batching the operations saves: their total cost less the batch's
/// cost of 60% of it (rounded down).
pub fn batch_operations_savings(costs: &Vec<u64>) -> (r: u64)
    requires
        cost_sum(costs@) * BATCH_COST_PERCENT <= u64::MAX,
    ensures
        r == cost_sum(costs@) - cost_sum(costs@) * BATCH_COST_PERCENT / 100,
{
    let total_individual = total_cost(costs);
    let batch_cost = total_individual * BATCH_COST_PERCENT / 100;
    total_individual - batch_cost
}

} // verus!
