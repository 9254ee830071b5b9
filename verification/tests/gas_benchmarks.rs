use stellarlend::gas_benchmarks::{
    average_operation_cost, batch_operation_costs, batch_operations_savings,
    optimization_analysis_costs,
};

#[test]
fn optimization_analysis_average() {
    assert_eq!(average_operation_cost(&optimization_analysis_costs()), 13_500);
    assert_eq!(average_operation_cost(&vec![7]), 7);
    assert_eq!(average_operation_cost(&vec![1, 2]), 1);
}

#[test]
fn batching_saves_forty_percent() {
    assert_eq!(batch_operations_savings(&batch_operation_costs()), 19_200);
    assert_eq!(batch_operations_savings(&vec![]), 0);
    assert_eq!(batch_operations_savings(&vec![1]), 1);
}
