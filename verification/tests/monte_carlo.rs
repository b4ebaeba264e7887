use rand::Rng;
use rand_distr::Normal;
use std::collections::HashMap;
use supply_chain::capacity::create_order;
use supply_chain::models::{Product, ProductDemandParams, SimulationParams, Supplier, SupplierPair};
use supply_chain::monte_carlo::{describe_allocations, run_monte_carlo_simulation, run_profits};
use supply_chain::simulation::split_order_quantities;
use supply_chain::statistics::MAX_RUNS;

fn scenario() -> (SimulationParams, SupplierPair) {
    let params = SimulationParams {
        products: vec![Product {
            id: 0,
            name: "Model A".to_string(),
            selling_price: 10,
            liquidation_price: 0,
            monthly_holding_cost: 0,
        }],
        demand_params: vec![ProductDemandParams {
            product_id: 0,
            mean_demand: 1000,
            std_dev_demand: 200,
            actual_mean_demand: 1000,
            actual_std_dev_demand: 200,
        }],
        order_change_fee: 0,
    };
    let mut costs = HashMap::new();
    costs.insert(0, 5);
    let pair = SupplierPair {
        base_supplier: Supplier {
            id: 0,
            name: "Far".to_string(),
            fixed_capacity: 800,
            lead_time_months: 0,
            unit_costs: costs.clone(),
            setup_cost: 0,
        },
        surge_supplier: Supplier {
            id: 1,
            name: "Near".to_string(),
            fixed_capacity: 400,
            lead_time_months: 0,
            unit_costs: costs,
            setup_cost: 0,
        },
    };
    (params, pair)
}

fn draw_runs(count: usize, mean: f64, std_dev: f64) -> Vec<Vec<Vec<i64>>> {
    let mut rng = rand::thread_rng();
    let normal = Normal::new(mean, std_dev).unwrap();
    (0..count)
        .map(|_| (0..8).map(|_| vec![rng.sample::<f64, _>(normal) as i64]).collect())
        .collect()
}

#[test]
fn mean_profit_per_period_is_near_the_margin_on_mean_demand() {
    let (params, pair) = scenario();
    let order = split_order_quantities(&[(0, 1000)], &pair, &params);
    assert_eq!(order.base_quantity_for(0), 800);
    assert_eq!(order.surge_quantity_for(0), 200);
    let runs = draw_runs(200, 1000.0, 200.0);
    let stats = run_monte_carlo_simulation(&params, &pair, &order, 200, &runs).unwrap();
    assert_eq!(stats.num_simulations, 200);
    let expected: i128 = 1200i128.min(1000) * (10 - 5);
    assert_eq!(expected, 5000);
    let per_period = stats.mean_profit / 8;
    assert!(per_period <= expected);
    assert!(per_period >= expected - 1000);
    assert!(stats.max_profit <= 8 * expected);
    assert!(stats.min_profit <= stats.percentile_10);
    assert!(stats.percentile_10 <= stats.percentile_25);
    assert!(stats.percentile_25 <= stats.percentile_50);
    assert!(stats.percentile_50 <= stats.percentile_75);
    assert!(stats.percentile_75 <= stats.percentile_90);
    assert!(stats.percentile_90 <= stats.max_profit);
}

#[test]
fn statistics_of_fixed_runs() {
    let (params, pair) = scenario();
    let order = create_order(vec![(0, 800)], vec![(0, 200)]);
    let runs: Vec<Vec<Vec<i64>>> = vec![
        vec![vec![1000]; 8],
        vec![vec![900]; 8],
        vec![vec![1600]; 8],
    ];
    let profits = run_profits(&params, &pair, &order, true, &runs, 3);
    assert_eq!(profits, vec![40000, 32000, 40000]);
    let stats = run_monte_carlo_simulation(&params, &pair, &order, 3, &runs).unwrap();
    assert_eq!(stats.mean_profit, 37333);
    assert_eq!(stats.min_profit, 32000);
    assert_eq!(stats.max_profit, 40000);
    assert_eq!(stats.percentile_50, 40000);
    assert_eq!(stats.percentile_10, 32000);
    assert_eq!(stats.std_dev_profit, 3771);
    assert_eq!(stats.base_supplier, "Far");
    assert_eq!(stats.surge_supplier, "Near");
    assert_eq!(stats.base_supplier_lead_time, 0);
    assert_eq!(stats.total_capacity_used, 1000);
    assert_eq!(stats.product_allocations.len(), 1);
    assert_eq!(stats.product_allocations[0].product_name, "Model A");
    assert_eq!(stats.product_allocations[0].base_quantity, 800);
    assert_eq!(stats.product_allocations[0].surge_quantity, 200);
}

#[test]
fn run_without_samples_meets_no_demand() {
    let (params, pair) = scenario();
    let order = create_order(vec![(0, 800)], vec![(0, 200)]);
    let profits = run_profits(&params, &pair, &order, true, &vec![vec![vec![1000]; 8]], 2);
    assert_eq!(profits, vec![40000, -40000]);
}

#[test]
fn no_statistics_without_runs_or_with_too_many() {
    let (params, pair) = scenario();
    let order = create_order(vec![(0, 800)], vec![(0, 200)]);
    assert!(run_monte_carlo_simulation(&params, &pair, &order, 0, &vec![]).is_none());
    assert!(run_monte_carlo_simulation(&params, &pair, &order, MAX_RUNS + 1, &vec![]).is_none());
}

#[test]
fn allocations_follow_the_product_list() {
    let (mut params, _) = scenario();
    params.products.push(Product {
        id: 3,
        name: "Model B".to_string(),
        selling_price: 1,
        liquidation_price: 0,
        monthly_holding_cost: 0,
    });
    let order = create_order(vec![(3, 5), (0, 6)], vec![(3, 7)]);
    let allocations = describe_allocations(&params, &order);
    assert_eq!(allocations.len(), 2);
    assert_eq!(allocations[0].product_id, 0);
    assert_eq!(allocations[0].base_quantity, 6);
    assert_eq!(allocations[0].surge_quantity, 0);
    assert_eq!(allocations[1].product_name, "Model B");
    assert_eq!(allocations[1].base_quantity, 5);
    assert_eq!(allocations[1].surge_quantity, 7);
}
