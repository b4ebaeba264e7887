use std::collections::HashMap;
use supply_chain::models::{Product, ProductDemandParams, SimulationParams, Supplier, SupplierPair};
use supply_chain::optimizer::{
    allocate_proportionally, coarse_points, coarse_to_fine_grid_search, expected_demands,
    find_optimal_production_quantities, find_optimal_production_quantities_with_diagnostics,
    find_optimal_single_product, fine_points, mean_exceeds, scaled, score_plan, scoring_order,
    Score, CANDIDATE_COUNT, CANDIDATE_RUNS, COARSE_POINTS, COARSE_RUNS, FINE_FIRST_RUN,
    FINE_POINTS, FINE_RUNS, SINGLE_PRODUCT_DRAWS, TWO_PRODUCT_DRAWS,
};

fn product(id: usize, price: i64, liquidation: i64, holding: i64) -> Product {
    Product {
        id,
        name: format!("Product {}", id),
        selling_price: price,
        liquidation_price: liquidation,
        monthly_holding_cost: holding,
    }
}

fn demand(id: usize, mean: u32, std_dev: u32) -> ProductDemandParams {
    ProductDemandParams {
        product_id: id,
        mean_demand: mean,
        std_dev_demand: std_dev,
        actual_mean_demand: mean,
        actual_std_dev_demand: std_dev,
    }
}

fn supplier(id: usize, capacity: u32, costs: &[(usize, i64)]) -> Supplier {
    let mut unit_costs = HashMap::new();
    for (product, cost) in costs {
        unit_costs.insert(*product, *cost);
    }
    Supplier {
        id,
        name: format!("Supplier {}", id),
        fixed_capacity: capacity,
        lead_time_months: id,
        unit_costs,
        setup_cost: 0,
    }
}

fn one_product() -> (SimulationParams, SupplierPair) {
    (
        SimulationParams {
            products: vec![product(0, 10, 0, 1)],
            demand_params: vec![demand(0, 1000, 200)],
            order_change_fee: 0,
        },
        SupplierPair {
            base_supplier: supplier(1, 800, &[(0, 5)]),
            surge_supplier: supplier(0, 400, &[(0, 5)]),
        },
    )
}

fn two_products(base_capacity: u32, surge_capacity: u32) -> (SimulationParams, SupplierPair) {
    let mut pair = SupplierPair {
        base_supplier: supplier(2, base_capacity, &[(7, 8), (9, 30)]),
        surge_supplier: supplier(1, surge_capacity, &[(7, 11)]),
    };
    pair.base_supplier.setup_cost = 1000;
    pair.surge_supplier.setup_cost = 300;
    (
        SimulationParams {
            products: vec![product(7, 20, 3, 2), product(9, 50, 10, 1)],
            demand_params: vec![demand(7, 100, 10), demand(9, 40, 5)],
            order_change_fee: 500,
        },
        pair,
    )
}

#[test]
fn draws_cover_every_candidate() {
    assert_eq!(SINGLE_PRODUCT_DRAWS, CANDIDATE_COUNT * CANDIDATE_RUNS);
    assert_eq!(FINE_FIRST_RUN, COARSE_POINTS * COARSE_POINTS * COARSE_RUNS);
    assert_eq!(TWO_PRODUCT_DRAWS, FINE_FIRST_RUN + FINE_POINTS * FINE_POINTS * FINE_RUNS);
}

#[test]
fn single_product_sweep_picks_the_best_candidate() {
    let (params, pair) = one_product();
    let runs = vec![vec![vec![1000i64]; 8]; 180];
    assert_eq!(find_optimal_single_product(&params, &pair, &runs), vec![(0, 972)]);
    assert_eq!(find_optimal_production_quantities(&params, &pair, &runs), vec![(0, 972)]);
    assert_eq!(
        find_optimal_production_quantities_with_diagnostics(&params, &pair, &runs),
        vec![(0, 972)]
    );
}

#[test]
fn single_product_sweep_keeps_the_first_of_equal_candidates() {
    let (params, pair) = one_product();
    assert_eq!(find_optimal_single_product(&params, &pair, &vec![]), vec![(0, 700)]);
}

#[test]
fn single_product_candidates_run_from_seven_tenths_to_twelve_tenths() {
    let quantities: Vec<u32> = (0..12).map(|i| scaled(1000, 77 + 5 * i, 110)).collect();
    assert_eq!(
        quantities,
        vec![700, 745, 790, 836, 881, 927, 972, 1018, 1063, 1109, 1154, 1200]
    );
}

#[test]
fn score_is_the_total_over_its_own_runs() {
    let (params, pair) = one_product();
    let mut runs = vec![vec![vec![1000i64]; 8]; 4];
    runs[2] = vec![vec![500i64]; 8];
    let order = scoring_order(&vec![(0, 700)]);
    assert_eq!(order.base_quantity_for(0), 700);
    assert_eq!(order.total_surge_quantity(), 0);
    let score = score_plan(&params, &pair, &order, &runs, 0, 2);
    assert_eq!(score.runs, 2);
    assert_eq!(score.total, 2 * 8 * 700 * 5);
    let mixed = score_plan(&params, &pair, &order, &runs, 2, 3);
    let lean: i128 = 8 * (500 * 10 - 700 * 5) - (1..=8).map(|t| 200 * t).sum::<i128>();
    let empty: i128 = -8 * 700 * 5 - (1..=8).map(|t| 700 * t).sum::<i128>();
    assert_eq!(mixed.total, lean + 8 * 700 * 5 + empty);
    assert_eq!(score_plan(&params, &pair, &order, &runs, usize::MAX, 1).total, empty);
}

#[test]
fn means_are_compared_exactly() {
    assert!(mean_exceeds(Score { total: 31, runs: 30 }, Score { total: 51, runs: 50 }));
    assert!(!mean_exceeds(Score { total: 30, runs: 30 }, Score { total: 50, runs: 50 }));
    assert!(!mean_exceeds(Score { total: 50, runs: 50 }, Score { total: 30, runs: 30 }));
    assert!(mean_exceeds(Score { total: -59, runs: 30 }, Score { total: -100, runs: 50 }));
    assert!(!mean_exceeds(Score { total: -61, runs: 30 }, Score { total: -100, runs: 50 }));
    assert!(mean_exceeds(Score { total: 1, runs: 64 }, Score { total: 0, runs: 1 }));
    assert!(mean_exceeds(Score { total: 0, runs: 1 }, Score { total: -1, runs: 64 }));
}

#[test]
fn grid_points_are_evenly_spaced() {
    assert_eq!(coarse_points(100), vec![70, 80, 90, 100, 110, 120]);
    assert_eq!(coarse_points(0), vec![0, 0, 0, 0, 0, 0]);
    assert_eq!(fine_points(100), vec![85, 92, 100, 107, 115]);
    assert_eq!(fine_points(36), vec![30, 32, 35, 38, 41]);
    assert_eq!(coarse_points(u32::MAX)[5], u32::MAX);
}

#[test]
fn grid_search_keeps_the_coarse_best_unless_fine_is_strictly_better() {
    let (params, pair) = two_products(1000, 60);
    let runs = vec![vec![vec![100i64, 40]; 8]; 2330];
    let products = expected_demands(&params);
    assert_eq!(products, vec![(7, 100), (9, 40)]);
    assert_eq!(
        coarse_to_fine_grid_search(&params, &pair, &products, &runs),
        vec![(7, 100), (9, 40)]
    );
}

#[test]
fn grid_search_adopts_a_strictly_better_fine_cell() {
    let (params, pair) = two_products(1000, 60);
    let runs: Vec<Vec<Vec<i64>>> = (0..2330)
        .map(|k| vec![vec![90 + (k % 21) as i64, 35 + (k % 11) as i64]; 8])
        .collect();
    assert_eq!(
        find_optimal_production_quantities(&params, &pair, &runs),
        vec![(7, 100), (9, 38)]
    );
}

#[test]
fn grid_search_without_a_feasible_cell_returns_the_mean_demands() {
    let (params, pair) = two_products(50, 10);
    let runs = vec![vec![vec![100i64, 40]; 8]; 2330];
    assert_eq!(
        find_optimal_production_quantities(&params, &pair, &runs),
        vec![(7, 100), (9, 40)]
    );
}

#[test]
fn three_products_share_capacity_in_proportion_to_demand() {
    let (mut params, pair) = two_products(1000, 500);
    params.products.push(product(11, 1, 0, 0));
    params.demand_params = vec![demand(7, 100, 10), demand(9, 200, 5), demand(11, 300, 5)];
    assert_eq!(
        find_optimal_production_quantities(&params, &pair, &vec![]),
        vec![(7, 250), (9, 500), (11, 750)]
    );
    assert_eq!(
        allocate_proportionally(&vec![(1, 1), (2, 1), (3, 1)], 100),
        vec![(1, 33), (2, 33), (3, 33)]
    );
}

#[test]
fn proportional_allocation_without_demand_or_products() {
    assert_eq!(allocate_proportionally(&vec![(1, 0), (2, 0)], 100), vec![(1, 0), (2, 0)]);
    assert_eq!(allocate_proportionally(&vec![], 100), vec![]);
    let (mut params, pair) = two_products(1000, 500);
    params.products.clear();
    assert_eq!(find_optimal_production_quantities(&params, &pair, &vec![]), vec![]);
    assert_eq!(
        allocate_proportionally(&vec![(1, 9), (2, 1)], 2 * (u32::MAX as u64)),
        vec![(1, u32::MAX), (2, 858_993_459)]
    );
}
