use std::collections::HashMap;
use supply_chain::capacity::create_order;
use supply_chain::models::{Product, ProductDemandParams, SimulationParams, Supplier, SupplierPair};
use supply_chain::options::LatticeInputs;
use supply_chain::season::SeasonState;
use supply_chain::simulation::{
    advise, run_monthly_simulation, run_monthly_simulation_internal, run_season_without_options,
};

fn scenario(fee: i64) -> (SimulationParams, SupplierPair) {
    let mut base_costs = HashMap::new();
    base_costs.insert(0, 5);
    let mut surge_costs = HashMap::new();
    surge_costs.insert(0, 6);
    (
        SimulationParams {
            products: vec![Product {
                id: 0,
                name: "Model A".to_string(),
                selling_price: 10,
                liquidation_price: 0,
                monthly_holding_cost: 1,
            }],
            demand_params: vec![ProductDemandParams {
                product_id: 0,
                mean_demand: 1000,
                std_dev_demand: 200,
                actual_mean_demand: 1000,
                actual_std_dev_demand: 200,
            }],
            order_change_fee: fee,
        },
        SupplierPair {
            base_supplier: Supplier {
                id: 0,
                name: "Far".to_string(),
                fixed_capacity: 800,
                lead_time_months: 3,
                unit_costs: base_costs,
                setup_cost: 50,
            },
            surge_supplier: Supplier {
                id: 1,
                name: "Near".to_string(),
                fixed_capacity: 400,
                lead_time_months: 1,
                unit_costs: surge_costs,
                setup_cost: 70,
            },
        },
    )
}

fn lattice() -> LatticeInputs {
    LatticeInputs {
        forecasts: vec![
            201, 246, 301, 367, 449, 548, 670, 818, 1000, 1221, 1491, 1822, 2225, 2718, 3320,
            4055, 4953,
        ],
        up_probability_ppm: Some(450_166),
    }
}

fn steady_demand() -> Vec<Vec<i64>> {
    vec![vec![1000]; 8]
}

fn steady_draws() -> Vec<Vec<Vec<Vec<i64>>>> {
    vec![vec![steady_demand(); 180]; 8]
}

#[test]
fn engine_revises_the_surge_order_when_the_option_is_worth_it() {
    let (params, pair) = scenario(100);
    let order = create_order(vec![(0, 700)], vec![(0, 0)]);
    let (ledger, total) =
        run_monthly_simulation(&params, &pair, &order, &steady_demand(), &lattice(), &steady_draws());
    let profits: Vec<i128> = ledger.iter().map(|m| m.monthly_profit).collect();
    assert_eq!(profits, vec![3450, 4418, 4488, 4488, 4488, 4488, 4488, 4488]);
    assert_eq!(total, 34796);
    let fees: Vec<i64> = ledger.iter().map(|m| m.order_change_cost).collect();
    assert_eq!(fees, vec![0, 100, 100, 100, 100, 100, 100, 100]);
    let surge: Vec<u32> = ledger.iter().map(|m| m.surge_shipped).collect();
    assert_eq!(surge, vec![0, 272, 272, 272, 272, 272, 272, 272]);
    let setup: Vec<i128> = ledger.iter().map(|m| m.setup_cost).collect();
    assert_eq!(setup, vec![50, 70, 0, 0, 0, 0, 0, 0]);
    for month in &ledger {
        assert_eq!(month.base_shipped, 700);
    }
}

#[test]
fn engine_keeps_the_order_when_the_option_is_worth_less_than_the_fee() {
    let (params, pair) = scenario(5000);
    let order = create_order(vec![(0, 700)], vec![(0, 0)]);
    let (ledger, total) =
        run_monthly_simulation(&params, &pair, &order, &steady_demand(), &lattice(), &steady_draws());
    assert_eq!(total, 27950);
    for month in &ledger {
        assert_eq!(month.order_change_cost, 0);
        assert_eq!(month.surge_shipped, 0);
    }
}

#[test]
fn engine_with_options_disabled_is_the_plain_season() {
    let (params, pair) = scenario(100);
    let order = create_order(vec![(0, 700)], vec![(0, 0)]);
    let (_, total) = run_monthly_simulation_internal(
        &params,
        &pair,
        &order,
        false,
        true,
        &steady_demand(),
        &lattice(),
        &steady_draws(),
    );
    let (_, plain) = run_season_without_options(&params, &pair, &order, true, &steady_demand());
    assert_eq!(total, 27950);
    assert_eq!(total, plain);
}

#[test]
fn advice_holds_the_value_and_the_target() {
    let (params, pair) = scenario(100);
    let order = create_order(vec![(0, 700)], vec![(0, 0)]);
    let mut state = SeasonState::new(&params, &pair, &order);
    state.settle_period(&params, &pair, true, &vec![1000]);
    let draws = vec![steady_demand(); 180];
    let advice = advise(&state, &params, &pair, true, &lattice(), &draws).unwrap();
    assert_eq!(advice.option_value, 2532);
    assert_eq!(advice.target, vec![(0, 972)]);
    assert!(advise(&state, &params, &pair, false, &lattice(), &draws).is_none());

    let (dear, _) = scenario(5000);
    let advice = advise(&state, &dear, &pair, true, &lattice(), &draws).unwrap();
    assert_eq!(advice.option_value, 464);
    assert!(advice.target.is_empty());
}
