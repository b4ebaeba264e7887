use std::collections::HashMap;
use supply_chain::models::{
    OptionState, Product, ProductDemandParams, SimulationParams, Supplier, SupplierPair,
};
use supply_chain::options::{
    economics_of, saturate, LatticeInputs, OptionEconomics, OptionValuation, LATTICE_REACH,
    LATTICE_WIDTH,
};

fn economics() -> OptionEconomics {
    OptionEconomics {
        mean_demand: 1000,
        std_dev_demand: 200,
        selling_price: 10,
        surge_unit_cost: 6,
        monthly_holding_cost: 1,
        order_change_fee: 100,
    }
}

fn lattice() -> LatticeInputs {
    LatticeInputs {
        forecasts: vec![
            201, 246, 301, 367, 449, 548, 670, 818, 1000, 1221, 1491, 1822, 2225, 2718, 3320,
            4055, 4953,
        ],
        up_probability_ppm: Some(450_166),
    }
}

#[test]
fn lattice_inputs_match_exp_of_the_coefficient_of_variation() {
    let u = (200.0f64 / 1000.0).exp();
    let inputs = lattice();
    assert_eq!(inputs.forecasts.len(), LATTICE_WIDTH);
    assert_eq!(LATTICE_WIDTH, 2 * LATTICE_REACH + 1);
    for (position, forecast) in inputs.forecasts.iter().enumerate() {
        let k = position as i32 - LATTICE_REACH as i32;
        assert_eq!(*forecast, (1000.0 * u.powi(k)) as u32);
    }
    let d = 1.0 / u;
    let p = (1.0 - d) / (u - d);
    assert_eq!(inputs.up_probability_ppm, Some((p * 1_000_000.0).round() as u32));
    assert!(inputs.is_wf());
}

#[test]
fn option_with_no_period_remaining_is_worth_nothing() {
    let inputs = lattice();
    for quantity in [0u32, 900, 1500, u32::MAX] {
        for inventory in [0u32, 17, u32::MAX] {
            let valuation = OptionValuation::new(quantity, inventory, 8, economics());
            assert_eq!(valuation.remaining_months, 0);
            assert_eq!(valuation.value_option(&inputs), 0);
        }
    }
    let mut rich = economics();
    rich.selling_price = i64::MAX;
    rich.order_change_fee = i64::MIN;
    let valuation = OptionValuation::new(1, 1, 8, rich);
    assert_eq!(valuation.value_option(&inputs), 0);
    let unknown = LatticeInputs { forecasts: vec![], up_probability_ppm: None };
    assert_eq!(valuation.value_option(&unknown), 0);
}

#[test]
fn option_value_grows_with_the_periods_that_remain() {
    let inputs = lattice();
    let short: Vec<i128> = (0..=8)
        .map(|remaining| OptionValuation::new(900, 0, 8 - remaining, economics()).value_option(&inputs))
        .collect();
    assert_eq!(short, vec![0, 1616, 1616, 1655, 1755, 1792, 1891, 1925, 2016]);
    let long: Vec<i128> = (0..=8)
        .map(|remaining| OptionValuation::new(1500, 0, 8 - remaining, economics()).value_option(&inputs))
        .collect();
    assert_eq!(long, vec![0, 71, 346, 559, 695, 853, 953, 1083, 1167]);
}

#[test]
fn option_value_does_not_depend_on_inventory() {
    let inputs = lattice();
    let empty = OptionValuation::new(900, 0, 3, economics()).value_option(&inputs);
    let full = OptionValuation::new(900, 100_000, 3, economics()).value_option(&inputs);
    assert_eq!(empty, full);
}

#[test]
fn without_a_probability_the_value_is_the_exercise_payoff() {
    let mut inputs = lattice();
    inputs.up_probability_ppm = None;
    for current_month in 0..8 {
        let valuation = OptionValuation::new(900, 0, current_month, economics());
        assert_eq!(valuation.value_option(&inputs), 1616);
    }
}

#[test]
fn exercise_payoff_follows_the_newsvendor_rule() {
    let inputs = lattice();
    let payoff = |quantity: u32, e: OptionEconomics| {
        OptionValuation::new(quantity, 0, 0, e).calculate_exercise_payoff(&inputs, 0, 0)
    };
    assert_eq!(payoff(900, economics()), 429 * 4 - 100);
    assert_eq!(payoff(1500, economics()), 171 - 100);
    assert_eq!(payoff(1329, economics()), -100);
    assert_eq!(payoff(0, economics()), 1000 * 4 - 100);
    let mut costly_holding = economics();
    costly_holding.monthly_holding_cost = 10;
    assert_eq!(payoff(900, costly_holding), 100 * 4 - 100);
    assert_eq!(payoff(1100, costly_holding), 100 * 10 - 100);
    let mut no_demand = economics();
    no_demand.mean_demand = 0;
    assert_eq!(payoff(900, no_demand), -100);
}

#[test]
fn exercise_payoff_uses_the_forecast_of_its_node() {
    let inputs = lattice();
    let valuation = OptionValuation::new(900, 0, 0, economics());
    assert_eq!(valuation.calculate_exercise_payoff(&inputs, 0, 1), (1221 + 401 - 900) * 4 - 100);
    assert_eq!(valuation.calculate_exercise_payoff(&inputs, 0, -1), (900 - 818 - 269) * 0 + (818 + 269 - 900) * 4 - 100);
    assert_eq!(valuation.calculate_exercise_payoff(&inputs, 0, -8), (900 - 201 - 66) - 100);
    assert_eq!(valuation.calculate_exercise_payoff(&inputs, 0, 9), 900 - 100);
    assert_eq!(inputs.forecast(8), 4953);
    assert_eq!(inputs.forecast(-9), 0);
    assert_eq!(inputs.forecast(i32::MIN), 0);
    assert_eq!(inputs.forecast(i32::MAX), 0);
}

#[test]
fn lattice_node_inventory_is_updated_like_a_period() {
    let valuation = OptionValuation::new(100, 0, 0, economics());
    assert_eq!(valuation.update_inventory(50, 120), 30);
    assert_eq!(valuation.update_inventory(50, 150), 0);
    assert_eq!(valuation.update_inventory(50, 900), 0);
    assert_eq!(valuation.update_inventory(u32::MAX, 0), u32::MAX);
    assert_eq!(valuation.update_inventory(u32::MAX, 100), u32::MAX);
    let node = OptionState { month: 1, inventory: valuation.update_inventory(50, 120), cumulative_uplifts: 1 };
    assert_eq!(node.inventory, 30);
}

#[test]
fn probability_above_one_is_not_well_formed() {
    let inputs = LatticeInputs { forecasts: vec![], up_probability_ppm: Some(1_000_001) };
    assert!(!inputs.is_wf());
    let inputs = LatticeInputs { forecasts: vec![], up_probability_ppm: Some(1_000_000) };
    assert!(inputs.is_wf());
    assert_eq!(saturate(u32::MAX as u128 + 1), u32::MAX);
    assert_eq!(saturate(17), 17);
}

#[test]
fn economics_of_a_scenario() {
    let mut surge_costs = HashMap::new();
    surge_costs.insert(7, 11);
    let pair = SupplierPair {
        base_supplier: Supplier {
            id: 0,
            name: "Far".to_string(),
            fixed_capacity: 1000,
            lead_time_months: 2,
            unit_costs: HashMap::new(),
            setup_cost: 1000,
        },
        surge_supplier: Supplier {
            id: 1,
            name: "Near".to_string(),
            fixed_capacity: 60,
            lead_time_months: 1,
            unit_costs: surge_costs,
            setup_cost: 300,
        },
    };
    let mut params = SimulationParams {
        products: vec![
            Product {
                id: 7,
                name: "Model A".to_string(),
                selling_price: 20,
                liquidation_price: 3,
                monthly_holding_cost: 2,
            },
            Product {
                id: 9,
                name: "Model B".to_string(),
                selling_price: 50,
                liquidation_price: 10,
                monthly_holding_cost: 1,
            },
        ],
        demand_params: vec![
            ProductDemandParams {
                product_id: 7,
                mean_demand: 100,
                std_dev_demand: 10,
                actual_mean_demand: 120,
                actual_std_dev_demand: 20,
            },
            ProductDemandParams {
                product_id: 9,
                mean_demand: 40,
                std_dev_demand: 5,
                actual_mean_demand: 40,
                actual_std_dev_demand: 5,
            },
        ],
        order_change_fee: 500,
    };
    let e = economics_of(&params, &pair);
    assert_eq!(e.mean_demand, 140);
    assert_eq!(e.std_dev_demand, 15);
    assert_eq!(e.selling_price, 20);
    assert_eq!(e.surge_unit_cost, 11);
    assert_eq!(e.monthly_holding_cost, 2);
    assert_eq!(e.order_change_fee, 500);
    params.products.clear();
    let e = economics_of(&params, &pair);
    assert_eq!(e.mean_demand, 140);
    assert_eq!(e.selling_price, 0);
    assert_eq!(e.surge_unit_cost, 0);
}
