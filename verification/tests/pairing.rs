use std::collections::HashMap;
use supply_chain::models::{Product, ProductDemandParams, SimulationParams, Supplier, SupplierPair};
use supply_chain::pairing::generate_intelligent_pairs;
use supply_chain::pairing_utils::{
    demand_sums, has_adequate_capacity, is_pair_promising, quick_profit_estimate,
    total_mean_demand,
};

fn supplier(id: usize, name: &str, capacity: u32, lead: usize) -> Supplier {
    let mut unit_costs = HashMap::new();
    unit_costs.insert(0, 160 + id as i64);
    Supplier {
        id,
        name: name.to_string(),
        fixed_capacity: capacity,
        lead_time_months: lead,
        unit_costs,
        setup_cost: 1000 * (id as i64 + 1),
    }
}

fn ids(pairs: &Vec<SupplierPair>) -> Vec<(usize, usize)> {
    pairs.iter().map(|p| (p.base_supplier.id, p.surge_supplier.id)).collect()
}

#[test]
fn long_lead_times_pair_with_short_ones() {
    let suppliers = vec![
        supplier(0, "FarFarAway", 60_000, 4),
        supplier(1, "FarAway", 60_000, 3),
        supplier(2, "PrettyClose", 35_000, 0),
        supplier(3, "VeryClose", 40_000, 0),
    ];
    let pairs = generate_intelligent_pairs(&suppliers);
    assert_eq!(ids(&pairs), vec![(0, 2), (0, 3), (1, 2), (1, 3)]);
    assert_eq!(pairs[1].base_supplier.name, "FarFarAway");
    assert_eq!(pairs[1].surge_supplier.name, "VeryClose");
    assert_eq!(pairs[1].surge_supplier.fixed_capacity, 40_000);
    assert_eq!(pairs[1].surge_supplier.setup_cost, 4000);
    assert_eq!(pairs[1].surge_supplier.unit_costs.get(&0), Some(&163));
    assert_eq!(pairs[1].base_supplier.lead_time_months, 4);
}

#[test]
fn supplier_with_a_lead_time_of_one_can_be_either_but_not_both() {
    let suppliers = vec![
        supplier(0, "A", 10, 1),
        supplier(1, "B", 10, 1),
        supplier(2, "C", 10, 2),
        supplier(3, "D", 10, 0),
    ];
    let pairs = generate_intelligent_pairs(&suppliers);
    assert_eq!(ids(&pairs), vec![(0, 1), (0, 3), (1, 0), (1, 3), (2, 0), (2, 1), (2, 3)]);
    for pair in &pairs {
        assert!(pair.base_supplier.lead_time_months >= 1);
        assert!(pair.surge_supplier.lead_time_months < 2);
        assert_ne!(pair.base_supplier.id, pair.surge_supplier.id);
    }
}

#[test]
fn suppliers_with_the_same_id_never_pair() {
    let suppliers = vec![supplier(5, "A", 10, 1), supplier(5, "B", 10, 1)];
    assert!(generate_intelligent_pairs(&suppliers).is_empty());
    assert!(generate_intelligent_pairs(&[]).is_empty());
    assert!(generate_intelligent_pairs(&[supplier(1, "A", 10, 1)]).is_empty());
}

fn scenario() -> (SimulationParams, SupplierPair) {
    let mut base_costs = HashMap::new();
    base_costs.insert(7, 8);
    base_costs.insert(9, 30);
    let pair = SupplierPair {
        base_supplier: Supplier {
            id: 0,
            name: "Far".to_string(),
            fixed_capacity: 90,
            lead_time_months: 2,
            unit_costs: base_costs,
            setup_cost: 1000,
        },
        surge_supplier: Supplier {
            id: 1,
            name: "Near".to_string(),
            fixed_capacity: 8,
            lead_time_months: 1,
            unit_costs: HashMap::new(),
            setup_cost: 300,
        },
    };
    let params = SimulationParams {
        products: vec![
            Product {
                id: 7,
                name: "Model A".to_string(),
                selling_price: 20,
                liquidation_price: 3,
                monthly_holding_cost: 2,
            },
            Product {
                id: 9,
                name: "Model B".to_string(),
                selling_price: 50,
                liquidation_price: 10,
                monthly_holding_cost: 1,
            },
        ],
        demand_params: vec![
            ProductDemandParams {
                product_id: 7,
                mean_demand: 100,
                std_dev_demand: 10,
                actual_mean_demand: 120,
                actual_std_dev_demand: 20,
            },
            ProductDemandParams {
                product_id: 9,
                mean_demand: 40,
                std_dev_demand: 5,
                actual_mean_demand: 40,
                actual_std_dev_demand: 5,
            },
        ],
        order_change_fee: 500,
    };
    (params, pair)
}

#[test]
fn quick_estimate_of_a_scenario() {
    let (params, pair) = scenario();
    let sums = demand_sums(&params, &pair);
    assert_eq!(sums.revenue_potential, 100 * 20 + 40 * 50);
    assert_eq!(sums.weighted_cost, 100 * 8 + 40 * 30);
    assert_eq!(sums.demand, 140);
    assert_eq!(sums.holding, 3);
    let revenue = 9 * 4000 / 10;
    let production = 9 * 2000 / 10;
    let holding = 36 * 140 * 1 / 25;
    assert_eq!(holding, 201);
    assert_eq!(quick_profit_estimate(&params, &pair), Some(revenue - production - 1000 - holding));
    assert_eq!(quick_profit_estimate(&params, &pair), Some(599));
}

#[test]
fn quick_estimate_without_demand_is_the_setup_cost() {
    let (mut params, pair) = scenario();
    params.demand_params.clear();
    assert_eq!(quick_profit_estimate(&params, &pair), Some(-1000));
    params.products.clear();
    assert_eq!(quick_profit_estimate(&params, &pair), None);
    assert!(!is_pair_promising(&params, &pair, i128::MIN));
}

#[test]
fn promising_pair_needs_profit_and_capacity() {
    let (params, mut pair) = scenario();
    assert_eq!(total_mean_demand(&params), 140);
    assert!(has_adequate_capacity(&params, &pair));
    assert!(is_pair_promising(&params, &pair, 599));
    assert!(!is_pair_promising(&params, &pair, 600));
    pair.surge_supplier.fixed_capacity = 7;
    assert!(!has_adequate_capacity(&params, &pair));
    assert!(!is_pair_promising(&params, &pair, 0));
}
