use std::collections::HashMap;
use supply_chain::capacity::create_order;
use supply_chain::models::MonthlyResult;
use supply_chain::models::{Product, ProductDemandParams, SimulationParams, Supplier, SupplierPair};
use supply_chain::season::{PendingChange, RevisionAdvice, SeasonState};
use supply_chain::simulation::{
    run_season_with_advice, run_season_without_options, split_order_quantities,
};

fn two_products() -> SimulationParams {
    SimulationParams {
        products: vec![
            Product {
                id: 7,
                name: "Model A".to_string(),
                selling_price: 20,
                liquidation_price: 3,
                monthly_holding_cost: 2,
            },
            Product {
                id: 9,
                name: "Model B".to_string(),
                selling_price: 50,
                liquidation_price: 10,
                monthly_holding_cost: 1,
            },
        ],
        demand_params: vec![
            ProductDemandParams {
                product_id: 7,
                mean_demand: 100,
                std_dev_demand: 10,
                actual_mean_demand: 120,
                actual_std_dev_demand: 20,
            },
            ProductDemandParams {
                product_id: 9,
                mean_demand: 40,
                std_dev_demand: 5,
                actual_mean_demand: 40,
                actual_std_dev_demand: 5,
            },
        ],
        order_change_fee: 500,
    }
}

fn far_and_near() -> SupplierPair {
    let mut base_costs = HashMap::new();
    base_costs.insert(7, 8);
    base_costs.insert(9, 30);
    let mut surge_costs = HashMap::new();
    surge_costs.insert(7, 11);
    SupplierPair {
        base_supplier: Supplier {
            id: 0,
            name: "Far".to_string(),
            fixed_capacity: 1000,
            lead_time_months: 2,
            unit_costs: base_costs,
            setup_cost: 1000,
        },
        surge_supplier: Supplier {
            id: 1,
            name: "Near".to_string(),
            fixed_capacity: 60,
            lead_time_months: 1,
            unit_costs: surge_costs,
            setup_cost: 300,
        },
    }
}

fn season_demand() -> Vec<Vec<i64>> {
    vec![
        vec![90, 20],
        vec![150, 60],
        vec![-5, 40],
        vec![500, 10],
        vec![100, 40],
        vec![100, 40],
        vec![100, 40],
        vec![100, 41],
    ]
}

fn season_advice() -> Vec<Option<RevisionAdvice>> {
    vec![
        None,
        Some(RevisionAdvice { option_value: 501, target: vec![(7, 150), (9, 50)] }),
        Some(RevisionAdvice { option_value: 1_000_000_000, target: vec![(7, 1)] }),
    ]
}

fn advised_season() -> (Vec<MonthlyResult>, i128) {
    let order = create_order(vec![(7, 100), (9, 30)], vec![(7, 0), (9, 0)]);
    run_season_with_advice(
        &two_products(),
        &far_and_near(),
        &order,
        true,
        true,
        &season_demand(),
        &season_advice(),
    )
}

#[test]
fn season_has_eight_named_periods() {
    let (ledger, _) = advised_season();
    let names: Vec<String> = ledger.iter().map(|m| m.month.clone()).collect();
    assert_eq!(
        names,
        vec!["May", "June", "July", "August", "September", "October", "November", "December"]
    );
    for month in &ledger {
        assert_eq!(month.product_results.len(), 2);
        assert_eq!(month.product_results[0].product_id, 7);
        assert_eq!(month.product_results[0].product_name, "Model A");
        assert_eq!(month.product_results[1].product_id, 9);
    }
}

#[test]
fn first_period_row_by_row() {
    let (ledger, _) = advised_season();
    let a = &ledger[0].product_results[0];
    assert_eq!(a.inventory_start, 0);
    assert_eq!(a.incoming, 100);
    assert_eq!(a.demand, 90);
    assert_eq!(a.units_sold, 90);
    assert_eq!(a.inventory_end, 10);
    assert_eq!(a.revenue, 1800);
    assert_eq!(a.production_cost, 800);
    assert_eq!(a.holding_cost, 20);
    assert_eq!(a.liquidation_revenue, 0);
    assert_eq!(a.profit(), 980);
    let b = &ledger[0].product_results[1];
    assert_eq!(b.units_sold, 20);
    assert_eq!(b.inventory_end, 10);
    assert_eq!(b.revenue, 1000);
    assert_eq!(b.production_cost, 900);
    assert_eq!(b.holding_cost, 10);
    assert_eq!(ledger[0].setup_cost, 1000);
    assert_eq!(ledger[0].order_change_cost, 0);
    assert_eq!(ledger[0].monthly_profit, 70);
}

#[test]
fn demand_is_clamped_before_it_is_met() {
    let (ledger, _) = advised_season();
    assert_eq!(ledger[1].product_results[0].demand, 150);
    assert_eq!(ledger[1].product_results[1].demand, 55);
    assert_eq!(ledger[2].product_results[0].demand, 0);
    assert_eq!(ledger[3].product_results[0].demand, 180);
}

#[test]
fn units_sold_never_exceed_stock_after_delivery() {
    let (ledger, _) = advised_season();
    for month in &ledger {
        for row in &month.product_results {
            assert!(row.units_sold <= row.inventory_start + row.incoming);
            assert!(row.units_sold <= row.demand as u64);
            assert!(row.inventory_end <= row.inventory_start + row.incoming - row.units_sold);
        }
    }
    assert_eq!(ledger[1].product_results[0].units_sold, 110);
    assert_eq!(ledger[1].product_results[0].inventory_end, 0);
}

#[test]
fn inventory_carries_over_between_periods() {
    let (ledger, _) = advised_season();
    for t in 1..8 {
        for i in 0..2 {
            assert_eq!(
                ledger[t].product_results[i].inventory_start,
                ledger[t - 1].product_results[i].inventory_end
            );
        }
    }
}

#[test]
fn season_profit_is_the_sum_of_the_periods() {
    let (ledger, total) = advised_season();
    let profits: Vec<i128> = ledger.iter().map(|m| m.monthly_profit).collect();
    assert_eq!(profits, vec![70, 2500, -1253, 1749, 2159, 2169, 2026, 1862]);
    assert_eq!(total, profits.iter().sum::<i128>());
    assert_eq!(total, 11282);
}

#[test]
fn setup_cost_is_charged_once_per_supplier() {
    let (ledger, _) = advised_season();
    let base: Vec<bool> = ledger.iter().map(|m| m.base_setup_charged).collect();
    let surge: Vec<bool> = ledger.iter().map(|m| m.surge_setup_charged).collect();
    assert_eq!(base, vec![true, false, false, false, false, false, false, false]);
    assert_eq!(surge, vec![false, false, true, false, false, false, false, false]);
    let costs: Vec<i128> = ledger.iter().map(|m| m.setup_cost).collect();
    assert_eq!(costs, vec![1000, 0, 300, 0, 0, 0, 0, 0]);
    let shipped: Vec<u32> = ledger.iter().map(|m| m.surge_shipped).collect();
    assert_eq!(shipped, vec![0, 0, 59, 0, 0, 0, 0, 0]);
    for month in &ledger {
        assert_eq!(month.base_shipped, 130);
    }
}

#[test]
fn revision_takes_effect_one_lead_time_later_and_costs_the_fee() {
    let (ledger, _) = advised_season();
    let fees: Vec<i64> = ledger.iter().map(|m| m.order_change_cost).collect();
    assert_eq!(fees, vec![0, 0, 500, 500, 0, 0, 0, 0]);
    assert_eq!(ledger[2].product_results[0].incoming, 142);
    assert_eq!(ledger[2].product_results[1].incoming, 47);
    assert_eq!(ledger[2].product_results[0].production_cost, 800 + 42 * 11);
    assert_eq!(ledger[2].product_results[1].production_cost, 900);
    assert_eq!(ledger[3].product_results[0].incoming, 100);
}

#[test]
fn last_period_liquidates_what_is_left() {
    let (ledger, _) = advised_season();
    let a = &ledger[7].product_results[0];
    assert_eq!(a.inventory_start, 62);
    assert_eq!(a.units_sold, 100);
    assert_eq!(a.holding_cost, 124);
    assert_eq!(a.liquidation_revenue, 186);
    assert_eq!(a.inventory_end, 0);
    let b = &ledger[7].product_results[1];
    assert_eq!(b.units_sold, 30);
    assert_eq!(b.liquidation_revenue, 0);
    assert_eq!(b.inventory_end, 0);
    for t in 0..7 {
        assert_eq!(ledger[t].product_results[0].liquidation_revenue, 0);
    }
}

#[test]
fn advice_is_ignored_with_options_disabled() {
    let order = create_order(vec![(7, 100), (9, 30)], vec![(7, 0), (9, 0)]);
    let (advised, advised_total) = run_season_with_advice(
        &two_products(),
        &far_and_near(),
        &order,
        false,
        true,
        &season_demand(),
        &season_advice(),
    );
    let (plain, plain_total) =
        run_season_without_options(&two_products(), &far_and_near(), &order, true, &season_demand());
    assert_eq!(advised_total, plain_total);
    for t in 0..8 {
        assert_eq!(advised[t].monthly_profit, plain[t].monthly_profit);
        assert_eq!(advised[t].order_change_cost, 0);
        assert_eq!(plain[t].surge_shipped, 0);
    }
}

#[test]
fn planning_demand_uses_the_planning_cap() {
    let order = create_order(vec![(7, 100), (9, 30)], vec![]);
    let (ledger, _) =
        run_season_without_options(&two_products(), &far_and_near(), &order, false, &season_demand());
    assert_eq!(ledger[1].product_results[0].demand, 130);
    assert_eq!(ledger[3].product_results[0].demand, 130);
}

#[test]
fn season_without_demand_samples_sells_nothing() {
    let order = create_order(vec![(7, 10)], vec![]);
    let (ledger, total) =
        run_season_without_options(&two_products(), &far_and_near(), &order, true, &vec![]);
    for (t, month) in ledger.iter().enumerate() {
        assert_eq!(month.product_results[0].units_sold, 0);
        if t < 7 {
            assert_eq!(month.product_results[0].inventory_end, 10 * (t as u64 + 1));
        }
    }
    let holding: i128 = (1..=8).map(|t| 2 * 10 * t).sum();
    assert_eq!(total, -1000 - 8 * 80 - holding + 80 * 3);
}

#[test]
fn season_without_products_has_empty_rows() {
    let params = SimulationParams { products: vec![], demand_params: vec![], order_change_fee: 0 };
    let order = create_order(vec![(7, 10)], vec![]);
    let (ledger, total) =
        run_season_without_options(&params, &far_and_near(), &order, true, &season_demand());
    assert_eq!(ledger.len(), 8);
    assert!(ledger[0].product_results.is_empty());
    assert_eq!(total, -1000);
}

#[test]
fn state_steps_through_a_season() {
    let params = two_products();
    let pair = far_and_near();
    let order = create_order(vec![(7, 100), (9, 30)], vec![(7, 0), (9, 0)]);
    let mut state = SeasonState::new(&params, &pair, &order);
    assert_eq!(state.period, 0);
    assert_eq!(state.inventories, vec![0, 0]);
    assert!(matches!(state.pending, PendingChange::NoPendingChange));

    let first = state.settle_period(&params, &pair, true, &vec![90, 20]);
    assert_eq!(first.monthly_profit, 70);
    assert!(state.settled);
    let query = state.option_query(true).unwrap();
    assert_eq!(query.order_quantity, 130);
    assert_eq!(query.inventory, 20);
    assert_eq!(query.period, 0);
    assert!(state.option_query(false).is_none());

    let advice = Some(RevisionAdvice { option_value: 501, target: vec![(7, 150), (9, 50)] });
    state.close_period(&params, &pair, true, &advice);
    assert_eq!(state.period, 1);
    assert!(!state.settled);
    match &state.pending {
        PendingChange::Scheduled { scheduled_in, effective_period, plan } => {
            assert_eq!(*scheduled_in, 0);
            assert_eq!(*effective_period, 1);
            assert_eq!(plan.total_base_quantity(), 130);
            assert_eq!(plan.total_surge_quantity(), 59);
        }
        PendingChange::NoPendingChange => panic!("a revision should be waiting"),
    }

    let second = state.settle_period(&params, &pair, true, &vec![150, 60]);
    assert_eq!(second.order_change_cost, 500);
    assert!(second.surge_setup_charged);
    assert!(matches!(state.pending, PendingChange::NoPendingChange));
    assert_eq!(state.total_profit, first.monthly_profit + second.monthly_profit);
}

#[test]
fn no_second_revision_while_one_is_waiting() {
    let params = two_products();
    let mut pair = far_and_near();
    pair.surge_supplier.lead_time_months = 3;
    let order = create_order(vec![(7, 100)], vec![]);
    let mut state = SeasonState::new(&params, &pair, &order);
    state.settle_period(&params, &pair, true, &vec![]);
    let advice = Some(RevisionAdvice { option_value: 501, target: vec![(7, 110)] });
    state.close_period(&params, &pair, true, &advice);
    state.settle_period(&params, &pair, true, &vec![]);
    assert!(state.option_query(true).is_none());
    let other = Some(RevisionAdvice { option_value: 9999, target: vec![(7, 160)] });
    state.close_period(&params, &pair, true, &other);
    match &state.pending {
        PendingChange::Scheduled { scheduled_in, effective_period, plan } => {
            assert_eq!(*scheduled_in, 0);
            assert_eq!(*effective_period, 3);
            assert_eq!(plan.surge_quantity_for(7), 10);
        }
        PendingChange::NoPendingChange => panic!("the first revision should still be waiting"),
    }
}

#[test]
fn revision_is_not_scheduled_past_the_season() {
    let params = two_products();
    let mut pair = far_and_near();
    pair.surge_supplier.lead_time_months = 2;
    let order = create_order(vec![(7, 100)], vec![]);
    let mut state = SeasonState::new(&params, &pair, &order);
    let advice = Some(RevisionAdvice { option_value: 501, target: vec![(7, 110)] });
    for period in 0..8 {
        state.settle_period(&params, &pair, true, &vec![]);
        state.close_period(&params, &pair, true, &advice);
        match &state.pending {
            PendingChange::Scheduled { scheduled_in, effective_period, .. } => {
                assert_eq!(*effective_period, *scheduled_in + 2);
                assert!(*effective_period <= 7);
                assert!(*scheduled_in <= period);
            }
            PendingChange::NoPendingChange => {}
        }
        if period >= 6 {
            assert!(matches!(state.pending, PendingChange::NoPendingChange));
        }
    }
    assert_eq!(state.period, 8);
}

#[test]
fn option_worth_exactly_the_fee_is_not_exercised() {
    let params = two_products();
    let pair = far_and_near();
    let order = create_order(vec![(7, 100)], vec![]);
    let mut state = SeasonState::new(&params, &pair, &order);
    state.settle_period(&params, &pair, true, &vec![]);
    let advice = Some(RevisionAdvice { option_value: 500, target: vec![(7, 110)] });
    state.close_period(&params, &pair, true, &advice);
    assert!(matches!(state.pending, PendingChange::NoPendingChange));
    assert!(!SeasonState::worth_exercising(500, &params));
    assert!(SeasonState::worth_exercising(501, &params));
}

fn split_params(mean: u32, std_dev: u32) -> SimulationParams {
    SimulationParams {
        products: vec![],
        demand_params: vec![
            ProductDemandParams {
                product_id: 0,
                mean_demand: mean,
                std_dev_demand: std_dev,
                actual_mean_demand: mean,
                actual_std_dev_demand: std_dev,
            },
            ProductDemandParams {
                product_id: 1,
                mean_demand: 300,
                std_dev_demand: 100,
                actual_mean_demand: 300,
                actual_std_dev_demand: 100,
            },
        ],
        order_change_fee: 0,
    }
}

fn capacities(base: u32, surge: u32) -> SupplierPair {
    let mut pair = far_and_near();
    pair.base_supplier.fixed_capacity = base;
    pair.surge_supplier.fixed_capacity = surge;
    pair
}

#[test]
fn split_without_variability_fills_base_first() {
    let order = split_order_quantities(&[(0, 1000)], &capacities(600, 600), &split_params(1000, 0));
    assert_eq!(order.base_quantity_for(0), 600);
    assert_eq!(order.surge_quantity_for(0), 400);
    assert_eq!(order.total_base_quantity() + order.total_surge_quantity(), 1000);
}

#[test]
fn split_weighs_base_by_variability() {
    let order = split_order_quantities(&[(0, 1000)], &capacities(900, 900), &split_params(1000, 200));
    assert_eq!(order.base_quantity_for(0), 833);
    assert_eq!(order.surge_quantity_for(0), 167);
    let order = split_order_quantities(&[(5, 600)], &capacities(900, 900), &split_params(1000, 200));
    assert_eq!(order.base_quantity_for(5), 500);
    assert_eq!(order.surge_quantity_for(5), 100);
    let order = split_order_quantities(&[(0, 600)], &capacities(900, 900), &split_params(0, 7));
    assert_eq!(order.base_quantity_for(0), 0);
    assert_eq!(order.surge_quantity_for(0), 600);
}

#[test]
fn split_of_a_single_product_hands_back_to_base() {
    let order = split_order_quantities(&[(0, 1000)], &capacities(900, 100), &split_params(1000, 1000));
    assert_eq!(order.base_quantity_for(0), 900);
    assert_eq!(order.surge_quantity_for(0), 100);
    let order = split_order_quantities(&[(0, 1000)], &capacities(700, 100), &split_params(1000, 1000));
    assert_eq!(order.base_quantity_for(0), 700);
    assert_eq!(order.surge_quantity_for(0), 100);
}

#[test]
fn split_of_several_products_drops_what_does_not_fit() {
    let order = split_order_quantities(
        &[(0, 1000), (1, 400)],
        &capacities(900, 100),
        &split_params(1000, 1000),
    );
    assert_eq!(order.base_quantity_for(0), 500);
    assert_eq!(order.surge_quantity_for(0), 100);
    assert_eq!(order.base_quantity_for(1), 300);
    assert_eq!(order.surge_quantity_for(1), 0);
}

#[test]
fn split_never_exceeds_either_capacity() {
    let pair = capacities(500, 200);
    let params = split_params(1000, 250);
    for first in [0u32, 1, 499, 500, 501, 2000, u32::MAX] {
        for second in [0u32, 300, u32::MAX] {
            let order = split_order_quantities(&[(0, first), (1, second)], &pair, &params);
            assert!(order.total_base_quantity() <= 500);
            assert!(order.total_surge_quantity() <= 200);
            let single = split_order_quantities(&[(0, first)], &pair, &params);
            assert!(single.total_base_quantity() <= 500);
            assert!(single.total_surge_quantity() <= 200);
        }
    }
    let order = split_order_quantities(&[], &pair, &params);
    assert!(order.base_orders.is_empty());
}
