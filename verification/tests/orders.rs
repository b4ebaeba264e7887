use supply_chain::capacity::{
    create_empty_order, create_order, remaining_capacity, validate_capacity_constraint,
};
use supply_chain::models::{Supplier, SupplierPair};
use std::collections::HashMap;

fn supplier(id: usize, name: &str, capacity: u32, lead: usize) -> Supplier {
    Supplier {
        id,
        name: name.to_string(),
        fixed_capacity: capacity,
        lead_time_months: lead,
        unit_costs: HashMap::new(),
        setup_cost: 0,
    }
}

fn pair(base_capacity: u32, surge_capacity: u32) -> SupplierPair {
    SupplierPair {
        base_supplier: supplier(0, "Far", base_capacity, 3),
        surge_supplier: supplier(1, "Near", surge_capacity, 0),
    }
}

#[test]
fn empty_order_has_one_zero_line_per_product() {
    let order = create_empty_order(&[3, 5]);
    assert_eq!(order.base_orders.len(), 2);
    assert_eq!(order.surge_orders.len(), 2);
    assert_eq!(order.base_orders[0].product_id, 3);
    assert_eq!(order.base_orders[1].product_id, 5);
    assert_eq!(order.surge_orders[1].product_id, 5);
    assert_eq!(order.base_orders[1].quantity, 0);
    assert_eq!(order.total_base_quantity(), 0);
    assert_eq!(order.total_surge_quantity(), 0);
}

#[test]
fn empty_order_for_no_products_is_empty() {
    let order = create_empty_order(&[]);
    assert!(order.base_orders.is_empty());
    assert!(order.surge_orders.is_empty());
    assert!(order.is_wf());
}

#[test]
fn order_totals_and_lookups() {
    let order = create_order(vec![(0, 10), (1, 20), (0, 99)], vec![(1, 7)]);
    assert_eq!(order.total_base_quantity(), 129);
    assert_eq!(order.total_surge_quantity(), 7);
    assert_eq!(order.base_quantity_for(0), 10);
    assert_eq!(order.base_quantity_for(1), 20);
    assert_eq!(order.base_quantity_for(2), 0);
    assert_eq!(order.surge_quantity_for(1), 7);
    assert_eq!(order.surge_quantity_for(0), 0);
}

#[test]
fn order_whose_total_does_not_fit_is_not_well_formed() {
    let order = create_order(vec![(0, u32::MAX), (1, 1)], vec![]);
    assert!(!order.is_wf());
    let order = create_order(vec![(0, u32::MAX)], vec![(1, u32::MAX)]);
    assert!(order.is_wf());
}

#[test]
fn duplicate_keeps_the_lines() {
    let order = create_order(vec![(4, 10), (2, 20)], vec![(2, 7)]);
    let copy = order.duplicate();
    assert_eq!(copy.base_orders.len(), 2);
    assert_eq!(copy.base_orders[0].product_id, 4);
    assert_eq!(copy.base_orders[1].quantity, 20);
    assert_eq!(copy.surge_orders.len(), 1);
    assert_eq!(copy.surge_orders[0].quantity, 7);
}

#[test]
fn order_within_capacity_is_valid() {
    let order = create_order(vec![(0, 400), (1, 200)], vec![(0, 100)]);
    assert!(validate_capacity_constraint(&order, &pair(600, 100)).is_ok());
}

#[test]
fn base_capacity_violation_is_reported() {
    let order = create_order(vec![(0, 400), (1, 201)], vec![(0, 500)]);
    let error = validate_capacity_constraint(&order, &pair(600, 100)).unwrap_err();
    assert_eq!(error.message, "Base supplier capacity exceeded");
    assert_eq!(error.supplier_name, "Far");
    assert_eq!(error.capacity, 600);
    assert_eq!(error.requested, 601);
}

#[test]
fn surge_capacity_violation_is_reported() {
    let order = create_order(vec![(0, 400), (1, 200)], vec![(0, 60), (1, 41)]);
    let error = validate_capacity_constraint(&order, &pair(600, 100)).unwrap_err();
    assert_eq!(error.message, "Surge supplier capacity exceeded");
    assert_eq!(error.supplier_name, "Near");
    assert_eq!(error.capacity, 100);
    assert_eq!(error.requested, 101);
}

#[test]
fn remaining_capacity_never_goes_below_zero() {
    let order = create_order(vec![(0, 400)], vec![(0, 150)]);
    assert_eq!(remaining_capacity(&order, &pair(600, 100)), (200, 0));
    assert_eq!(remaining_capacity(&order, &pair(400, 151)), (0, 1));
}

#[test]
fn combined_capacity_does_not_overflow() {
    let p = pair(u32::MAX, u32::MAX);
    assert_eq!(p.total_capacity(), 2 * (u32::MAX as u64));
}
