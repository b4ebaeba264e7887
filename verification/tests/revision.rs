use supply_chain::capacity::create_order;
use supply_chain::revision::{desired_surge, revise_surge_order, scaled_lines, wide_total};

#[test]
fn revision_asks_surge_for_what_base_does_not_make() {
    let current = create_order(vec![(1, 100), (2, 300)], vec![(1, 5)]);
    let plan = revise_surge_order(&current, &vec![(1, 150), (2, 250), (3, 40)], 1000);
    assert_eq!(plan.base_quantity_for(1), 100);
    assert_eq!(plan.base_quantity_for(2), 300);
    assert_eq!(plan.surge_orders.len(), 3);
    assert_eq!(plan.surge_quantity_for(1), 50);
    assert_eq!(plan.surge_quantity_for(2), 0);
    assert_eq!(plan.surge_quantity_for(3), 40);
}

#[test]
fn revision_scales_down_to_surge_capacity() {
    let current = create_order(vec![(1, 100), (2, 30)], vec![]);
    let plan = revise_surge_order(&current, &vec![(1, 150), (2, 50)], 60);
    assert_eq!(plan.surge_quantity_for(1), 42);
    assert_eq!(plan.surge_quantity_for(2), 17);
    assert!(plan.total_surge_quantity() <= 60);
    let plan = revise_surge_order(&current, &vec![(1, 150), (2, 50)], 70);
    assert_eq!(plan.surge_quantity_for(1), 50);
    assert_eq!(plan.surge_quantity_for(2), 20);
    let plan = revise_surge_order(&current, &vec![(1, 150), (2, 50)], 0);
    assert_eq!(plan.total_surge_quantity(), 0);
}

#[test]
fn revision_with_largest_quantities_stays_within_capacity() {
    let current = create_order(vec![], vec![]);
    let target = vec![(1, u32::MAX), (2, u32::MAX), (3, u32::MAX)];
    let plan = revise_surge_order(&current, &target, u32::MAX);
    assert_eq!(plan.surge_quantity_for(1), u32::MAX / 3);
    assert!(plan.is_wf());
    assert_eq!(wide_total(&desired_surge(&target, &vec![])), 3 * (u32::MAX as u128));
}

#[test]
fn scaled_lines_round_down() {
    let lines = desired_surge(&vec![(1, 10), (2, 5)], &vec![]);
    let scaled = scaled_lines(&lines, 7, 15);
    assert_eq!(scaled[0].quantity, 4);
    assert_eq!(scaled[1].quantity, 2);
}
