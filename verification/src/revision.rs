//! Revising the surge order in mid-season. The base order is never revised: a
//! revision asks the surge supplier for what the target allocation wants beyond
//! the base order, scaled down in proportion where that is more than the surge
//! supplier can make.

use vstd::prelude::*;
use crate::ledger::OrderModel;
use crate::models::{
    copy_lines, lemma_total_quantity_bounds, quantity_for, spec_quantity_for, spec_total_quantity,
    MonthlyOrder, ProductOrder,
};

verus! {

/// What the target wants of one product beyond its base order; never negative.
pub open spec fn spec_shortfall(target_quantity: u32, base_quantity: u32) -> u32 {
    if target_quantity > base_quantity {
        (target_quantity - base_quantity) as u32
    } else {
        0
    }
}

/// One surge line per entry of the target: what it wants beyond the base order.
pub open spec fn spec_desired_surge(
    target: Seq<(usize, u32)>,
    base: Seq<ProductOrder>,
) -> Seq<ProductOrder> {
    Seq::new(
        target.len(),
        |i: int|
            ProductOrder {
                product_id: target[i].0,
                quantity: spec_shortfall(target[i].1, spec_quantity_for(base, target[i].0)),
            },
    )
}

/// A quantity scaled by `capacity / total`, rounded down.
pub open spec fn spec_scaled_quantity(quantity: u32, capacity: u32, total: int) -> int {
    quantity * capacity / total
}

/// Every line scaled by `capacity / total`, rounded down.
pub open spec fn spec_scaled_lines(
    lines: Seq<ProductOrder>,
    capacity: u32,
    total: int,
) -> Seq<ProductOrder> {
    Seq::new(
        lines.len(),
        |i: int|
            ProductOrder {
                product_id: lines[i].product_id,
                quantity: spec_scaled_quantity(lines[i].quantity, capacity, total) as u32,
            },
    )
}

/// The revised surge lines: the desired ones, scaled down in proportion if
/// together they exceed the surge capacity.
pub open spec fn spec_revised_surge(
    target: Seq<(usize, u32)>,
    base: Seq<ProductOrder>,
    surge_capacity: u32,
) -> Seq<ProductOrder> {
    let desired = spec_desired_surge(target, base);
    let total = spec_total_quantity(desired);
    if total > surge_capacity {
        spec_scaled_lines(desired, surge_capacity, total)
    } else {
        desired
    }
}

/// The revised plan: the base order as it is, and the revised surge lines.
pub open spec fn spec_revised_plan(
    order: OrderModel,
    target: Seq<(usize, u32)>,
    surge_capacity: u32,
) -> OrderModel {
    OrderModel { base: order.base, surge: spec_revised_surge(target, order.base, surge_capacity) }
}

/// Adding a line adds its quantity to the total.
pub proof fn lemma_total_push(lines: Seq<ProductOrder>, line: ProductOrder)
    ensures
        spec_total_quantity(lines.push(line)) == spec_total_quantity(lines) + line.quantity,
{
    assert(lines.push(line).drop_last() == lines);
}

/// A scaled quantity is no more than the quantity, and no more than its exact
/// share.
pub proof fn lemma_scaled_quantity(quantity: u32, capacity: u32, total: int)
    requires
        0 < total,
        capacity <= total,
    ensures
        0 <= spec_scaled_quantity(quantity, capacity, total) <= quantity,
        spec_scaled_quantity(quantity, capacity, total) * total <= quantity * capacity,
{
    let product = quantity * capacity;
    assert(0 <= product <= quantity * total) by (nonlinear_arith)
        requires
            product == quantity * capacity,
            0 <= capacity <= total,
            0 <= quantity,
    ;
    vstd::arithmetic::div_mod::lemma_fundamental_div_mod(product, total);
    vstd::arithmetic::div_mod::lemma_mod_bound(product, total);
    vstd::arithmetic::div_mod::lemma_div_pos_is_pos(product, total);
    assert(total * (product / total) == (product / total) * total) by (nonlinear_arith);
    assert(product / total <= quantity) by (nonlinear_arith)
        requires
            (product / total) * total <= quantity * total,
            0 < total,
    ;
}

/// Scaled lines together take at most their exact share of the capacity.
pub proof fn lemma_scaled_total(lines: Seq<ProductOrder>, capacity: u32, total: int)
    requires
        0 < total,
        capacity <= total,
    ensures
        0 <= spec_total_quantity(spec_scaled_lines(lines, capacity, total)),
        spec_total_quantity(spec_scaled_lines(lines, capacity, total)) * total <= capacity
            * spec_total_quantity(lines),
    decreases lines.len(),
{
    let scaled = spec_scaled_lines(lines, capacity, total);
    lemma_total_quantity_bounds(scaled);
    if lines.len() > 0 {
        let front = lines.drop_last();
        lemma_scaled_total(front, capacity, total);
        assert(scaled.drop_last() =~= spec_scaled_lines(front, capacity, total));
        let q = lines.last().quantity;
        lemma_scaled_quantity(q, capacity, total);
        let a = spec_total_quantity(spec_scaled_lines(front, capacity, total));
        let b = spec_scaled_quantity(q, capacity, total);
        let c = spec_total_quantity(front);
        assert(scaled.last().quantity == b);
        assert((a + b) * total <= capacity * (c + q)) by (nonlinear_arith)
            requires
                a * total <= capacity * c,
                b * total <= q * capacity,
        ;
    }
}

/// The revised surge lines never ask for more than the surge capacity.
pub proof fn lemma_revised_surge_within_capacity(
    target: Seq<(usize, u32)>,
    base: Seq<ProductOrder>,
    surge_capacity: u32,
)
    ensures
        0 <= spec_total_quantity(spec_revised_surge(target, base, surge_capacity))
            <= surge_capacity,
{
    let desired = spec_desired_surge(target, base);
    let total = spec_total_quantity(desired);
    lemma_total_quantity_bounds(desired);
    if total > surge_capacity {
        lemma_scaled_total(desired, surge_capacity, total);
        let scaled_total = spec_total_quantity(spec_scaled_lines(desired, surge_capacity, total));
        assert(scaled_total <= surge_capacity) by (nonlinear_arith)
            requires
                scaled_total * total <= surge_capacity * total,
                0 < total,
        ;
    }
}

/// Sum of the quantities of `orders`, however large.
pub fn wide_total(orders: &Vec<ProductOrder>) -> (total: u128)
    ensures
        total == spec_total_quantity(orders@),
{
    let mut total: u128 = 0;
    let mut i: usize = 0;
    while i < orders.len()
        invariant
            i <= orders@.len(),
            total == spec_total_quantity(orders@.take(i as int)),
            total <= i * 0xFFFF_FFFF,
        decreases orders@.len() - i,
    {
        proof {
            assert(orders@.take(i + 1).drop_last() == orders@.take(i as int));
            assert((i + 1) * 0xFFFF_FFFF == i * 0xFFFF_FFFF + 0xFFFF_FFFF) by (nonlinear_arith);
            assert(i * 0xFFFF_FFFF <= usize::MAX * 0xFFFF_FFFF) by (nonlinear_arith)
                requires
                    i <= usize::MAX,
            ;
        }
        total = total + orders[i].quantity as u128;
        i += 1;
    }
    proof {
        assert(orders@.take(orders@.len() as int) == orders@);
    }
    total
}

/// The surge lines that the target asks for beyond the base order.
pub fn desired_surge(target: &Vec<(usize, u32)>, base: &Vec<ProductOrder>) -> (lines: Vec<
    ProductOrder,
>)
    ensures
        lines@ == spec_desired_surge(target@, base@),
{
    let mut lines: Vec<ProductOrder> = Vec::new();
    let mut i: usize = 0;
    while i < target.len()
        invariant
            i <= target@.len(),
            lines@ == spec_desired_surge(target@.take(i as int), base@),
        decreases target@.len() - i,
    {
        let entry = target[i];
        let current_base: u32 = quantity_for(base, entry.0);
        let quantity: u32 = if entry.1 > current_base {
            entry.1 - current_base
        } else {
            0
        };
        lines.push(ProductOrder { product_id: entry.0, quantity });
        i += 1;
        proof {
            assert(lines@ =~= spec_desired_surge(target@.take(i as int), base@));
        }
    }
    proof {
        assert(target@.take(target@.len() as int) == target@);
    }
    lines
}

/// Every line scaled by `capacity / total`, rounded down.
pub fn scaled_lines(lines: &Vec<ProductOrder>, capacity: u32, total: u128) -> (scaled: Vec<
    ProductOrder,
>)
    requires
        capacity < total,
    ensures
        scaled@ == spec_scaled_lines(lines@, capacity, total as int),
{
    let mut scaled: Vec<ProductOrder> = Vec::new();
    let mut i: usize = 0;
    while i < lines.len()
        invariant
            i <= lines@.len(),
            capacity < total,
            scaled@ == spec_scaled_lines(lines@.take(i as int), capacity, total as int),
        decreases lines@.len() - i,
    {
        let line = lines[i];
        proof {
            lemma_scaled_quantity(line.quantity, capacity, total as int);
            assert(line.quantity * capacity <= 0xFFFF_FFFF * 0xFFFF_FFFF) by (nonlinear_arith)
                requires
                    line.quantity <= 0xFFFF_FFFF,
                    capacity <= 0xFFFF_FFFF,
            ;
        }
        let share: u128 = (line.quantity as u128) * (capacity as u128) / total;
        scaled.push(ProductOrder { product_id: line.product_id, quantity: share as u32 });
        i += 1;
        proof {
            assert(scaled@ =~= spec_scaled_lines(lines@.take(i as int), capacity, total as int));
        }
    }
    proof {
        assert(lines@.take(lines@.len() as int) == lines@);
    }
    scaled
}

/// The plan that a revision toward `target` schedules: the base order of
/// `current` as it is, and surge lines for what the target wants beyond it,
/// scaled down in proportion where they exceed `surge_capacity`.
pub fn revise_surge_order(
    current: &MonthlyOrder,
    target: &Vec<(usize, u32)>,
    surge_capacity: u32,
) -> (plan: MonthlyOrder)
    ensures
        plan@ == spec_revised_plan(current@, target@, surge_capacity),
        plan@.total_surge() <= surge_capacity,
        plan@.total_base() == current@.total_base(),
{
    let desired = desired_surge(target, &current.base_orders);
    let total: u128 = wide_total(&desired);
    proof {
        lemma_revised_surge_within_capacity(target@, current.base_orders@, surge_capacity);
    }
    let surge_orders = if total > surge_capacity as u128 {
        scaled_lines(&desired, surge_capacity, total)
    } else {
        desired
    };
    MonthlyOrder { base_orders: copy_lines(&current.base_orders), surge_orders }
}

} // verus!
