use vstd::prelude::*;
use crate::models::{MonthlyOrder, ProductOrder, SupplierPair};

verus! {

/// A capacity constraint that an order violates.
#[derive(Debug)]
pub struct CapacityError {
    pub message: String,
    pub supplier_name: String,
    pub capacity: u32,
    pub requested: u32,
}

/// The order lines that `create_order` builds from `(product id, quantity)`
/// pairs: one line per pair, in the same order.
pub open spec fn spec_lines(quantities: Seq<(usize, u32)>) -> Seq<ProductOrder> {
    Seq::new(
        quantities.len(),
        |i: int| ProductOrder { product_id: quantities[i].0, quantity: quantities[i].1 },
    )
}

/// One line of quantity zero per product id, in the same order.
pub open spec fn spec_empty_lines(product_ids: Seq<usize>) -> Seq<ProductOrder> {
    Seq::new(product_ids.len(), |i: int| ProductOrder { product_id: product_ids[i], quantity: 0 })
}

/// Create an empty order for the given product ids.
pub fn create_empty_order(product_ids: &[usize]) -> (order: MonthlyOrder)
    ensures
        order.base_orders@ == spec_empty_lines(product_ids@),
        order.surge_orders@ == spec_empty_lines(product_ids@),
{
    let mut base_orders: Vec<ProductOrder> = Vec::new();
    let mut surge_orders: Vec<ProductOrder> = Vec::new();
    let mut i: usize = 0;
    while i < product_ids.len()
        invariant
            i <= product_ids@.len(),
            base_orders@ == spec_empty_lines(product_ids@.take(i as int)),
            surge_orders@ == spec_empty_lines(product_ids@.take(i as int)),
        decreases product_ids@.len() - i,
    {
        base_orders.push(ProductOrder { product_id: product_ids[i], quantity: 0 });
        surge_orders.push(ProductOrder { product_id: product_ids[i], quantity: 0 });
        i += 1;
        proof {
            assert(base_orders@ =~= spec_empty_lines(product_ids@.take(i as int)));
            assert(surge_orders@ =~= spec_empty_lines(product_ids@.take(i as int)));
        }
    }
    proof {
        assert(product_ids@.take(product_ids@.len() as int) == product_ids@);
    }
    MonthlyOrder { base_orders, surge_orders }
}

/// Order lines for the given `(product id, quantity)` pairs.
pub fn lines_from(quantities: &Vec<(usize, u32)>) -> (lines: Vec<ProductOrder>)
    ensures
        lines@ == spec_lines(quantities@),
{
    let mut lines: Vec<ProductOrder> = Vec::new();
    let mut i: usize = 0;
    while i < quantities.len()
        invariant
            i <= quantities@.len(),
            lines@ == spec_lines(quantities@.take(i as int)),
        decreases quantities@.len() - i,
    {
        let pair = quantities[i];
        lines.push(ProductOrder { product_id: pair.0, quantity: pair.1 });
        i += 1;
        proof {
            assert(lines@ =~= spec_lines(quantities@.take(i as int)));
        }
    }
    proof {
        assert(quantities@.take(quantities@.len() as int) == quantities@);
    }
    lines
}

/// Create an order with specified `(product id, quantity)` pairs for each
/// supplier.
pub fn create_order(
    base_quantities: Vec<(usize, u32)>,
    surge_quantities: Vec<(usize, u32)>,
) -> (order: MonthlyOrder)
    ensures
        order.base_orders@ == spec_lines(base_quantities@),
        order.surge_orders@ == spec_lines(surge_quantities@),
{
    MonthlyOrder {
        base_orders: lines_from(&base_quantities),
        surge_orders: lines_from(&surge_quantities),
    }
}

/// Checks that the order's totals do not exceed the capacity of either
/// supplier. The base supplier is checked first.
pub fn validate_capacity_constraint(order: &MonthlyOrder, pair: &SupplierPair) -> (outcome: Result<
    (),
    CapacityError,
>)
    requires
        order.wf(),
    ensures
        outcome.is_ok() <==> order.spec_total_base() <= pair.base_supplier.fixed_capacity
            && order.spec_total_surge() <= pair.surge_supplier.fixed_capacity,
        match outcome {
            Ok(_) => true,
            Err(e) => if order.spec_total_base() > pair.base_supplier.fixed_capacity {
                &&& e.message@ == "Base supplier capacity exceeded"@
                &&& e.supplier_name@ == pair.base_supplier.name@
                &&& e.capacity == pair.base_supplier.fixed_capacity
                &&& e.requested == order.spec_total_base()
            } else {
                &&& e.message@ == "Surge supplier capacity exceeded"@
                &&& e.supplier_name@ == pair.surge_supplier.name@
                &&& e.capacity == pair.surge_supplier.fixed_capacity
                &&& e.requested == order.spec_total_surge()
            },
        },
{
    let total_base = order.total_base_quantity();
    let total_surge = order.total_surge_quantity();

    if total_base > pair.base_supplier.fixed_capacity {
        return Err(
            CapacityError {
                message: "Base supplier capacity exceeded".to_string(),
                supplier_name: pair.base_supplier.name.clone(),
                capacity: pair.base_supplier.fixed_capacity,
                requested: total_base,
            },
        );
    }
    if total_surge > pair.surge_supplier.fixed_capacity {
        return Err(
            CapacityError {
                message: "Surge supplier capacity exceeded".to_string(),
                supplier_name: pair.surge_supplier.name.clone(),
                capacity: pair.surge_supplier.fixed_capacity,
                requested: total_surge,
            },
        );
    }
    Ok(())
}

/// Capacity each supplier has left after the order, as `(base, surge)`; zero
/// where the order takes all of it or more.
pub fn remaining_capacity(order: &MonthlyOrder, pair: &SupplierPair) -> (left: (u32, u32))
    requires
        order.wf(),
    ensures
        left.0 == if order.spec_total_base() >= pair.base_supplier.fixed_capacity {
            0
        } else {
            pair.base_supplier.fixed_capacity - order.spec_total_base()
        },
        left.1 == if order.spec_total_surge() >= pair.surge_supplier.fixed_capacity {
            0
        } else {
            pair.surge_supplier.fixed_capacity - order.spec_total_surge()
        },
{
    let base_remaining = pair.base_supplier.fixed_capacity.saturating_sub(
        order.total_base_quantity(),
    );
    let surge_remaining = pair.surge_supplier.fixed_capacity.saturating_sub(
        order.total_surge_quantity(),
    );
    (base_remaining, surge_remaining)
}

} // verus!
