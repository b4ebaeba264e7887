use vstd::prelude::*;
use std::collections::HashMap;

verus! {

/// Largest number of products one scenario may hold.
pub const MAX_PRODUCTS: usize = 65_536;

/// Number of periods in one selling season.
pub const TOTAL_MONTHS: usize = 8;

/// A product sold during the season.
#[derive(Clone, Debug)]
pub struct Product {
    pub id: usize,
    pub name: String,
    pub selling_price: i64,
    pub liquidation_price: i64,
    pub monthly_holding_cost: i64,
}

/// Demand parameters of one product: the planning figures that decisions use,
/// and the realized figures that simulated outcomes use.
#[derive(Clone, Copy, Debug)]
pub struct ProductDemandParams {
    pub product_id: usize,
    pub mean_demand: u32,
    pub std_dev_demand: u32,
    pub actual_mean_demand: u32,
    pub actual_std_dev_demand: u32,
}

/// A supplier with a hard monthly capacity.
#[derive(Clone, Debug)]
pub struct Supplier {
    pub id: usize,
    pub name: String,
    pub fixed_capacity: u32,
    pub lead_time_months: usize,
    /// Unit cost per product (product id -> cost).
    pub unit_costs: HashMap<usize, i64>,
    pub setup_cost: i64,
}

impl Supplier {
    /// Cost of one unit of product `product_id`; zero where none is declared.
    pub open spec fn spec_unit_cost(&self, product_id: usize) -> i64 {
        if self.unit_costs@.contains_key(product_id) {
            self.unit_costs@[product_id]
        } else {
            0
        }
    }

    /// Cost of one unit of product `product_id`; zero where none is declared.
    pub fn unit_cost(&self, product_id: usize) -> (cost: i64)
        ensures
            cost == self.spec_unit_cost(product_id),
    {
        broadcast use vstd::std_specs::hash::group_hash_axioms;

        match self.unit_costs.get(&product_id) {
            Some(c) => *c,
            None => 0,
        }
    }
}

/// One base supplier (long lead time, planned volume) and one surge supplier
/// (short lead time, flexible volume).
#[derive(Clone, Debug)]
pub struct SupplierPair {
    pub base_supplier: Supplier,
    pub surge_supplier: Supplier,
}

impl SupplierPair {
    /// The pairing rule: the base supplier needs at least one period of lead
    /// time, the surge supplier less than two, and they are different suppliers.
    pub open spec fn is_eligible(&self) -> bool {
        &&& self.base_supplier.lead_time_months >= 1
        &&& self.surge_supplier.lead_time_months < 2
        &&& self.base_supplier.id != self.surge_supplier.id
    }

    /// Combined capacity of the two suppliers.
    pub open spec fn spec_total_capacity(&self) -> int {
        self.base_supplier.fixed_capacity + self.surge_supplier.fixed_capacity
    }

    /// Combined capacity of the two suppliers.
    pub fn total_capacity(&self) -> (total: u64)
        ensures
            total == self.spec_total_capacity(),
    {
        let base: u64 = self.base_supplier.fixed_capacity as u64;
        let surge: u64 = self.surge_supplier.fixed_capacity as u64;
        base + surge
    }
}

/// Index of the first entry of `demand_params` for `product_id`, if any.
pub open spec fn spec_demand_index(
    demand_params: Seq<ProductDemandParams>,
    product_id: usize,
) -> Option<int>
    decreases demand_params.len(),
{
    if demand_params.len() == 0 {
        None
    } else if demand_params[0].product_id == product_id {
        Some(0int)
    } else {
        match spec_demand_index(demand_params.skip(1), product_id) {
            Some(i) => Some(i + 1),
            None => None,
        }
    }
}

/// Index of the first entry of `products` whose id is `product_id`, if any.
pub open spec fn spec_product_index(products: Seq<Product>, product_id: usize) -> Option<int>
    decreases products.len(),
{
    if products.len() == 0 {
        None
    } else if products[0].id == product_id {
        Some(0int)
    } else {
        match spec_product_index(products.skip(1), product_id) {
            Some(i) => Some(i + 1),
            None => None,
        }
    }
}

/// What `spec_demand_index` finds is the first entry with that id, and it finds
/// nothing exactly when no entry has it.
pub proof fn lemma_demand_index(demand_params: Seq<ProductDemandParams>, product_id: usize)
    ensures
        match spec_demand_index(demand_params, product_id) {
            Some(i) => {
                &&& 0 <= i < demand_params.len()
                &&& demand_params[i].product_id == product_id
                &&& forall|j: int| 0 <= j < i ==> demand_params[j].product_id != product_id
            },
            None => forall|j: int|
                0 <= j < demand_params.len() ==> demand_params[j].product_id != product_id,
        },
    decreases demand_params.len(),
{
    if demand_params.len() != 0 && demand_params[0].product_id != product_id {
        let rest = demand_params.skip(1);
        lemma_demand_index(rest, product_id);
        match spec_demand_index(rest, product_id) {
            Some(i) => {
                assert forall|j: int| 0 <= j < i + 1 implies demand_params[j].product_id
                    != product_id by {
                    if j > 0 {
                        assert(rest[j - 1] == demand_params[j]);
                    }
                }
                assert(rest[i] == demand_params[i + 1]);
            },
            None => {
                assert forall|j: int| 0 <= j < demand_params.len() implies demand_params[j].product_id
                    != product_id by {
                    if j > 0 {
                        assert(rest[j - 1] == demand_params[j]);
                    }
                }
            },
        }
    }
}

/// What `spec_product_index` finds is the first product with that id, and it
/// finds nothing exactly when no product has it.
pub proof fn lemma_product_index(products: Seq<Product>, product_id: usize)
    ensures
        match spec_product_index(products, product_id) {
            Some(i) => {
                &&& 0 <= i < products.len()
                &&& products[i].id == product_id
                &&& forall|j: int| 0 <= j < i ==> products[j].id != product_id
            },
            None => forall|j: int| 0 <= j < products.len() ==> products[j].id != product_id,
        },
    decreases products.len(),
{
    if products.len() != 0 && products[0].id != product_id {
        let rest = products.skip(1);
        lemma_product_index(rest, product_id);
        match spec_product_index(rest, product_id) {
            Some(i) => {
                assert forall|j: int| 0 <= j < i + 1 implies products[j].id != product_id by {
                    if j > 0 {
                        assert(rest[j - 1] == products[j]);
                    }
                }
                assert(rest[i] == products[i + 1]);
            },
            None => {
                assert forall|j: int| 0 <= j < products.len() implies products[j].id
                    != product_id by {
                    if j > 0 {
                        assert(rest[j - 1] == products[j]);
                    }
                }
            },
        }
    }
}

/// The configuration of one scenario.
#[derive(Clone, Debug)]
pub struct SimulationParams {
    /// Products in the simulation.
    pub products: Vec<Product>,
    /// Demand parameters per product.
    pub demand_params: Vec<ProductDemandParams>,
    /// Fee paid each time the surge order is revised (covers all products).
    pub order_change_fee: i64,
}

impl SimulationParams {
    /// The product list is of acceptable length.
    pub open spec fn wf(&self) -> bool {
        self.products@.len() <= MAX_PRODUCTS
    }

    /// Whether the product list is of acceptable length.
    pub fn is_wf(&self) -> (ok: bool)
        ensures
            ok == self.wf(),
    {
        self.products.len() <= MAX_PRODUCTS
    }

    /// The first demand parameters declared for `product_id`, if any.
    pub open spec fn spec_demand_params(&self, product_id: usize) -> Option<ProductDemandParams> {
        match spec_demand_index(self.demand_params@, product_id) {
            Some(i) => Some(self.demand_params@[i]),
            None => None,
        }
    }

    /// Planning mean demand of `product_id`; zero where none is declared.
    pub open spec fn spec_mean_demand(&self, product_id: usize) -> u32 {
        match self.spec_demand_params(product_id) {
            Some(dp) => dp.mean_demand,
            None => 0,
        }
    }

    /// Get demand params for a specific product.
    pub fn get_demand_params(&self, product_id: usize) -> (found: Option<&ProductDemandParams>)
        ensures
            match found {
                Some(dp) => self.spec_demand_params(product_id) == Some(*dp),
                None => self.spec_demand_params(product_id).is_none(),
            },
    {
        let mut i: usize = 0;
        while i < self.demand_params.len()
            invariant
                i <= self.demand_params@.len(),
                forall|j: int| 0 <= j < i ==> self.demand_params@[j].product_id != product_id,
            decreases self.demand_params@.len() - i,
        {
            if self.demand_params[i].product_id == product_id {
                proof {
                    lemma_demand_index(self.demand_params@, product_id);
                    assert(self.demand_params@[i as int].product_id == product_id);
                }
                return Some(&self.demand_params[i]);
            }
            i += 1;
        }
        proof {
            lemma_demand_index(self.demand_params@, product_id);
        }
        None
    }

    /// Get product by id.
    pub fn get_product(&self, product_id: usize) -> (found: Option<&Product>)
        ensures
            match found {
                Some(p) => {
                    &&& spec_product_index(self.products@, product_id).is_some()
                    &&& *p == self.products@[spec_product_index(
                        self.products@,
                        product_id,
                    ).unwrap()]
                },
                None => spec_product_index(self.products@, product_id).is_none(),
            },
    {
        let mut i: usize = 0;
        while i < self.products.len()
            invariant
                i <= self.products@.len(),
                forall|j: int| 0 <= j < i ==> self.products@[j].id != product_id,
            decreases self.products@.len() - i,
        {
            if self.products[i].id == product_id {
                proof {
                    lemma_product_index(self.products@, product_id);
                    assert(self.products@[i as int].id == product_id);
                }
                return Some(&self.products[i]);
            }
            i += 1;
        }
        proof {
            lemma_product_index(self.products@, product_id);
        }
        None
    }
}

/// Order quantity for a specific product.
#[derive(Clone, Copy, Debug)]
pub struct ProductOrder {
    pub product_id: usize,
    pub quantity: u32,
}

/// Sum of the quantities of `orders`.
pub open spec fn spec_total_quantity(orders: Seq<ProductOrder>) -> int
    decreases orders.len(),
{
    if orders.len() == 0 {
        0
    } else {
        spec_total_quantity(orders.drop_last()) + orders.last().quantity
    }
}

/// Quantity of the first line of `orders` for `product_id`; zero where there is
/// none.
pub open spec fn spec_quantity_for(orders: Seq<ProductOrder>, product_id: usize) -> u32
    decreases orders.len(),
{
    if orders.len() == 0 {
        0
    } else if orders[0].product_id == product_id {
        orders[0].quantity
    } else {
        spec_quantity_for(orders.skip(1), product_id)
    }
}

/// The total of a list of order lines is never negative, and no single line
/// exceeds it.
pub proof fn lemma_total_quantity_bounds(orders: Seq<ProductOrder>)
    ensures
        0 <= spec_total_quantity(orders) <= orders.len() * 0xFFFF_FFFF,
        forall|i: int| 0 <= i < orders.len() ==> orders[i].quantity <= spec_total_quantity(orders),
    decreases orders.len(),
{
    if orders.len() > 0 {
        let front = orders.drop_last();
        lemma_total_quantity_bounds(front);
        assert(orders.len() * 0xFFFF_FFFF == front.len() * 0xFFFF_FFFF + 0xFFFF_FFFF)
            by (nonlinear_arith)
            requires
                orders.len() == front.len() + 1,
        ;
        assert forall|i: int| 0 <= i < orders.len() implies orders[i].quantity
            <= spec_total_quantity(orders) by {
            if i < front.len() {
                assert(front[i] == orders[i]);
            }
        }
    }
}

/// Monthly order decision between base and surge suppliers for all products.
#[derive(Clone, Debug)]
pub struct MonthlyOrder {
    pub base_orders: Vec<ProductOrder>,
    pub surge_orders: Vec<ProductOrder>,
}

impl MonthlyOrder {
    /// Total quantity ordered from the base supplier.
    pub open spec fn spec_total_base(&self) -> int {
        spec_total_quantity(self.base_orders@)
    }

    /// Total quantity ordered from the surge supplier.
    pub open spec fn spec_total_surge(&self) -> int {
        spec_total_quantity(self.surge_orders@)
    }

    /// Both totals fit the quantity type.
    pub open spec fn wf(&self) -> bool {
        &&& self.spec_total_base() <= u32::MAX
        &&& self.spec_total_surge() <= u32::MAX
    }

    /// Whether both totals fit the quantity type.
    pub fn is_wf(&self) -> (ok: bool)
        ensures
            ok == self.wf(),
    {
        total_fits(&self.base_orders) && total_fits(&self.surge_orders)
    }

    /// Get total base quantity across all products.
    pub fn total_base_quantity(&self) -> (total: u32)
        requires
            self.spec_total_base() <= u32::MAX,
        ensures
            total == self.spec_total_base(),
    {
        total_quantity(&self.base_orders)
    }

    /// Get total surge quantity across all products.
    pub fn total_surge_quantity(&self) -> (total: u32)
        requires
            self.spec_total_surge() <= u32::MAX,
        ensures
            total == self.spec_total_surge(),
    {
        total_quantity(&self.surge_orders)
    }

    /// Get base quantity for a specific product.
    pub fn base_quantity_for(&self, product_id: usize) -> (quantity: u32)
        ensures
            quantity == spec_quantity_for(self.base_orders@, product_id),
    {
        quantity_for(&self.base_orders, product_id)
    }

    /// Get surge quantity for a specific product.
    pub fn surge_quantity_for(&self, product_id: usize) -> (quantity: u32)
        ensures
            quantity == spec_quantity_for(self.surge_orders@, product_id),
    {
        quantity_for(&self.surge_orders, product_id)
    }

    /// A copy with the same order lines.
    pub fn duplicate(&self) -> (copy: MonthlyOrder)
        ensures
            copy.base_orders@ == self.base_orders@,
            copy.surge_orders@ == self.surge_orders@,
    {
        MonthlyOrder {
            base_orders: copy_lines(&self.base_orders),
            surge_orders: copy_lines(&self.surge_orders),
        }
    }
}

/// A copy of a list of order lines.
pub fn copy_lines(orders: &Vec<ProductOrder>) -> (copy: Vec<ProductOrder>)
    ensures
        copy@ == orders@,
{
    let mut copy: Vec<ProductOrder> = Vec::new();
    let mut i: usize = 0;
    while i < orders.len()
        invariant
            i <= orders@.len(),
            copy@ == orders@.take(i as int),
        decreases orders@.len() - i,
    {
        copy.push(orders[i]);
        proof {
            assert(orders@.take(i + 1) == orders@.take(i as int).push(orders@[i as int]));
        }
        i += 1;
    }
    proof {
        assert(orders@.take(orders@.len() as int) == orders@);
    }
    copy
}

/// Whether the total of `orders` fits the quantity type.
pub fn total_fits(orders: &Vec<ProductOrder>) -> (fits: bool)
    ensures
        fits == (spec_total_quantity(orders@) <= u32::MAX),
{
    let mut total: u32 = 0;
    let mut i: usize = 0;
    while i < orders.len()
        invariant
            i <= orders@.len(),
            total == spec_total_quantity(orders@.take(i as int)),
        decreases orders@.len() - i,
    {
        proof {
            assert(orders@.take(i + 1).drop_last() == orders@.take(i as int));
            lemma_total_prefix_le(orders@, i + 1);
        }
        if orders[i].quantity > u32::MAX - total {
            return false;
        }
        total = total + orders[i].quantity;
        i += 1;
    }
    proof {
        assert(orders@.take(orders@.len() as int) == orders@);
    }
    true
}

/// The total of a prefix does not exceed the total of the whole list.
pub proof fn lemma_total_prefix_le(orders: Seq<ProductOrder>, n: int)
    requires
        0 <= n <= orders.len(),
    ensures
        0 <= spec_total_quantity(orders.take(n)) <= spec_total_quantity(orders),
    decreases orders.len() - n,
{
    lemma_total_quantity_bounds(orders.take(n));
    if n < orders.len() {
        lemma_total_prefix_le(orders, n + 1);
        assert(orders.take(n + 1).drop_last() == orders.take(n));
    } else {
        assert(orders.take(n) == orders);
    }
}

/// Sum of the quantities of `orders`.
pub fn total_quantity(orders: &Vec<ProductOrder>) -> (total: u32)
    requires
        spec_total_quantity(orders@) <= u32::MAX,
    ensures
        total == spec_total_quantity(orders@),
{
    let mut total: u32 = 0;
    let mut i: usize = 0;
    while i < orders.len()
        invariant
            i <= orders@.len(),
            total == spec_total_quantity(orders@.take(i as int)),
            spec_total_quantity(orders@) <= u32::MAX,
        decreases orders@.len() - i,
    {
        proof {
            assert(orders@.take(i + 1).drop_last() == orders@.take(i as int));
            lemma_total_prefix_le(orders@, i + 1);
        }
        total = total + orders[i].quantity;
        i += 1;
    }
    proof {
        assert(orders@.take(orders@.len() as int) == orders@);
    }
    total
}

/// Quantity of the first line of `orders` for `product_id`; zero where there is
/// none.
pub fn quantity_for(orders: &Vec<ProductOrder>, product_id: usize) -> (quantity: u32)
    ensures
        quantity == spec_quantity_for(orders@, product_id),
{
    let mut i: usize = 0;
    proof {
        assert(orders@.skip(0) == orders@);
    }
    while i < orders.len()
        invariant
            i <= orders@.len(),
            spec_quantity_for(orders@, product_id) == spec_quantity_for(
                orders@.skip(i as int),
                product_id,
            ),
        decreases orders@.len() - i,
    {
        proof {
            assert(orders@.skip(i as int)[0] == orders@[i as int]);
            assert(orders@.skip(i as int).skip(1) == orders@.skip(i + 1));
        }
        if orders[i].product_id == product_id {
            return orders[i].quantity;
        }
        i += 1;
    }
    0
}

/// Result for a single product in a month.
#[derive(Clone, Debug)]
pub struct ProductMonthlyResult {
    pub product_id: usize,
    pub product_name: String,
    pub inventory_start: u64,
    pub incoming: u64,
    pub demand: u32,
    pub units_sold: u64,
    pub inventory_end: u64,
    pub revenue: i128,
    pub production_cost: i128,
    pub holding_cost: i128,
    pub liquidation_revenue: i128,
}

/// Result of a single month's simulation (aggregated across products).
#[derive(Debug)]
pub struct MonthlyResult {
    pub month: String,
    pub product_results: Vec<ProductMonthlyResult>,
    /// Total quantity that the base supplier shipped this month.
    pub base_shipped: u32,
    /// Total quantity that the surge supplier shipped this month.
    pub surge_shipped: u32,
    /// Whether the base supplier's setup cost was charged this month.
    pub base_setup_charged: bool,
    /// Whether the surge supplier's setup cost was charged this month.
    pub surge_setup_charged: bool,
    pub order_change_cost: i64,
    pub setup_cost: i128,
    pub monthly_profit: i128,
}

/// Allocation of quantity for a specific product.
#[derive(Clone, Debug)]
pub struct ProductAllocation {
    pub product_id: usize,
    pub product_name: String,
    pub base_quantity: u32,
    pub surge_quantity: u32,
}

/// Complete simulation result for a supplier combination.
#[derive(Debug)]
pub struct SimulationResult {
    pub base_supplier: String,
    pub surge_supplier: String,
    pub product_allocations: Vec<ProductAllocation>,
    pub monthly_results: Vec<MonthlyResult>,
    pub total_profit: i128,
}

/// Monte Carlo statistics for a supplier combination.
#[derive(Clone, Debug)]
pub struct MonteCarloStats {
    pub base_supplier: String,
    pub base_supplier_lead_time: usize,
    pub surge_supplier: String,
    pub surge_supplier_lead_time: usize,
    pub product_allocations: Vec<ProductAllocation>,
    pub total_capacity_used: u64,
    pub num_simulations: usize,
    pub mean_profit: i128,
    pub std_dev_profit: i128,
    pub min_profit: i128,
    pub max_profit: i128,
    pub percentile_10: i128,
    pub percentile_25: i128,
    /// The median.
    pub percentile_50: i128,
    pub percentile_75: i128,
    pub percentile_90: i128,
}

/// A node of the binomial lattice that values the option to revise an order.
#[derive(Clone, Copy, Debug)]
pub struct OptionState {
    pub month: usize,
    pub inventory: u32,
    /// Net up/down movements in the lattice.
    pub cumulative_uplifts: i32,
}

} // verus!
