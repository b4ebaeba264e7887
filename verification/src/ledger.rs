//! The ledger of one period: one row per product, and the period's totals.

use vstd::prelude::*;
use crate::demand::{
    sample_at, simulation_demand_for_product, spec_demand_for_product, spec_sample_at,
};
use crate::models::{
    spec_quantity_for, spec_total_quantity, MonthlyOrder, MonthlyResult, Product,
    ProductMonthlyResult, ProductOrder, SimulationParams, SupplierPair, MAX_PRODUCTS, TOTAL_MONTHS,
};

verus! {

/// Most that can arrive for one product in one period: a full base line and a
/// full surge line.
pub const INCOMING_LIMIT: u64 = 0x1_FFFF_FFFE;

/// Most that one product can have on hand within a season.
pub const INVENTORY_LIMIT: u64 = 0xF_FFFF_FFF0;

/// Largest magnitude of one money column of a row.
pub const COLUMN_LIMIT: i128 = 633_825_299_966_540_748_158_675_189_760;

/// Largest magnitude of one row's contribution to profit.
pub const ROW_LIMIT: i128 = 2_535_301_199_866_162_992_634_700_759_040;

/// Largest magnitude of one period's profit.
pub const PERIOD_LIMIT: i128 = 166_153_499_434_428_885_555_423_859_508_772_864;

/// Largest magnitude of one season's profit.
pub const SEASON_LIMIT: i128 = 1_329_227_995_475_431_084_443_390_876_070_182_912;

/// The two lists of order lines of a monthly order.
pub struct OrderModel {
    pub base: Seq<ProductOrder>,
    pub surge: Seq<ProductOrder>,
}

impl View for MonthlyOrder {
    type V = OrderModel;

    open spec fn view(&self) -> OrderModel {
        OrderModel { base: self.base_orders@, surge: self.surge_orders@ }
    }
}

impl OrderModel {
    /// Both totals fit the quantity type.
    pub open spec fn wf(&self) -> bool {
        &&& spec_total_quantity(self.base) <= u32::MAX
        &&& spec_total_quantity(self.surge) <= u32::MAX
    }

    /// Total quantity ordered from the base supplier.
    pub open spec fn total_base(&self) -> int {
        spec_total_quantity(self.base)
    }

    /// Total quantity ordered from the surge supplier.
    pub open spec fn total_surge(&self) -> int {
        spec_total_quantity(self.surge)
    }
}

/// A ledger row as plain numbers.
pub struct RowModel {
    pub product_id: usize,
    pub product_name: Seq<char>,
    pub inventory_start: int,
    pub incoming: int,
    pub demand: int,
    pub units_sold: int,
    pub inventory_end: int,
    pub revenue: int,
    pub production_cost: int,
    pub holding_cost: int,
    pub liquidation_revenue: int,
}

impl View for ProductMonthlyResult {
    type V = RowModel;

    open spec fn view(&self) -> RowModel {
        RowModel {
            product_id: self.product_id,
            product_name: self.product_name@,
            inventory_start: self.inventory_start as int,
            incoming: self.incoming as int,
            demand: self.demand as int,
            units_sold: self.units_sold as int,
            inventory_end: self.inventory_end as int,
            revenue: self.revenue as int,
            production_cost: self.production_cost as int,
            holding_cost: self.holding_cost as int,
            liquidation_revenue: self.liquidation_revenue as int,
        }
    }
}

impl RowModel {
    /// What the row contributes to the period's profit.
    pub open spec fn profit(&self) -> int {
        self.revenue - self.production_cost - self.holding_cost + self.liquidation_revenue
    }

    /// Every money column is within the column limit.
    pub open spec fn bounded(&self) -> bool {
        &&& -COLUMN_LIMIT <= self.revenue <= COLUMN_LIMIT
        &&& -COLUMN_LIMIT <= self.production_cost <= COLUMN_LIMIT
        &&& -COLUMN_LIMIT <= self.holding_cost <= COLUMN_LIMIT
        &&& -COLUMN_LIMIT <= self.liquidation_revenue <= COLUMN_LIMIT
    }
}

impl ProductMonthlyResult {
    /// What the row contributes to the period's profit: revenue and
    /// liquidation revenue less production and holding cost.
    pub fn profit(&self) -> (profit: i128)
        requires
            self@.bounded(),
        ensures
            profit == self@.profit(),
    {
        self.revenue - self.production_cost - self.holding_cost + self.liquidation_revenue
    }
}

/// One period of the ledger as plain numbers.
pub struct PeriodModel {
    pub month: Seq<char>,
    pub rows: Seq<RowModel>,
    pub base_shipped: int,
    pub surge_shipped: int,
    pub base_setup_charged: bool,
    pub surge_setup_charged: bool,
    pub order_change_cost: int,
    pub setup_cost: int,
    pub monthly_profit: int,
}

/// The rows of a period as plain numbers.
pub open spec fn spec_row_models(rows: Seq<ProductMonthlyResult>) -> Seq<RowModel> {
    Seq::new(rows.len(), |i: int| rows[i]@)
}

impl View for MonthlyResult {
    type V = PeriodModel;

    open spec fn view(&self) -> PeriodModel {
        PeriodModel {
            month: self.month@,
            rows: spec_row_models(self.product_results@),
            base_shipped: self.base_shipped as int,
            surge_shipped: self.surge_shipped as int,
            base_setup_charged: self.base_setup_charged,
            surge_setup_charged: self.surge_setup_charged,
            order_change_cost: self.order_change_cost as int,
            setup_cost: self.setup_cost as int,
            monthly_profit: self.monthly_profit as int,
        }
    }
}

/// Units sold: all that demand asks for, as far as stock reaches.
pub open spec fn spec_units_sold(available: int, demand: int) -> int {
    if available <= demand {
        available
    } else {
        demand
    }
}

/// Sum of the rows' contributions to profit.
pub open spec fn spec_rows_profit(rows: Seq<RowModel>) -> int
    decreases rows.len(),
{
    if rows.len() == 0 {
        0
    } else {
        spec_rows_profit(rows.drop_last()) + rows.last().profit()
    }
}

/// The ledger row of `product` for a period that it enters with
/// `inventory_start` on hand, in which `order` arrives and `demand` is asked
/// for. Revenue is earned on what is sold, production is paid on what arrives,
/// holding on what is left. In the season's last period what is left is
/// liquidated and the inventory ends at zero.
pub open spec fn spec_row(
    product: Product,
    pair: SupplierPair,
    order: OrderModel,
    inventory_start: int,
    demand: int,
    last_period: bool,
) -> RowModel {
    let base_incoming = spec_quantity_for(order.base, product.id) as int;
    let surge_incoming = spec_quantity_for(order.surge, product.id) as int;
    let available = inventory_start + base_incoming + surge_incoming;
    let sold = spec_units_sold(available, demand);
    let left = available - sold;
    RowModel {
        product_id: product.id,
        product_name: product.name@,
        inventory_start,
        incoming: base_incoming + surge_incoming,
        demand,
        units_sold: sold,
        inventory_end: if last_period {
            0
        } else {
            left
        },
        revenue: sold * product.selling_price,
        production_cost: base_incoming * pair.base_supplier.spec_unit_cost(product.id)
            + surge_incoming * pair.surge_supplier.spec_unit_cost(product.id),
        holding_cost: left * product.monthly_holding_cost,
        liquidation_revenue: if last_period {
            left * product.liquidation_price
        } else {
            0
        },
    }
}

/// In every row the units sold are at most what was on hand after the
/// delivery, and the inventory never ends below zero.
pub proof fn lemma_row_stock(
    product: Product,
    pair: SupplierPair,
    order: OrderModel,
    inventory_start: int,
    demand: int,
    last_period: bool,
)
    requires
        0 <= inventory_start,
        0 <= demand,
    ensures
        ({
            let row = spec_row(product, pair, order, inventory_start, demand, last_period);
            &&& 0 <= row.units_sold <= row.inventory_start + row.incoming
            &&& row.units_sold <= row.demand
            &&& 0 <= row.inventory_end <= row.inventory_start + row.incoming - row.units_sold
        }),
{
}

/// A quantity within the inventory limit times any money amount stays within
/// the column limit.
pub proof fn lemma_amount_bound(quantity: int, price: i64)
    requires
        0 <= quantity <= INVENTORY_LIMIT,
    ensures
        -COLUMN_LIMIT <= quantity * price <= COLUMN_LIMIT,
{
    assert(quantity * price <= INVENTORY_LIMIT * 0x8000_0000_0000_0000) by (nonlinear_arith)
        requires
            0 <= quantity <= INVENTORY_LIMIT,
            price <= 0x8000_0000_0000_0000,
    ;
    assert(-(INVENTORY_LIMIT * 0x8000_0000_0000_0000) <= quantity * price) by (nonlinear_arith)
        requires
            0 <= quantity <= INVENTORY_LIMIT,
            -0x8000_0000_0000_0000 <= price,
    ;
}

/// The cost of what arrives for one product in one period stays within the
/// column limit.
pub proof fn lemma_production_bound(
    base_incoming: u32,
    base_cost: i64,
    surge_incoming: u32,
    surge_cost: i64,
)
    ensures
        -COLUMN_LIMIT <= base_incoming * base_cost + surge_incoming * surge_cost <= COLUMN_LIMIT,
        -COLUMN_LIMIT <= base_incoming * base_cost <= COLUMN_LIMIT,
        -COLUMN_LIMIT <= surge_incoming * surge_cost <= COLUMN_LIMIT,
{
    assert(-(0xFFFF_FFFF * 0x8000_0000_0000_0000) <= base_incoming * base_cost <= 0xFFFF_FFFF
        * 0x8000_0000_0000_0000) by (nonlinear_arith)
        requires
            0 <= base_incoming <= 0xFFFF_FFFF,
            -0x8000_0000_0000_0000 <= base_cost <= 0x8000_0000_0000_0000,
    ;
    assert(-(0xFFFF_FFFF * 0x8000_0000_0000_0000) <= surge_incoming * surge_cost <= 0xFFFF_FFFF
        * 0x8000_0000_0000_0000) by (nonlinear_arith)
        requires
            0 <= surge_incoming <= 0xFFFF_FFFF,
            -0x8000_0000_0000_0000 <= surge_cost <= 0x8000_0000_0000_0000,
    ;
}

/// The ledger row of one product for one period.
pub fn settle_product(
    product: &Product,
    pair: &SupplierPair,
    order: &MonthlyOrder,
    inventory_start: u64,
    demand: u32,
    last_period: bool,
) -> (row: ProductMonthlyResult)
    requires
        inventory_start + INCOMING_LIMIT <= INVENTORY_LIMIT,
    ensures
        row@ == spec_row(*product, *pair, order@, inventory_start as int, demand as int, last_period),
        row.inventory_end <= inventory_start + INCOMING_LIMIT,
        row@.bounded(),
{
    let base_quantity: u32 = order.base_quantity_for(product.id);
    let surge_quantity: u32 = order.surge_quantity_for(product.id);
    let base_incoming: u64 = base_quantity as u64;
    let surge_incoming: u64 = surge_quantity as u64;
    let incoming: u64 = base_incoming + surge_incoming;
    let available: u64 = inventory_start + incoming;
    let units_sold: u64 = if available <= demand as u64 {
        available
    } else {
        demand as u64
    };
    let left: u64 = available - units_sold;
    let base_unit_cost: i64 = pair.base_supplier.unit_cost(product.id);
    let surge_unit_cost: i64 = pair.surge_supplier.unit_cost(product.id);
    proof {
        lemma_amount_bound(units_sold as int, product.selling_price);
        lemma_production_bound(base_quantity, base_unit_cost, surge_quantity, surge_unit_cost);
        lemma_amount_bound(left as int, product.monthly_holding_cost);
        lemma_amount_bound(left as int, product.liquidation_price);
    }
    let revenue: i128 = (units_sold as i128) * (product.selling_price as i128);
    let production_cost: i128 = (base_incoming as i128) * (base_unit_cost as i128)
        + (surge_incoming as i128) * (surge_unit_cost as i128);
    let holding_cost: i128 = (left as i128) * (product.monthly_holding_cost as i128);
    let liquidation_revenue: i128 = if last_period {
        (left as i128) * (product.liquidation_price as i128)
    } else {
        0
    };
    let inventory_end: u64 = if last_period {
        0
    } else {
        left
    };
    ProductMonthlyResult {
        product_id: product.id,
        product_name: product.name.clone(),
        inventory_start,
        incoming,
        demand,
        units_sold,
        inventory_end,
        revenue,
        production_cost,
        holding_cost,
        liquidation_revenue,
    }
}

/// The rows of one period, one per product in the order of the product list.
/// The product at position `i` starts from `inventories[i]` and meets the
/// demand that sample `i` gives it.
pub open spec fn spec_rows(
    params: SimulationParams,
    pair: SupplierPair,
    order: OrderModel,
    inventories: Seq<u64>,
    use_actual: bool,
    raw_samples: Seq<i64>,
    last_period: bool,
) -> Seq<RowModel> {
    Seq::new(
        params.products@.len(),
        |i: int|
            spec_row(
                params.products@[i],
                pair,
                order,
                inventories[i] as int,
                spec_demand_for_product(
                    params,
                    params.products@[i].id,
                    use_actual,
                    spec_sample_at(raw_samples, i),
                ),
                last_period,
            ),
    )
}

/// The inventories that a period's rows end with.
pub open spec fn spec_inventories_after(rows: Seq<RowModel>) -> Seq<u64> {
    Seq::new(rows.len(), |i: int| rows[i].inventory_end as u64)
}

/// Adding a row adds its contribution to the rows' profit.
pub proof fn lemma_rows_profit_push(rows: Seq<ProductMonthlyResult>, row: ProductMonthlyResult)
    ensures
        spec_row_models(rows.push(row)) == spec_row_models(rows).push(row@),
        spec_rows_profit(spec_row_models(rows.push(row))) == spec_rows_profit(
            spec_row_models(rows),
        ) + row@.profit(),
{
    assert(spec_row_models(rows.push(row)) =~= spec_row_models(rows).push(row@));
    assert(spec_row_models(rows).push(row@).drop_last() == spec_row_models(rows));
}

/// Settles one period for every product: writes each product's row, leaves its
/// ending inventory in `inventories`, and returns the rows with the sum of
/// their contributions to profit.
pub fn settle_products(
    params: &SimulationParams,
    pair: &SupplierPair,
    order: &MonthlyOrder,
    inventories: &mut Vec<u64>,
    use_actual_demand: bool,
    raw_samples: &Vec<i64>,
    last_period: bool,
) -> (out: (Vec<ProductMonthlyResult>, i128))
    requires
        params.wf(),
        old(inventories)@.len() == params.products@.len(),
        forall|i: int|
            0 <= i < old(inventories)@.len() ==> (#[trigger] old(inventories)@[i]) + INCOMING_LIMIT
                <= INVENTORY_LIMIT,
    ensures
        spec_row_models(out.0@) == spec_rows(
            *params,
            *pair,
            order@,
            old(inventories)@,
            use_actual_demand,
            raw_samples@,
            last_period,
        ),
        final(inventories)@ == spec_inventories_after(spec_row_models(out.0@)),
        forall|i: int|
            0 <= i < old(inventories)@.len() ==> (#[trigger] final(inventories)@[i]) <= old(
                inventories,
            )@[i] + INCOMING_LIMIT,
        out.1 == spec_rows_profit(spec_row_models(out.0@)),
        -params.products@.len() * ROW_LIMIT <= out.1 <= params.products@.len() * ROW_LIMIT,
{
    let n: usize = params.products.len();
    let ghost target = spec_rows(
        *params,
        *pair,
        order@,
        old(inventories)@,
        use_actual_demand,
        raw_samples@,
        last_period,
    );
    let mut rows: Vec<ProductMonthlyResult> = Vec::new();
    let mut rows_profit: i128 = 0;
    let mut i: usize = 0;
    while i < n
        invariant
            i <= n,
            n == params.products@.len(),
            n <= MAX_PRODUCTS,
            inventories@.len() == n,
            old(inventories)@.len() == n,
            rows@.len() == i,
            target == spec_rows(
                *params,
                *pair,
                order@,
                old(inventories)@,
                use_actual_demand,
                raw_samples@,
                last_period,
            ),
            forall|j: int| 0 <= j < i ==> (#[trigger] rows@[j])@ == target[j],
            forall|j: int| 0 <= j < i ==> (#[trigger] inventories@[j]) == rows@[j].inventory_end,
            forall|j: int| i <= j < n ==> (#[trigger] inventories@[j]) == old(inventories)@[j],
            forall|j: int|
                0 <= j < n ==> (#[trigger] inventories@[j]) <= old(inventories)@[j]
                    + INCOMING_LIMIT,
            forall|j: int|
                0 <= j < n ==> (#[trigger] old(inventories)@[j]) + INCOMING_LIMIT
                    <= INVENTORY_LIMIT,
            rows_profit == spec_rows_profit(spec_row_models(rows@)),
            -i * ROW_LIMIT <= rows_profit <= i * ROW_LIMIT,
        decreases n - i,
    {
        let product = &params.products[i];
        let raw: i64 = sample_at(raw_samples, i);
        let demand: u32 = simulation_demand_for_product(params, product.id, use_actual_demand, raw);
        let inventory_start: u64 = inventories[i];
        assert(inventory_start == old(inventories)@[i as int]);
        let row = settle_product(product, pair, order, inventory_start, demand, last_period);
        proof {
            lemma_rows_profit_push(rows@, row);
            assert((i + 1) * ROW_LIMIT == i * ROW_LIMIT + ROW_LIMIT) by (nonlinear_arith);
            assert(i * ROW_LIMIT <= MAX_PRODUCTS * ROW_LIMIT) by (nonlinear_arith)
                requires
                    i <= MAX_PRODUCTS,
            ;
        }
        rows_profit = rows_profit + row.profit();
        inventories.set(i, row.inventory_end);
        rows.push(row);
        i += 1;
    }
    proof {
        assert(spec_row_models(rows@) =~= target);
        assert(inventories@ =~= spec_inventories_after(spec_row_models(rows@)));
    }
    (rows, rows_profit)
}

/// Name of the season's period `period`, counted from zero.
pub open spec fn spec_month_name(period: int) -> Seq<char> {
    if period == 0 {
        "May"@
    } else if period == 1 {
        "June"@
    } else if period == 2 {
        "July"@
    } else if period == 3 {
        "August"@
    } else if period == 4 {
        "September"@
    } else if period == 5 {
        "October"@
    } else if period == 6 {
        "November"@
    } else {
        "December"@
    }
}

/// Name of the season's period `period`, counted from zero.
pub fn month_name(period: usize) -> (name: String)
    requires
        period < TOTAL_MONTHS,
    ensures
        name@ == spec_month_name(period as int),
{
    if period == 0 {
        "May".to_string()
    } else if period == 1 {
        "June".to_string()
    } else if period == 2 {
        "July".to_string()
    } else if period == 3 {
        "August".to_string()
    } else if period == 4 {
        "September".to_string()
    } else if period == 5 {
        "October".to_string()
    } else if period == 6 {
        "November".to_string()
    } else {
        "December".to_string()
    }
}

} // verus!
