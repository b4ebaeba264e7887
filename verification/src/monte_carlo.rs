//! Monte Carlo evaluation of one order plan with one supplier pair: the season
//! is run once per set of demand samples, with options disabled and realized
//! demand, and the profits of the runs are summarized.

use vstd::prelude::*;
use crate::ledger::SEASON_LIMIT;
use crate::models::{
    spec_quantity_for, MonteCarloStats, MonthlyOrder, ProductAllocation, SimulationParams,
    SupplierPair,
};
use crate::simulation::{run_season_without_options, spec_season_profit};
use crate::statistics::{
    spec_summarizable, spec_summarizes, summarize_profits, ProfitSummary, MAX_RUNS,
};

verus! {

impl MonteCarloStats {
    /// The statistics of the profits, without what describes the plan.
    pub open spec fn summary(&self) -> ProfitSummary {
        ProfitSummary {
            count: self.num_simulations,
            mean: self.mean_profit,
            std_dev: self.std_dev_profit,
            min: self.min_profit,
            max: self.max_profit,
            percentile_10: self.percentile_10,
            percentile_25: self.percentile_25,
            percentile_50: self.percentile_50,
            percentile_75: self.percentile_75,
            percentile_90: self.percentile_90,
        }
    }
}

/// The demand samples of run `run`; none where `demand_runs` is too short.
pub open spec fn spec_run_demand(demand_runs: Seq<Vec<Vec<i64>>>, run: int) -> Seq<Vec<i64>> {
    if 0 <= run < demand_runs.len() {
        demand_runs[run]@
    } else {
        Seq::empty()
    }
}

/// The season profits of `count` runs of the plan `order`, with options
/// disabled and realized demand.
pub open spec fn spec_run_profits(
    params: SimulationParams,
    pair: SupplierPair,
    order: MonthlyOrder,
    use_actual: bool,
    demand_runs: Seq<Vec<Vec<i64>>>,
    count: int,
) -> Seq<i128> {
    Seq::new(
        count as nat,
        |run: int|
            spec_season_profit(
                params,
                pair,
                order@,
                false,
                use_actual,
                spec_run_demand(demand_runs, run),
                Seq::empty(),
            ) as i128,
    )
}

/// `allocations` describes `order` product by product: one entry per product
/// of `params`, in their order, with what each supplier makes of it.
pub open spec fn spec_describes(
    allocations: Seq<ProductAllocation>,
    params: SimulationParams,
    order: MonthlyOrder,
) -> bool {
    &&& allocations.len() == params.products@.len()
    &&& forall|i: int|
        0 <= i < allocations.len() ==> {
            &&& (#[trigger] allocations[i]).product_id == params.products@[i].id
            &&& allocations[i].product_name@ == params.products@[i].name@
            &&& allocations[i].base_quantity == spec_quantity_for(
                order.base_orders@,
                params.products@[i].id,
            )
            &&& allocations[i].surge_quantity == spec_quantity_for(
                order.surge_orders@,
                params.products@[i].id,
            )
        }
}

/// Describes `order` product by product.
pub fn describe_allocations(params: &SimulationParams, order: &MonthlyOrder) -> (allocations: Vec<
    ProductAllocation,
>)
    ensures
        spec_describes(allocations@, *params, *order),
{
    let mut allocations: Vec<ProductAllocation> = Vec::new();
    let mut i: usize = 0;
    while i < params.products.len()
        invariant
            i <= params.products@.len(),
            allocations@.len() == i,
            forall|j: int|
                0 <= j < i ==> {
                    &&& (#[trigger] allocations@[j]).product_id == params.products@[j].id
                    &&& allocations@[j].product_name@ == params.products@[j].name@
                    &&& allocations@[j].base_quantity == spec_quantity_for(
                        order.base_orders@,
                        params.products@[j].id,
                    )
                    &&& allocations@[j].surge_quantity == spec_quantity_for(
                        order.surge_orders@,
                        params.products@[j].id,
                    )
                },
        decreases params.products@.len() - i,
    {
        let product = &params.products[i];
        allocations.push(
            ProductAllocation {
                product_id: product.id,
                product_name: product.name.clone(),
                base_quantity: order.base_quantity_for(product.id),
                surge_quantity: order.surge_quantity_for(product.id),
            },
        );
        i += 1;
    }
    allocations
}

/// The season profits of `count` runs of the plan `order`, with options
/// disabled: run `r` meets the demand samples `demand_runs[r]`.
pub fn run_profits(
    params: &SimulationParams,
    pair: &SupplierPair,
    order: &MonthlyOrder,
    use_actual_demand: bool,
    demand_runs: &Vec<Vec<Vec<i64>>>,
    count: usize,
) -> (profits: Vec<i128>)
    requires
        params.wf(),
        order.wf(),
    ensures
        profits@.len() == count,
        forall|run: int| 0 <= run < count ==> -SEASON_LIMIT <= (#[trigger] profits@[run]) <= SEASON_LIMIT,
        forall|run: int|
            0 <= run < count ==> (#[trigger] profits@[run]) == spec_season_profit(
                *params,
                *pair,
                order@,
                false,
                use_actual_demand,
                spec_run_demand(demand_runs@, run),
                Seq::empty(),
            ),
        profits@ == spec_run_profits(
            *params,
            *pair,
            *order,
            use_actual_demand,
            demand_runs@,
            count as int,
        ),
{
    let mut profits: Vec<i128> = Vec::new();
    let no_demand: Vec<Vec<i64>> = Vec::new();
    let mut run: usize = 0;
    while run < count
        invariant
            run <= count,
            params.wf(),
            order.wf(),
            no_demand@ == Seq::<Vec<i64>>::empty(),
            profits@.len() == run,
            forall|r: int| 0 <= r < run ==> -SEASON_LIMIT <= (#[trigger] profits@[r]) <= SEASON_LIMIT,
            forall|r: int|
                0 <= r < run ==> (#[trigger] profits@[r]) == spec_season_profit(
                    *params,
                    *pair,
                    order@,
                    false,
                    use_actual_demand,
                    spec_run_demand(demand_runs@, r),
                    Seq::empty(),
                ),
        decreases count - run,
    {
        let demand: &Vec<Vec<i64>> = if run < demand_runs.len() {
            &demand_runs[run]
        } else {
            &no_demand
        };
        let (_, total_profit) = run_season_without_options(params, pair, order, use_actual_demand, demand);
        profits.push(total_profit);
        run += 1;
    }
    proof {
        assert(profits@ =~= spec_run_profits(
            *params,
            *pair,
            *order,
            use_actual_demand,
            demand_runs@,
            count as int,
        ));
    }
    profits
}

/// Run Monte Carlo simulation for a supplier combination: `num_simulations`
/// seasons of the plan `monthly_order`, with options disabled and realized
/// demand, run `r` meeting the demand samples `demand_runs[r]`.
///
/// There are statistics exactly when the profits can be summarized: at least
/// one run and at most `MAX_RUNS`, and every season's profit within the profit
/// limit.
pub fn run_monte_carlo_simulation(
    params: &SimulationParams,
    pair: &SupplierPair,
    monthly_order: &MonthlyOrder,
    num_simulations: usize,
    demand_runs: &Vec<Vec<Vec<i64>>>,
) -> (stats: Option<MonteCarloStats>)
    requires
        params.wf(),
        monthly_order.wf(),
    ensures
        stats.is_some() == spec_summarizable(
            spec_run_profits(
                *params,
                *pair,
                *monthly_order,
                true,
                demand_runs@,
                num_simulations as int,
            ),
        ),
        match stats {
            Some(s) => {
                &&& spec_summarizes(
                    s.summary(),
                    spec_run_profits(
                        *params,
                        *pair,
                        *monthly_order,
                        true,
                        demand_runs@,
                        num_simulations as int,
                    ),
                )
                &&& s.base_supplier@ == pair.base_supplier.name@
                &&& s.base_supplier_lead_time == pair.base_supplier.lead_time_months
                &&& s.surge_supplier@ == pair.surge_supplier.name@
                &&& s.surge_supplier_lead_time == pair.surge_supplier.lead_time_months
                &&& spec_describes(s.product_allocations@, *params, *monthly_order)
                &&& s.total_capacity_used == monthly_order.spec_total_base()
                    + monthly_order.spec_total_surge()
            },
            None => true,
        },
{
    if num_simulations > MAX_RUNS {
        return None;
    }
    let profits = run_profits(params, pair, monthly_order, true, demand_runs, num_simulations);
    match summarize_profits(&profits) {
        Some(summary) => {
            let base_total: u64 = monthly_order.total_base_quantity() as u64;
            let surge_total: u64 = monthly_order.total_surge_quantity() as u64;
            Some(
                MonteCarloStats {
                    base_supplier: pair.base_supplier.name.clone(),
                    base_supplier_lead_time: pair.base_supplier.lead_time_months,
                    surge_supplier: pair.surge_supplier.name.clone(),
                    surge_supplier_lead_time: pair.surge_supplier.lead_time_months,
                    product_allocations: describe_allocations(params, monthly_order),
                    total_capacity_used: base_total + surge_total,
                    num_simulations: summary.count,
                    mean_profit: summary.mean,
                    std_dev_profit: summary.std_dev,
                    min_profit: summary.min,
                    max_profit: summary.max,
                    percentile_10: summary.percentile_10,
                    percentile_25: summary.percentile_25,
                    percentile_50: summary.percentile_50,
                    percentile_75: summary.percentile_75,
                    percentile_90: summary.percentile_90,
                },
            )
        },
        None => None,
    }
}

} // verus!
