//! A quick estimate of what a supplier pair can earn, to set aside pairs that
//! are not worth a full evaluation.

use vstd::prelude::*;
use crate::models::{SimulationParams, SupplierPair, MAX_PRODUCTS};
use crate::options::spec_total_mean;
use crate::statistics::floor_div;

verus! {

/// Sum over the first `count` products of mean demand times selling price.
pub open spec fn spec_revenue_potential(params: SimulationParams, count: int) -> int
    decreases count,
{
    if count <= 0 {
        0
    } else {
        spec_revenue_potential(params, count - 1) + params.spec_mean_demand(
            params.products@[count - 1].id,
        ) * params.products@[count - 1].selling_price
    }
}

/// Sum over the first `count` products of mean demand times what the base
/// supplier charges per unit.
pub open spec fn spec_weighted_cost(params: SimulationParams, pair: SupplierPair, count: int) -> int
    decreases count,
{
    if count <= 0 {
        0
    } else {
        spec_weighted_cost(params, pair, count - 1) + params.spec_mean_demand(
            params.products@[count - 1].id,
        ) * pair.base_supplier.spec_unit_cost(params.products@[count - 1].id)
    }
}

/// Sum of the mean demands of the first `count` products.
pub open spec fn spec_products_demand(params: SimulationParams, count: int) -> int
    decreases count,
{
    if count <= 0 {
        0
    } else {
        spec_products_demand(params, count - 1) + params.spec_mean_demand(
            params.products@[count - 1].id,
        )
    }
}

/// Sum of the monthly holding costs of the first `count` products.
pub open spec fn spec_holding_sum(params: SimulationParams, count: int) -> int
    decreases count,
{
    if count <= 0 {
        0
    } else {
        spec_holding_sum(params, count - 1) + params.products@[count - 1].monthly_holding_cost
    }
}

/// The quick estimate of a season's profit: the order is taken to be 90 % of
/// mean demand and to sell in full, at the demand-weighted price and at the
/// base supplier's demand-weighted cost; the base supplier's setup cost is
/// paid; and a fifth of the order is taken to be held for eight months at the
/// mean holding cost. Each part is rounded down.
pub open spec fn spec_quick_estimate(params: SimulationParams, pair: SupplierPair) -> int {
    let n = params.products@.len() as int;
    let revenue = 9 * spec_revenue_potential(params, n) / 10;
    let production_cost = 9 * spec_weighted_cost(params, pair, n) / 10;
    let mean_holding = spec_holding_sum(params, n) / n;
    let holding_cost = 36 * spec_products_demand(params, n) * mean_holding / 25;
    revenue - production_cost - pair.base_supplier.setup_cost - holding_cost
}

/// Whether the pair's combined capacity is at least 70 % of the mean demand of
/// all demand parameters together.
pub open spec fn spec_adequate_capacity(params: SimulationParams, pair: SupplierPair) -> bool {
    10 * pair.spec_total_capacity() >= 7 * spec_total_mean(params.demand_params@)
}

/// The sums that the estimate is made of.
pub struct DemandSums {
    pub revenue_potential: i128,
    pub weighted_cost: i128,
    pub demand: i128,
    pub holding: i128,
}

/// Largest magnitude of mean demand times a money amount, per product.
pub const PRODUCT_VALUE_LIMIT: i128 = 39_614_081_247_908_796_759_917_199_360;

/// The four sums over all products.
pub fn demand_sums(params: &SimulationParams, pair: &SupplierPair) -> (sums: DemandSums)
    requires
        params.wf(),
    ensures
        sums.revenue_potential == spec_revenue_potential(*params, params.products@.len() as int),
        sums.weighted_cost == spec_weighted_cost(*params, *pair, params.products@.len() as int),
        sums.demand == spec_products_demand(*params, params.products@.len() as int),
        sums.holding == spec_holding_sum(*params, params.products@.len() as int),
        -MAX_PRODUCTS * PRODUCT_VALUE_LIMIT <= sums.revenue_potential <= MAX_PRODUCTS
            * PRODUCT_VALUE_LIMIT,
        -MAX_PRODUCTS * PRODUCT_VALUE_LIMIT <= sums.weighted_cost <= MAX_PRODUCTS
            * PRODUCT_VALUE_LIMIT,
        0 <= sums.demand <= MAX_PRODUCTS * 0xFFFF_FFFF,
        -params.products@.len() * 0x8000_0000_0000_0000 <= sums.holding <= params.products@.len()
            * 0x8000_0000_0000_0000,
{
    let n: usize = params.products.len();
    let mut revenue_potential: i128 = 0;
    let mut weighted_cost: i128 = 0;
    let mut demand: i128 = 0;
    let mut holding: i128 = 0;
    let mut i: usize = 0;
    while i < n
        invariant
            i <= n,
            n == params.products@.len(),
            n <= MAX_PRODUCTS,
            revenue_potential == spec_revenue_potential(*params, i as int),
            weighted_cost == spec_weighted_cost(*params, *pair, i as int),
            demand == spec_products_demand(*params, i as int),
            holding == spec_holding_sum(*params, i as int),
            -i * PRODUCT_VALUE_LIMIT <= revenue_potential <= i * PRODUCT_VALUE_LIMIT,
            -i * PRODUCT_VALUE_LIMIT <= weighted_cost <= i * PRODUCT_VALUE_LIMIT,
            0 <= demand <= i * 0xFFFF_FFFF,
            -i * 0x8000_0000_0000_0000 <= holding <= i * 0x8000_0000_0000_0000,
        decreases n - i,
    {
        let product = &params.products[i];
        let mean: i128 = match params.get_demand_params(product.id) {
            Some(dp) => dp.mean_demand as i128,
            None => 0,
        };
        let price: i128 = product.selling_price as i128;
        let cost: i128 = pair.base_supplier.unit_cost(product.id) as i128;
        proof {
            assert(-PRODUCT_VALUE_LIMIT <= mean * price <= PRODUCT_VALUE_LIMIT) by (nonlinear_arith)
                requires
                    0 <= mean <= 0xFFFF_FFFF,
                    -0x8000_0000_0000_0000 <= price <= 0x8000_0000_0000_0000,
            ;
            assert(-PRODUCT_VALUE_LIMIT <= mean * cost <= PRODUCT_VALUE_LIMIT) by (nonlinear_arith)
                requires
                    0 <= mean <= 0xFFFF_FFFF,
                    -0x8000_0000_0000_0000 <= cost <= 0x8000_0000_0000_0000,
            ;
            assert((i + 1) * PRODUCT_VALUE_LIMIT == i * PRODUCT_VALUE_LIMIT + PRODUCT_VALUE_LIMIT)
                by (nonlinear_arith);
            assert(i * PRODUCT_VALUE_LIMIT <= MAX_PRODUCTS * PRODUCT_VALUE_LIMIT)
                by (nonlinear_arith)
                requires
                    i <= MAX_PRODUCTS,
            ;
        }
        revenue_potential = revenue_potential + mean * price;
        weighted_cost = weighted_cost + mean * cost;
        demand = demand + mean;
        holding = holding + product.monthly_holding_cost as i128;
        i += 1;
    }
    proof {
        assert(n * PRODUCT_VALUE_LIMIT <= MAX_PRODUCTS * PRODUCT_VALUE_LIMIT) by (nonlinear_arith)
            requires
                n <= MAX_PRODUCTS,
        ;
    }
    DemandSums { revenue_potential, weighted_cost, demand, holding }
}

/// Quick profitability check for a supplier pair: an estimate of a season's
/// profit without a search or a simulation. There is none without products.
pub fn quick_profit_estimate(params: &SimulationParams, pair: &SupplierPair) -> (estimate: Option<
    i128,
>)
    requires
        params.wf(),
    ensures
        estimate.is_some() == (params.products@.len() > 0),
        match estimate {
            Some(e) => e == spec_quick_estimate(*params, *pair),
            None => true,
        },
{
    let n: usize = params.products.len();
    if n == 0 {
        return None;
    }
    let sums = demand_sums(params, pair);
    let revenue: i128 = floor_div(9 * sums.revenue_potential, 10);
    let production_cost: i128 = floor_div(9 * sums.weighted_cost, 10);
    let mean_holding: i128 = floor_div(sums.holding, n as u128);
    proof {
        let h = sums.holding as int;
        let bound = 0x8000_0000_0000_0000int;
        vstd::arithmetic::div_mod::lemma_div_is_ordered(h, n * bound, n as int);
        vstd::arithmetic::div_mod::lemma_div_is_ordered(-n * bound, h, n as int);
        vstd::arithmetic::div_mod::lemma_div_multiples_vanish(bound, n as int);
        vstd::arithmetic::div_mod::lemma_div_multiples_vanish(-bound, n as int);
        assert(n * bound == bound * n) by (nonlinear_arith);
        assert(-n * bound == (-bound) * n) by (nonlinear_arith);
        assert(-(MAX_PRODUCTS * 0xFFFF_FFFF * 0x8000_0000_0000_0000) <= sums.demand * mean_holding
            <= MAX_PRODUCTS * 0xFFFF_FFFF * 0x8000_0000_0000_0000) by (nonlinear_arith)
            requires
                0 <= sums.demand <= MAX_PRODUCTS * 0xFFFF_FFFF,
                -0x8000_0000_0000_0000 <= mean_holding <= 0x8000_0000_0000_0000,
        ;
        vstd::arithmetic::div_mod::lemma_div_is_ordered(
            9 * sums.revenue_potential,
            9 * MAX_PRODUCTS * PRODUCT_VALUE_LIMIT,
            10,
        );
        vstd::arithmetic::div_mod::lemma_div_is_ordered(
            -9 * MAX_PRODUCTS * PRODUCT_VALUE_LIMIT,
            9 * sums.revenue_potential,
            10,
        );
        vstd::arithmetic::div_mod::lemma_div_is_ordered(
            9 * sums.weighted_cost,
            9 * MAX_PRODUCTS * PRODUCT_VALUE_LIMIT,
            10,
        );
        vstd::arithmetic::div_mod::lemma_div_is_ordered(
            -9 * MAX_PRODUCTS * PRODUCT_VALUE_LIMIT,
            9 * sums.weighted_cost,
            10,
        );
        vstd::arithmetic::div_mod::lemma_div_is_ordered(
            36 * (sums.demand * mean_holding),
            36 * (MAX_PRODUCTS * 0xFFFF_FFFF * 0x8000_0000_0000_0000),
            25,
        );
        vstd::arithmetic::div_mod::lemma_div_is_ordered(
            -36 * (MAX_PRODUCTS * 0xFFFF_FFFF * 0x8000_0000_0000_0000),
            36 * (sums.demand * mean_holding),
            25,
        );
        assert(36 * sums.demand * mean_holding == 36 * (sums.demand * mean_holding))
            by (nonlinear_arith);
    }
    let holding_cost: i128 = floor_div(36 * (sums.demand * mean_holding), 25);
    Some(revenue - production_cost - pair.base_supplier.setup_cost as i128 - holding_cost)
}

/// Sum of the planning means of all demand parameters.
pub fn total_mean_demand(params: &SimulationParams) -> (total: u128)
    ensures
        total == spec_total_mean(params.demand_params@),
        total <= usize::MAX * 0xFFFF_FFFF,
{
    let mut total: u128 = 0;
    let mut i: usize = 0;
    while i < params.demand_params.len()
        invariant
            i <= params.demand_params@.len(),
            total == spec_total_mean(params.demand_params@.take(i as int)),
            total <= i * 0xFFFF_FFFF,
        decreases params.demand_params@.len() - i,
    {
        proof {
            assert(params.demand_params@.take(i + 1).drop_last() == params.demand_params@.take(
                i as int,
            ));
            assert((i + 1) * 0xFFFF_FFFF == i * 0xFFFF_FFFF + 0xFFFF_FFFF) by (nonlinear_arith);
            assert(i * 0xFFFF_FFFF <= usize::MAX * 0xFFFF_FFFF) by (nonlinear_arith)
                requires
                    i <= usize::MAX,
            ;
        }
        total = total + params.demand_params[i].mean_demand as u128;
        i += 1;
    }
    proof {
        assert(params.demand_params@.take(params.demand_params@.len() as int)
            == params.demand_params@);
    }
    total
}

/// Whether the pair's combined capacity is at least 70 % of mean demand.
pub fn has_adequate_capacity(params: &SimulationParams, pair: &SupplierPair) -> (adequate: bool)
    ensures
        adequate == spec_adequate_capacity(*params, *pair),
{
    let capacity: u128 = pair.total_capacity() as u128;
    let demand: u128 = total_mean_demand(params);
    10 * capacity >= 7 * demand
}

/// Check if a supplier pair is worth fully evaluating: its quick estimate is
/// at least `min_profit_threshold`, and its capacity is adequate.
pub fn is_pair_promising(
    params: &SimulationParams,
    pair: &SupplierPair,
    min_profit_threshold: i128,
) -> (promising: bool)
    requires
        params.wf(),
    ensures
        promising == (params.products@.len() > 0 && spec_quick_estimate(*params, *pair)
            >= min_profit_threshold && spec_adequate_capacity(*params, *pair)),
{
    let adequate: bool = has_adequate_capacity(params, pair);
    match quick_profit_estimate(params, pair) {
        Some(estimate) => estimate >= min_profit_threshold && adequate,
        None => false,
    }
}

} // verus!
