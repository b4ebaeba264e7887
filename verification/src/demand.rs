//! Monthly demand: the expected figure that planning uses, and the demand of
//! one simulated month, which is a raw normal variate held to the range that
//! the product's parameters allow.
//!
//! Drawing the variate is the caller's part. It hands over the sample rounded
//! toward zero; everything that follows from it is decided here.

use vstd::prelude::*;
use crate::models::{ProductDemandParams, SimulationParams};

verus! {

/// The mean that a simulated month is drawn around: realized or planning.
pub open spec fn spec_selected_mean(dp: ProductDemandParams, use_actual: bool) -> u32 {
    if use_actual {
        dp.actual_mean_demand
    } else {
        dp.mean_demand
    }
}

/// The standard deviation that a simulated month is drawn with: realized or
/// planning.
pub open spec fn spec_selected_std_dev(dp: ProductDemandParams, use_actual: bool) -> u32 {
    if use_actual {
        dp.actual_std_dev_demand
    } else {
        dp.std_dev_demand
    }
}

/// The largest demand accepted for one month: three standard deviations above
/// the mean, as far as the quantity type reaches.
pub open spec fn spec_demand_cap(mean: u32, std_dev: u32) -> int {
    if mean + 3 * std_dev > u32::MAX {
        u32::MAX as int
    } else {
        mean + 3 * std_dev
    }
}

/// A raw sample held between zero and the cap.
pub open spec fn spec_clamp_sample(raw_sample: i64, mean: u32, std_dev: u32) -> int {
    if raw_sample <= 0 {
        0
    } else if raw_sample >= spec_demand_cap(mean, std_dev) {
        spec_demand_cap(mean, std_dev)
    } else {
        raw_sample as int
    }
}

/// Demand of one simulated month for one product, given the raw sample.
pub open spec fn spec_simulation_demand(
    dp: ProductDemandParams,
    use_actual: bool,
    raw_sample: i64,
) -> int {
    spec_clamp_sample(
        raw_sample,
        spec_selected_mean(dp, use_actual),
        spec_selected_std_dev(dp, use_actual),
    )
}

/// Demand of one simulated month for the product `product_id`; zero where the
/// product has no demand parameters.
pub open spec fn spec_demand_for_product(
    params: SimulationParams,
    product_id: usize,
    use_actual: bool,
    raw_sample: i64,
) -> int {
    match params.spec_demand_params(product_id) {
        Some(dp) => spec_simulation_demand(dp, use_actual, raw_sample),
        None => 0,
    }
}

/// The sample at position `i`, or zero where `raw_samples` is too short.
pub open spec fn spec_sample_at(raw_samples: Seq<i64>, i: int) -> i64 {
    if 0 <= i < raw_samples.len() {
        raw_samples[i]
    } else {
        0
    }
}

/// A simulated demand is never negative and never above the cap.
pub proof fn lemma_demand_in_range(dp: ProductDemandParams, use_actual: bool, raw_sample: i64)
    ensures
        0 <= spec_simulation_demand(dp, use_actual, raw_sample) <= spec_demand_cap(
            spec_selected_mean(dp, use_actual),
            spec_selected_std_dev(dp, use_actual),
        ) <= u32::MAX,
{
}

/// Expected monthly demand for a product: the planning mean.
pub fn expected_demand(demand_params: &ProductDemandParams) -> (demand: u32)
    ensures
        demand == demand_params.mean_demand,
{
    demand_params.mean_demand
}

/// Expected monthly demand of the product `product_id`; zero where it has no
/// demand parameters.
pub fn expected_demand_for_product(params: &SimulationParams, product_id: usize) -> (demand: u32)
    ensures
        demand == params.spec_mean_demand(product_id),
{
    match params.get_demand_params(product_id) {
        Some(dp) => dp.mean_demand,
        None => 0,
    }
}

/// The largest demand accepted for one month.
pub fn demand_cap(mean: u32, std_dev: u32) -> (cap: u32)
    ensures
        cap == spec_demand_cap(mean, std_dev),
{
    let wide: u64 = mean as u64 + 3 * (std_dev as u64);
    if wide > 0xFFFF_FFFF {
        u32::MAX
    } else {
        wide as u32
    }
}

/// The mean and the standard deviation that a simulated month is drawn with:
/// the planning figures or, with `use_actual`, the realized ones.
pub fn selected_parameters(demand_params: &ProductDemandParams, use_actual: bool) -> (selected: (
    u32,
    u32,
))
    ensures
        selected.0 == spec_selected_mean(*demand_params, use_actual),
        selected.1 == spec_selected_std_dev(*demand_params, use_actual),
{
    if use_actual {
        (demand_params.actual_mean_demand, demand_params.actual_std_dev_demand)
    } else {
        (demand_params.mean_demand, demand_params.std_dev_demand)
    }
}

/// Demand of one simulated month, from the planning parameters or, with
/// `use_actual`, from the realized ones: the raw sample, floored at zero and
/// capped at three standard deviations above the mean.
pub fn simulation_demand(demand_params: &ProductDemandParams, use_actual: bool, raw_sample: i64) -> (demand: u32)
    ensures
        demand == spec_simulation_demand(*demand_params, use_actual, raw_sample),
{
    let (mean, std_dev) = selected_parameters(demand_params, use_actual);
    let cap = demand_cap(mean, std_dev);
    if raw_sample <= 0 {
        0
    } else if raw_sample >= cap as i64 {
        cap
    } else {
        raw_sample as u32
    }
}

/// Demand of one simulated month for the product `product_id`; zero where it
/// has no demand parameters.
pub fn simulation_demand_for_product(
    params: &SimulationParams,
    product_id: usize,
    use_actual: bool,
    raw_sample: i64,
) -> (demand: u32)
    ensures
        demand == spec_demand_for_product(*params, product_id, use_actual, raw_sample),
{
    match params.get_demand_params(product_id) {
        Some(dp) => simulation_demand(dp, use_actual, raw_sample),
        None => 0,
    }
}

/// Demands of one simulated month for every entry of the demand parameters, in
/// their order, as `(product id, demand)`. Entry `i` uses sample `i`; a missing
/// sample counts as zero.
pub fn simulation_demand_all_products(
    params: &SimulationParams,
    use_actual: bool,
    raw_samples: &Vec<i64>,
) -> (demands: Vec<(usize, u32)>)
    ensures
        demands@.len() == params.demand_params@.len(),
        forall|i: int|
            0 <= i < demands@.len() ==> {
                &&& (#[trigger] demands@[i]).0 == params.demand_params@[i].product_id
                &&& demands@[i].1 == spec_simulation_demand(
                    params.demand_params@[i],
                    use_actual,
                    spec_sample_at(raw_samples@, i),
                )
            },
{
    let mut demands: Vec<(usize, u32)> = Vec::new();
    let mut i: usize = 0;
    while i < params.demand_params.len()
        invariant
            i <= params.demand_params@.len(),
            demands@.len() == i,
            forall|j: int|
                0 <= j < i ==> {
                    &&& (#[trigger] demands@[j]).0 == params.demand_params@[j].product_id
                    &&& demands@[j].1 == spec_simulation_demand(
                        params.demand_params@[j],
                        use_actual,
                        spec_sample_at(raw_samples@, j),
                    )
                },
        decreases params.demand_params@.len() - i,
    {
        let raw: i64 = sample_at(raw_samples, i);
        let dp = &params.demand_params[i];
        demands.push((dp.product_id, simulation_demand(dp, use_actual, raw)));
        i += 1;
    }
    demands
}

/// The sample at position `i`, or zero where `raw_samples` is too short.
pub fn sample_at(raw_samples: &Vec<i64>, i: usize) -> (raw: i64)
    ensures
        raw == spec_sample_at(raw_samples@, i as int),
{
    if i < raw_samples.len() {
        raw_samples[i]
    } else {
        0
    }
}

/// Realized demand of one simulated month.
pub fn actual_demand(demand_params: &ProductDemandParams, raw_sample: i64) -> (demand: u32)
    ensures
        demand == spec_simulation_demand(*demand_params, true, raw_sample),
{
    simulation_demand(demand_params, true, raw_sample)
}

} // verus!
