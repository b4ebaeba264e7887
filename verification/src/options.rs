//! The value of being allowed to revise the surge order once: an American
//! option on a binomial lattice over the periods that remain.
//!
//! In each period demand moves up by the factor `u = exp(cv)` or down by
//! `1 / u`, where `cv` is the aggregate planning coefficient of variation. The
//! powers of `u` and the risk-neutral probability are real numbers; the caller
//! computes them once per scenario and hands them over rounded, as
//! `LatticeInputs`. Everything else is decided here, in whole minor units.

use vstd::prelude::*;
use crate::models::{ProductDemandParams, SimulationParams, SupplierPair, TOTAL_MONTHS};
use crate::statistics::floor_div;

verus! {

/// Largest net number of up moves that the lattice inputs cover.
pub const LATTICE_REACH: usize = 8;

/// Number of forecasts that the lattice inputs hold: one for each net number
/// of up moves from `-LATTICE_REACH` to `LATTICE_REACH`.
pub const LATTICE_WIDTH: usize = 17;

/// One in parts per million.
pub const PPM: u32 = 1_000_000;

/// Largest magnitude of an exercise payoff, and so of an option value.
pub const PAYOFF_LIMIT: i128 = 158_456_325_028_528_675_187_087_900_672;

/// The aggregate figures that the valuer works with.
#[derive(Clone, Copy, Debug)]
pub struct OptionEconomics {
    /// Planning mean demand, all products together.
    pub mean_demand: u64,
    /// Planning standard deviation of demand, all products together.
    pub std_dev_demand: u64,
    pub selling_price: i64,
    /// What the surge supplier charges per unit.
    pub surge_unit_cost: i64,
    pub monthly_holding_cost: i64,
    pub order_change_fee: i64,
}

/// What the lattice needs of real arithmetic.
#[derive(Clone, Debug)]
pub struct LatticeInputs {
    /// Forecast demand after a net number of up moves `k`, at position
    /// `k + LATTICE_REACH`: the mean demand times `u` to the power `k`,
    /// rounded toward zero.
    pub forecasts: Vec<u32>,
    /// Risk-neutral probability of an up move, `(1 - d) / (u - d)` with
    /// `d = 1 / u`, in parts per million; none where it is undefined, which is
    /// where `u` is one.
    pub up_probability_ppm: Option<u32>,
}

impl LatticeInputs {
    /// The probability, where there is one, is at most one.
    pub open spec fn wf(&self) -> bool {
        match self.up_probability_ppm {
            Some(ppm) => ppm <= PPM,
            None => true,
        }
    }

    /// Whether the probability, where there is one, is at most one.
    pub fn is_wf(&self) -> (ok: bool)
        ensures
            ok == self.wf(),
    {
        match self.up_probability_ppm {
            Some(ppm) => ppm <= PPM,
            None => true,
        }
    }

    /// Forecast demand after a net number of up moves `uplifts`; zero where
    /// the inputs do not cover it.
    pub open spec fn spec_forecast(&self, uplifts: int) -> u32 {
        if 0 <= uplifts + LATTICE_REACH < self.forecasts@.len() {
            self.forecasts@[uplifts + LATTICE_REACH]
        } else {
            0
        }
    }

    /// Forecast demand after a net number of up moves `uplifts`; zero where
    /// the inputs do not cover it.
    pub fn forecast(&self, uplifts: i32) -> (forecast: u32)
        ensures
            forecast == self.spec_forecast(uplifts as int),
    {
        let position: i64 = uplifts as i64 + LATTICE_REACH as i64;
        if position >= 0 && (position as u64) < self.forecasts.len() as u64 {
            self.forecasts[position as usize]
        } else {
            0
        }
    }
}

/// Sum of the planning means of `demand_params`.
pub open spec fn spec_total_mean(demand_params: Seq<ProductDemandParams>) -> int
    decreases demand_params.len(),
{
    if demand_params.len() == 0 {
        0
    } else {
        spec_total_mean(demand_params.drop_last()) + demand_params.last().mean_demand
    }
}

/// Sum of the planning standard deviations of `demand_params`.
pub open spec fn spec_total_std_dev(demand_params: Seq<ProductDemandParams>) -> int
    decreases demand_params.len(),
{
    if demand_params.len() == 0 {
        0
    } else {
        spec_total_std_dev(demand_params.drop_last()) + demand_params.last().std_dev_demand
    }
}

/// A number held within the range of `u64`.
pub open spec fn spec_saturate_u64(value: int) -> u64 {
    if value > u64::MAX {
        u64::MAX
    } else if value < 0 {
        0
    } else {
        value as u64
    }
}

/// A number held within the range of the quantity type.
pub open spec fn spec_saturate(value: int) -> u32 {
    if value > u32::MAX {
        u32::MAX
    } else if value < 0 {
        0
    } else {
        value as u32
    }
}

/// The aggregate figures of a scenario: mean and standard deviation of demand
/// are summed over the demand parameters; price and holding cost are those of
/// the first product, and the unit cost is what the surge supplier charges for
/// it. Without products these are zero.
pub open spec fn spec_economics(params: SimulationParams, pair: SupplierPair) -> OptionEconomics {
    OptionEconomics {
        mean_demand: spec_saturate_u64(spec_total_mean(params.demand_params@)),
        std_dev_demand: spec_saturate_u64(spec_total_std_dev(params.demand_params@)),
        selling_price: if params.products@.len() > 0 {
            params.products@[0].selling_price
        } else {
            0
        },
        surge_unit_cost: if params.products@.len() > 0 {
            pair.surge_supplier.spec_unit_cost(params.products@[0].id)
        } else {
            0
        },
        monthly_holding_cost: if params.products@.len() > 0 {
            params.products@[0].monthly_holding_cost
        } else {
            0
        },
        order_change_fee: params.order_change_fee,
    }
}

/// Whether the Newsvendor critical fractile, `underage / (underage +
/// overage)`, is above one half.
pub open spec fn spec_high_fractile(underage: int, overage: int) -> bool {
    if underage + overage > 0 {
        underage > overage
    } else if underage + overage < 0 {
        underage < overage
    } else {
        underage > 0
    }
}

/// The safety stock above the forecast: `z` standard deviations of the node,
/// rounded down, where the node's standard deviation is the forecast times the
/// coefficient of variation, and `z` is 1.645 with a high critical fractile
/// and zero otherwise. With a mean demand of zero there is none.
pub open spec fn spec_safety_stock(economics: OptionEconomics, forecast: u32) -> int {
    if economics.mean_demand > 0 && spec_high_fractile(
        economics.selling_price - economics.surge_unit_cost,
        economics.monthly_holding_cost as int,
    ) {
        1645 * forecast * economics.std_dev_demand / (1000 * economics.mean_demand)
    } else {
        0
    }
}

/// What exercising the option pays at a node with the forecast demand
/// `forecast`, while `order_quantity` is on order: the margin on the demand
/// that a larger order captures, or the holding cost that a smaller order
/// saves, less the revision fee. With a mean demand of zero there is nothing
/// to gain.
pub open spec fn spec_exercise_payoff(
    economics: OptionEconomics,
    order_quantity: u32,
    forecast: u32,
) -> int {
    let margin = economics.selling_price - economics.surge_unit_cost;
    let target = forecast + spec_safety_stock(economics, forecast);
    let benefit = if economics.mean_demand == 0 {
        0
    } else if target > order_quantity {
        (if target - order_quantity < forecast {
            target - order_quantity
        } else {
            forecast as int
        }) * margin
    } else if target < order_quantity {
        (order_quantity - target) * economics.monthly_holding_cost
    } else {
        0
    };
    benefit - economics.order_change_fee
}

/// The larger of two numbers.
pub open spec fn spec_max(a: int, b: int) -> int {
    if a >= b {
        a
    } else {
        b
    }
}

/// The value of the option at the node that `period` periods from now has seen
/// a net number of up moves `uplifts`: nothing once no period remains;
/// otherwise the larger of what exercising pays now and what waiting is worth,
/// which is the up and the down node's value weighted by the risk-neutral
/// probability and rounded down. Where that probability is undefined, waiting
/// is worth nothing that could be compared, and the value is what exercising
/// pays.
pub open spec fn spec_node_value(
    economics: OptionEconomics,
    order_quantity: u32,
    remaining_months: int,
    lattice: LatticeInputs,
    period: int,
    uplifts: int,
) -> int
    decreases remaining_months - period,
{
    if period >= remaining_months {
        0
    } else {
        let exercise = spec_exercise_payoff(
            economics,
            order_quantity,
            lattice.spec_forecast(uplifts),
        );
        match lattice.up_probability_ppm {
            Some(ppm) => {
                let up = spec_node_value(
                    economics,
                    order_quantity,
                    remaining_months,
                    lattice,
                    period + 1,
                    uplifts + 1,
                );
                let down = spec_node_value(
                    economics,
                    order_quantity,
                    remaining_months,
                    lattice,
                    period + 1,
                    uplifts - 1,
                );
                spec_max(exercise, (ppm * up + (PPM - ppm) * down) / (PPM as int))
            },
            None => exercise,
        }
    }
}

/// Inventory after one more period at a lattice node: what was on hand and
/// what is on order, less what the node's demand takes of it, as far as the
/// quantity type reaches.
pub open spec fn spec_update_inventory(order_quantity: u32, inventory: u32, demand: u32) -> u32 {
    let available = inventory + order_quantity;
    let sold = if available <= demand {
        available
    } else {
        demand as int
    };
    spec_saturate(available - sold)
}

/// An exercise payoff is within the payoff limit.
pub proof fn lemma_payoff_bounds(economics: OptionEconomics, order_quantity: u32, forecast: u32)
    ensures
        -PAYOFF_LIMIT <= spec_exercise_payoff(economics, order_quantity, forecast) <= PAYOFF_LIMIT,
        0 <= spec_safety_stock(economics, forecast),
{
    let margin = economics.selling_price - economics.surge_unit_cost;
    lemma_safety_stock_bounds(economics, forecast);
    let target = forecast + spec_safety_stock(economics, forecast);
    if economics.mean_demand != 0 {
        if target > order_quantity {
            let captured = if target - order_quantity < forecast {
                target - order_quantity
            } else {
                forecast as int
            };
            assert(-0xFFFF_FFFF * 0x1_0000_0000_0000_0000 <= captured * margin <= 0xFFFF_FFFF
                * 0x1_0000_0000_0000_0000) by (nonlinear_arith)
                requires
                    0 <= captured <= 0xFFFF_FFFF,
                    -0x1_0000_0000_0000_0000 <= margin <= 0x1_0000_0000_0000_0000,
            ;
        } else if target < order_quantity {
            let spared = order_quantity - target;
            let holding = economics.monthly_holding_cost as int;
            assert(-0xFFFF_FFFF * 0x1_0000_0000_0000_0000 <= spared * holding <= 0xFFFF_FFFF
                * 0x1_0000_0000_0000_0000) by (nonlinear_arith)
                requires
                    0 <= spared <= 0xFFFF_FFFF,
                    -0x1_0000_0000_0000_0000 <= holding <= 0x1_0000_0000_0000_0000,
            ;
        }
    }
}

/// The safety stock is never negative and never more than 1645 times the
/// forecast times the standard deviation.
pub proof fn lemma_safety_stock_bounds(economics: OptionEconomics, forecast: u32)
    ensures
        0 <= spec_safety_stock(economics, forecast) <= 1645 * 0xFFFF_FFFF
            * 0xFFFF_FFFF_FFFF_FFFF,
{
    let numerator = 1645 * forecast * economics.std_dev_demand;
    let denominator = 1000 * economics.mean_demand;
    assert(0 <= numerator <= 1645 * 0xFFFF_FFFF * 0xFFFF_FFFF_FFFF_FFFF) by (nonlinear_arith)
        requires
            numerator == 1645 * forecast * economics.std_dev_demand,
            0 <= forecast <= 0xFFFF_FFFF,
            0 <= economics.std_dev_demand <= 0xFFFF_FFFF_FFFF_FFFF,
    ;
    if denominator > 0 {
        vstd::arithmetic::div_mod::lemma_div_pos_is_pos(numerator, denominator);
        vstd::arithmetic::div_mod::lemma_div_is_ordered_by_denominator(numerator, 1, denominator);
    }
}

/// A node's value is within the payoff limit; and where waiting has a value,
/// the node's value is never negative.
pub proof fn lemma_node_value_bounds(
    economics: OptionEconomics,
    order_quantity: u32,
    remaining_months: int,
    lattice: LatticeInputs,
    period: int,
    uplifts: int,
)
    requires
        lattice.wf(),
    ensures
        -PAYOFF_LIMIT <= spec_node_value(
            economics,
            order_quantity,
            remaining_months,
            lattice,
            period,
            uplifts,
        ) <= PAYOFF_LIMIT,
        lattice.up_probability_ppm.is_some() ==> 0 <= spec_node_value(
            economics,
            order_quantity,
            remaining_months,
            lattice,
            period,
            uplifts,
        ),
    decreases remaining_months - period,
{
    if period < remaining_months {
        lemma_payoff_bounds(economics, order_quantity, lattice.spec_forecast(uplifts));
        match lattice.up_probability_ppm {
            Some(ppm) => {
                lemma_node_value_bounds(
                    economics,
                    order_quantity,
                    remaining_months,
                    lattice,
                    period + 1,
                    uplifts + 1,
                );
                lemma_node_value_bounds(
                    economics,
                    order_quantity,
                    remaining_months,
                    lattice,
                    period + 1,
                    uplifts - 1,
                );
                let up = spec_node_value(
                    economics,
                    order_quantity,
                    remaining_months,
                    lattice,
                    period + 1,
                    uplifts + 1,
                );
                let down = spec_node_value(
                    economics,
                    order_quantity,
                    remaining_months,
                    lattice,
                    period + 1,
                    uplifts - 1,
                );
                lemma_weighted_bounds(ppm as int, up, down);
            },
            None => {},
        }
    }
}

/// A weighted mean of two values that are within the payoff limit and not
/// negative is within the payoff limit and not negative.
pub proof fn lemma_weighted_bounds(ppm: int, up: int, down: int)
    requires
        0 <= ppm <= PPM,
        0 <= up <= PAYOFF_LIMIT,
        0 <= down <= PAYOFF_LIMIT,
    ensures
        0 <= ppm * up <= PPM * PAYOFF_LIMIT,
        0 <= (PPM - ppm) * down <= PPM * PAYOFF_LIMIT,
        0 <= (ppm * up + (PPM - ppm) * down) / (PPM as int) <= PAYOFF_LIMIT,
{
    let weighted = ppm * up + (PPM - ppm) * down;
    assert(0 <= ppm * up <= ppm * PAYOFF_LIMIT) by (nonlinear_arith)
        requires
            0 <= ppm,
            0 <= up <= PAYOFF_LIMIT,
    ;
    assert(0 <= (PPM - ppm) * down <= (PPM - ppm) * PAYOFF_LIMIT) by (nonlinear_arith)
        requires
            0 <= PPM - ppm,
            0 <= down <= PAYOFF_LIMIT,
    ;
    assert(ppm * PAYOFF_LIMIT + (PPM - ppm) * PAYOFF_LIMIT == PPM * PAYOFF_LIMIT)
        by (nonlinear_arith);
    assert(ppm * PAYOFF_LIMIT <= PPM * PAYOFF_LIMIT) by (nonlinear_arith)
        requires
            0 <= ppm <= PPM,
    ;
    assert((PPM - ppm) * PAYOFF_LIMIT <= PPM * PAYOFF_LIMIT) by (nonlinear_arith)
        requires
            0 <= ppm <= PPM,
    ;
    vstd::arithmetic::div_mod::lemma_div_pos_is_pos(weighted, PPM as int);
    vstd::arithmetic::div_mod::lemma_div_is_ordered(weighted, PPM * PAYOFF_LIMIT, PPM as int);
    vstd::arithmetic::div_mod::lemma_div_multiples_vanish(PAYOFF_LIMIT as int, PPM as int);
    assert(PPM * PAYOFF_LIMIT == PAYOFF_LIMIT * PPM) by (nonlinear_arith);
}

/// A number held within the range of the quantity type.
pub fn saturate(value: u128) -> (held: u32)
    ensures
        held == spec_saturate(value as int),
{
    if value > 0xFFFF_FFFF {
        u32::MAX
    } else {
        value as u32
    }
}

/// The aggregate figures of a scenario.
pub fn economics_of(params: &SimulationParams, pair: &SupplierPair) -> (economics: OptionEconomics)
    ensures
        economics == spec_economics(*params, *pair),
{
    let mut mean: u64 = 0;
    let mut spread: u64 = 0;
    let mut i: usize = 0;
    while i < params.demand_params.len()
        invariant
            i <= params.demand_params@.len(),
            mean == spec_saturate_u64(spec_total_mean(params.demand_params@.take(i as int))),
            spread == spec_saturate_u64(spec_total_std_dev(params.demand_params@.take(i as int))),
            0 <= spec_total_mean(params.demand_params@.take(i as int)),
            0 <= spec_total_std_dev(params.demand_params@.take(i as int)),
        decreases params.demand_params@.len() - i,
    {
        proof {
            assert(params.demand_params@.take(i + 1).drop_last() == params.demand_params@.take(
                i as int,
            ));
        }
        let dp = &params.demand_params[i];
        mean = mean.saturating_add(dp.mean_demand as u64);
        spread = spread.saturating_add(dp.std_dev_demand as u64);
        i += 1;
    }
    proof {
        assert(params.demand_params@.take(params.demand_params@.len() as int)
            == params.demand_params@);
    }
    if params.products.len() > 0 {
        let first = &params.products[0];
        OptionEconomics {
            mean_demand: mean,
            std_dev_demand: spread,
            selling_price: first.selling_price,
            surge_unit_cost: pair.surge_supplier.unit_cost(first.id),
            monthly_holding_cost: first.monthly_holding_cost,
            order_change_fee: params.order_change_fee,
        }
    } else {
        OptionEconomics {
            mean_demand: mean,
            std_dev_demand: spread,
            selling_price: 0,
            surge_unit_cost: 0,
            monthly_holding_cost: 0,
            order_change_fee: params.order_change_fee,
        }
    }
}

/// American option valuation using the binomial method.
#[derive(Clone, Copy, Debug)]
pub struct OptionValuation {
    pub current_order_quantity: u32,
    pub inventory: u32,
    pub current_month: usize,
    pub remaining_months: usize,
    pub economics: OptionEconomics,
}

impl OptionValuation {
    /// Create a new option valuation instance for the period `current_month`,
    /// counted from zero. All periods from it to the end of the season remain.
    pub fn new(
        current_order_quantity: u32,
        inventory: u32,
        current_month: usize,
        economics: OptionEconomics,
    ) -> (valuation: OptionValuation)
        requires
            current_month <= TOTAL_MONTHS,
        ensures
            valuation.current_order_quantity == current_order_quantity,
            valuation.inventory == inventory,
            valuation.current_month == current_month,
            valuation.remaining_months == TOTAL_MONTHS - current_month,
            valuation.economics == economics,
    {
        OptionValuation {
            current_order_quantity,
            inventory,
            current_month,
            remaining_months: TOTAL_MONTHS - current_month,
            economics,
        }
    }

    /// The value of the option, as the lattice gives it.
    pub open spec fn spec_value(&self, lattice: LatticeInputs) -> int {
        spec_node_value(
            self.economics,
            self.current_order_quantity,
            self.remaining_months as int,
            lattice,
            0,
            0,
        )
    }

    /// Calculate the value of the option to change orders. With no period
    /// remaining the value is zero, whatever else is given.
    pub fn value_option(&self, lattice: &LatticeInputs) -> (value: i128)
        requires
            lattice.wf(),
            self.remaining_months <= TOTAL_MONTHS,
        ensures
            value == self.spec_value(*lattice),
            self.remaining_months == 0 ==> value == 0,
            -PAYOFF_LIMIT <= value <= PAYOFF_LIMIT,
    {
        if self.remaining_months == 0 {
            return 0;
        }
        self.binomial_value_recursive(lattice, 0, 0, self.inventory)
    }

    /// The value of the option at the lattice node that `period` periods from
    /// now has seen a net number of up moves `cumulative_uplifts` and has
    /// `inventory` on hand.
    pub fn binomial_value_recursive(
        &self,
        lattice: &LatticeInputs,
        period: usize,
        cumulative_uplifts: i32,
        inventory: u32,
    ) -> (value: i128)
        requires
            lattice.wf(),
            self.remaining_months <= TOTAL_MONTHS,
            period <= self.remaining_months,
            -(period as int) <= cumulative_uplifts <= period,
        ensures
            value == spec_node_value(
                self.economics,
                self.current_order_quantity,
                self.remaining_months as int,
                *lattice,
                period as int,
                cumulative_uplifts as int,
            ),
            -PAYOFF_LIMIT <= value <= PAYOFF_LIMIT,
        decreases self.remaining_months - period,
    {
        proof {
            lemma_node_value_bounds(
                self.economics,
                self.current_order_quantity,
                self.remaining_months as int,
                *lattice,
                period as int,
                cumulative_uplifts as int,
            );
        }
        if period >= self.remaining_months {
            return 0;
        }
        let exercise_payoff: i128 = self.calculate_exercise_payoff(
            lattice,
            inventory,
            cumulative_uplifts,
        );
        match lattice.up_probability_ppm {
            Some(ppm) => {
                let node_demand: u32 = lattice.forecast(cumulative_uplifts + 1);
                let next_inventory: u32 = self.update_inventory(inventory, node_demand);
                let continuation_up: i128 = self.binomial_value_recursive(
                    lattice,
                    period + 1,
                    cumulative_uplifts + 1,
                    next_inventory,
                );
                let continuation_down: i128 = self.binomial_value_recursive(
                    lattice,
                    period + 1,
                    cumulative_uplifts - 1,
                    next_inventory,
                );
                proof {
                    lemma_node_value_bounds(
                        self.economics,
                        self.current_order_quantity,
                        self.remaining_months as int,
                        *lattice,
                        period + 1,
                        cumulative_uplifts + 1,
                    );
                    lemma_node_value_bounds(
                        self.economics,
                        self.current_order_quantity,
                        self.remaining_months as int,
                        *lattice,
                        period + 1,
                        cumulative_uplifts - 1,
                    );
                    lemma_weighted_bounds(
                        ppm as int,
                        continuation_up as int,
                        continuation_down as int,
                    );
                }
                let weighted: i128 = (ppm as i128) * continuation_up + ((PPM - ppm) as i128)
                    * continuation_down;
                let continuation_value: i128 = floor_div(weighted, PPM as u128);
                if exercise_payoff >= continuation_value {
                    exercise_payoff
                } else {
                    continuation_value
                }
            },
            None => exercise_payoff,
        }
    }

    /// Calculate the payoff from exercising the option (changing the order) at
    /// a node with a net number of up moves `cumulative_uplifts`. The inventory
    /// on hand does not enter it.
    pub fn calculate_exercise_payoff(
        &self,
        lattice: &LatticeInputs,
        _current_inventory: u32,
        cumulative_uplifts: i32,
    ) -> (payoff: i128)
        ensures
            payoff == spec_exercise_payoff(
                self.economics,
                self.current_order_quantity,
                lattice.spec_forecast(cumulative_uplifts as int),
            ),
            -PAYOFF_LIMIT <= payoff <= PAYOFF_LIMIT,
    {
        let forecast: u32 = lattice.forecast(cumulative_uplifts);
        let economics = &self.economics;
        proof {
            lemma_payoff_bounds(*economics, self.current_order_quantity, forecast);
            lemma_safety_stock_bounds(*economics, forecast);
        }
        let fee: i128 = economics.order_change_fee as i128;
        if economics.mean_demand == 0 {
            return -fee;
        }
        let margin: i128 = economics.selling_price as i128 - economics.surge_unit_cost as i128;
        let holding: i128 = economics.monthly_holding_cost as i128;
        let high_fractile: bool = if margin + holding > 0 {
            margin > holding
        } else if margin + holding < 0 {
            margin < holding
        } else {
            margin > 0
        };
        let safety_stock: u128 = if high_fractile {
            assert(1645 * forecast * economics.std_dev_demand <= 1645 * 0xFFFF_FFFF
                * 0xFFFF_FFFF_FFFF_FFFF) by (nonlinear_arith)
                requires
                    0 <= forecast <= 0xFFFF_FFFF,
                    0 <= economics.std_dev_demand <= 0xFFFF_FFFF_FFFF_FFFF,
            ;
            assert(1645 * forecast <= 1645 * 0xFFFF_FFFF) by (nonlinear_arith)
                requires
                    0 <= forecast <= 0xFFFF_FFFF,
            ;
            1645 * (forecast as u128) * (economics.std_dev_demand as u128)
                / (1000 * (economics.mean_demand as u128))
        } else {
            0
        };
        let target: u128 = forecast as u128 + safety_stock;
        let on_order: u128 = self.current_order_quantity as u128;
        let benefit: i128 = if target > on_order {
            let captured: u128 = if target - on_order < forecast as u128 {
                target - on_order
            } else {
                forecast as u128
            };
            assert(-0xFFFF_FFFF * 0x1_0000_0000_0000_0000 <= captured * margin <= 0xFFFF_FFFF
                * 0x1_0000_0000_0000_0000) by (nonlinear_arith)
                requires
                    0 <= captured <= 0xFFFF_FFFF,
                    -0x1_0000_0000_0000_0000 <= margin <= 0x1_0000_0000_0000_0000,
            ;
            (captured as i128) * margin
        } else if target < on_order {
            let spared: u128 = on_order - target;
            assert(-0xFFFF_FFFF * 0x1_0000_0000_0000_0000 <= spared * holding <= 0xFFFF_FFFF
                * 0x1_0000_0000_0000_0000) by (nonlinear_arith)
                requires
                    0 <= spared <= 0xFFFF_FFFF,
                    -0x1_0000_0000_0000_0000 <= holding <= 0x1_0000_0000_0000_0000,
            ;
            (spared as i128) * holding
        } else {
            0
        };
        benefit - fee
    }

    /// Update inventory after demand realization at a lattice node.
    pub fn update_inventory(&self, inventory: u32, demand: u32) -> (left: u32)
        ensures
            left == spec_update_inventory(self.current_order_quantity, inventory, demand),
    {
        let available: u64 = inventory as u64 + self.current_order_quantity as u64;
        let sold: u64 = if available <= demand as u64 {
            available
        } else {
            demand as u64
        };
        saturate((available - sold) as u128)
    }
}

} // verus!
