//! The monthly simulation of one season, May through December, for several
//! products that share the capacity of one supplier pair; and the split of an
//! order between the two suppliers.
//!
//! A season is a function of its inputs: the raw demand samples of every period
//! and, where options are enabled, the advice that the valuer gave in each
//! period. `SeasonState` offers the same season one step at a time, for callers
//! that can only give their advice once they have seen the state.

use vstd::prelude::*;
use crate::demand::{lemma_demand_in_range, spec_demand_for_product, spec_sample_at};
use crate::ledger::{
    lemma_row_stock, OrderModel, PeriodModel, PERIOD_LIMIT, SEASON_LIMIT,
};
use crate::models::{
    lemma_total_quantity_bounds, spec_total_quantity, MonthlyOrder, MonthlyResult, ProductOrder,
    SimulationParams, SupplierPair, TOTAL_MONTHS,
};
use crate::optimizer::{find_optimal_production_quantities, spec_optimal_quantities};
use crate::options::{
    economics_of, saturate, spec_economics, spec_node_value, spec_saturate, LatticeInputs,
    OptionValuation,
};
use crate::revision::{lemma_revised_surge_within_capacity, lemma_total_push};
use crate::season::{
    spec_advice_model, spec_initial_state, AdviceModel, RevisionAdvice, SeasonModel, SeasonState,
};

verus! {

/// The raw samples of period `period`; none where `demand` is too short.
pub open spec fn spec_samples_of(demand: Seq<Vec<i64>>, period: int) -> Seq<i64> {
    if 0 <= period < demand.len() {
        demand[period]@
    } else {
        Seq::empty()
    }
}

/// The advice given in period `period`; none where `advice` is too short.
pub open spec fn spec_advice_of(advice: Seq<Option<AdviceModel>>, period: int) -> Option<
    AdviceModel,
> {
    if 0 <= period < advice.len() {
        advice[period]
    } else {
        None
    }
}

/// The state of the season once `periods` periods have been settled and
/// closed.
pub open spec fn spec_state_after(
    params: SimulationParams,
    pair: SupplierPair,
    initial: OrderModel,
    enable_options: bool,
    use_actual: bool,
    demand: Seq<Vec<i64>>,
    advice: Seq<Option<AdviceModel>>,
    periods: nat,
) -> SeasonModel
    decreases periods,
{
    if periods == 0 {
        spec_initial_state(params, initial)
    } else {
        let period = (periods - 1) as nat;
        spec_state_after(
            params,
            pair,
            initial,
            enable_options,
            use_actual,
            demand,
            advice,
            period,
        ).settled_state(params, pair, use_actual, spec_samples_of(demand, period as int)).closed_state(
            params,
            pair,
            enable_options,
            spec_advice_of(advice, period as int),
        )
    }
}

/// The ledger of period `period` of the season.
pub open spec fn spec_period_ledger(
    params: SimulationParams,
    pair: SupplierPair,
    initial: OrderModel,
    enable_options: bool,
    use_actual: bool,
    demand: Seq<Vec<i64>>,
    advice: Seq<Option<AdviceModel>>,
    period: int,
) -> PeriodModel {
    spec_state_after(
        params,
        pair,
        initial,
        enable_options,
        use_actual,
        demand,
        advice,
        period as nat,
    ).period_result(params, pair, use_actual, spec_samples_of(demand, period))
}

/// The ledger of the whole season, period by period.
pub open spec fn spec_ledger(
    params: SimulationParams,
    pair: SupplierPair,
    initial: OrderModel,
    enable_options: bool,
    use_actual: bool,
    demand: Seq<Vec<i64>>,
    advice: Seq<Option<AdviceModel>>,
) -> Seq<PeriodModel> {
    Seq::new(
        TOTAL_MONTHS as nat,
        |period: int|
            spec_period_ledger(
                params,
                pair,
                initial,
                enable_options,
                use_actual,
                demand,
                advice,
                period,
            ),
    )
}

/// Sum of the periods' profits.
pub open spec fn spec_ledger_profit(ledger: Seq<PeriodModel>) -> int
    decreases ledger.len(),
{
    if ledger.len() == 0 {
        0
    } else {
        spec_ledger_profit(ledger.drop_last()) + ledger.last().monthly_profit
    }
}

/// The profit of the whole season.
pub open spec fn spec_season_profit(
    params: SimulationParams,
    pair: SupplierPair,
    initial: OrderModel,
    enable_options: bool,
    use_actual: bool,
    demand: Seq<Vec<i64>>,
    advice: Seq<Option<AdviceModel>>,
) -> int {
    spec_ledger_profit(
        spec_ledger(params, pair, initial, enable_options, use_actual, demand, advice),
    )
}

/// A list of advice as plain values.
pub open spec fn spec_advice_models(advice: Seq<Option<RevisionAdvice>>) -> Seq<
    Option<AdviceModel>,
> {
    Seq::new(advice.len(), |i: int| spec_advice_model(advice[i]))
}

/// A ledger as plain numbers.
pub open spec fn spec_period_models(ledger: Seq<MonthlyResult>) -> Seq<PeriodModel> {
    Seq::new(ledger.len(), |i: int| ledger[i]@)
}

/// Runs the season of eight periods on advice that was given beforehand, and
/// returns its ledger and its profit.
///
/// `demand[t]` holds the raw demand samples of period `t`, one per product in
/// the order of the product list; a missing sample counts as zero. With
/// `enable_options`, `advice[t]` is what the valuer said in period `t`; it is
/// looked at only where the option is open, and missing advice leaves the order
/// as it is.
pub fn run_season_with_advice(
    params: &SimulationParams,
    pair: &SupplierPair,
    initial_order: &MonthlyOrder,
    enable_options: bool,
    use_actual_demand: bool,
    demand: &Vec<Vec<i64>>,
    advice: &Vec<Option<RevisionAdvice>>,
) -> (out: (Vec<MonthlyResult>, i128))
    requires
        params.wf(),
        initial_order.wf(),
    ensures
        spec_period_models(out.0@) == spec_ledger(
            *params,
            *pair,
            initial_order@,
            enable_options,
            use_actual_demand,
            demand@,
            spec_advice_models(advice@),
        ),
        out.1 == spec_ledger_profit(spec_period_models(out.0@)),
        -SEASON_LIMIT <= out.1 <= SEASON_LIMIT,
{
    let mut state = SeasonState::new(params, pair, initial_order);
    let mut ledger: Vec<MonthlyResult> = Vec::new();
    let no_samples: Vec<i64> = Vec::new();
    let no_advice: Option<RevisionAdvice> = None;
    let mut period: usize = 0;
    while period < TOTAL_MONTHS
        invariant
            period <= TOTAL_MONTHS,
            params.wf(),
            no_samples@ == Seq::<i64>::empty(),
            no_advice.is_none(),
            state@ == spec_state_after(
                *params,
                *pair,
                initial_order@,
                enable_options,
                use_actual_demand,
                demand@,
                spec_advice_models(advice@),
                period as nat,
            ),
            state@.wf(*params, *pair),
            !state.settled,
            state.period == period,
            ledger@.len() == period,
            forall|t: int|
                0 <= t < period ==> (#[trigger] ledger@[t])@ == spec_period_ledger(
                    *params,
                    *pair,
                    initial_order@,
                    enable_options,
                    use_actual_demand,
                    demand@,
                    spec_advice_models(advice@),
                    t,
                ),
            state.total_profit == spec_ledger_profit(spec_period_models(ledger@)),
        decreases TOTAL_MONTHS - period,
    {
        let samples: &Vec<i64> = if period < demand.len() {
            &demand[period]
        } else {
            &no_samples
        };
        let result = state.settle_period(params, pair, use_actual_demand, samples);
        let period_advice: &Option<RevisionAdvice> = if period < advice.len() {
            &advice[period]
        } else {
            &no_advice
        };
        assert(spec_advice_model(*period_advice) == spec_advice_of(
            spec_advice_models(advice@),
            period as int,
        ));
        state.close_period(params, pair, enable_options, period_advice);
        proof {
            assert(spec_period_models(ledger@.push(result)) =~= spec_period_models(ledger@).push(
                result@,
            ));
            assert(spec_period_models(ledger@).push(result@).drop_last() == spec_period_models(
                ledger@,
            ));
        }
        ledger.push(result);
        period += 1;
    }
    proof {
        assert(8 * PERIOD_LIMIT == SEASON_LIMIT);
        assert(spec_period_models(ledger@) =~= spec_ledger(
            *params,
            *pair,
            initial_order@,
            enable_options,
            use_actual_demand,
            demand@,
            spec_advice_models(advice@),
        ));
    }
    (ledger, state.total_profit)
}

/// Runs the season of eight periods with options disabled, and returns its
/// ledger and its profit. The order never changes.
pub fn run_season_without_options(
    params: &SimulationParams,
    pair: &SupplierPair,
    initial_order: &MonthlyOrder,
    use_actual_demand: bool,
    demand: &Vec<Vec<i64>>,
) -> (out: (Vec<MonthlyResult>, i128))
    requires
        params.wf(),
        initial_order.wf(),
    ensures
        spec_period_models(out.0@) == spec_ledger(
            *params,
            *pair,
            initial_order@,
            false,
            use_actual_demand,
            demand@,
            Seq::empty(),
        ),
        out.1 == spec_ledger_profit(spec_period_models(out.0@)),
        -SEASON_LIMIT <= out.1 <= SEASON_LIMIT,
{
    let no_advice: Vec<Option<RevisionAdvice>> = Vec::new();
    proof {
        assert(spec_advice_models(no_advice@) =~= Seq::<Option<AdviceModel>>::empty());
    }
    run_season_with_advice(params, pair, initial_order, false, use_actual_demand, demand, &no_advice)
}

/// The demand runs that the optimizer may use in period `period`; none where
/// `draws` is too short.
pub open spec fn spec_draws_of(draws: Seq<Vec<Vec<Vec<i64>>>>, period: int) -> Seq<Vec<Vec<i64>>> {
    if 0 <= period < draws.len() {
        draws[period]@
    } else {
        Seq::empty()
    }
}

/// The advice that the engine gives itself once a period has been settled.
/// Where the option is open, the valuer is asked about the order in effect, all
/// products together, and the periods from this one to the end of the season;
/// and where the value exceeds the revision fee, the optimizer is asked for the
/// allocation to move to.
pub open spec fn spec_advice_for(
    settled: SeasonModel,
    params: SimulationParams,
    pair: SupplierPair,
    enable_options: bool,
    lattice: LatticeInputs,
    demand_runs: Seq<Vec<Vec<i64>>>,
) -> Option<AdviceModel> {
    if settled.option_open(enable_options) {
        let value = spec_node_value(
            spec_economics(params, pair),
            spec_saturate(settled.order.total_base() + settled.order.total_surge()),
            TOTAL_MONTHS - settled.period,
            lattice,
            0,
            0,
        );
        Some(
            AdviceModel {
                option_value: value,
                target: if value > params.order_change_fee {
                    spec_optimal_quantities(params, pair, demand_runs)
                } else {
                    Seq::empty()
                },
            },
        )
    } else {
        None
    }
}

/// The advice that the engine gives itself in the first `periods` periods of a
/// season.
pub open spec fn spec_engine_advice(
    params: SimulationParams,
    pair: SupplierPair,
    initial: OrderModel,
    enable_options: bool,
    use_actual: bool,
    demand: Seq<Vec<i64>>,
    lattice: LatticeInputs,
    draws: Seq<Vec<Vec<Vec<i64>>>>,
    periods: nat,
) -> Seq<Option<AdviceModel>>
    decreases periods,
{
    if periods == 0 {
        Seq::empty()
    } else {
        let period = (periods - 1) as nat;
        let earlier = spec_engine_advice(
            params,
            pair,
            initial,
            enable_options,
            use_actual,
            demand,
            lattice,
            draws,
            period,
        );
        let settled = spec_state_after(
            params,
            pair,
            initial,
            enable_options,
            use_actual,
            demand,
            earlier,
            period,
        ).settled_state(params, pair, use_actual, spec_samples_of(demand, period as int));
        earlier.push(
            spec_advice_for(
                settled,
                params,
                pair,
                enable_options,
                lattice,
                spec_draws_of(draws, period as int),
            ),
        )
    }
}

/// The ledger of the season that the engine runs: every period is settled, and
/// closed on the advice that the engine gives itself.
pub open spec fn spec_engine_ledger(
    params: SimulationParams,
    pair: SupplierPair,
    initial: OrderModel,
    enable_options: bool,
    use_actual: bool,
    demand: Seq<Vec<i64>>,
    lattice: LatticeInputs,
    draws: Seq<Vec<Vec<Vec<i64>>>>,
) -> Seq<PeriodModel> {
    spec_ledger(
        params,
        pair,
        initial,
        enable_options,
        use_actual,
        demand,
        spec_engine_advice(
            params,
            pair,
            initial,
            enable_options,
            use_actual,
            demand,
            lattice,
            draws,
            TOTAL_MONTHS as nat,
        ),
    )
}

/// The state after some periods depends on the advice of those periods only.
pub proof fn lemma_state_depends_on_prefix(
    params: SimulationParams,
    pair: SupplierPair,
    initial: OrderModel,
    enable_options: bool,
    use_actual: bool,
    demand: Seq<Vec<i64>>,
    advice_a: Seq<Option<AdviceModel>>,
    advice_b: Seq<Option<AdviceModel>>,
    periods: nat,
)
    requires
        forall|t: int| 0 <= t < periods ==> spec_advice_of(advice_a, t) == spec_advice_of(advice_b, t),
    ensures
        spec_state_after(
            params,
            pair,
            initial,
            enable_options,
            use_actual,
            demand,
            advice_a,
            periods,
        ) == spec_state_after(
            params,
            pair,
            initial,
            enable_options,
            use_actual,
            demand,
            advice_b,
            periods,
        ),
    decreases periods,
{
    if periods > 0 {
        lemma_state_depends_on_prefix(
            params,
            pair,
            initial,
            enable_options,
            use_actual,
            demand,
            advice_a,
            advice_b,
            (periods - 1) as nat,
        );
        assert(spec_advice_of(advice_a, periods - 1) == spec_advice_of(advice_b, periods - 1));
    }
}

/// The engine's advice for more periods begins with its advice for fewer.
pub proof fn lemma_engine_advice_extends(
    params: SimulationParams,
    pair: SupplierPair,
    initial: OrderModel,
    enable_options: bool,
    use_actual: bool,
    demand: Seq<Vec<i64>>,
    lattice: LatticeInputs,
    draws: Seq<Vec<Vec<Vec<i64>>>>,
    fewer: nat,
    more: nat,
)
    requires
        fewer <= more,
    ensures
        spec_engine_advice(
            params,
            pair,
            initial,
            enable_options,
            use_actual,
            demand,
            lattice,
            draws,
            more,
        ).len() == more,
        forall|t: int|
            0 <= t < fewer ==> spec_engine_advice(
                params,
                pair,
                initial,
                enable_options,
                use_actual,
                demand,
                lattice,
                draws,
                more,
            )[t] == spec_engine_advice(
                params,
                pair,
                initial,
                enable_options,
                use_actual,
                demand,
                lattice,
                draws,
                fewer,
            )[t],
    decreases more,
{
    if more > 0 {
        lemma_engine_advice_extends(
            params,
            pair,
            initial,
            enable_options,
            use_actual,
            demand,
            lattice,
            draws,
            if fewer < more {
                fewer
            } else {
                (more - 1) as nat
            },
            (more - 1) as nat,
        );
    }
}

/// In every period, the advice that the engine closes the period on is the
/// advice that it gives itself on the state that it has settled.
pub proof fn lemma_engine_advice_at(
    params: SimulationParams,
    pair: SupplierPair,
    initial: OrderModel,
    enable_options: bool,
    use_actual: bool,
    demand: Seq<Vec<i64>>,
    lattice: LatticeInputs,
    draws: Seq<Vec<Vec<Vec<i64>>>>,
    period: nat,
)
    requires
        period < TOTAL_MONTHS,
    ensures
        ({
            let advice = spec_engine_advice(
                params,
                pair,
                initial,
                enable_options,
                use_actual,
                demand,
                lattice,
                draws,
                TOTAL_MONTHS as nat,
            );
            spec_advice_of(advice, period as int) == spec_advice_for(
                spec_state_after(
                    params,
                    pair,
                    initial,
                    enable_options,
                    use_actual,
                    demand,
                    advice,
                    period,
                ).settled_state(params, pair, use_actual, spec_samples_of(demand, period as int)),
                params,
                pair,
                enable_options,
                lattice,
                spec_draws_of(draws, period as int),
            )
        }),
{
    let full = spec_engine_advice(
        params,
        pair,
        initial,
        enable_options,
        use_actual,
        demand,
        lattice,
        draws,
        TOTAL_MONTHS as nat,
    );
    let upto = spec_engine_advice(
        params,
        pair,
        initial,
        enable_options,
        use_actual,
        demand,
        lattice,
        draws,
        period,
    );
    let next = spec_engine_advice(
        params,
        pair,
        initial,
        enable_options,
        use_actual,
        demand,
        lattice,
        draws,
        (period + 1) as nat,
    );
    lemma_engine_advice_extends(
        params,
        pair,
        initial,
        enable_options,
        use_actual,
        demand,
        lattice,
        draws,
        (period + 1) as nat,
        TOTAL_MONTHS as nat,
    );
    lemma_engine_advice_extends(
        params,
        pair,
        initial,
        enable_options,
        use_actual,
        demand,
        lattice,
        draws,
        period,
        TOTAL_MONTHS as nat,
    );
    lemma_engine_advice_extends(
        params,
        pair,
        initial,
        enable_options,
        use_actual,
        demand,
        lattice,
        draws,
        period,
        period,
    );
    assert(full[period as int] == next[period as int]);
    assert forall|t: int| 0 <= t < period implies spec_advice_of(full, t) == spec_advice_of(
        upto,
        t,
    ) by {
        assert(full[t] == upto[t]);
    }
    lemma_state_depends_on_prefix(
        params,
        pair,
        initial,
        enable_options,
        use_actual,
        demand,
        full,
        upto,
        period,
    );
}

/// With options disabled no advice is ever looked at: the season is the same
/// whatever advice is given.
pub proof fn lemma_options_disabled(
    params: SimulationParams,
    pair: SupplierPair,
    initial: OrderModel,
    use_actual: bool,
    demand: Seq<Vec<i64>>,
    advice_a: Seq<Option<AdviceModel>>,
    advice_b: Seq<Option<AdviceModel>>,
    periods: nat,
)
    ensures
        spec_state_after(params, pair, initial, false, use_actual, demand, advice_a, periods)
            == spec_state_after(
            params,
            pair,
            initial,
            false,
            use_actual,
            demand,
            advice_b,
            periods,
        ),
    decreases periods,
{
    if periods > 0 {
        lemma_options_disabled(
            params,
            pair,
            initial,
            use_actual,
            demand,
            advice_a,
            advice_b,
            (periods - 1) as nat,
        );
    }
}

/// With options disabled the engine runs the season in which the order never
/// changes.
pub proof fn lemma_engine_without_options(
    params: SimulationParams,
    pair: SupplierPair,
    initial: OrderModel,
    use_actual: bool,
    demand: Seq<Vec<i64>>,
    lattice: LatticeInputs,
    draws: Seq<Vec<Vec<Vec<i64>>>>,
)
    ensures
        spec_engine_ledger(params, pair, initial, false, use_actual, demand, lattice, draws)
            == spec_ledger(params, pair, initial, false, use_actual, demand, Seq::empty()),
{
    let advice = spec_engine_advice(
        params,
        pair,
        initial,
        false,
        use_actual,
        demand,
        lattice,
        draws,
        TOTAL_MONTHS as nat,
    );
    assert forall|period: int| 0 <= period < TOTAL_MONTHS implies spec_period_ledger(
        params,
        pair,
        initial,
        false,
        use_actual,
        demand,
        advice,
        period,
    ) == spec_period_ledger(
        params,
        pair,
        initial,
        false,
        use_actual,
        demand,
        Seq::empty(),
        period,
    ) by {
        lemma_options_disabled(
            params,
            pair,
            initial,
            use_actual,
            demand,
            advice,
            Seq::empty(),
            period as nat,
        );
    }
    assert(spec_engine_ledger(params, pair, initial, false, use_actual, demand, lattice, draws)
        =~= spec_ledger(params, pair, initial, false, use_actual, demand, Seq::empty()));
}

/// The advice to close a settled period on: where the option is open, the
/// value that the valuer gives it, and, where that exceeds the revision fee,
/// the allocation that the optimizer finds on `demand_runs`.
pub fn advise(
    state: &SeasonState,
    params: &SimulationParams,
    pair: &SupplierPair,
    enable_options: bool,
    lattice: &LatticeInputs,
    demand_runs: &Vec<Vec<Vec<i64>>>,
) -> (advice: Option<RevisionAdvice>)
    requires
        params.wf(),
        lattice.wf(),
        state.settled,
        state@.wf(*params, *pair),
    ensures
        spec_advice_model(advice) == spec_advice_for(
            state@,
            *params,
            *pair,
            enable_options,
            *lattice,
            demand_runs@,
        ),
{
    match state.option_query(enable_options) {
        Some(query) => {
            let valuation = OptionValuation::new(
                saturate(query.order_quantity as u128),
                saturate(query.inventory),
                query.period,
                economics_of(params, pair),
            );
            let option_value: i128 = valuation.value_option(lattice);
            let target: Vec<(usize, u32)> = if SeasonState::worth_exercising(option_value, params) {
                find_optimal_production_quantities(params, pair, demand_runs)
            } else {
                Vec::new()
            };
            Some(RevisionAdvice { option_value, target })
        },
        None => None,
    }
}

/// Run monthly simulation for May through December (8 months), with options
/// enabled and realized demand.
pub fn run_monthly_simulation(
    params: &SimulationParams,
    pair: &SupplierPair,
    initial_order: &MonthlyOrder,
    demand: &Vec<Vec<i64>>,
    lattice: &LatticeInputs,
    optimizer_draws: &Vec<Vec<Vec<Vec<i64>>>>,
) -> (out: (Vec<MonthlyResult>, i128))
    requires
        params.wf(),
        initial_order.wf(),
        lattice.wf(),
    ensures
        spec_period_models(out.0@) == spec_engine_ledger(
            *params,
            *pair,
            initial_order@,
            true,
            true,
            demand@,
            *lattice,
            optimizer_draws@,
        ),
        out.1 == spec_ledger_profit(spec_period_models(out.0@)),
        -SEASON_LIMIT <= out.1 <= SEASON_LIMIT,
{
    run_monthly_simulation_internal(
        params,
        pair,
        initial_order,
        true,
        true,
        demand,
        lattice,
        optimizer_draws,
    )
}

/// Internal monthly simulation with optional options valuation: runs the
/// season of eight periods and returns its ledger and its profit.
///
/// `demand[t]` holds the raw demand samples of period `t`, one per product in
/// the order of the product list; a missing sample counts as zero. With
/// `enable_options`, every period but the last in which no revision waits asks
/// the valuer, and where the option is worth more than the revision fee the
/// optimizer, which scores its candidates on the demand runs
/// `optimizer_draws[t]`.
pub fn run_monthly_simulation_internal(
    params: &SimulationParams,
    pair: &SupplierPair,
    initial_order: &MonthlyOrder,
    enable_options: bool,
    use_actual_demand: bool,
    demand: &Vec<Vec<i64>>,
    lattice: &LatticeInputs,
    optimizer_draws: &Vec<Vec<Vec<Vec<i64>>>>,
) -> (out: (Vec<MonthlyResult>, i128))
    requires
        params.wf(),
        initial_order.wf(),
        lattice.wf(),
    ensures
        spec_period_models(out.0@) == spec_engine_ledger(
            *params,
            *pair,
            initial_order@,
            enable_options,
            use_actual_demand,
            demand@,
            *lattice,
            optimizer_draws@,
        ),
        out.1 == spec_ledger_profit(spec_period_models(out.0@)),
        -SEASON_LIMIT <= out.1 <= SEASON_LIMIT,
{
    let ghost advice = spec_engine_advice(
        *params,
        *pair,
        initial_order@,
        enable_options,
        use_actual_demand,
        demand@,
        *lattice,
        optimizer_draws@,
        TOTAL_MONTHS as nat,
    );
    let mut state = SeasonState::new(params, pair, initial_order);
    let mut ledger: Vec<MonthlyResult> = Vec::new();
    let no_samples: Vec<i64> = Vec::new();
    let no_draws: Vec<Vec<Vec<i64>>> = Vec::new();
    let mut period: usize = 0;
    while period < TOTAL_MONTHS
        invariant
            period <= TOTAL_MONTHS,
            params.wf(),
            lattice.wf(),
            no_samples@ == Seq::<i64>::empty(),
            no_draws@ == Seq::<Vec<Vec<i64>>>::empty(),
            advice == spec_engine_advice(
                *params,
                *pair,
                initial_order@,
                enable_options,
                use_actual_demand,
                demand@,
                *lattice,
                optimizer_draws@,
                TOTAL_MONTHS as nat,
            ),
            state@ == spec_state_after(
                *params,
                *pair,
                initial_order@,
                enable_options,
                use_actual_demand,
                demand@,
                advice,
                period as nat,
            ),
            state@.wf(*params, *pair),
            !state.settled,
            state.period == period,
            ledger@.len() == period,
            forall|t: int|
                0 <= t < period ==> (#[trigger] ledger@[t])@ == spec_period_ledger(
                    *params,
                    *pair,
                    initial_order@,
                    enable_options,
                    use_actual_demand,
                    demand@,
                    advice,
                    t,
                ),
            state.total_profit == spec_ledger_profit(spec_period_models(ledger@)),
        decreases TOTAL_MONTHS - period,
    {
        let samples: &Vec<i64> = if period < demand.len() {
            &demand[period]
        } else {
            &no_samples
        };
        let demand_runs: &Vec<Vec<Vec<i64>>> = if period < optimizer_draws.len() {
            &optimizer_draws[period]
        } else {
            &no_draws
        };
        let result = state.settle_period(params, pair, use_actual_demand, samples);
        let period_advice = advise(&state, params, pair, enable_options, lattice, demand_runs);
        proof {
            lemma_engine_advice_at(
                *params,
                *pair,
                initial_order@,
                enable_options,
                use_actual_demand,
                demand@,
                *lattice,
                optimizer_draws@,
                period as nat,
            );
        }
        state.close_period(params, pair, enable_options, &period_advice);
        proof {
            assert(spec_period_models(ledger@.push(result)) =~= spec_period_models(ledger@).push(
                result@,
            ));
            assert(spec_period_models(ledger@).push(result@).drop_last() == spec_period_models(
                ledger@,
            ));
        }
        ledger.push(result);
        period += 1;
    }
    proof {
        assert(8 * PERIOD_LIMIT == SEASON_LIMIT);
        assert(spec_period_models(ledger@) =~= spec_ledger(
            *params,
            *pair,
            initial_order@,
            enable_options,
            use_actual_demand,
            demand@,
            advice,
        ));
    }
    (ledger, state.total_profit)
}

/// In every period and for every product, the units sold are at most what was
/// on hand after the delivery, and the inventory never ends below zero.
pub proof fn lemma_units_sold_within_stock(
    params: SimulationParams,
    pair: SupplierPair,
    initial: OrderModel,
    enable_options: bool,
    use_actual: bool,
    demand: Seq<Vec<i64>>,
    advice: Seq<Option<AdviceModel>>,
    period: int,
    product: int,
)
    requires
        0 <= period < TOTAL_MONTHS,
        0 <= product < params.products@.len(),
    ensures
        ({
            let row = spec_ledger(
                params,
                pair,
                initial,
                enable_options,
                use_actual,
                demand,
                advice,
            )[period].rows[product];
            &&& 0 <= row.inventory_end
            &&& 0 <= row.units_sold <= row.inventory_start + row.incoming
        }),
{
    let state = spec_state_after(
        params,
        pair,
        initial,
        enable_options,
        use_actual,
        demand,
        advice,
        period as nat,
    );
    let id = params.products@[product].id;
    let raw = spec_sample_at(spec_samples_of(demand, period), product);
    match params.spec_demand_params(id) {
        Some(dp) => {
            lemma_demand_in_range(dp, use_actual, raw);
        },
        None => {},
    }
    lemma_row_stock(
        params.products@[product],
        pair,
        state.order_in_effect(),
        state.inventories[product] as int,
        spec_demand_for_product(params, id, use_actual, raw),
        state.last_period(),
    );
}

/// Whether the base supplier shipped nothing in the first `periods` periods.
pub open spec fn spec_base_idle(ledger: Seq<PeriodModel>, periods: int) -> bool {
    forall|t: int| 0 <= t < periods ==> (#[trigger] ledger[t]).base_shipped == 0
}

/// Whether the surge supplier shipped nothing in the first `periods` periods.
pub open spec fn spec_surge_idle(ledger: Seq<PeriodModel>, periods: int) -> bool {
    forall|t: int| 0 <= t < periods ==> (#[trigger] ledger[t]).surge_shipped == 0
}

/// A supplier's setup cost counts as charged after `periods` periods exactly
/// when the supplier has shipped something in one of them.
pub proof fn lemma_setup_flags(
    params: SimulationParams,
    pair: SupplierPair,
    initial: OrderModel,
    enable_options: bool,
    use_actual: bool,
    demand: Seq<Vec<i64>>,
    advice: Seq<Option<AdviceModel>>,
    periods: nat,
)
    requires
        periods <= TOTAL_MONTHS,
    ensures
        ({
            let ledger = spec_ledger(
                params,
                pair,
                initial,
                enable_options,
                use_actual,
                demand,
                advice,
            );
            let state = spec_state_after(
                params,
                pair,
                initial,
                enable_options,
                use_actual,
                demand,
                advice,
                periods,
            );
            &&& state.base_setup_charged == !spec_base_idle(ledger, periods as int)
            &&& state.surge_setup_charged == !spec_surge_idle(ledger, periods as int)
        }),
    decreases periods,
{
    let ledger = spec_ledger(params, pair, initial, enable_options, use_actual, demand, advice);
    if periods > 0 {
        let earlier = (periods - 1) as nat;
        lemma_setup_flags(
            params,
            pair,
            initial,
            enable_options,
            use_actual,
            demand,
            advice,
            earlier,
        );
        let before = spec_state_after(
            params,
            pair,
            initial,
            enable_options,
            use_actual,
            demand,
            advice,
            earlier,
        );
        assert(ledger[earlier as int] == before.period_result(
            params,
            pair,
            use_actual,
            spec_samples_of(demand, earlier as int),
        ));
        assert(ledger[earlier as int].base_shipped >= 0) by {
            lemma_total_quantity_bounds(before.order_in_effect().base);
        }
        assert(ledger[earlier as int].surge_shipped >= 0) by {
            lemma_total_quantity_bounds(before.order_in_effect().surge);
        }
        if spec_base_idle(ledger, earlier as int) && ledger[earlier as int].base_shipped == 0 {
            assert(spec_base_idle(ledger, periods as int));
        }
        if spec_surge_idle(ledger, earlier as int) && ledger[earlier as int].surge_shipped == 0 {
            assert(spec_surge_idle(ledger, periods as int));
        }
    }
}

/// Each supplier's setup cost is charged exactly once per season, in the first
/// period in which it ships a nonzero quantity: a period charges a supplier
/// exactly when the supplier ships in it and has shipped nothing before, and
/// the period's setup cost is the sum of the setup costs so charged.
pub proof fn lemma_setup_charged_once(
    params: SimulationParams,
    pair: SupplierPair,
    initial: OrderModel,
    enable_options: bool,
    use_actual: bool,
    demand: Seq<Vec<i64>>,
    advice: Seq<Option<AdviceModel>>,
    period: int,
)
    requires
        0 <= period < TOTAL_MONTHS,
    ensures
        ({
            let ledger = spec_ledger(
                params,
                pair,
                initial,
                enable_options,
                use_actual,
                demand,
                advice,
            );
            let entry = ledger[period];
            &&& entry.base_setup_charged == (entry.base_shipped > 0 && spec_base_idle(
                ledger,
                period,
            ))
            &&& entry.surge_setup_charged == (entry.surge_shipped > 0 && spec_surge_idle(
                ledger,
                period,
            ))
            &&& entry.setup_cost == (if entry.base_setup_charged {
                pair.base_supplier.setup_cost as int
            } else {
                0
            }) + (if entry.surge_setup_charged {
                pair.surge_supplier.setup_cost as int
            } else {
                0
            })
        }),
{
    lemma_setup_flags(
        params,
        pair,
        initial,
        enable_options,
        use_actual,
        demand,
        advice,
        period as nat,
    );
}

/// What holds of a waiting revision: it takes effect one surge lead time after
/// the period in which it was decided, that period is among the first
/// `periods`, and the effective period is within the season.
pub open spec fn spec_pending_in_order(state: SeasonModel, pair: SupplierPair, periods: int) -> bool {
    match state.pending {
        Some(p) => {
            &&& 0 <= p.scheduled_in < periods
            &&& p.effective_period == p.scheduled_in + pair.surge_supplier.lead_time_months
            &&& p.effective_period <= TOTAL_MONTHS - 1
        },
        None => true,
    }
}

/// At most one revision waits at any time, which the state's type says; and
/// whenever one waits, its effective period is the period of the decision plus
/// the surge lead time and does not exceed the season's last period. This
/// holds between any two periods and also once a period has been settled.
pub proof fn lemma_pending_change_schedule(
    params: SimulationParams,
    pair: SupplierPair,
    initial: OrderModel,
    enable_options: bool,
    use_actual: bool,
    demand: Seq<Vec<i64>>,
    advice: Seq<Option<AdviceModel>>,
    periods: nat,
)
    ensures
        ({
            let state = spec_state_after(
                params,
                pair,
                initial,
                enable_options,
                use_actual,
                demand,
                advice,
                periods,
            );
            &&& state.period == periods
            &&& !state.settled
            &&& spec_pending_in_order(state, pair, periods as int)
            &&& spec_pending_in_order(
                state.settled_state(
                    params,
                    pair,
                    use_actual,
                    spec_samples_of(demand, periods as int),
                ),
                pair,
                periods as int,
            )
        }),
    decreases periods,
{
    if periods > 0 {
        lemma_pending_change_schedule(
            params,
            pair,
            initial,
            enable_options,
            use_actual,
            demand,
            advice,
            (periods - 1) as nat,
        );
    }
}

/// Whether the order in effect, and any revision that waits, stay within the
/// capacities of the two suppliers.
pub open spec fn spec_within_capacity(state: SeasonModel, pair: SupplierPair) -> bool {
    &&& state.order.total_base() <= pair.base_supplier.fixed_capacity
    &&& state.order.total_surge() <= pair.surge_supplier.fixed_capacity
    &&& match state.pending {
        Some(p) => p.plan.total_base() <= pair.base_supplier.fixed_capacity
            && p.plan.total_surge() <= pair.surge_supplier.fixed_capacity,
        None => true,
    }
}

/// A season that starts within the capacities of its suppliers stays within
/// them: no revision gives the surge supplier more than its capacity, and none
/// changes what the base supplier makes.
pub proof fn lemma_orders_within_capacity(
    params: SimulationParams,
    pair: SupplierPair,
    initial: OrderModel,
    enable_options: bool,
    use_actual: bool,
    demand: Seq<Vec<i64>>,
    advice: Seq<Option<AdviceModel>>,
    periods: nat,
)
    requires
        initial.total_base() <= pair.base_supplier.fixed_capacity,
        initial.total_surge() <= pair.surge_supplier.fixed_capacity,
    ensures
        spec_within_capacity(
            spec_state_after(
                params,
                pair,
                initial,
                enable_options,
                use_actual,
                demand,
                advice,
                periods,
            ),
            pair,
        ),
        spec_within_capacity(
            spec_state_after(
                params,
                pair,
                initial,
                enable_options,
                use_actual,
                demand,
                advice,
                periods,
            ).settled_state(params, pair, use_actual, spec_samples_of(demand, periods as int)),
            pair,
        ),
    decreases periods,
{
    if periods > 0 {
        let period = (periods - 1) as nat;
        lemma_orders_within_capacity(
            params,
            pair,
            initial,
            enable_options,
            use_actual,
            demand,
            advice,
            period,
        );
        let settled = spec_state_after(
            params,
            pair,
            initial,
            enable_options,
            use_actual,
            demand,
            advice,
            period,
        ).settled_state(params, pair, use_actual, spec_samples_of(demand, period as int));
        match spec_advice_of(advice, period as int) {
            Some(a) => {
                lemma_revised_surge_within_capacity(
                    a.target,
                    settled.order.base,
                    pair.surge_supplier.fixed_capacity,
                );
            },
            None => {},
        }
    }
}

/// In a season that starts within the capacities of its suppliers, no period
/// ships more from a supplier than its fixed capacity.
pub proof fn lemma_shipments_within_capacity(
    params: SimulationParams,
    pair: SupplierPair,
    initial: OrderModel,
    enable_options: bool,
    use_actual: bool,
    demand: Seq<Vec<i64>>,
    advice: Seq<Option<AdviceModel>>,
    period: int,
)
    requires
        initial.total_base() <= pair.base_supplier.fixed_capacity,
        initial.total_surge() <= pair.surge_supplier.fixed_capacity,
        0 <= period < TOTAL_MONTHS,
    ensures
        ({
            let entry = spec_ledger(
                params,
                pair,
                initial,
                enable_options,
                use_actual,
                demand,
                advice,
            )[period];
            &&& entry.base_shipped <= pair.base_supplier.fixed_capacity
            &&& entry.surge_shipped <= pair.surge_supplier.fixed_capacity
        }),
{
    lemma_orders_within_capacity(
        params,
        pair,
        initial,
        enable_options,
        use_actual,
        demand,
        advice,
        period as nat,
    );
}

/// The part of `total_quantity` that the base supplier would ideally make: the
/// share `1 / (1 + cv)`, rounded down, where `cv` is the product's planning
/// standard deviation over its planning mean. A product without demand
/// parameters counts with `cv = 0.2`; one with mean zero gets no base share.
pub open spec fn spec_ideal_base(params: SimulationParams, product_id: usize, total_quantity: u32) -> int {
    match params.spec_demand_params(product_id) {
        Some(dp) => if dp.mean_demand == 0 {
            0
        } else {
            total_quantity * dp.mean_demand / (dp.mean_demand + dp.std_dev_demand)
        },
        None => total_quantity * 5 / 6,
    }
}

/// The smaller of two numbers.
pub open spec fn spec_min(a: int, b: int) -> int {
    if a <= b {
        a
    } else {
        b
    }
}

/// Base capacity left once the first `count` entries have been split.
pub open spec fn spec_base_left(
    quantities: Seq<(usize, u32)>,
    params: SimulationParams,
    base_capacity: u32,
    count: int,
) -> int
    decreases count,
{
    if count <= 0 {
        base_capacity as int
    } else {
        let left = spec_base_left(quantities, params, base_capacity, count - 1);
        left - spec_min(
            spec_ideal_base(params, quantities[count - 1].0, quantities[count - 1].1),
            left,
        )
    }
}

/// What the base supplier gets of entry `index`: its ideal share, as far as
/// the base capacity that the earlier entries left reaches.
pub open spec fn spec_base_share(
    quantities: Seq<(usize, u32)>,
    params: SimulationParams,
    base_capacity: u32,
    index: int,
) -> int {
    spec_min(
        spec_ideal_base(params, quantities[index].0, quantities[index].1),
        spec_base_left(quantities, params, base_capacity, index),
    )
}

/// Surge capacity left once the first `count` entries have been split.
pub open spec fn spec_surge_left(
    quantities: Seq<(usize, u32)>,
    params: SimulationParams,
    base_capacity: u32,
    surge_capacity: u32,
    count: int,
) -> int
    decreases count,
{
    if count <= 0 {
        surge_capacity as int
    } else {
        let left = spec_surge_left(quantities, params, base_capacity, surge_capacity, count - 1);
        left - spec_min(
            quantities[count - 1].1 - spec_base_share(
                quantities,
                params,
                base_capacity,
                count - 1,
            ),
            left,
        )
    }
}

/// What the surge supplier gets of entry `index`: what the base supplier does
/// not make, as far as the surge capacity that the earlier entries left
/// reaches.
pub open spec fn spec_surge_share(
    quantities: Seq<(usize, u32)>,
    params: SimulationParams,
    base_capacity: u32,
    surge_capacity: u32,
    index: int,
) -> int {
    spec_min(
        quantities[index].1 - spec_base_share(quantities, params, base_capacity, index),
        spec_surge_left(quantities, params, base_capacity, surge_capacity, index),
    )
}

/// What a single product's base line gets back when the surge supplier could
/// not take all that the base supplier left: the shortfall, as far as base
/// capacity is left.
pub open spec fn spec_reallocated(
    quantities: Seq<(usize, u32)>,
    params: SimulationParams,
    base_capacity: u32,
    surge_capacity: u32,
) -> int {
    let base = spec_base_share(quantities, params, base_capacity, 0);
    let surge = spec_surge_share(quantities, params, base_capacity, surge_capacity, 0);
    spec_min(quantities[0].1 - base - surge, base_capacity - base)
}

/// The base lines of the split: one per entry, in the same order. A single
/// product also gets back what `spec_reallocated` says.
pub open spec fn spec_split_base(
    quantities: Seq<(usize, u32)>,
    params: SimulationParams,
    base_capacity: u32,
    surge_capacity: u32,
) -> Seq<ProductOrder> {
    Seq::new(
        quantities.len(),
        |i: int|
            ProductOrder {
                product_id: quantities[i].0,
                quantity: if quantities.len() == 1 {
                    (spec_base_share(quantities, params, base_capacity, i) + spec_reallocated(
                        quantities,
                        params,
                        base_capacity,
                        surge_capacity,
                    )) as u32
                } else {
                    spec_base_share(quantities, params, base_capacity, i) as u32
                },
            },
    )
}

/// The surge lines of the split: one per entry, in the same order.
pub open spec fn spec_split_surge(
    quantities: Seq<(usize, u32)>,
    params: SimulationParams,
    base_capacity: u32,
    surge_capacity: u32,
) -> Seq<ProductOrder> {
    Seq::new(
        quantities.len(),
        |i: int|
            ProductOrder {
                product_id: quantities[i].0,
                quantity: spec_surge_share(
                    quantities,
                    params,
                    base_capacity,
                    surge_capacity,
                    i,
                ) as u32,
            },
    )
}

/// The ideal base share is between zero and the whole quantity.
pub proof fn lemma_ideal_base_bounds(params: SimulationParams, product_id: usize, total_quantity: u32)
    ensures
        0 <= spec_ideal_base(params, product_id, total_quantity) <= total_quantity,
{
    match params.spec_demand_params(product_id) {
        Some(dp) => {
            if dp.mean_demand != 0 {
                let numerator = total_quantity * dp.mean_demand;
                let denominator = dp.mean_demand + dp.std_dev_demand;
                assert(0 <= numerator <= total_quantity * denominator) by (nonlinear_arith)
                    requires
                        numerator == total_quantity * dp.mean_demand,
                        denominator == dp.mean_demand + dp.std_dev_demand,
                        0 <= total_quantity,
                        0 <= dp.mean_demand,
                        0 <= dp.std_dev_demand,
                ;
                vstd::arithmetic::div_mod::lemma_div_pos_is_pos(numerator, denominator);
                vstd::arithmetic::div_mod::lemma_div_is_ordered(
                    numerator,
                    total_quantity * denominator,
                    denominator,
                );
                vstd::arithmetic::div_mod::lemma_div_multiples_vanish(
                    total_quantity as int,
                    denominator,
                );
            }
        },
        None => {},
    }
}

/// Every share is between zero and the capacity left, and what is left of each
/// capacity is never negative.
pub proof fn lemma_shares_bounds(
    quantities: Seq<(usize, u32)>,
    params: SimulationParams,
    base_capacity: u32,
    surge_capacity: u32,
    index: int,
)
    requires
        0 <= index < quantities.len(),
    ensures
        0 <= spec_base_share(quantities, params, base_capacity, index) <= spec_base_left(
            quantities,
            params,
            base_capacity,
            index,
        ) <= base_capacity,
        spec_base_share(quantities, params, base_capacity, index) <= quantities[index].1,
        0 <= spec_surge_share(quantities, params, base_capacity, surge_capacity, index)
            <= spec_surge_left(quantities, params, base_capacity, surge_capacity, index)
            <= surge_capacity,
        spec_base_share(quantities, params, base_capacity, index) + spec_surge_share(
            quantities,
            params,
            base_capacity,
            surge_capacity,
            index,
        ) <= quantities[index].1,
    decreases index,
{
    lemma_ideal_base_bounds(params, quantities[index].0, quantities[index].1);
    if index > 0 {
        lemma_shares_bounds(quantities, params, base_capacity, surge_capacity, index - 1);
    }
}

/// Split order quantity between base and surge suppliers for multiple products.
///
/// The entries are taken in order and each supplier's capacity is used up as
/// they go: the base supplier gets the entry's ideal share as far as its
/// capacity reaches, the surge supplier the rest as far as its own reaches, and
/// what neither can take is dropped. A single product gets one more pass: what
/// the surge supplier could not take goes back to the base supplier, as far as
/// base capacity is left. Neither supplier is ever given more than its fixed
/// capacity.
pub fn split_order_quantities(
    product_quantities: &[(usize, u32)],
    pair: &SupplierPair,
    params: &SimulationParams,
) -> (order: MonthlyOrder)
    ensures
        order.base_orders@ == spec_split_base(
            product_quantities@,
            *params,
            pair.base_supplier.fixed_capacity,
            pair.surge_supplier.fixed_capacity,
        ),
        order.surge_orders@ == spec_split_surge(
            product_quantities@,
            *params,
            pair.base_supplier.fixed_capacity,
            pair.surge_supplier.fixed_capacity,
        ),
        order.spec_total_base() <= pair.base_supplier.fixed_capacity,
        order.spec_total_surge() <= pair.surge_supplier.fixed_capacity,
        order.wf(),
{
    let base_capacity: u32 = pair.base_supplier.fixed_capacity;
    let surge_capacity: u32 = pair.surge_supplier.fixed_capacity;
    let single: bool = product_quantities.len() == 1;
    let mut base_orders: Vec<ProductOrder> = Vec::new();
    let mut surge_orders: Vec<ProductOrder> = Vec::new();
    let mut base_capacity_remaining: u32 = base_capacity;
    let mut surge_capacity_remaining: u32 = surge_capacity;
    let mut i: usize = 0;
    while i < product_quantities.len()
        invariant
            i <= product_quantities@.len(),
            single == (product_quantities@.len() == 1),
            base_capacity == pair.base_supplier.fixed_capacity,
            surge_capacity == pair.surge_supplier.fixed_capacity,
            base_orders@.len() == i,
            surge_orders@.len() == i,
            forall|j: int|
                0 <= j < i ==> (#[trigger] base_orders@[j]) == spec_split_base(
                    product_quantities@,
                    *params,
                    base_capacity,
                    surge_capacity,
                )[j],
            forall|j: int|
                0 <= j < i ==> (#[trigger] surge_orders@[j]) == spec_split_surge(
                    product_quantities@,
                    *params,
                    base_capacity,
                    surge_capacity,
                )[j],
            single ==> spec_total_quantity(base_orders@) <= base_capacity,
            single && i == 0 ==> base_capacity_remaining == base_capacity,
            !single ==> base_capacity_remaining == spec_base_left(
                product_quantities@,
                *params,
                base_capacity,
                i as int,
            ),
            !single ==> spec_total_quantity(base_orders@) + base_capacity_remaining
                == base_capacity,
            surge_capacity_remaining == spec_surge_left(
                product_quantities@,
                *params,
                base_capacity,
                surge_capacity,
                i as int,
            ),
            spec_total_quantity(surge_orders@) + surge_capacity_remaining == surge_capacity,
        decreases product_quantities@.len() - i,
    {
        let entry = product_quantities[i];
        let product_id: usize = entry.0;
        let total_quantity: u32 = entry.1;
        proof {
            lemma_shares_bounds(
                product_quantities@,
                *params,
                base_capacity,
                surge_capacity,
                i as int,
            );
        }
        let ideal_base: u32 = ideal_base_quantity(params, product_id, total_quantity);
        let mut base_quantity: u32 = if ideal_base <= base_capacity_remaining {
            ideal_base
        } else {
            base_capacity_remaining
        };
        let remaining: u32 = total_quantity - base_quantity;
        let surge_quantity: u32 = if remaining <= surge_capacity_remaining {
            remaining
        } else {
            surge_capacity_remaining
        };
        base_capacity_remaining = base_capacity_remaining - base_quantity;
        surge_capacity_remaining = surge_capacity_remaining - surge_quantity;
        if single {
            let shortfall: u32 = remaining - surge_quantity;
            let extra: u32 = if shortfall <= base_capacity_remaining {
                shortfall
            } else {
                base_capacity_remaining
            };
            base_quantity = base_quantity + extra;
            base_capacity_remaining = base_capacity_remaining - extra;
        }
        proof {
            lemma_total_push(base_orders@, ProductOrder { product_id, quantity: base_quantity });
            lemma_total_push(surge_orders@, ProductOrder { product_id, quantity: surge_quantity });
        }
        base_orders.push(ProductOrder { product_id, quantity: base_quantity });
        surge_orders.push(ProductOrder { product_id, quantity: surge_quantity });
        i += 1;
    }
    proof {
        assert(base_orders@ =~= spec_split_base(
            product_quantities@,
            *params,
            base_capacity,
            surge_capacity,
        ));
        assert(surge_orders@ =~= spec_split_surge(
            product_quantities@,
            *params,
            base_capacity,
            surge_capacity,
        ));
    }
    MonthlyOrder { base_orders, surge_orders }
}

/// The part of `total_quantity` that the base supplier would ideally make.
pub fn ideal_base_quantity(params: &SimulationParams, product_id: usize, total_quantity: u32) -> (ideal:
    u32)
    ensures
        ideal == spec_ideal_base(*params, product_id, total_quantity),
        ideal <= total_quantity,
{
    proof {
        lemma_ideal_base_bounds(*params, product_id, total_quantity);
    }
    let wide: u64 = total_quantity as u64;
    match params.get_demand_params(product_id) {
        Some(dp) => {
            if dp.mean_demand == 0 {
                0
            } else {
                let mean: u64 = dp.mean_demand as u64;
                let spread: u64 = dp.std_dev_demand as u64;
                assert(wide * mean <= 0xFFFF_FFFF * 0xFFFF_FFFF) by (nonlinear_arith)
                    requires
                        wide <= 0xFFFF_FFFF,
                        mean <= 0xFFFF_FFFF,
                ;
                (wide * mean / (mean + spread)) as u32
            }
        },
        None => (wide * 5 / 6) as u32,
    }
}

} // verus!
