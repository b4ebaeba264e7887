//! Search for the order quantities that earn the highest mean profit.
//!
//! A candidate plan is scored by running the season on demand samples that the
//! caller has drawn, with options disabled and planning demand. The samples
//! come as one list of runs, and every candidate has its own stretch of it, so
//! the search is a function of its arguments.

use vstd::prelude::*;
use crate::ledger::{OrderModel, SEASON_LIMIT};
use crate::models::{
    spec_total_quantity, MonthlyOrder, ProductOrder, SimulationParams, SupplierPair,
};
use crate::monte_carlo::spec_run_demand;
use crate::simulation::{run_season_without_options, spec_season_profit};
use crate::statistics::floor_div;

verus! {

/// Number of candidate quantities tried for a single product.
pub const CANDIDATE_COUNT: usize = 12;

/// Number of scoring runs per candidate of a single product.
pub const CANDIDATE_RUNS: usize = 15;

/// Number of points per product in the coarse grid.
pub const COARSE_POINTS: usize = 6;

/// Number of scoring runs per cell of the coarse grid.
pub const COARSE_RUNS: usize = 30;

/// Number of points per product in the fine grid.
pub const FINE_POINTS: usize = 5;

/// Number of scoring runs per cell of the fine grid.
pub const FINE_RUNS: usize = 50;

/// The run at which the fine grid's stretch of the demand samples starts.
pub const FINE_FIRST_RUN: usize = 1080;

/// Number of runs of demand samples that the search for a single product uses.
pub const SINGLE_PRODUCT_DRAWS: usize = 180;

/// Number of runs of demand samples that the search for two products uses.
pub const TWO_PRODUCT_DRAWS: usize = 2330;

/// Largest number of runs that one score can be taken over.
pub const MAX_SCORING_RUNS: usize = 64;

/// The profit that a plan earned in a number of runs together.
#[derive(Clone, Copy, Debug)]
pub struct Score {
    pub total: i128,
    pub runs: usize,
}

/// A score as plain numbers.
pub struct ScoreModel {
    pub total: int,
    pub runs: int,
}

impl View for Score {
    type V = ScoreModel;

    open spec fn view(&self) -> ScoreModel {
        ScoreModel { total: self.total as int, runs: self.runs as int }
    }
}

/// The view of a score that may be missing.
pub open spec fn spec_score_model(score: Option<Score>) -> Option<ScoreModel> {
    match score {
        Some(s) => Some(s@),
        None => None,
    }
}

/// Whether the mean profit of `a` is strictly higher than that of `b`.
pub open spec fn spec_exceeds(a: ScoreModel, b: ScoreModel) -> bool {
    a.total * b.runs > b.total * a.runs
}

/// Whether a candidate with the total `total` over `runs` runs replaces the
/// best so far: there is none yet, or the candidate's mean profit is strictly
/// higher.
pub open spec fn spec_replaces(total: int, runs: int, best: Option<ScoreModel>) -> bool {
    match best {
        Some(b) => spec_exceeds(ScoreModel { total, runs }, b),
        None => true,
    }
}

/// The score that stands once the candidates `cells` have been tried in order
/// against `incumbent`. A missing cell is a candidate that was not feasible.
pub open spec fn spec_standing(cells: Seq<Option<int>>, runs: int, incumbent: Option<ScoreModel>) -> Option<
    ScoreModel,
>
    decreases cells.len(),
{
    if cells.len() == 0 {
        incumbent
    } else {
        let before = spec_standing(cells.drop_last(), runs, incumbent);
        match cells.last() {
            Some(total) => if spec_replaces(total, runs, before) {
                Some(ScoreModel { total, runs })
            } else {
                before
            },
            None => before,
        }
    }
}

/// The candidate that is picked once the candidates `cells` have been tried in
/// order against `incumbent`: each feasible candidate replaces the best so far
/// exactly when its mean profit is strictly higher. None is picked where the
/// incumbent stands.
pub open spec fn spec_pick(cells: Seq<Option<int>>, runs: int, incumbent: Option<ScoreModel>) -> Option<
    int,
>
    decreases cells.len(),
{
    if cells.len() == 0 {
        None
    } else {
        let front = cells.drop_last();
        match cells.last() {
            Some(total) => if spec_replaces(total, runs, spec_standing(front, runs, incumbent)) {
                Some(cells.len() - 1)
            } else {
                spec_pick(front, runs, incumbent)
            },
            None => spec_pick(front, runs, incumbent),
        }
    }
}

/// The candidate that is picked is feasible and its score is the one that
/// stands; where none is picked, the incumbent stands.
pub proof fn lemma_pick_stands(cells: Seq<Option<int>>, runs: int, incumbent: Option<ScoreModel>)
    ensures
        match spec_pick(cells, runs, incumbent) {
            Some(k) => {
                &&& 0 <= k < cells.len()
                &&& cells[k].is_some()
                &&& spec_standing(cells, runs, incumbent) == Some(
                    ScoreModel { total: cells[k].unwrap(), runs },
                )
            },
            None => spec_standing(cells, runs, incumbent) == incumbent,
        },
    decreases cells.len(),
{
    if cells.len() > 0 {
        let front = cells.drop_last();
        lemma_pick_stands(front, runs, incumbent);
        match spec_pick(front, runs, incumbent) {
            Some(k) => {
                assert(front[k] == cells[k]);
            },
            None => {},
        }
    }
}

/// No candidate has a strictly higher mean profit than the score that stands,
/// and the incumbent has none either.
pub proof fn lemma_standing_is_best(
    cells: Seq<Option<int>>,
    runs: int,
    incumbent: Option<ScoreModel>,
    k: int,
)
    requires
        runs > 0,
        incumbent.is_some() ==> incumbent.unwrap().runs > 0,
        0 <= k < cells.len(),
        cells[k].is_some(),
    ensures
        spec_standing(cells, runs, incumbent).is_some(),
        !spec_exceeds(
            ScoreModel { total: cells[k].unwrap(), runs },
            spec_standing(cells, runs, incumbent).unwrap(),
        ),
    decreases cells.len(),
{
    let front = cells.drop_last();
    let before = spec_standing(front, runs, incumbent);
    lemma_standing_runs(front, runs, incumbent);
    if k < cells.len() - 1 {
        assert(front[k] == cells[k]);
        lemma_standing_is_best(front, runs, incumbent, k);
        match cells.last() {
            Some(total) => {
                if spec_replaces(total, runs, before) {
                    let b = before.unwrap();
                    let c = cells[k].unwrap();
                    assert(!(c * runs > total * runs)) by (nonlinear_arith)
                        requires
                            runs > 0,
                            b.runs > 0,
                            !(c * b.runs > b.total * runs),
                            total * b.runs > b.total * runs,
                    ;
                }
            },
            None => {},
        }
    } else {
        let total = cells[k].unwrap();
        if !spec_replaces(total, runs, before) {
        }
    }
}

/// A score that stands was taken over a positive number of runs.
pub proof fn lemma_standing_runs(cells: Seq<Option<int>>, runs: int, incumbent: Option<ScoreModel>)
    requires
        runs > 0,
        incumbent.is_some() ==> incumbent.unwrap().runs > 0,
    ensures
        spec_standing(cells, runs, incumbent).is_some() ==> spec_standing(
            cells,
            runs,
            incumbent,
        ).unwrap().runs > 0,
    decreases cells.len(),
{
    if cells.len() > 0 {
        lemma_standing_runs(cells.drop_last(), runs, incumbent);
    }
}

/// The candidate that is picked has the highest mean profit of all feasible
/// candidates, and is the first to have it: no candidate exceeds it, and it
/// exceeds every feasible candidate before it.
pub proof fn lemma_pick_is_first_best(cells: Seq<Option<int>>, runs: int, k: int)
    requires
        runs > 0,
        0 <= k < cells.len(),
        cells[k].is_some(),
    ensures
        spec_pick(cells, runs, None).is_some(),
        cells[spec_pick(cells, runs, None).unwrap()].unwrap() >= cells[k].unwrap(),
        k < spec_pick(cells, runs, None).unwrap() ==> cells[spec_pick(
            cells,
            runs,
            None,
        ).unwrap()].unwrap() > cells[k].unwrap(),
    decreases cells.len(),
{
    let front = cells.drop_last();
    let none: Option<ScoreModel> = None;
    lemma_pick_stands(cells, runs, none);
    lemma_pick_stands(front, runs, none);
    lemma_standing_is_best(cells, runs, none, k);
    let picked = spec_pick(cells, runs, none).unwrap();
    let best = cells[picked].unwrap();
    let c = cells[k].unwrap();
    assert(best >= c) by (nonlinear_arith)
        requires
            runs > 0,
            !(c * runs > best * runs),
    ;
    if k < picked {
        if picked == cells.len() - 1 {
            assert(front[k] == cells[k]);
            lemma_standing_is_best(front, runs, none, k);
            lemma_standing_runs(front, runs, none);
            let before = spec_standing(front, runs, none).unwrap();
            assert(best > c) by (nonlinear_arith)
                requires
                    runs > 0,
                    before.runs > 0,
                    best * before.runs > before.total * runs,
                    !(c * before.runs > before.total * runs),
            ;
        } else {
            assert(front[k] == cells[k]);
            lemma_pick_is_first_best(front, runs, k);
            assert(front[picked] == cells[picked]);
        }
    }
}

/// A score with a strictly higher mean than a second, which has at least the
/// mean of a third, has a strictly higher mean than the third.
pub proof fn lemma_exceeds_carries(a: ScoreModel, b: ScoreModel, c: ScoreModel)
    requires
        a.runs > 0,
        b.runs > 0,
        c.runs > 0,
        spec_exceeds(a, b),
        !spec_exceeds(c, b),
    ensures
        spec_exceeds(a, c),
{
    assert(a.total * b.runs * c.runs > b.total * a.runs * c.runs) by (nonlinear_arith)
        requires
            a.total * b.runs > b.total * a.runs,
            c.runs > 0,
    ;
    assert(c.total * b.runs * a.runs <= b.total * c.runs * a.runs) by (nonlinear_arith)
        requires
            c.total * b.runs <= b.total * c.runs,
            a.runs > 0,
    ;
    assert(a.total * c.runs > c.total * a.runs) by (nonlinear_arith)
        requires
            a.total * b.runs * c.runs > b.total * a.runs * c.runs,
            c.total * b.runs * a.runs <= b.total * c.runs * a.runs,
            b.runs > 0,
    ;
}

/// The incumbent never has a strictly higher mean than the score that stands;
/// and where a candidate was picked, the score that stands has a strictly
/// higher mean than the incumbent.
pub proof fn lemma_standing_beats_incumbent(
    cells: Seq<Option<int>>,
    runs: int,
    incumbent: ScoreModel,
)
    requires
        runs > 0,
        incumbent.runs > 0,
    ensures
        spec_standing(cells, runs, Some(incumbent)).is_some(),
        !spec_exceeds(incumbent, spec_standing(cells, runs, Some(incumbent)).unwrap()),
        spec_pick(cells, runs, Some(incumbent)).is_some() ==> spec_exceeds(
            spec_standing(cells, runs, Some(incumbent)).unwrap(),
            incumbent,
        ),
    decreases cells.len(),
{
    if cells.len() > 0 {
        let front = cells.drop_last();
        lemma_standing_beats_incumbent(front, runs, incumbent);
        lemma_standing_runs(front, runs, Some(incumbent));
        let before = spec_standing(front, runs, Some(incumbent)).unwrap();
        match cells.last() {
            Some(total) => {
                let candidate = ScoreModel { total, runs };
                if spec_exceeds(candidate, before) {
                    lemma_exceeds_carries(candidate, before, incumbent);
                    assert(!spec_exceeds(incumbent, candidate)) by (nonlinear_arith)
                        requires
                            candidate.total * incumbent.runs > incumbent.total * candidate.runs,
                    ;
                }
            },
            None => {},
        }
    }
}

/// What a search adopts against an incumbent. Where a candidate is picked, it
/// is feasible, its mean profit is strictly higher than the incumbent's, and
/// no feasible candidate has a strictly higher one. Where none is picked, no
/// feasible candidate has a strictly higher mean profit than the incumbent.
pub proof fn lemma_pick_against_incumbent(
    cells: Seq<Option<int>>,
    runs: int,
    incumbent: ScoreModel,
    k: int,
)
    requires
        runs > 0,
        incumbent.runs > 0,
        0 <= k < cells.len(),
        cells[k].is_some(),
    ensures
        match spec_pick(cells, runs, Some(incumbent)) {
            Some(picked) => {
                &&& 0 <= picked < cells.len()
                &&& cells[picked].is_some()
                &&& spec_exceeds(ScoreModel { total: cells[picked].unwrap(), runs }, incumbent)
                &&& cells[picked].unwrap() >= cells[k].unwrap()
            },
            None => !spec_exceeds(ScoreModel { total: cells[k].unwrap(), runs }, incumbent),
        },
{
    lemma_pick_stands(cells, runs, Some(incumbent));
    lemma_standing_is_best(cells, runs, Some(incumbent), k);
    lemma_standing_beats_incumbent(cells, runs, incumbent);
    match spec_pick(cells, runs, Some(incumbent)) {
        Some(picked) => {
            let best = cells[picked].unwrap();
            let c = cells[k].unwrap();
            assert(best >= c) by (nonlinear_arith)
                requires
                    runs > 0,
                    !(c * runs > best * runs),
            ;
        },
        None => {},
    }
}

/// A quantity scaled by `numerator / denominator`, rounded down, as far as the
/// quantity type reaches.
pub open spec fn spec_scaled(quantity: u32, numerator: int, denominator: int) -> int {
    if quantity * numerator / denominator > u32::MAX {
        u32::MAX as int
    } else {
        quantity * numerator / denominator
    }
}

/// The plan that a candidate is scored with: the base supplier makes every
/// quantity, the surge supplier nothing.
pub open spec fn spec_scoring_order(quantities: Seq<(usize, u32)>) -> OrderModel {
    OrderModel {
        base: Seq::new(
            quantities.len(),
            |i: int| ProductOrder { product_id: quantities[i].0, quantity: quantities[i].1 },
        ),
        surge: Seq::new(
            quantities.len(),
            |i: int| ProductOrder { product_id: quantities[i].0, quantity: 0 },
        ),
    }
}

/// The profit that the plan `order` earns in the `count` runs that start at
/// `first`, all together, with options disabled and planning demand.
pub open spec fn spec_plan_total(
    params: SimulationParams,
    pair: SupplierPair,
    order: OrderModel,
    demand_runs: Seq<Vec<Vec<i64>>>,
    first: int,
    count: nat,
) -> int
    decreases count,
{
    if count == 0 {
        0
    } else {
        spec_plan_total(params, pair, order, demand_runs, first, (count - 1) as nat)
            + spec_season_profit(
            params,
            pair,
            order,
            false,
            false,
            spec_run_demand(demand_runs, first + count - 1),
            Seq::empty(),
        )
    }
}

/// The total of lines of quantity zero is zero.
pub proof fn lemma_zero_lines_total(lines: Seq<ProductOrder>)
    requires
        forall|i: int| 0 <= i < lines.len() ==> (#[trigger] lines[i]).quantity == 0,
    ensures
        spec_total_quantity(lines) == 0,
    decreases lines.len(),
{
    if lines.len() > 0 {
        let front = lines.drop_last();
        assert forall|i: int| 0 <= i < front.len() implies (#[trigger] front[i]).quantity == 0 by {
            assert(front[i] == lines[i]);
        }
        lemma_zero_lines_total(front);
    }
}

/// Whether the mean profit of `a` is strictly higher than that of `b`.
pub fn mean_exceeds(a: Score, b: Score) -> (higher: bool)
    requires
        1 <= a.runs <= MAX_SCORING_RUNS,
        1 <= b.runs <= MAX_SCORING_RUNS,
        -MAX_SCORING_RUNS * SEASON_LIMIT <= a.total <= MAX_SCORING_RUNS * SEASON_LIMIT,
        -MAX_SCORING_RUNS * SEASON_LIMIT <= b.total <= MAX_SCORING_RUNS * SEASON_LIMIT,
    ensures
        higher == spec_exceeds(a@, b@),
{
    let a_whole: i128 = floor_div(a.total, a.runs as u128);
    let b_whole: i128 = floor_div(b.total, b.runs as u128);
    proof {
        vstd::arithmetic::div_mod::lemma_fundamental_div_mod(a.total as int, a.runs as int);
        vstd::arithmetic::div_mod::lemma_fundamental_div_mod(b.total as int, b.runs as int);
        vstd::arithmetic::div_mod::lemma_mod_bound(a.total as int, a.runs as int);
        vstd::arithmetic::div_mod::lemma_mod_bound(b.total as int, b.runs as int);
    }
    let ghost a_rest: int = a.total as int % a.runs as int;
    let ghost b_rest: int = b.total as int % b.runs as int;
    if a_whole != b_whole {
        proof {
            if a_whole > b_whole {
                assert(a.total * b.runs > b.total * a.runs) by (nonlinear_arith)
                    requires
                        a.total == a.runs * a_whole + a_rest,
                        b.total == b.runs * b_whole + b_rest,
                        0 <= a_rest < a.runs,
                        0 <= b_rest < b.runs,
                        a_whole >= b_whole + 1,
                ;
            } else {
                assert(a.total * b.runs <= b.total * a.runs) by (nonlinear_arith)
                    requires
                        a.total == a.runs * a_whole + a_rest,
                        b.total == b.runs * b_whole + b_rest,
                        0 <= a_rest < a.runs,
                        0 <= b_rest < b.runs,
                        b_whole >= a_whole + 1,
                ;
            }
        }
        a_whole > b_whole
    } else {
        proof {
            assert(a.runs * a_whole <= a.total) by (nonlinear_arith)
                requires
                    a.total == a.runs * a_whole + a_rest,
                    0 <= a_rest,
            ;
            assert(b.runs * b_whole <= b.total) by (nonlinear_arith)
                requires
                    b.total == b.runs * b_whole + b_rest,
                    0 <= b_rest,
            ;
            assert(-MAX_SCORING_RUNS * SEASON_LIMIT - 64 <= a.runs * a_whole) by (nonlinear_arith)
                requires
                    a.total == a.runs * a_whole + a_rest,
                    a_rest < a.runs,
                    a.runs <= 64,
                    -MAX_SCORING_RUNS * SEASON_LIMIT <= a.total,
            ;
            assert(-MAX_SCORING_RUNS * SEASON_LIMIT - 64 <= b.runs * b_whole) by (nonlinear_arith)
                requires
                    b.total == b.runs * b_whole + b_rest,
                    b_rest < b.runs,
                    b.runs <= 64,
                    -MAX_SCORING_RUNS * SEASON_LIMIT <= b.total,
            ;
        }
        let a_rest_exec: i128 = a.total - (a.runs as i128) * a_whole;
        let b_rest_exec: i128 = b.total - (b.runs as i128) * b_whole;
        proof {
            assert(a_rest_exec == a_rest);
            assert(b_rest_exec == b_rest);
            assert(0 <= a_rest_exec * b.runs <= 64 * 64) by (nonlinear_arith)
                requires
                    0 <= a_rest_exec < 64,
                    0 <= b.runs <= 64,
            ;
            assert(0 <= b_rest_exec * a.runs <= 64 * 64) by (nonlinear_arith)
                requires
                    0 <= b_rest_exec < 64,
                    0 <= a.runs <= 64,
            ;
            assert((a.total * b.runs > b.total * a.runs) == (a_rest * b.runs > b_rest * a.runs))
                by (nonlinear_arith)
                requires
                    a.total == a.runs * a_whole + a_rest,
                    b.total == b.runs * b_whole + b_rest,
                    a_whole == b_whole,
            ;
        }
        a_rest_exec * (b.runs as i128) > b_rest_exec * (a.runs as i128)
    }
}

/// Whether a candidate with the score `candidate` replaces the best so far.
pub fn replaces(candidate: Score, best: &Option<Score>) -> (replace: bool)
    requires
        1 <= candidate.runs <= MAX_SCORING_RUNS,
        -MAX_SCORING_RUNS * SEASON_LIMIT <= candidate.total <= MAX_SCORING_RUNS * SEASON_LIMIT,
        match best {
            Some(b) => {
                &&& 1 <= b.runs <= MAX_SCORING_RUNS
                &&& -MAX_SCORING_RUNS * SEASON_LIMIT <= b.total <= MAX_SCORING_RUNS
                    * SEASON_LIMIT
            },
            None => true,
        },
    ensures
        replace == spec_replaces(
            candidate.total as int,
            candidate.runs as int,
            spec_score_model(*best),
        ),
{
    match best {
        Some(b) => mean_exceeds(candidate, *b),
        None => true,
    }
}

/// A quantity scaled by `numerator / denominator`, rounded down, as far as the
/// quantity type reaches.
pub fn scaled(quantity: u32, numerator: u32, denominator: u32) -> (result: u32)
    requires
        denominator > 0,
    ensures
        result == spec_scaled(quantity, numerator as int, denominator as int),
{
    assert(quantity * numerator <= 0xFFFF_FFFF * 0xFFFF_FFFF) by (nonlinear_arith)
        requires
            0 <= quantity <= 0xFFFF_FFFF,
            0 <= numerator <= 0xFFFF_FFFF,
    ;
    let wide: u64 = (quantity as u64) * (numerator as u64) / (denominator as u64);
    if wide > 0xFFFF_FFFF {
        u32::MAX
    } else {
        wide as u32
    }
}

/// The plan that a candidate is scored with: the base supplier makes every
/// quantity, the surge supplier nothing.
pub fn scoring_order(quantities: &Vec<(usize, u32)>) -> (order: MonthlyOrder)
    ensures
        order@ == spec_scoring_order(quantities@),
        order@.total_surge() == 0,
{
    let mut base_orders: Vec<ProductOrder> = Vec::new();
    let mut surge_orders: Vec<ProductOrder> = Vec::new();
    let mut i: usize = 0;
    while i < quantities.len()
        invariant
            i <= quantities@.len(),
            base_orders@.len() == i,
            surge_orders@.len() == i,
            forall|j: int|
                0 <= j < i ==> (#[trigger] base_orders@[j]) == (ProductOrder {
                    product_id: quantities@[j].0,
                    quantity: quantities@[j].1,
                }),
            forall|j: int|
                0 <= j < i ==> (#[trigger] surge_orders@[j]) == (ProductOrder {
                    product_id: quantities@[j].0,
                    quantity: 0,
                }),
        decreases quantities@.len() - i,
    {
        let entry = quantities[i];
        base_orders.push(ProductOrder { product_id: entry.0, quantity: entry.1 });
        surge_orders.push(ProductOrder { product_id: entry.0, quantity: 0 });
        i += 1;
    }
    proof {
        lemma_zero_lines_total(surge_orders@);
        assert(base_orders@ =~= spec_scoring_order(quantities@).base);
        assert(surge_orders@ =~= spec_scoring_order(quantities@).surge);
    }
    MonthlyOrder { base_orders, surge_orders }
}

/// The profit that the plan `order` earns in the `count` runs that start at
/// `first`, all together, with options disabled and planning demand. A run
/// that `demand_runs` does not hold meets no demand.
pub fn score_plan(
    params: &SimulationParams,
    pair: &SupplierPair,
    order: &MonthlyOrder,
    demand_runs: &Vec<Vec<Vec<i64>>>,
    first: usize,
    count: usize,
) -> (score: Score)
    requires
        params.wf(),
        order.wf(),
        count <= MAX_SCORING_RUNS,
    ensures
        score.runs == count,
        score.total == spec_plan_total(
            *params,
            *pair,
            order@,
            demand_runs@,
            first as int,
            count as nat,
        ),
        -count * SEASON_LIMIT <= score.total <= count * SEASON_LIMIT,
{
    let no_demand: Vec<Vec<i64>> = Vec::new();
    let mut total: i128 = 0;
    let mut run: usize = 0;
    while run < count
        invariant
            run <= count <= MAX_SCORING_RUNS,
            params.wf(),
            order.wf(),
            no_demand@ == Seq::<Vec<i64>>::empty(),
            total == spec_plan_total(
                *params,
                *pair,
                order@,
                demand_runs@,
                first as int,
                run as nat,
            ),
            -run * SEASON_LIMIT <= total <= run * SEASON_LIMIT,
        decreases count - run,
    {
        let demand: &Vec<Vec<i64>> = if run < demand_runs.len() && first < demand_runs.len() - run {
            &demand_runs[first + run]
        } else {
            &no_demand
        };
        let (_, profit) = run_season_without_options(params, pair, order, false, demand);
        proof {
            assert((run + 1) * SEASON_LIMIT == run * SEASON_LIMIT + SEASON_LIMIT)
                by (nonlinear_arith);
            assert(run * SEASON_LIMIT <= 64 * SEASON_LIMIT) by (nonlinear_arith)
                requires
                    run <= 64,
            ;
        }
        total = total + profit;
        run += 1;
    }
    Score { total, runs: count }
}

/// The plan that scores one quantity of one product has that quantity as its
/// base total.
pub proof fn lemma_single_order_total(product_id: usize, quantity: u32)
    ensures
        spec_scoring_order(seq![(product_id, quantity)]).total_base() == quantity,
        spec_scoring_order(seq![(product_id, quantity)]).total_surge() == 0,
        spec_scoring_order(seq![(product_id, quantity)]).wf(),
{
    let order = spec_scoring_order(seq![(product_id, quantity)]);
    assert(order.base.drop_last() =~= Seq::<ProductOrder>::empty());
    assert(spec_total_quantity(order.base.drop_last()) == 0);
    lemma_zero_lines_total(order.surge);
}

/// The plan that scores one quantity for each of two products has their sum as
/// its base total.
pub proof fn lemma_pair_order_total(id_a: usize, quantity_a: u32, id_b: usize, quantity_b: u32)
    ensures
        spec_scoring_order(seq![(id_a, quantity_a), (id_b, quantity_b)]).total_base() == quantity_a
            + quantity_b,
        spec_scoring_order(seq![(id_a, quantity_a), (id_b, quantity_b)]).total_surge() == 0,
{
    let order = spec_scoring_order(seq![(id_a, quantity_a), (id_b, quantity_b)]);
    let front = order.base.drop_last();
    assert(front.len() == 1);
    assert(front.drop_last() =~= Seq::<ProductOrder>::empty());
    assert(spec_total_quantity(front.drop_last()) == 0);
    assert(front.last().quantity == quantity_a);
    assert(spec_total_quantity(front) == quantity_a);
    assert(order.base.last().quantity == quantity_b);
    lemma_zero_lines_total(order.surge);
}

/// Candidate `index` of the sweep for a single product: twelve quantities from
/// 0.7 to 1.2 times the mean demand, evenly spaced.
pub open spec fn spec_single_quantity(mean: u32, index: int) -> u32 {
    spec_scaled(mean, 77 + 5 * index, 110) as u32
}

/// The totals that the candidates for a single product earn, each over its own
/// stretch of fifteen runs.
pub open spec fn spec_single_cells(
    params: SimulationParams,
    pair: SupplierPair,
    demand_runs: Seq<Vec<Vec<i64>>>,
) -> Seq<Option<int>> {
    let id = params.products@[0].id;
    let mean = params.spec_mean_demand(id);
    Seq::new(
        CANDIDATE_COUNT as nat,
        |i: int|
            Some(
                spec_plan_total(
                    params,
                    pair,
                    spec_scoring_order(seq![(id, spec_single_quantity(mean, i))]),
                    demand_runs,
                    i * CANDIDATE_RUNS,
                    CANDIDATE_RUNS as nat,
                ),
            ),
    )
}

/// The quantity found for a single product: the first candidate with the
/// highest mean profit.
pub open spec fn spec_single_best(
    params: SimulationParams,
    pair: SupplierPair,
    demand_runs: Seq<Vec<Vec<i64>>>,
) -> Seq<(usize, u32)> {
    let id = params.products@[0].id;
    let mean = params.spec_mean_demand(id);
    let picked = spec_pick(spec_single_cells(params, pair, demand_runs), CANDIDATE_RUNS as int, None);
    seq![(id, spec_single_quantity(mean, picked.unwrap()))]
}

/// The quantity found for a single product is one of the candidates, so it
/// lies between 0.7 and 1.2 times the planning mean demand, rounded down.
pub proof fn lemma_single_best_in_range(
    params: SimulationParams,
    pair: SupplierPair,
    demand_runs: Seq<Vec<Vec<i64>>>,
)
    requires
        params.products@.len() >= 1,
    ensures
        ({
            let mean = params.spec_mean_demand(params.products@[0].id);
            let best = spec_single_best(params, pair, demand_runs);
            &&& best.len() == 1
            &&& best[0].0 == params.products@[0].id
            &&& spec_scaled(mean, 77, 110) <= best[0].1 <= spec_scaled(mean, 132, 110)
        }),
{
    let mean = params.spec_mean_demand(params.products@[0].id);
    let cells = spec_single_cells(params, pair, demand_runs);
    lemma_pick_is_first_best(cells, CANDIDATE_RUNS as int, 0);
    lemma_pick_stands(cells, CANDIDATE_RUNS as int, None);
    let picked = spec_pick(cells, CANDIDATE_RUNS as int, None).unwrap();
    lemma_scaled_ordered(mean, 77, 77 + 5 * picked, 110);
    lemma_scaled_ordered(mean, 77 + 5 * picked, 132, 110);
}

/// Single product optimization: a linear sweep of twelve candidates between
/// 0.7 and 1.2 times the planning mean demand. Candidate `i` is scored on the
/// fifteen runs that start at run `15 * i`; the first candidate with the
/// highest mean profit wins.
pub fn find_optimal_single_product(
    params: &SimulationParams,
    pair: &SupplierPair,
    demand_runs: &Vec<Vec<Vec<i64>>>,
) -> (best: Vec<(usize, u32)>)
    requires
        params.wf(),
        params.products@.len() >= 1,
    ensures
        best@ == spec_single_best(*params, *pair, demand_runs@),
{
    let id: usize = params.products[0].id;
    let mean: u32 = match params.get_demand_params(id) {
        Some(dp) => dp.mean_demand,
        None => 0,
    };
    let ghost cells = spec_single_cells(*params, *pair, demand_runs@);
    let mut best_score: Option<Score> = None;
    let mut best_quantity: u32 = mean;
    let mut picked: Option<usize> = None;
    let mut i: usize = 0;
    while i < CANDIDATE_COUNT
        invariant
            i <= CANDIDATE_COUNT,
            params.wf(),
            params.products@.len() >= 1,
            id == params.products@[0].id,
            mean == params.spec_mean_demand(id),
            cells == spec_single_cells(*params, *pair, demand_runs@),
            spec_score_model(best_score) == spec_standing(
                cells.take(i as int),
                CANDIDATE_RUNS as int,
                None,
            ),
            match best_score {
                Some(b) => {
                    &&& b.runs == CANDIDATE_RUNS
                    &&& -MAX_SCORING_RUNS * SEASON_LIMIT <= b.total <= MAX_SCORING_RUNS
                        * SEASON_LIMIT
                },
                None => true,
            },
            match picked {
                Some(k) => spec_pick(cells.take(i as int), CANDIDATE_RUNS as int, None) == Some(
                    k as int,
                ) && k < i && best_quantity == spec_single_quantity(mean, k as int),
                None => spec_pick(cells.take(i as int), CANDIDATE_RUNS as int, None).is_none(),
            },
            i > 0 ==> picked.is_some(),
        decreases CANDIDATE_COUNT - i,
    {
        let numerator: u32 = 77 + 5 * (i as u32);
        let candidate: u32 = scaled(mean, numerator, 110);
        let quantities: Vec<(usize, u32)> = vec![(id, candidate)];
        proof {
            assert(quantities@ =~= seq![(id, candidate)]);
            lemma_single_order_total(id, candidate);
            assert(cells.take(i + 1).drop_last() =~= cells.take(i as int));
            assert(cells.take(i + 1).last() == cells[i as int]);
            assert(CANDIDATE_RUNS * SEASON_LIMIT <= MAX_SCORING_RUNS * SEASON_LIMIT)
                by (nonlinear_arith);
        }
        let order = scoring_order(&quantities);
        let score = score_plan(params, pair, &order, demand_runs, i * CANDIDATE_RUNS, CANDIDATE_RUNS);
        if replaces(score, &best_score) {
            best_score = Some(score);
            best_quantity = candidate;
            picked = Some(i);
        }
        i += 1;
    }
    proof {
        assert(cells.take(CANDIDATE_COUNT as int) =~= cells);
    }
    vec![(id, best_quantity)]
}

/// Whether a cell of a grid can be ordered: the two quantities together do not
/// exceed the combined capacity of the suppliers, nor the largest total that
/// an order can have.
pub open spec fn spec_feasible(quantity_a: u32, quantity_b: u32, capacity: int) -> bool {
    quantity_a + quantity_b <= capacity && quantity_a + quantity_b <= u32::MAX
}

/// The totals that the cells of a grid earn. Cell `k` pairs point `k / nb` of
/// the first product with point `k % nb` of the second, where `nb` is the
/// number of points of the second, and is scored on the `runs` runs that start
/// at run `first_run + k * runs`. A cell that is not feasible has no total.
pub open spec fn spec_grid_cells(
    params: SimulationParams,
    pair: SupplierPair,
    id_a: usize,
    id_b: usize,
    points_a: Seq<u32>,
    points_b: Seq<u32>,
    demand_runs: Seq<Vec<Vec<i64>>>,
    first_run: int,
    runs: nat,
) -> Seq<Option<int>> {
    Seq::new(
        points_a.len() * points_b.len(),
        |k: int|
            {
                let quantity_a = points_a[k / (points_b.len() as int)];
                let quantity_b = points_b[k % (points_b.len() as int)];
                if spec_feasible(quantity_a, quantity_b, pair.spec_total_capacity()) {
                    Some(
                        spec_plan_total(
                            params,
                            pair,
                            spec_scoring_order(seq![(id_a, quantity_a), (id_b, quantity_b)]),
                            demand_runs,
                            first_run + k * runs,
                            runs,
                        ),
                    )
                } else {
                    None
                }
            },
    )
}

/// What a pass over a grid leaves: the cell that it picked, if any, and the
/// score that stands.
struct PassOutcome {
    picked: Option<usize>,
    standing: Option<Score>,
}

/// Tries the cells of a grid in order against `incumbent`.
fn grid_pass(
    params: &SimulationParams,
    pair: &SupplierPair,
    id_a: usize,
    id_b: usize,
    points_a: &Vec<u32>,
    points_b: &Vec<u32>,
    demand_runs: &Vec<Vec<Vec<i64>>>,
    first_run: usize,
    runs: usize,
    incumbent: Option<Score>,
) -> (outcome: PassOutcome)
    requires
        params.wf(),
        1 <= runs <= MAX_SCORING_RUNS,
        1 <= points_a@.len() <= 8,
        1 <= points_b@.len() <= 8,
        first_run <= 0xFFFF,
        match incumbent {
            Some(b) => {
                &&& 1 <= b.runs <= MAX_SCORING_RUNS
                &&& -MAX_SCORING_RUNS * SEASON_LIMIT <= b.total <= MAX_SCORING_RUNS
                    * SEASON_LIMIT
            },
            None => true,
        },
    ensures
        match outcome.picked {
            Some(k) => spec_pick(
                spec_grid_cells(
                    *params,
                    *pair,
                    id_a,
                    id_b,
                    points_a@,
                    points_b@,
                    demand_runs@,
                    first_run as int,
                    runs as nat,
                ),
                runs as int,
                spec_score_model(incumbent),
            ) == Some(k as int) && k < points_a@.len() * points_b@.len(),
            None => spec_pick(
                spec_grid_cells(
                    *params,
                    *pair,
                    id_a,
                    id_b,
                    points_a@,
                    points_b@,
                    demand_runs@,
                    first_run as int,
                    runs as nat,
                ),
                runs as int,
                spec_score_model(incumbent),
            ).is_none(),
        },
        spec_score_model(outcome.standing) == spec_standing(
            spec_grid_cells(
                *params,
                *pair,
                id_a,
                id_b,
                points_a@,
                points_b@,
                demand_runs@,
                first_run as int,
                runs as nat,
            ),
            runs as int,
            spec_score_model(incumbent),
        ),
        match outcome.standing {
            Some(b) => {
                &&& 1 <= b.runs <= MAX_SCORING_RUNS
                &&& -MAX_SCORING_RUNS * SEASON_LIMIT <= b.total <= MAX_SCORING_RUNS
                    * SEASON_LIMIT
            },
            None => true,
        },
{
    let na: usize = points_a.len();
    let nb: usize = points_b.len();
    assert(na * nb <= 64) by (nonlinear_arith)
        requires
            na <= 8,
            nb <= 8,
    ;
    let count: usize = na * nb;
    let capacity: u64 = pair.total_capacity();
    let ghost cells = spec_grid_cells(
        *params,
        *pair,
        id_a,
        id_b,
        points_a@,
        points_b@,
        demand_runs@,
        first_run as int,
        runs as nat,
    );
    let ghost start = spec_score_model(incumbent);
    let mut standing: Option<Score> = incumbent;
    let mut picked: Option<usize> = None;
    let mut k: usize = 0;
    while k < count
        invariant
            k <= count,
            count == na * nb,
            count <= 64,
            na == points_a@.len(),
            nb == points_b@.len(),
            1 <= nb,
            params.wf(),
            1 <= runs <= MAX_SCORING_RUNS,
            first_run <= 0xFFFF,
            capacity == pair.spec_total_capacity(),
            start == spec_score_model(incumbent),
            cells == spec_grid_cells(
                *params,
                *pair,
                id_a,
                id_b,
                points_a@,
                points_b@,
                demand_runs@,
                first_run as int,
                runs as nat,
            ),
            spec_score_model(standing) == spec_standing(cells.take(k as int), runs as int, start),
            match standing {
                Some(b) => {
                    &&& 1 <= b.runs <= MAX_SCORING_RUNS
                    &&& -MAX_SCORING_RUNS * SEASON_LIMIT <= b.total <= MAX_SCORING_RUNS
                        * SEASON_LIMIT
                },
                None => true,
            },
            match picked {
                Some(p) => spec_pick(cells.take(k as int), runs as int, start) == Some(p as int)
                    && p < k,
                None => spec_pick(cells.take(k as int), runs as int, start).is_none(),
            },
        decreases count - k,
    {
        let i: usize = k / nb;
        let j: usize = k % nb;
        proof {
            vstd::arithmetic::div_mod::lemma_fundamental_div_mod(k as int, nb as int);
            vstd::arithmetic::div_mod::lemma_mod_bound(k as int, nb as int);
            vstd::arithmetic::div_mod::lemma_div_pos_is_pos(k as int, nb as int);
            assert(i < na) by (nonlinear_arith)
                requires
                    k == nb * i + j,
                    0 <= j,
                    k < na * nb,
                    0 < nb,
            ;
            assert(cells.take(k + 1).drop_last() =~= cells.take(k as int));
            assert(cells.take(k + 1).last() == cells[k as int]);
            assert(k * runs <= 64 * 64) by (nonlinear_arith)
                requires
                    k <= 64,
                    runs <= 64,
            ;
            assert(runs * SEASON_LIMIT <= MAX_SCORING_RUNS * SEASON_LIMIT) by (nonlinear_arith)
                requires
                    runs <= MAX_SCORING_RUNS,
            ;
        }
        let quantity_a: u32 = points_a[i];
        let quantity_b: u32 = points_b[j];
        let together: u64 = quantity_a as u64 + quantity_b as u64;
        if together <= capacity && together <= 0xFFFF_FFFF {
            let quantities: Vec<(usize, u32)> = vec![(id_a, quantity_a), (id_b, quantity_b)];
            proof {
                assert(quantities@ =~= seq![(id_a, quantity_a), (id_b, quantity_b)]);
                lemma_pair_order_total(id_a, quantity_a, id_b, quantity_b);
            }
            let order = scoring_order(&quantities);
            let score = score_plan(params, pair, &order, demand_runs, first_run + k * runs, runs);
            if replaces(score, &standing) {
                standing = Some(score);
                picked = Some(k);
            }
        }
        k += 1;
    }
    proof {
        assert(cells.take(count as int) =~= cells);
    }
    PassOutcome { picked, standing }
}

/// The points of the coarse grid for one product: six quantities from 0.7 to
/// 1.2 times its mean demand, evenly spaced.
pub open spec fn spec_coarse_points(mean: u32) -> Seq<u32> {
    Seq::new(COARSE_POINTS as nat, |i: int| spec_scaled(mean, 7 + i, 10) as u32)
}

/// Point `index` of the fine grid for one product: five quantities from 0.85
/// to 1.15 times the coarse grid's best, evenly spaced.
pub open spec fn spec_fine_point(best: u32, index: int) -> u32 {
    let low = spec_scaled(best, 17, 20);
    let high = spec_scaled(best, 23, 20);
    (low + (high - low) * index / 4) as u32
}

/// The points of the fine grid for one product.
pub open spec fn spec_fine_points(best: u32) -> Seq<u32> {
    Seq::new(FINE_POINTS as nat, |i: int| spec_fine_point(best, i))
}

/// The points of the coarse grid for one product.
pub fn coarse_points(mean: u32) -> (points: Vec<u32>)
    ensures
        points@ == spec_coarse_points(mean),
{
    let mut points: Vec<u32> = Vec::new();
    let mut i: u32 = 0;
    while i < 6
        invariant
            i <= 6,
            points@.len() == i,
            forall|j: int| 0 <= j < i ==> (#[trigger] points@[j]) == spec_scaled(mean, 7 + j, 10),
        decreases 6 - i,
    {
        points.push(scaled(mean, 7 + i, 10));
        i += 1;
    }
    proof {
        assert(points@ =~= spec_coarse_points(mean));
    }
    points
}

/// A larger factor never scales to less.
pub proof fn lemma_scaled_ordered(quantity: u32, lower: int, higher: int, denominator: int)
    requires
        0 <= lower <= higher,
        0 < denominator,
    ensures
        0 <= spec_scaled(quantity, lower, denominator) <= spec_scaled(
            quantity,
            higher,
            denominator,
        ) <= u32::MAX,
{
    assert(0 <= quantity * lower <= quantity * higher) by (nonlinear_arith)
        requires
            0 <= quantity,
            0 <= lower <= higher,
    ;
    vstd::arithmetic::div_mod::lemma_div_is_ordered(
        quantity * lower,
        quantity * higher,
        denominator,
    );
    vstd::arithmetic::div_mod::lemma_div_pos_is_pos(quantity * lower, denominator);
}

/// The points of the fine grid for one product.
pub fn fine_points(best: u32) -> (points: Vec<u32>)
    ensures
        points@ == spec_fine_points(best),
{
    let low: u32 = scaled(best, 17, 20);
    let high: u32 = scaled(best, 23, 20);
    proof {
        lemma_scaled_ordered(best, 17, 23, 20);
    }
    let span: u64 = (high - low) as u64;
    let mut points: Vec<u32> = Vec::new();
    let mut i: u64 = 0;
    while i < 5
        invariant
            i <= 5,
            low <= high,
            span == high - low,
            low == spec_scaled(best, 17, 20),
            high == spec_scaled(best, 23, 20),
            points@.len() == i,
            forall|j: int| 0 <= j < i ==> (#[trigger] points@[j]) == spec_fine_point(best, j),
        decreases 5 - i,
    {
        proof {
            assert(0 <= span * i <= span * 4) by (nonlinear_arith)
                requires
                    0 <= span,
                    0 <= i <= 4,
            ;
            vstd::arithmetic::div_mod::lemma_div_is_ordered(
                (span * i) as int,
                (span * 4) as int,
                4,
            );
            vstd::arithmetic::div_mod::lemma_div_multiples_vanish(span as int, 4);
            vstd::arithmetic::div_mod::lemma_div_pos_is_pos((span * i) as int, 4);
            assert(span * 4 == 4 * span) by (nonlinear_arith);
        }
        let step: u64 = span * i / 4;
        points.push(low + step as u32);
        i += 1;
    }
    proof {
        assert(points@ =~= spec_fine_points(best));
    }
    points
}

/// The quantities that the coarse grid leaves as best: those of the cell that
/// it picked, or the two mean demands where no cell was feasible.
pub open spec fn spec_coarse_best(
    params: SimulationParams,
    pair: SupplierPair,
    product_a: (usize, u32),
    product_b: (usize, u32),
    demand_runs: Seq<Vec<Vec<i64>>>,
) -> (u32, u32) {
    let cells = spec_grid_cells(
        params,
        pair,
        product_a.0,
        product_b.0,
        spec_coarse_points(product_a.1),
        spec_coarse_points(product_b.1),
        demand_runs,
        0,
        COARSE_RUNS as nat,
    );
    match spec_pick(cells, COARSE_RUNS as int, None) {
        Some(k) => (
            spec_coarse_points(product_a.1)[k / (COARSE_POINTS as int)],
            spec_coarse_points(product_b.1)[k % (COARSE_POINTS as int)],
        ),
        None => (product_a.1, product_b.1),
    }
}

/// The score that stands after the coarse grid.
pub open spec fn spec_coarse_standing(
    params: SimulationParams,
    pair: SupplierPair,
    product_a: (usize, u32),
    product_b: (usize, u32),
    demand_runs: Seq<Vec<Vec<i64>>>,
) -> Option<ScoreModel> {
    spec_standing(
        spec_grid_cells(
            params,
            pair,
            product_a.0,
            product_b.0,
            spec_coarse_points(product_a.1),
            spec_coarse_points(product_b.1),
            demand_runs,
            0,
            COARSE_RUNS as nat,
        ),
        COARSE_RUNS as int,
        None,
    )
}

/// The quantities found for two products: those of the cell that the fine grid
/// picked against the coarse grid's best, or the coarse grid's best where no
/// cell of the fine grid has a strictly higher mean profit.
pub open spec fn spec_grid_search(
    params: SimulationParams,
    pair: SupplierPair,
    product_a: (usize, u32),
    product_b: (usize, u32),
    demand_runs: Seq<Vec<Vec<i64>>>,
) -> Seq<(usize, u32)> {
    let best = spec_coarse_best(params, pair, product_a, product_b, demand_runs);
    let fine_a = spec_fine_points(best.0);
    let fine_b = spec_fine_points(best.1);
    let cells = spec_grid_cells(
        params,
        pair,
        product_a.0,
        product_b.0,
        fine_a,
        fine_b,
        demand_runs,
        FINE_FIRST_RUN as int,
        FINE_RUNS as nat,
    );
    match spec_pick(
        cells,
        FINE_RUNS as int,
        spec_coarse_standing(params, pair, product_a, product_b, demand_runs),
    ) {
        Some(k) => seq![
            (product_a.0, fine_a[k / (FINE_POINTS as int)]),
            (product_b.0, fine_b[k % (FINE_POINTS as int)]),
        ],
        None => seq![(product_a.0, best.0), (product_b.0, best.1)],
    }
}

/// Coarse-to-fine grid search for two products, given as `(product id, mean
/// demand)`.
///
/// The coarse pass tries a grid of six by six quantities between 0.7 and 1.2
/// times each product's mean demand, thirty runs per cell. The fine pass tries
/// a grid of five by five quantities within 15 % of the coarse pass's best,
/// fifty runs per cell from run 1080 on, and is adopted only where it is
/// strictly better. Cells that are not feasible are skipped.
pub fn coarse_to_fine_grid_search(
    params: &SimulationParams,
    pair: &SupplierPair,
    products: &Vec<(usize, u32)>,
    demand_runs: &Vec<Vec<Vec<i64>>>,
) -> (best: Vec<(usize, u32)>)
    requires
        params.wf(),
        products@.len() >= 2,
    ensures
        best@ == spec_grid_search(*params, *pair, products@[0], products@[1], demand_runs@),
{
    let product_a = products[0];
    let product_b = products[1];
    let coarse_a = coarse_points(product_a.1);
    let coarse_b = coarse_points(product_b.1);
    let coarse = grid_pass(
        params,
        pair,
        product_a.0,
        product_b.0,
        &coarse_a,
        &coarse_b,
        demand_runs,
        0,
        COARSE_RUNS,
        None,
    );
    let (best_a, best_b): (u32, u32) = match coarse.picked {
        Some(k) => (coarse_a[k / COARSE_POINTS], coarse_b[k % COARSE_POINTS]),
        None => (product_a.1, product_b.1),
    };
    let fine_a = fine_points(best_a);
    let fine_b = fine_points(best_b);
    let fine = grid_pass(
        params,
        pair,
        product_a.0,
        product_b.0,
        &fine_a,
        &fine_b,
        demand_runs,
        FINE_FIRST_RUN,
        FINE_RUNS,
        coarse.standing,
    );
    match fine.picked {
        Some(k) => vec![
            (product_a.0, fine_a[k / FINE_POINTS]),
            (product_b.0, fine_b[k % FINE_POINTS]),
        ],
        None => vec![(product_a.0, best_a), (product_b.0, best_b)],
    }
}

/// Sum of the demands of `products`, given as `(product id, demand)`.
pub open spec fn spec_total_demand(products: Seq<(usize, u32)>) -> int
    decreases products.len(),
{
    if products.len() == 0 {
        0
    } else {
        spec_total_demand(products.drop_last()) + products.last().1
    }
}

/// The share of `total_capacity` that a product with the demand `demand` gets
/// where all products together have the demand `total_demand`: in proportion,
/// rounded down, as far as the quantity type reaches; nothing where there is
/// no demand at all.
pub open spec fn spec_share(total_capacity: int, demand: u32, total_demand: int) -> int {
    if total_demand == 0 {
        0
    } else if total_capacity * demand / total_demand > u32::MAX {
        u32::MAX as int
    } else {
        total_capacity * demand / total_demand
    }
}

/// The shares of `total_capacity` of products that are part of a total demand
/// of `total_demand`, product by product.
pub open spec fn spec_shares(
    products: Seq<(usize, u32)>,
    total_capacity: int,
    total_demand: int,
) -> Seq<(usize, u32)> {
    Seq::new(
        products.len(),
        |i: int| (products[i].0, spec_share(total_capacity, products[i].1, total_demand) as u32),
    )
}

/// The capacity shared out in proportion to demand, product by product.
pub open spec fn spec_proportional(products: Seq<(usize, u32)>, total_capacity: int) -> Seq<
    (usize, u32),
> {
    spec_shares(products, total_capacity, spec_total_demand(products))
}

/// A share is never negative, and never more than its exact proportion.
pub proof fn lemma_share_bounds(total_capacity: int, demand: u32, total_demand: int)
    requires
        0 <= total_capacity,
        0 < total_demand,
    ensures
        0 <= spec_share(total_capacity, demand, total_demand) <= u32::MAX,
        spec_share(total_capacity, demand, total_demand) * total_demand <= total_capacity
            * demand,
{
    let exact = total_capacity * demand;
    assert(0 <= exact) by (nonlinear_arith)
        requires
            exact == total_capacity * demand,
            0 <= total_capacity,
            0 <= demand,
    ;
    vstd::arithmetic::div_mod::lemma_fundamental_div_mod(exact, total_demand);
    vstd::arithmetic::div_mod::lemma_mod_bound(exact, total_demand);
    vstd::arithmetic::div_mod::lemma_div_pos_is_pos(exact, total_demand);
    let quotient = exact / total_demand;
    assert(quotient * total_demand == total_demand * quotient) by (nonlinear_arith);
    if quotient > u32::MAX {
        assert(u32::MAX * total_demand <= quotient * total_demand) by (nonlinear_arith)
            requires
                u32::MAX <= quotient,
                0 < total_demand,
        ;
    }
}

/// Shares of some of the products take together no more than their exact
/// proportion of the capacity.
pub proof fn lemma_shares_total(products: Seq<(usize, u32)>, total_capacity: int, total_demand: int)
    requires
        0 <= total_capacity,
        0 < total_demand,
    ensures
        0 <= spec_total_demand(spec_shares(products, total_capacity, total_demand)),
        spec_total_demand(spec_shares(products, total_capacity, total_demand)) * total_demand
            <= total_capacity * spec_total_demand(products),
    decreases products.len(),
{
    let shares = spec_shares(products, total_capacity, total_demand);
    if products.len() > 0 {
        let front = products.drop_last();
        lemma_shares_total(front, total_capacity, total_demand);
        assert(shares.drop_last() =~= spec_shares(front, total_capacity, total_demand));
        let demand = products.last().1;
        lemma_share_bounds(total_capacity, demand, total_demand);
        let a = spec_total_demand(spec_shares(front, total_capacity, total_demand));
        let b = spec_share(total_capacity, demand, total_demand);
        let c = spec_total_demand(front);
        assert(shares.last().1 == b);
        assert((a + b) * total_demand <= total_capacity * (c + demand)) by (nonlinear_arith)
            requires
                a * total_demand <= total_capacity * c,
                b * total_demand <= total_capacity * demand,
        ;
    }
}

/// The capacity shared out in proportion to demand is never exceeded by the
/// shares together.
pub proof fn lemma_proportional_within_capacity(products: Seq<(usize, u32)>, total_capacity: int)
    requires
        0 <= total_capacity,
    ensures
        0 <= spec_total_demand(spec_proportional(products, total_capacity)) <= total_capacity,
    decreases products.len(),
{
    let total_demand = spec_total_demand(products);
    lemma_total_demand_nonnegative(products);
    if total_demand > 0 {
        lemma_shares_total(products, total_capacity, total_demand);
        let allocated = spec_total_demand(spec_proportional(products, total_capacity));
        assert(allocated <= total_capacity) by (nonlinear_arith)
            requires
                allocated * total_demand <= total_capacity * total_demand,
                0 < total_demand,
        ;
    } else {
        lemma_zero_shares(products, total_capacity);
    }
}

/// A total demand is never negative.
pub proof fn lemma_total_demand_nonnegative(products: Seq<(usize, u32)>)
    ensures
        0 <= spec_total_demand(products),
    decreases products.len(),
{
    if products.len() > 0 {
        lemma_total_demand_nonnegative(products.drop_last());
    }
}

/// Without demand nobody gets a share.
pub proof fn lemma_zero_shares(products: Seq<(usize, u32)>, total_capacity: int)
    ensures
        spec_total_demand(spec_shares(products, total_capacity, 0)) == 0,
    decreases products.len(),
{
    let shares = spec_shares(products, total_capacity, 0);
    if products.len() > 0 {
        lemma_zero_shares(products.drop_last(), total_capacity);
        assert(shares.drop_last() =~= spec_shares(products.drop_last(), total_capacity, 0));
    }
}

/// Sum of the demands of `products`.
pub fn total_demand(products: &Vec<(usize, u32)>) -> (total: u128)
    ensures
        total == spec_total_demand(products@),
        total <= products@.len() * 0xFFFF_FFFF,
{
    let mut total: u128 = 0;
    let mut i: usize = 0;
    while i < products.len()
        invariant
            i <= products@.len(),
            total == spec_total_demand(products@.take(i as int)),
            total <= i * 0xFFFF_FFFF,
        decreases products@.len() - i,
    {
        proof {
            assert(products@.take(i + 1).drop_last() == products@.take(i as int));
            assert((i + 1) * 0xFFFF_FFFF == i * 0xFFFF_FFFF + 0xFFFF_FFFF) by (nonlinear_arith);
            assert(i * 0xFFFF_FFFF <= usize::MAX * 0xFFFF_FFFF) by (nonlinear_arith)
                requires
                    i <= usize::MAX,
            ;
        }
        total = total + products[i].1 as u128;
        i += 1;
    }
    proof {
        assert(products@.take(products@.len() as int) == products@);
    }
    total
}

/// Allocate capacity proportionally to expected demand (for three or more
/// products; no search).
pub fn allocate_proportionally(products: &Vec<(usize, u32)>, total_capacity: u64) -> (allocation:
    Vec<(usize, u32)>)
    ensures
        allocation@ == spec_proportional(products@, total_capacity as int),
{
    let demand: u128 = total_demand(products);
    let mut allocation: Vec<(usize, u32)> = Vec::new();
    let mut i: usize = 0;
    while i < products.len()
        invariant
            i <= products@.len(),
            demand == spec_total_demand(products@),
            allocation@.len() == i,
            forall|j: int|
                0 <= j < i ==> (#[trigger] allocation@[j]) == (
                    products@[j].0,
                    spec_share(total_capacity as int, products@[j].1, demand as int) as u32,
                ),
        decreases products@.len() - i,
    {
        let entry = products[i];
        let share: u32 = if demand == 0 {
            0
        } else {
            assert(total_capacity * entry.1 <= 0xFFFF_FFFF_FFFF_FFFF * 0xFFFF_FFFF)
                by (nonlinear_arith)
                requires
                    0 <= total_capacity <= 0xFFFF_FFFF_FFFF_FFFF,
                    0 <= entry.1 <= 0xFFFF_FFFF,
            ;
            let wide: u128 = (total_capacity as u128) * (entry.1 as u128) / demand;
            if wide > 0xFFFF_FFFF {
                u32::MAX
            } else {
                wide as u32
            }
        };
        allocation.push((entry.0, share));
        i += 1;
    }
    proof {
        assert(allocation@ =~= spec_proportional(products@, total_capacity as int));
    }
    allocation
}

/// The products with their planning mean demand, as `(product id, demand)`;
/// zero where a product has no demand parameters.
pub open spec fn spec_expected_demands(params: SimulationParams) -> Seq<(usize, u32)> {
    Seq::new(
        params.products@.len(),
        |i: int| (params.products@[i].id, params.spec_mean_demand(params.products@[i].id)),
    )
}

/// The products with their planning mean demand.
pub fn expected_demands(params: &SimulationParams) -> (demands: Vec<(usize, u32)>)
    ensures
        demands@ == spec_expected_demands(*params),
{
    let mut demands: Vec<(usize, u32)> = Vec::new();
    let mut i: usize = 0;
    while i < params.products.len()
        invariant
            i <= params.products@.len(),
            demands@.len() == i,
            forall|j: int|
                0 <= j < i ==> (#[trigger] demands@[j]) == (
                    params.products@[j].id,
                    params.spec_mean_demand(params.products@[j].id),
                ),
        decreases params.products@.len() - i,
    {
        let id: usize = params.products[i].id;
        let mean: u32 = match params.get_demand_params(id) {
            Some(dp) => dp.mean_demand,
            None => 0,
        };
        demands.push((id, mean));
        i += 1;
    }
    proof {
        assert(demands@ =~= spec_expected_demands(*params));
    }
    demands
}

/// The allocation that the search finds, by number of products: a sweep for
/// one, a coarse-to-fine grid search for two, and otherwise the combined
/// capacity shared out in proportion to mean demand.
pub open spec fn spec_optimal_quantities(
    params: SimulationParams,
    pair: SupplierPair,
    demand_runs: Seq<Vec<Vec<i64>>>,
) -> Seq<(usize, u32)> {
    let products = spec_expected_demands(params);
    if products.len() == 1 {
        spec_single_best(params, pair, demand_runs)
    } else if products.len() == 2 {
        spec_grid_search(params, pair, products[0], products[1], demand_runs)
    } else {
        spec_proportional(products, pair.spec_total_capacity())
    }
}

/// Number of runs of demand samples that the search uses, by number of
/// products.
pub open spec fn spec_draws_needed(products: int) -> int {
    if products == 1 {
        SINGLE_PRODUCT_DRAWS as int
    } else if products == 2 {
        TWO_PRODUCT_DRAWS as int
    } else {
        0
    }
}

/// Number of runs of demand samples that the search for `params` uses.
pub fn draws_needed(params: &SimulationParams) -> (runs: usize)
    ensures
        runs == spec_draws_needed(params.products@.len() as int),
{
    if params.products.len() == 1 {
        SINGLE_PRODUCT_DRAWS
    } else if params.products.len() == 2 {
        TWO_PRODUCT_DRAWS
    } else {
        0
    }
}

/// Find optimal production quantities for all products, as `(product id,
/// quantity)`. Scoring runs never value options.
pub fn find_optimal_production_quantities(
    params: &SimulationParams,
    pair: &SupplierPair,
    demand_runs: &Vec<Vec<Vec<i64>>>,
) -> (allocation: Vec<(usize, u32)>)
    requires
        params.wf(),
    ensures
        allocation@ == spec_optimal_quantities(*params, *pair, demand_runs@),
{
    find_optimal_production_quantities_internal(params, pair, demand_runs)
}

/// The search behind both public entries.
pub fn find_optimal_production_quantities_internal(
    params: &SimulationParams,
    pair: &SupplierPair,
    demand_runs: &Vec<Vec<Vec<i64>>>,
) -> (allocation: Vec<(usize, u32)>)
    requires
        params.wf(),
    ensures
        allocation@ == spec_optimal_quantities(*params, *pair, demand_runs@),
{
    let products = expected_demands(params);
    if products.len() == 1 {
        return find_optimal_single_product(params, pair, demand_runs);
    }
    if products.len() != 2 {
        return allocate_proportionally(&products, pair.total_capacity());
    }
    coarse_to_fine_grid_search(params, pair, &products, demand_runs)
}

/// Find optimal production quantities, for callers that also report on the
/// search. The allocation is the same as without the report.
pub fn find_optimal_production_quantities_with_diagnostics(
    params: &SimulationParams,
    pair: &SupplierPair,
    demand_runs: &Vec<Vec<Vec<i64>>>,
) -> (allocation: Vec<(usize, u32)>)
    requires
        params.wf(),
    ensures
        allocation@ == spec_optimal_quantities(*params, *pair, demand_runs@),
{
    find_optimal_production_quantities_internal(params, pair, demand_runs)
}

} // verus!
