//! The state that one season carries from period to period, and the two steps
//! that every period takes: settling it (deliveries, sales, costs), and closing
//! it (deciding whether to schedule a revision of the surge order).

use vstd::prelude::*;
use crate::ledger::{
    month_name, settle_products, spec_inventories_after, spec_month_name, spec_rows,
    spec_rows_profit, OrderModel, PeriodModel, INCOMING_LIMIT, INVENTORY_LIMIT, PERIOD_LIMIT,
};
use crate::models::{MonthlyOrder, MonthlyResult, SimulationParams, SupplierPair, TOTAL_MONTHS};
use crate::revision::{revise_surge_order, spec_revised_plan};

verus! {

/// Whether a revised order is waiting to take effect. At most one can wait.
#[derive(Debug)]
pub enum PendingChange {
    NoPendingChange,
    Scheduled {
        /// The period in which the revision was decided.
        scheduled_in: usize,
        /// The first period in which the revised order arrives.
        effective_period: usize,
        plan: MonthlyOrder,
    },
}

/// A waiting revision as plain values.
pub struct PendingModel {
    pub scheduled_in: int,
    pub effective_period: int,
    pub plan: OrderModel,
}

impl View for PendingChange {
    type V = Option<PendingModel>;

    open spec fn view(&self) -> Option<PendingModel> {
        match self {
            PendingChange::NoPendingChange => None,
            PendingChange::Scheduled { scheduled_in, effective_period, plan } => Some(
                PendingModel {
                    scheduled_in: *scheduled_in as int,
                    effective_period: *effective_period as int,
                    plan: plan@,
                },
            ),
        }
    }
}

/// What the valuer of the revision option is asked about.
#[derive(Clone, Copy, Debug)]
pub struct OptionQuery {
    /// Total of the order in effect, both suppliers together.
    pub order_quantity: u64,
    /// Total inventory on hand, all products together.
    pub inventory: u128,
    /// The period that was just settled.
    pub period: usize,
}

/// The valuer's answer, together with the allocation to move to if the option
/// is exercised.
#[derive(Debug)]
pub struct RevisionAdvice {
    /// Value of being allowed to revise the surge order, in minor units.
    pub option_value: i128,
    /// Target quantity per product, as `(product id, quantity)`.
    pub target: Vec<(usize, u32)>,
}

/// Advice as plain values.
pub struct AdviceModel {
    pub option_value: int,
    pub target: Seq<(usize, u32)>,
}

impl View for RevisionAdvice {
    type V = AdviceModel;

    open spec fn view(&self) -> AdviceModel {
        AdviceModel { option_value: self.option_value as int, target: self.target@ }
    }
}

/// The view of advice that may be missing.
pub open spec fn spec_advice_model(advice: Option<RevisionAdvice>) -> Option<AdviceModel> {
    match advice {
        Some(a) => Some(a@),
        None => None,
    }
}

/// The state of a season between two steps.
#[derive(Debug)]
pub struct SeasonState {
    /// The period in progress, counted from zero; `TOTAL_MONTHS` when the
    /// season is over.
    pub period: usize,
    /// Whether the period in progress has been settled and waits to be closed.
    pub settled: bool,
    /// Units on hand, per product, in the order of the product list.
    pub inventories: Vec<u64>,
    pub current_order: MonthlyOrder,
    pub pending: PendingChange,
    pub base_setup_charged: bool,
    pub surge_setup_charged: bool,
    pub total_profit: i128,
}

/// A season's state as plain values.
pub struct SeasonModel {
    pub period: int,
    pub settled: bool,
    pub inventories: Seq<u64>,
    pub order: OrderModel,
    pub pending: Option<PendingModel>,
    pub base_setup_charged: bool,
    pub surge_setup_charged: bool,
    pub total_profit: int,
}

impl View for SeasonState {
    type V = SeasonModel;

    open spec fn view(&self) -> SeasonModel {
        SeasonModel {
            period: self.period as int,
            settled: self.settled,
            inventories: self.inventories@,
            order: self.current_order@,
            pending: self.pending@,
            base_setup_charged: self.base_setup_charged,
            surge_setup_charged: self.surge_setup_charged,
            total_profit: self.total_profit as int,
        }
    }
}

/// Sum of a list of inventories.
pub open spec fn spec_total_inventory(inventories: Seq<u64>) -> int
    decreases inventories.len(),
{
    if inventories.len() == 0 {
        0
    } else {
        spec_total_inventory(inventories.drop_last()) + inventories.last()
    }
}

impl SeasonModel {
    /// Number of periods that have been settled.
    pub open spec fn periods_settled(&self) -> int {
        if self.settled {
            self.period + 1
        } else {
            self.period
        }
    }

    /// The state belongs to a season of `params` with the suppliers `pair`:
    /// one inventory per product, none above what the settled periods can have
    /// delivered; orders whose totals fit; a waiting revision that takes effect
    /// one surge lead time after the period it was decided in, within the
    /// season; and a profit within what the settled periods can have earned.
    pub open spec fn wf(&self, params: SimulationParams, pair: SupplierPair) -> bool {
        &&& 0 <= self.period <= TOTAL_MONTHS
        &&& self.settled ==> self.period < TOTAL_MONTHS
        &&& self.inventories.len() == params.products@.len()
        &&& forall|i: int|
            0 <= i < self.inventories.len() ==> (#[trigger] self.inventories[i])
                <= self.periods_settled() * INCOMING_LIMIT
        &&& self.order.wf()
        &&& match self.pending {
            Some(p) => {
                &&& p.plan.wf()
                &&& 0 <= p.scheduled_in < self.periods_settled()
                &&& p.effective_period == p.scheduled_in
                    + pair.surge_supplier.lead_time_months
                &&& p.effective_period < TOTAL_MONTHS
            },
            None => true,
        }
        &&& -self.periods_settled() * PERIOD_LIMIT <= self.total_profit <= self.periods_settled()
            * PERIOD_LIMIT
    }

    /// Whether the waiting revision takes effect in the period in progress.
    pub open spec fn takes_effect(&self) -> bool {
        match self.pending {
            Some(p) => self.period >= p.effective_period,
            None => false,
        }
    }

    /// The order that arrives in the period in progress.
    pub open spec fn order_in_effect(&self) -> OrderModel {
        if self.takes_effect() {
            self.pending.unwrap().plan
        } else {
            self.order
        }
    }

    /// Whether the base supplier's setup cost falls due in the period in
    /// progress: it ships something and has not been paid for yet.
    pub open spec fn base_setup_due(&self) -> bool {
        self.order_in_effect().total_base() > 0 && !self.base_setup_charged
    }

    /// Whether the surge supplier's setup cost falls due in the period in
    /// progress.
    pub open spec fn surge_setup_due(&self) -> bool {
        self.order_in_effect().total_surge() > 0 && !self.surge_setup_charged
    }

    /// Whether the period in progress is the season's last.
    pub open spec fn last_period(&self) -> bool {
        self.period == TOTAL_MONTHS - 1
    }

    /// The ledger of the period in progress: any waiting revision that is due
    /// takes effect and its fee is charged; each supplier that ships for the
    /// first time is charged its setup cost; every product gets its row; the
    /// profit is what the rows contribute less the two charges.
    pub open spec fn period_result(
        &self,
        params: SimulationParams,
        pair: SupplierPair,
        use_actual: bool,
        raw_samples: Seq<i64>,
    ) -> PeriodModel {
        let rows = spec_rows(
            params,
            pair,
            self.order_in_effect(),
            self.inventories,
            use_actual,
            raw_samples,
            self.last_period(),
        );
        let order_change_cost: int = if self.takes_effect() {
            params.order_change_fee as int
        } else {
            0
        };
        let base_part: int = if self.base_setup_due() {
            pair.base_supplier.setup_cost as int
        } else {
            0
        };
        let surge_part: int = if self.surge_setup_due() {
            pair.surge_supplier.setup_cost as int
        } else {
            0
        };
        PeriodModel {
            month: spec_month_name(self.period),
            rows,
            base_shipped: self.order_in_effect().total_base(),
            surge_shipped: self.order_in_effect().total_surge(),
            base_setup_charged: self.base_setup_due(),
            surge_setup_charged: self.surge_setup_due(),
            order_change_cost,
            setup_cost: base_part + surge_part,
            monthly_profit: spec_rows_profit(rows) - order_change_cost - (base_part + surge_part),
        }
    }

    /// The state once the period in progress has been settled.
    pub open spec fn settled_state(
        &self,
        params: SimulationParams,
        pair: SupplierPair,
        use_actual: bool,
        raw_samples: Seq<i64>,
    ) -> SeasonModel {
        let result = self.period_result(params, pair, use_actual, raw_samples);
        SeasonModel {
            period: self.period,
            settled: true,
            inventories: spec_inventories_after(result.rows),
            order: self.order_in_effect(),
            pending: if self.takes_effect() {
                None
            } else {
                self.pending
            },
            base_setup_charged: self.base_setup_charged || self.base_setup_due(),
            surge_setup_charged: self.surge_setup_charged || self.surge_setup_due(),
            total_profit: self.total_profit + result.monthly_profit,
        }
    }

    /// Whether the option to revise the surge order may be valued now: options
    /// are enabled, no revision is waiting, and the settled period is not the
    /// season's last.
    pub open spec fn option_open(&self, enable_options: bool) -> bool {
        enable_options && self.pending.is_none() && self.period < TOTAL_MONTHS - 1
    }

    /// Whether the option is exercised: it is open, and it is worth more than
    /// the revision fee.
    pub open spec fn exercises(
        &self,
        params: SimulationParams,
        enable_options: bool,
        advice: Option<AdviceModel>,
    ) -> bool {
        match advice {
            Some(a) => self.option_open(enable_options) && a.option_value
                > params.order_change_fee,
            None => false,
        }
    }

    /// The state once the settled period has been closed. If the option is
    /// exercised, the revised plan waits until one surge lead time after this
    /// period, unless that is past the end of the season.
    pub open spec fn closed_state(
        &self,
        params: SimulationParams,
        pair: SupplierPair,
        enable_options: bool,
        advice: Option<AdviceModel>,
    ) -> SeasonModel {
        let effective_period = self.period + pair.surge_supplier.lead_time_months;
        SeasonModel {
            period: self.period + 1,
            settled: false,
            inventories: self.inventories,
            order: self.order,
            pending: if self.exercises(params, enable_options, advice) && effective_period
                < TOTAL_MONTHS {
                Some(
                    PendingModel {
                        scheduled_in: self.period,
                        effective_period,
                        plan: spec_revised_plan(
                            self.order,
                            advice.unwrap().target,
                            pair.surge_supplier.fixed_capacity,
                        ),
                    },
                )
            } else {
                self.pending
            },
            base_setup_charged: self.base_setup_charged,
            surge_setup_charged: self.surge_setup_charged,
            total_profit: self.total_profit,
        }
    }
}

/// The state at the start of a season with the order `initial`: nothing on
/// hand, nothing waiting, nothing charged, nothing earned.
pub open spec fn spec_initial_state(params: SimulationParams, initial: OrderModel) -> SeasonModel {
    SeasonModel {
        period: 0,
        settled: false,
        inventories: Seq::new(params.products@.len(), |i: int| 0u64),
        order: initial,
        pending: None,
        base_setup_charged: false,
        surge_setup_charged: false,
        total_profit: 0,
    }
}

impl SeasonState {
    /// The state at the start of a season.
    pub fn new(params: &SimulationParams, pair: &SupplierPair, initial_order: &MonthlyOrder) -> (state:
        SeasonState)
        requires
            initial_order.wf(),
        ensures
            state@ == spec_initial_state(*params, initial_order@),
            state@.wf(*params, *pair),
    {
        let mut inventories: Vec<u64> = Vec::new();
        let mut i: usize = 0;
        while i < params.products.len()
            invariant
                i <= params.products@.len(),
                inventories@.len() == i,
                forall|j: int| 0 <= j < i ==> inventories@[j] == 0,
            decreases params.products@.len() - i,
        {
            inventories.push(0);
            i += 1;
        }
        let state = SeasonState {
            period: 0,
            settled: false,
            inventories,
            current_order: initial_order.duplicate(),
            pending: PendingChange::NoPendingChange,
            base_setup_charged: false,
            surge_setup_charged: false,
            total_profit: 0,
        };
        proof {
            assert(state@.inventories =~= spec_initial_state(*params, initial_order@).inventories);
        }
        state
    }

    /// Whether an option of this value is worth exercising: it must exceed the
    /// revision fee.
    pub fn worth_exercising(option_value: i128, params: &SimulationParams) -> (worth: bool)
        ensures
            worth == (option_value > params.order_change_fee),
    {
        option_value > params.order_change_fee as i128
    }

    /// Lets the waiting revision take effect if it is due in the period in
    /// progress, and says whether it did.
    pub fn activate_pending(&mut self) -> (activated: bool)
        ensures
            activated == old(self)@.takes_effect(),
            final(self)@ == (SeasonModel {
                order: old(self)@.order_in_effect(),
                pending: if old(self)@.takes_effect() {
                    None
                } else {
                    old(self)@.pending
                },
                ..old(self)@
            }),
    {
        let period: usize = self.period;
        let revised: Option<MonthlyOrder> = match &self.pending {
            PendingChange::Scheduled { scheduled_in: _, effective_period, plan } => {
                if period >= *effective_period {
                    Some(plan.duplicate())
                } else {
                    None
                }
            },
            PendingChange::NoPendingChange => None,
        };
        match revised {
            Some(plan) => {
                self.current_order = plan;
                self.pending = PendingChange::NoPendingChange;
                true
            },
            None => false,
        }
    }

    /// Marks as paid the setup cost of each supplier that ships for the first
    /// time, and returns what was charged: whether the base supplier was,
    /// whether the surge supplier was, and the sum.
    pub fn charge_setup(&mut self, pair: &SupplierPair) -> (charged: (bool, bool, i128))
        requires
            old(self)@.order.wf(),
        ensures
            charged.0 == (old(self)@.order.total_base() > 0 && !old(self).base_setup_charged),
            charged.1 == (old(self)@.order.total_surge() > 0 && !old(self).surge_setup_charged),
            charged.2 == (if charged.0 {
                pair.base_supplier.setup_cost as int
            } else {
                0
            }) + (if charged.1 {
                pair.surge_supplier.setup_cost as int
            } else {
                0
            }),
            final(self)@ == (SeasonModel {
                base_setup_charged: old(self).base_setup_charged || charged.0,
                surge_setup_charged: old(self).surge_setup_charged || charged.1,
                ..old(self)@
            }),
    {
        let base_due: bool = self.current_order.total_base_quantity() > 0
            && !self.base_setup_charged;
        let surge_due: bool = self.current_order.total_surge_quantity() > 0
            && !self.surge_setup_charged;
        let base_part: i128 = if base_due {
            pair.base_supplier.setup_cost as i128
        } else {
            0
        };
        let surge_part: i128 = if surge_due {
            pair.surge_supplier.setup_cost as i128
        } else {
            0
        };
        if base_due {
            self.base_setup_charged = true;
        }
        if surge_due {
            self.surge_setup_charged = true;
        }
        (base_due, surge_due, base_part + surge_part)
    }

    /// Settles the period in progress and returns its ledger.
    pub fn settle_period(
        &mut self,
        params: &SimulationParams,
        pair: &SupplierPair,
        use_actual_demand: bool,
        raw_samples: &Vec<i64>,
    ) -> (result: MonthlyResult)
        requires
            params.wf(),
            old(self)@.wf(*params, *pair),
            !old(self).settled,
            old(self).period < TOTAL_MONTHS,
        ensures
            result@ == old(self)@.period_result(*params, *pair, use_actual_demand, raw_samples@),
            final(self)@ == old(self)@.settled_state(
                *params,
                *pair,
                use_actual_demand,
                raw_samples@,
            ),
            final(self)@.wf(*params, *pair),
    {
        let ghost pre = self@;
        let period: usize = self.period;
        let last_period: bool = period == TOTAL_MONTHS - 1;
        let activated: bool = self.activate_pending();
        let order_change_cost: i64 = if activated {
            params.order_change_fee
        } else {
            0
        };
        let base_shipped: u32 = self.current_order.total_base_quantity();
        let surge_shipped: u32 = self.current_order.total_surge_quantity();
        let (base_setup_charged, surge_setup_charged, setup_cost) = self.charge_setup(pair);
        proof {
            assert forall|i: int| 0 <= i < self.inventories@.len() implies (#[trigger] self.inventories@[i])
                + INCOMING_LIMIT <= INVENTORY_LIMIT by {
                assert(pre.inventories[i] <= pre.periods_settled() * INCOMING_LIMIT);
            }
        }
        let ghost before = self@;
        let (product_results, rows_profit) = settle_products(
            params,
            pair,
            &self.current_order,
            &mut self.inventories,
            use_actual_demand,
            raw_samples,
            last_period,
        );
        let monthly_profit: i128 = rows_profit - (order_change_cost as i128) - setup_cost;
        self.total_profit = self.total_profit + monthly_profit;
        self.settled = true;
        let result = MonthlyResult {
            month: month_name(period),
            product_results,
            base_shipped,
            surge_shipped,
            base_setup_charged,
            surge_setup_charged,
            order_change_cost,
            setup_cost,
            monthly_profit,
        };
        proof {
            let expected = pre.period_result(*params, *pair, use_actual_demand, raw_samples@);
            assert(result@.rows == expected.rows);
            assert(result@ == expected);
            assert(self@.inventories == spec_inventories_after(expected.rows));
            assert(self@ == pre.settled_state(*params, *pair, use_actual_demand, raw_samples@));
            assert forall|i: int| 0 <= i < self@.inventories.len() implies (#[trigger] self@.inventories[i])
                <= self@.periods_settled() * INCOMING_LIMIT by {
                assert(pre.inventories[i] <= pre.periods_settled() * INCOMING_LIMIT);
            }
        }
        result
    }

    /// What the valuer is to be asked once the period in progress has been
    /// settled, if the option to revise the surge order is open.
    pub fn option_query(&self, enable_options: bool) -> (query: Option<OptionQuery>)
        requires
            self.settled,
            self@.order.wf(),
        ensures
            query.is_some() == self@.option_open(enable_options),
            match query {
                Some(q) => {
                    &&& q.order_quantity == self@.order.total_base() + self@.order.total_surge()
                    &&& q.inventory == spec_total_inventory(self.inventories@)
                    &&& q.period == self.period
                },
                None => true,
            },
    {
        let open: bool = match &self.pending {
            PendingChange::NoPendingChange => enable_options && self.period < TOTAL_MONTHS - 1,
            PendingChange::Scheduled { .. } => false,
        };
        if !open {
            return None;
        }
        let base: u64 = self.current_order.total_base_quantity() as u64;
        let surge: u64 = self.current_order.total_surge_quantity() as u64;
        Some(
            OptionQuery {
                order_quantity: base + surge,
                inventory: total_inventory(&self.inventories),
                period: self.period,
            },
        )
    }

    /// Closes the settled period and moves on to the next. With the option open
    /// and `advice` worth more than the revision fee, the revised plan is
    /// scheduled, unless it could only take effect after the season.
    pub fn close_period(
        &mut self,
        params: &SimulationParams,
        pair: &SupplierPair,
        enable_options: bool,
        advice: &Option<RevisionAdvice>,
    )
        requires
            old(self)@.wf(*params, *pair),
            old(self).settled,
        ensures
            final(self)@ == old(self)@.closed_state(
                *params,
                *pair,
                enable_options,
                spec_advice_model(*advice),
            ),
            final(self)@.wf(*params, *pair),
    {
        let ghost pre = self@;
        let period: usize = self.period;
        let open: bool = match &self.pending {
            PendingChange::NoPendingChange => enable_options && period < TOTAL_MONTHS - 1,
            PendingChange::Scheduled { .. } => false,
        };
        if open {
            match advice {
                Some(a) => {
                    let lead: usize = pair.surge_supplier.lead_time_months;
                    if Self::worth_exercising(a.option_value, params) && lead < TOTAL_MONTHS
                        - period {
                        let plan = revise_surge_order(
                            &self.current_order,
                            &a.target,
                            pair.surge_supplier.fixed_capacity,
                        );
                        self.pending = PendingChange::Scheduled {
                            scheduled_in: period,
                            effective_period: period + lead,
                            plan,
                        };
                    }
                },
                None => {},
            }
        }
        self.period = period + 1;
        self.settled = false;
        proof {
            assert(self@ == pre.closed_state(
                *params,
                *pair,
                enable_options,
                spec_advice_model(*advice),
            ));
        }
    }
}

/// Sum of a list of inventories.
pub fn total_inventory(inventories: &Vec<u64>) -> (total: u128)
    ensures
        total == spec_total_inventory(inventories@),
{
    let mut total: u128 = 0;
    let mut i: usize = 0;
    while i < inventories.len()
        invariant
            i <= inventories@.len(),
            total == spec_total_inventory(inventories@.take(i as int)),
            total <= i * u64::MAX,
        decreases inventories@.len() - i,
    {
        proof {
            assert(inventories@.take(i + 1).drop_last() == inventories@.take(i as int));
            assert((i + 1) * u64::MAX == i * u64::MAX + u64::MAX) by (nonlinear_arith);
            assert(i * u64::MAX <= usize::MAX * u64::MAX) by (nonlinear_arith)
                requires
                    i <= usize::MAX,
            ;
        }
        total = total + inventories[i] as u128;
        i += 1;
    }
    proof {
        assert(inventories@.take(inventories@.len() as int) == inventories@);
    }
    total
}

} // verus!
