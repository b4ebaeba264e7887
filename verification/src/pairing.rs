//! Supplier pairs by lead time: a supplier with a long lead time as the base,
//! one with a short lead time as the surge.

use vstd::prelude::*;
use crate::models::{Supplier, SupplierPair};

verus! {

/// Whether `copy` has everything that `source` has.
pub open spec fn spec_same_supplier(copy: Supplier, source: Supplier) -> bool {
    &&& copy.id == source.id
    &&& copy.name@ == source.name@
    &&& copy.fixed_capacity == source.fixed_capacity
    &&& copy.lead_time_months == source.lead_time_months
    &&& copy.unit_costs@ == source.unit_costs@
    &&& copy.setup_cost == source.setup_cost
}

/// Whether `base` may be the base supplier of a pair and `surge` its surge
/// supplier: the base needs a lead time of at least one period, the surge one
/// of less than two, and they must be different suppliers.
pub open spec fn spec_may_pair(base: Supplier, surge: Supplier) -> bool {
    &&& base.lead_time_months >= 1
    &&& surge.lead_time_months < 2
    &&& base.id != surge.id
}

/// The positions of the surge suppliers that pair with the base supplier at
/// position `base`, among the first `count` suppliers, in their order.
pub open spec fn spec_pairs_in_row(suppliers: Seq<Supplier>, base: int, count: int) -> Seq<
    (int, int),
>
    decreases count,
{
    if count <= 0 {
        Seq::empty()
    } else {
        let earlier = spec_pairs_in_row(suppliers, base, count - 1);
        if spec_may_pair(suppliers[base], suppliers[count - 1]) {
            earlier.push((base, count - 1))
        } else {
            earlier
        }
    }
}

/// The positions `(base, surge)` of all pairs whose base supplier is among the
/// first `count` suppliers: ordered by base supplier, then by surge supplier.
pub open spec fn spec_pairs_of_rows(suppliers: Seq<Supplier>, count: int) -> Seq<(int, int)>
    decreases count,
{
    if count <= 0 {
        Seq::empty()
    } else {
        spec_pairs_of_rows(suppliers, count - 1) + spec_pairs_in_row(
            suppliers,
            count - 1,
            suppliers.len() as int,
        )
    }
}

/// The positions `(base, surge)` of all pairs.
pub open spec fn spec_pair_positions(suppliers: Seq<Supplier>) -> Seq<(int, int)> {
    spec_pairs_of_rows(suppliers, suppliers.len() as int)
}

/// Whether `pair` holds copies of the two suppliers at `position`, and these
/// may pair.
pub open spec fn spec_pair_at(pair: SupplierPair, suppliers: Seq<Supplier>, position: (int, int)) -> bool {
    &&& 0 <= position.0 < suppliers.len()
    &&& 0 <= position.1 < suppliers.len()
    &&& spec_same_supplier(pair.base_supplier, suppliers[position.0])
    &&& spec_same_supplier(pair.surge_supplier, suppliers[position.1])
    &&& spec_may_pair(suppliers[position.0], suppliers[position.1])
}

impl Supplier {
    /// A copy of the supplier.
    pub fn duplicate(&self) -> (copy: Supplier)
        ensures
            spec_same_supplier(copy, *self),
    {
        Supplier {
            id: self.id,
            name: self.name.clone(),
            fixed_capacity: self.fixed_capacity,
            lead_time_months: self.lead_time_months,
            unit_costs: self.unit_costs.clone(),
            setup_cost: self.setup_cost,
        }
    }
}

/// Generate supplier pairs based on lead times: every supplier with a lead
/// time of at least one period as base, with every other supplier with a lead
/// time of less than two periods as surge. The pairs come ordered by base
/// supplier, then by surge supplier.
pub fn generate_intelligent_pairs(suppliers: &[Supplier]) -> (pairs: Vec<SupplierPair>)
    ensures
        pairs@.len() == spec_pair_positions(suppliers@).len(),
        forall|k: int|
            0 <= k < pairs@.len() ==> spec_pair_at(
                #[trigger] pairs@[k],
                suppliers@,
                spec_pair_positions(suppliers@)[k],
            ),
        forall|k: int| 0 <= k < pairs@.len() ==> (#[trigger] pairs@[k]).is_eligible(),
{
    let n: usize = suppliers.len();
    let mut pairs: Vec<SupplierPair> = Vec::new();
    let ghost mut positions: Seq<(int, int)> = Seq::empty();
    let mut i: usize = 0;
    while i < n
        invariant
            i <= n,
            n == suppliers@.len(),
            positions == spec_pairs_of_rows(suppliers@, i as int),
            pairs@.len() == positions.len(),
            forall|k: int|
                0 <= k < pairs@.len() ==> spec_pair_at(#[trigger] pairs@[k], suppliers@, positions[k]),
        decreases n - i,
    {
        let ghost before = positions;
        proof {
            assert(positions =~= before + spec_pairs_in_row(suppliers@, i as int, 0));
        }
        let mut j: usize = 0;
        while j < n
            invariant
                i < n,
                j <= n,
                n == suppliers@.len(),
                before == spec_pairs_of_rows(suppliers@, i as int),
                positions == before + spec_pairs_in_row(suppliers@, i as int, j as int),
                pairs@.len() == positions.len(),
                forall|k: int|
                    0 <= k < pairs@.len() ==> spec_pair_at(
                        #[trigger] pairs@[k],
                        suppliers@,
                        positions[k],
                    ),
            decreases n - j,
        {
            let base = &suppliers[i];
            let surge = &suppliers[j];
            if base.lead_time_months >= 1 && surge.lead_time_months < 2 && base.id != surge.id {
                let ghost earlier = positions;
                let ghost held = pairs@;
                proof {
                    positions = positions.push((i as int, j as int));
                    assert(positions =~= before + spec_pairs_in_row(
                        suppliers@,
                        i as int,
                        j + 1,
                    ));
                }
                let pair = SupplierPair {
                    base_supplier: base.duplicate(),
                    surge_supplier: surge.duplicate(),
                };
                assert(spec_pair_at(pair, suppliers@, (i as int, j as int)));
                pairs.push(pair);
                proof {
                    assert forall|k: int| 0 <= k < pairs@.len() implies spec_pair_at(
                        #[trigger] pairs@[k],
                        suppliers@,
                        positions[k],
                    ) by {
                        if k < held.len() {
                            assert(pairs@[k] == held[k]);
                            assert(positions[k] == earlier[k]);
                        }
                    }
                }
            }
            j += 1;
        }
        i += 1;
    }
    pairs
}

} // verus!
