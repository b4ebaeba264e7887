//! Summary statistics of a sample of season profits: mean, population standard
//! deviation, extremes, and nearest-rank percentiles. All results are whole
//! numbers of minor units; the mean and the standard deviation are rounded
//! down.

use vstd::prelude::*;
use vstd::relations::{sorted_by, total_ordering};

verus! {

/// Largest number of samples that can be summarized.
pub const MAX_RUNS: usize = 16_777_216;

/// Largest magnitude of a sample that can be summarized.
pub const PROFIT_LIMIT: i128 = 1_125_899_906_842_624;

/// Summary of a sample of profits.
#[derive(Clone, Copy, Debug)]
pub struct ProfitSummary {
    pub count: usize,
    pub mean: i128,
    pub std_dev: i128,
    pub min: i128,
    pub max: i128,
    pub percentile_10: i128,
    pub percentile_25: i128,
    pub percentile_50: i128,
    pub percentile_75: i128,
    pub percentile_90: i128,
}

/// The order that samples are sorted by.
pub open spec fn spec_leq() -> spec_fn(i128, i128) -> bool {
    |a: i128, b: i128| a <= b
}

/// The samples in ascending order.
pub open spec fn spec_ascending(samples: Seq<i128>) -> Seq<i128> {
    samples.sort_by(spec_leq())
}

/// Whether each sample is at most the one that follows it.
pub open spec fn spec_is_ascending(samples: Seq<i128>) -> bool {
    forall|i: int, j: int| 0 <= i <= j < samples.len() ==> samples[i] <= samples[j]
}

/// Sum of the samples.
pub open spec fn spec_sum(samples: Seq<i128>) -> int
    decreases samples.len(),
{
    if samples.len() == 0 {
        0
    } else {
        spec_sum(samples.drop_last()) + samples.last()
    }
}

/// Mean of the samples, rounded down.
pub open spec fn spec_mean(samples: Seq<i128>) -> int {
    spec_sum(samples) / (samples.len() as int)
}

/// Sum of the squared distances of the samples from `center`.
pub open spec fn spec_squared_deviations(samples: Seq<i128>, center: int) -> int
    decreases samples.len(),
{
    if samples.len() == 0 {
        0
    } else {
        spec_squared_deviations(samples.drop_last(), center) + (samples.last() - center)
            * (samples.last() - center)
    }
}

/// Population variance of the samples around their mean, rounded down.
pub open spec fn spec_variance(samples: Seq<i128>) -> int {
    spec_squared_deviations(samples, spec_mean(samples)) / (samples.len() as int)
}

/// Whether `root` is the square root of `value`, rounded down.
pub open spec fn spec_is_sqrt(root: int, value: int) -> bool {
    0 <= root && root * root <= value < (root + 1) * (root + 1)
}

/// Position of percentile `percentile` in an ascending sample of `count`
/// values, by nearest rank: `percentile / 100 * (count - 1)`, rounded to the
/// nearest whole number with halves rounded up, and held within the sample.
pub open spec fn spec_percentile_index(percentile: int, count: int) -> int {
    let rank = (percentile * (count - 1) + 50) / 100;
    if rank > count - 1 {
        count - 1
    } else {
        rank
    }
}

/// Percentile `percentile` of an ascending sample.
pub open spec fn spec_percentile(ascending: Seq<i128>, percentile: int) -> i128 {
    ascending[spec_percentile_index(percentile, ascending.len() as int)]
}

/// Whether the samples can be summarized: there is at least one and at most
/// `MAX_RUNS`, and each is within the profit limit.
pub open spec fn spec_summarizable(samples: Seq<i128>) -> bool {
    &&& 1 <= samples.len() <= MAX_RUNS
    &&& forall|i: int|
        0 <= i < samples.len() ==> -PROFIT_LIMIT <= (#[trigger] samples[i]) <= PROFIT_LIMIT
}

/// `summary` is the summary of `samples`.
pub open spec fn spec_summarizes(summary: ProfitSummary, samples: Seq<i128>) -> bool {
    let ascending = spec_ascending(samples);
    &&& summary.count == samples.len()
    &&& summary.mean == spec_mean(samples)
    &&& spec_is_sqrt(summary.std_dev as int, spec_variance(samples))
    &&& summary.min == ascending[0]
    &&& summary.max == ascending[samples.len() - 1]
    &&& summary.percentile_10 == spec_percentile(ascending, 10)
    &&& summary.percentile_25 == spec_percentile(ascending, 25)
    &&& summary.percentile_50 == spec_percentile(ascending, 50)
    &&& summary.percentile_75 == spec_percentile(ascending, 75)
    &&& summary.percentile_90 == spec_percentile(ascending, 90)
}

/// The order of the samples is a total order.
pub proof fn lemma_leq_total()
    ensures
        total_ordering(spec_leq()),
{
    reveal(total_ordering);
    assert(vstd::relations::reflexive(spec_leq()));
    assert(vstd::relations::antisymmetric(spec_leq()));
    assert(vstd::relations::transitive(spec_leq()));
    assert(vstd::relations::strongly_connected(spec_leq()));
}

/// The ascending arrangement has the same values, as often, and is ascending.
pub proof fn lemma_ascending(samples: Seq<i128>)
    ensures
        spec_ascending(samples).to_multiset() == samples.to_multiset(),
        spec_ascending(samples).len() == samples.len(),
        spec_is_ascending(spec_ascending(samples)),
{
    lemma_leq_total();
    samples.lemma_sort_by_ensures(spec_leq());
    let ascending = spec_ascending(samples);
    vstd::seq_lib::to_multiset_len(samples);
    vstd::seq_lib::to_multiset_len(ascending);
    assert forall|i: int, j: int| 0 <= i <= j < ascending.len() implies ascending[i]
        <= ascending[j] by {
        if i < j {
            assert(spec_leq()(ascending[i], ascending[j]));
        }
    }
}

/// An ascending sample is sorted by the order of the samples.
pub proof fn lemma_ascending_is_sorted(ascending: Seq<i128>)
    requires
        spec_is_ascending(ascending),
    ensures
        sorted_by(ascending, spec_leq()),
{
    assert forall|i: int, j: int| 0 <= i < j < ascending.len() implies #[trigger] spec_leq()(
        ascending[i],
        ascending[j],
    ) by {
        assert(ascending[i] <= ascending[j]);
    }
}

/// A percentile's position is within the sample, and a larger percentile never
/// has an earlier position.
pub proof fn lemma_percentile_index(lower: int, higher: int, count: int)
    requires
        0 <= lower <= higher,
        1 <= count,
    ensures
        0 <= spec_percentile_index(lower, count) <= spec_percentile_index(higher, count) < count,
{
    let a = lower * (count - 1) + 50;
    let b = higher * (count - 1) + 50;
    assert(0 <= lower * (count - 1) <= higher * (count - 1)) by (nonlinear_arith)
        requires
            0 <= lower <= higher,
            0 <= count - 1,
    ;
    vstd::arithmetic::div_mod::lemma_div_is_ordered(a, b, 100);
    vstd::arithmetic::div_mod::lemma_div_pos_is_pos(a, 100);
}

/// The percentile function is monotone non-decreasing in its percentile
/// argument: on an ascending sample, a larger percentile never gives a smaller
/// value.
pub proof fn lemma_percentile_monotone(ascending: Seq<i128>, lower: int, higher: int)
    requires
        spec_is_ascending(ascending),
        ascending.len() >= 1,
        0 <= lower <= higher,
    ensures
        spec_percentile(ascending, lower) <= spec_percentile(ascending, higher),
{
    lemma_percentile_index(lower, higher, ascending.len() as int);
}

/// Square root of `value`, rounded down.
pub fn integer_sqrt(value: u128) -> (root: u128)
    ensures
        spec_is_sqrt(root as int, value as int),
{
    let mut low: u128 = 0;
    let mut high: u128 = 0x1_0000_0000_0000_0000;
    assert(0x1_0000_0000_0000_0000int * 0x1_0000_0000_0000_0000int > u128::MAX) by (nonlinear_arith);
    while high - low > 1
        invariant
            low < high <= 0x1_0000_0000_0000_0000,
            low * low <= value < high * high,
        decreases high - low,
    {
        let middle: u128 = low + (high - low) / 2;
        assert(middle * middle <= 0xFFFF_FFFF_FFFF_FFFF * 0xFFFF_FFFF_FFFF_FFFF)
            by (nonlinear_arith)
            requires
                0 <= middle <= 0xFFFF_FFFF_FFFF_FFFF,
        ;
        if middle * middle <= value {
            low = middle;
        } else {
            high = middle;
        }
    }
    low
}

/// `amount / count`, rounded down.
pub fn floor_div(amount: i128, count: u128) -> (quotient: i128)
    requires
        0 < count <= i128::MAX,
        i128::MIN < amount,
    ensures
        quotient == amount as int / count as int,
{
    if amount >= 0 {
        ((amount as u128) / count) as i128
    } else {
        let opposite: u128 = (-amount) as u128;
        let up: u128 = (opposite - 1) / count + 1;
        proof {
            let q = (opposite - 1) as int / count as int;
            vstd::arithmetic::div_mod::lemma_fundamental_div_mod((opposite - 1) as int, count as int);
            vstd::arithmetic::div_mod::lemma_mod_bound((opposite - 1) as int, count as int);
            vstd::arithmetic::div_mod::lemma_div_pos_is_pos((opposite - 1) as int, count as int);
            let r = (opposite - 1) as int % count as int;
            let remainder = count - 1 - r;
            assert(amount == (-(q + 1)) * count + remainder) by (nonlinear_arith)
                requires
                    opposite - 1 == count * q + r,
                    amount == -opposite,
                    remainder == count - 1 - r,
            ;
            vstd::arithmetic::div_mod::lemma_fundamental_div_mod_converse(
                amount as int,
                count as int,
                -(q + 1),
                remainder,
            );
            assert(q <= opposite - 1) by (nonlinear_arith)
                requires
                    opposite - 1 == count * q + r,
                    0 <= r,
                    0 <= q,
                    1 <= count,
            ;
        }
        -(up as i128)
    }
}

/// Percentile `percent` of an ascending sample, by nearest rank.
pub fn percentile(ascending: &Vec<i128>, percent: u32) -> (value: i128)
    requires
        ascending@.len() >= 1,
    ensures
        value == spec_percentile(ascending@, percent as int),
{
    let last: u128 = (ascending.len() - 1) as u128;
    assert(percent * last <= 0xFFFF_FFFF * 0xFFFF_FFFF_FFFF_FFFF) by (nonlinear_arith)
        requires
            0 <= percent <= 0xFFFF_FFFF,
            0 <= last <= 0xFFFF_FFFF_FFFF_FFFF,
    ;
    let rank: u128 = ((percent as u128) * last + 50) / 100;
    let index: usize = if rank > last {
        ascending.len() - 1
    } else {
        rank as usize
    };
    ascending[index]
}

/// Sorts the values in ascending order.
///
/// The body calls `slice::sort`. Believed of it, as its documentation says:
/// afterwards each value is at most the one that follows it, and the vector
/// holds the same values as before, each as often as before.
#[verifier::external_body]
fn sort_ascending(values: &mut Vec<i128>)
    ensures
        spec_is_ascending(final(values)@),
        final(values)@.to_multiset() == old(values)@.to_multiset(),
{
    values.sort();
}

/// Whether the samples can be summarized.
pub fn summarizable(samples: &Vec<i128>) -> (ok: bool)
    ensures
        ok == spec_summarizable(samples@),
{
    if samples.len() < 1 || samples.len() > MAX_RUNS {
        return false;
    }
    let mut i: usize = 0;
    while i < samples.len()
        invariant
            i <= samples@.len(),
            forall|j: int| 0 <= j < i ==> -PROFIT_LIMIT <= (#[trigger] samples@[j]) <= PROFIT_LIMIT,
        decreases samples@.len() - i,
    {
        if samples[i] < -PROFIT_LIMIT || samples[i] > PROFIT_LIMIT {
            return false;
        }
        i += 1;
    }
    true
}

/// Sum of the samples.
pub fn sum_of(samples: &Vec<i128>) -> (sum: i128)
    requires
        spec_summarizable(samples@),
    ensures
        sum == spec_sum(samples@),
        -samples@.len() * PROFIT_LIMIT <= sum <= samples@.len() * PROFIT_LIMIT,
{
    let mut sum: i128 = 0;
    let mut i: usize = 0;
    while i < samples.len()
        invariant
            i <= samples@.len(),
            spec_summarizable(samples@),
            sum == spec_sum(samples@.take(i as int)),
            -i * PROFIT_LIMIT <= sum <= i * PROFIT_LIMIT,
        decreases samples@.len() - i,
    {
        proof {
            assert(samples@.take(i + 1).drop_last() == samples@.take(i as int));
            assert((i + 1) * PROFIT_LIMIT == i * PROFIT_LIMIT + PROFIT_LIMIT) by (nonlinear_arith);
            assert(i * PROFIT_LIMIT <= MAX_RUNS * PROFIT_LIMIT) by (nonlinear_arith)
                requires
                    i <= MAX_RUNS,
            ;
        }
        sum = sum + samples[i];
        i += 1;
    }
    proof {
        assert(samples@.take(samples@.len() as int) == samples@);
    }
    sum
}

/// Sum of the squared distances of the samples from `center`.
pub fn squared_deviations(samples: &Vec<i128>, center: i128) -> (total: u128)
    requires
        spec_summarizable(samples@),
        -PROFIT_LIMIT <= center <= PROFIT_LIMIT,
    ensures
        total == spec_squared_deviations(samples@, center as int),
        total <= samples@.len() * (4 * PROFIT_LIMIT * PROFIT_LIMIT),
{
    let mut total: u128 = 0;
    let mut i: usize = 0;
    while i < samples.len()
        invariant
            i <= samples@.len(),
            spec_summarizable(samples@),
            -PROFIT_LIMIT <= center <= PROFIT_LIMIT,
            total == spec_squared_deviations(samples@.take(i as int), center as int),
            total <= i * (4 * PROFIT_LIMIT * PROFIT_LIMIT),
        decreases samples@.len() - i,
    {
        let distance: i128 = samples[i] - center;
        proof {
            assert(samples@.take(i + 1).drop_last() == samples@.take(i as int));
            assert(0 <= distance * distance <= 4 * PROFIT_LIMIT * PROFIT_LIMIT)
                by (nonlinear_arith)
                requires
                    -2 * PROFIT_LIMIT <= distance <= 2 * PROFIT_LIMIT,
            ;
            assert((i + 1) * (4 * PROFIT_LIMIT * PROFIT_LIMIT) == i * (4 * PROFIT_LIMIT
                * PROFIT_LIMIT) + 4 * PROFIT_LIMIT * PROFIT_LIMIT) by (nonlinear_arith);
            assert(i * (4 * PROFIT_LIMIT * PROFIT_LIMIT) <= MAX_RUNS * (4 * PROFIT_LIMIT
                * PROFIT_LIMIT)) by (nonlinear_arith)
                requires
                    i <= MAX_RUNS,
            ;
        }
        total = total + (distance * distance) as u128;
        i += 1;
    }
    proof {
        assert(samples@.take(samples@.len() as int) == samples@);
    }
    total
}

/// The mean is within the limit that the samples are within.
pub proof fn lemma_mean_bounds(samples: Seq<i128>)
    requires
        spec_summarizable(samples),
        -samples.len() * PROFIT_LIMIT <= spec_sum(samples) <= samples.len() * PROFIT_LIMIT,
    ensures
        -PROFIT_LIMIT <= spec_mean(samples) <= PROFIT_LIMIT,
{
    let n = samples.len() as int;
    let sum = spec_sum(samples);
    vstd::arithmetic::div_mod::lemma_div_is_ordered(sum, n * PROFIT_LIMIT, n);
    vstd::arithmetic::div_mod::lemma_div_is_ordered(-n * PROFIT_LIMIT, sum, n);
    vstd::arithmetic::div_mod::lemma_div_multiples_vanish(PROFIT_LIMIT as int, n);
    vstd::arithmetic::div_mod::lemma_div_multiples_vanish(-PROFIT_LIMIT as int, n);
    assert(n * PROFIT_LIMIT == PROFIT_LIMIT * n) by (nonlinear_arith);
    assert(-n * PROFIT_LIMIT == (-PROFIT_LIMIT) * n) by (nonlinear_arith);
}

/// Summarizes a sample of profits. There is a summary exactly when there is at
/// least one sample and at most `MAX_RUNS`, each within the profit limit.
pub fn summarize_profits(samples: &Vec<i128>) -> (summary: Option<ProfitSummary>)
    ensures
        summary.is_some() == spec_summarizable(samples@),
        match summary {
            Some(s) => spec_summarizes(s, samples@),
            None => true,
        },
{
    if !summarizable(samples) {
        return None;
    }
    let count: usize = samples.len();
    let sum: i128 = sum_of(samples);
    proof {
        lemma_mean_bounds(samples@);
        assert(count * PROFIT_LIMIT <= MAX_RUNS * PROFIT_LIMIT) by (nonlinear_arith)
            requires
                count <= MAX_RUNS,
        ;
    }
    let mean: i128 = floor_div(sum, count as u128);
    let deviations: u128 = squared_deviations(samples, mean);
    let variance: u128 = deviations / (count as u128);
    let std_dev: u128 = integer_sqrt(variance);
    proof {
        assert(std_dev <= variance) by (nonlinear_arith)
            requires
                std_dev * std_dev <= variance,
                0 <= std_dev,
        ;
        assert(deviations as int / count as int <= deviations) by {
            vstd::arithmetic::div_mod::lemma_div_is_ordered_by_denominator(
                deviations as int,
                1,
                count as int,
            );
        }
        assert(deviations <= MAX_RUNS * (4 * PROFIT_LIMIT * PROFIT_LIMIT)) by {
            assert(count * (4 * PROFIT_LIMIT * PROFIT_LIMIT) <= MAX_RUNS * (4 * PROFIT_LIMIT
                * PROFIT_LIMIT)) by (nonlinear_arith)
                requires
                    count <= MAX_RUNS,
            ;
        }
    }
    let mut ascending: Vec<i128> = copy_samples(samples);
    sort_ascending(&mut ascending);
    proof {
        lemma_ascending(samples@);
        lemma_leq_total();
        lemma_ascending_is_sorted(ascending@);
        lemma_ascending_is_sorted(spec_ascending(samples@));
        vstd::seq_lib::lemma_sorted_unique(ascending@, spec_ascending(samples@), spec_leq());
        assert(ascending@ == spec_ascending(samples@));
    }
    Some(
        ProfitSummary {
            count,
            mean,
            std_dev: std_dev as i128,
            min: ascending[0],
            max: ascending[count - 1],
            percentile_10: percentile(&ascending, 10),
            percentile_25: percentile(&ascending, 25),
            percentile_50: percentile(&ascending, 50),
            percentile_75: percentile(&ascending, 75),
            percentile_90: percentile(&ascending, 90),
        },
    )
}

/// A copy of the samples.
pub fn copy_samples(samples: &Vec<i128>) -> (copy: Vec<i128>)
    ensures
        copy@ == samples@,
{
    let mut copy: Vec<i128> = Vec::new();
    let mut i: usize = 0;
    while i < samples.len()
        invariant
            i <= samples@.len(),
            copy@ == samples@.take(i as int),
        decreases samples@.len() - i,
    {
        copy.push(samples[i]);
        proof {
            assert(samples@.take(i + 1) == samples@.take(i as int).push(samples@[i as int]));
        }
        i += 1;
    }
    proof {
        assert(samples@.take(samples@.len() as int) == samples@);
    }
    copy
}

} // verus!
