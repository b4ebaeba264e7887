use supply_chain::statistics::{
    floor_div, integer_sqrt, percentile, summarizable, summarize_profits, MAX_RUNS, PROFIT_LIMIT,
};

#[test]
fn summary_of_a_known_sample() {
    let summary = summarize_profits(&vec![50, -20, 30, 10, 40, 0, 20]).unwrap();
    assert_eq!(summary.count, 7);
    assert_eq!(summary.mean, 18);
    assert_eq!(summary.std_dev, 22);
    assert_eq!(summary.min, -20);
    assert_eq!(summary.max, 50);
    assert_eq!(summary.percentile_10, 0);
    assert_eq!(summary.percentile_25, 10);
    assert_eq!(summary.percentile_50, 20);
    assert_eq!(summary.percentile_75, 40);
    assert_eq!(summary.percentile_90, 40);
}

#[test]
fn median_of_an_odd_sample_is_its_middle_value() {
    let sample = vec![9, 1, 8, 2, 7, 3, 6, 4, 5];
    let mut sorted = sample.clone();
    sorted.sort();
    let manual_median = sorted[sorted.len() / 2];
    assert_eq!(manual_median, 5);
    assert_eq!(summarize_profits(&sample).unwrap().percentile_50, manual_median);
    assert_eq!(percentile(&sorted, 50), manual_median);
}

#[test]
fn summary_of_one_sample() {
    let summary = summarize_profits(&vec![7]).unwrap();
    assert_eq!(summary.mean, 7);
    assert_eq!(summary.std_dev, 0);
    assert_eq!(summary.min, 7);
    assert_eq!(summary.max, 7);
    assert_eq!(summary.percentile_10, 7);
    assert_eq!(summary.percentile_90, 7);
}

#[test]
fn mean_is_rounded_down() {
    let summary = summarize_profits(&vec![-7, -8]).unwrap();
    assert_eq!(summary.mean, -8);
    assert_eq!(summary.percentile_25, -8);
    assert_eq!(summary.percentile_50, -7);
    let summary = summarize_profits(&vec![7, 8]).unwrap();
    assert_eq!(summary.mean, 7);
}

#[test]
fn summary_of_a_descending_sample() {
    let sample: Vec<i128> = (1..=100).rev().collect();
    let summary = summarize_profits(&sample).unwrap();
    assert_eq!(summary.mean, 50);
    assert_eq!(summary.std_dev, 28);
    assert_eq!(summary.min, 1);
    assert_eq!(summary.max, 100);
    assert_eq!(summary.percentile_10, 11);
    assert_eq!(summary.percentile_25, 26);
    assert_eq!(summary.percentile_50, 51);
    assert_eq!(summary.percentile_75, 75);
    assert_eq!(summary.percentile_90, 90);
}

#[test]
fn no_summary_without_samples() {
    assert!(summarize_profits(&vec![]).is_none());
    assert!(!summarizable(&vec![]));
}

#[test]
fn no_summary_of_a_sample_beyond_the_limit() {
    assert!(summarize_profits(&vec![0, PROFIT_LIMIT + 1]).is_none());
    assert!(summarize_profits(&vec![-PROFIT_LIMIT - 1]).is_none());
    let summary = summarize_profits(&vec![PROFIT_LIMIT, -PROFIT_LIMIT]).unwrap();
    assert_eq!(summary.mean, 0);
    assert_eq!(summary.std_dev, PROFIT_LIMIT);
    assert_eq!(MAX_RUNS, 16_777_216);
}

#[test]
fn percentile_is_monotone_in_its_argument() {
    let sorted = vec![-5, -5, 0, 3, 3, 9, 12, 40];
    let mut previous = percentile(&sorted, 0);
    assert_eq!(previous, -5);
    for p in 1..=120 {
        let value = percentile(&sorted, p);
        assert!(value >= previous);
        previous = value;
    }
    assert_eq!(percentile(&sorted, 100), 40);
    assert_eq!(percentile(&sorted, 120), 40);
    assert_eq!(percentile(&sorted, u32::MAX), 40);
}

#[test]
fn percentile_uses_the_nearest_rank() {
    let sorted = vec![10, 20, 30, 40, 50];
    assert_eq!(percentile(&sorted, 12), 10);
    assert_eq!(percentile(&sorted, 13), 20);
    assert_eq!(percentile(&sorted, 37), 20);
    assert_eq!(percentile(&sorted, 38), 30);
    assert_eq!(percentile(&sorted, 90), 50);
}

#[test]
fn integer_square_roots_round_down() {
    assert_eq!(integer_sqrt(0), 0);
    assert_eq!(integer_sqrt(1), 1);
    assert_eq!(integer_sqrt(3), 1);
    assert_eq!(integer_sqrt(4), 2);
    assert_eq!(integer_sqrt(99), 9);
    assert_eq!(integer_sqrt(1 << 100), 1 << 50);
    assert_eq!(integer_sqrt(u128::MAX), u64::MAX as u128);
}

#[test]
fn floor_division_rounds_toward_minus_infinity() {
    assert_eq!(floor_div(7, 2), 3);
    assert_eq!(floor_div(-7, 2), -4);
    assert_eq!(floor_div(-8, 2), -4);
    assert_eq!(floor_div(-1, 1_000_000), -1);
    assert_eq!(floor_div(0, 5), 0);
}
