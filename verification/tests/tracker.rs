use wordcount_notifier::tracker::{
    evaluate, evaluate_with_margin, Verdict, DEFAULT_MARGIN_PERCENT,
};

#[test]
fn first_positive_count_is_accepted() {
    assert_eq!(evaluate(1, 0), Verdict::Accepted);
}

#[test]
fn zero_over_zero_is_rejected() {
    assert_eq!(evaluate(0, 0), Verdict::Rejected);
}

#[test]
fn same_count_is_rejected() {
    assert_eq!(evaluate(100, 100), Verdict::Rejected);
    assert_eq!(evaluate(2500, 2500), Verdict::Rejected);
    assert_eq!(evaluate(u32::MAX, u32::MAX), Verdict::Rejected);
}

#[test]
fn smaller_count_is_rejected() {
    assert_eq!(evaluate(99, 100), Verdict::Rejected);
    assert_eq!(evaluate(0, 100), Verdict::Rejected);
}

#[test]
fn exactly_one_percent_more_is_rejected() {
    assert_eq!(evaluate(101, 100), Verdict::Rejected);
    assert_eq!(evaluate(202, 200), Verdict::Rejected);
    assert_eq!(evaluate(2525, 2500), Verdict::Rejected);
}

#[test]
fn more_than_one_percent_more_is_accepted() {
    assert_eq!(evaluate(102, 100), Verdict::Accepted);
    assert_eq!(evaluate(103, 100), Verdict::Accepted);
    assert_eq!(evaluate(203, 200), Verdict::Accepted);
    assert_eq!(evaluate(2526, 2500), Verdict::Accepted);
}

#[test]
fn a_fraction_over_the_margin_is_enough() {
    // 50 * 1.01 = 50.5
    assert_eq!(evaluate(50, 50), Verdict::Rejected);
    assert_eq!(evaluate(51, 50), Verdict::Accepted);
    // 150 * 1.01 = 151.5
    assert_eq!(evaluate(151, 150), Verdict::Rejected);
    assert_eq!(evaluate(152, 150), Verdict::Accepted);
}

#[test]
fn verdict_follows_the_rule_on_a_grid() {
    for watermark in 0u32..300 {
        for sample in 0u32..400 {
            let clears = (sample as u64) * 100 > (watermark as u64) * 101;
            let expected = if clears { Verdict::Accepted } else { Verdict::Rejected };
            assert_eq!(evaluate(sample, watermark), expected);
        }
    }
}

#[test]
fn default_margin_is_one_percent() {
    assert_eq!(DEFAULT_MARGIN_PERCENT, 1);
    for watermark in [0u32, 1, 99, 100, 2500, 40_000_000] {
        for sample in [0u32, 1, 100, 101, 102, 2525, 2526, 40_400_000, 40_400_001] {
            assert_eq!(
                evaluate(sample, watermark),
                evaluate_with_margin(sample, watermark, 1)
            );
        }
    }
}

#[test]
fn margin_is_configurable() {
    assert_eq!(evaluate_with_margin(110, 100, 10), Verdict::Rejected);
    assert_eq!(evaluate_with_margin(111, 100, 10), Verdict::Accepted);
    assert_eq!(evaluate_with_margin(100, 100, 0), Verdict::Rejected);
    assert_eq!(evaluate_with_margin(101, 100, 0), Verdict::Accepted);
    assert_eq!(evaluate_with_margin(200, 100, 100), Verdict::Rejected);
    assert_eq!(evaluate_with_margin(201, 100, 100), Verdict::Accepted);
}

#[test]
fn large_counts_do_not_overflow() {
    assert_eq!(evaluate(u32::MAX, u32::MAX - 1), Verdict::Rejected);
    assert_eq!(evaluate(u32::MAX, 4_252_442_866), Verdict::Accepted);
    assert_eq!(evaluate(u32::MAX, 4_252_442_867), Verdict::Rejected);
    assert_eq!(evaluate_with_margin(u32::MAX, 1, u32::MAX), Verdict::Accepted);
    assert_eq!(evaluate_with_margin(u32::MAX, u32::MAX, u32::MAX), Verdict::Rejected);
    assert_eq!(evaluate_with_margin(42_949_673, 1, u32::MAX), Verdict::Rejected);
    assert_eq!(evaluate_with_margin(42_949_674, 1, u32::MAX), Verdict::Accepted);
}
