use ecopayout::{calculate_payout, payout_in_range};

#[test]
fn regression_pays_nothing() {
    assert_eq!(calculate_payout(6000, 5000), 0);
    assert_eq!(calculate_payout(100, 99), 0);
    assert_eq!(calculate_payout(4000, 4000), 0);
}

#[test]
fn unchanged_metric_above_baseline_pays_bonus() {
    // b == a above 50.49% still pays the small-gain bonus.
    assert_eq!(calculate_payout(6000, 6000), 20);
}

#[test]
fn large_gain_pays_difference() {
    assert_eq!(calculate_payout(4000, 4100), 100);
    assert_eq!(calculate_payout(4000, 5200), 1200);
    assert_eq!(calculate_payout(-500, 7000), 7500);
}

#[test]
fn small_gain_at_or_below_baseline_pays_nothing() {
    assert_eq!(calculate_payout(4000, 4050), 0);
    assert_eq!(calculate_payout(4901, 5000), 0);
}

#[test]
fn small_gain_above_baseline_pays_bonus() {
    assert_eq!(calculate_payout(5950, 6000), 20);
    assert_eq!(calculate_payout(5000, 5099), 1);
    assert_eq!(calculate_payout(5001, 5049), 0);
    assert_eq!(calculate_payout(7200, 7250), 45);
}

#[test]
fn payout_range_check() {
    assert!(payout_in_range(4000, 5200));
    assert!(!payout_in_range(i64::MIN, 1));
    assert!(!payout_in_range(i64::MAX - 10, i64::MAX));
    assert!(!payout_in_range(i64::MAX, i64::MIN));
    assert!(payout_in_range(i64::MAX, 0));
}
