use vstd::prelude::*;

verus! {

/// Scaled metric value that stands for 50.00%.
pub const BASELINE: i64 = 5000;

/// Smallest improvement (one percentage point, scaled) that pays linearly.
pub const STEP: i64 = 100;

/// Tokens owed when the metric moves from `former` to `current`.
///
/// A regression pays nothing, an improvement of at least one percentage point
/// pays one token per scaled unit, and a smaller improvement pays two tokens
/// per percentage point above the 50% baseline.
pub open spec fn payout(former: int, current: int) -> int {
    let diff = current - former;
    if diff < 0 {
        0
    } else if diff < STEP {
        let above_fifty = current - BASELINE;
        if above_fifty > 0 {
            above_fifty * 2 / 100
        } else {
            0
        }
    } else {
        diff
    }
}

/// The payout of a move from `former` to `current` can be computed in `i64`.
pub open spec fn payout_fits(former: int, current: int) -> bool {
    &&& i64::MIN <= current - former <= i64::MAX
    &&& (0 <= current - former < STEP && current > BASELINE) ==> (current - BASELINE) * 2
        <= i64::MAX
}

/// Computes the tokens owed for a move of the metric from `former_ecostate`
/// to `current_ecostate`.
pub fn calculate_payout(former_ecostate: i64, current_ecostate: i64) -> (r: i64)
    requires
        payout_fits(former_ecostate as int, current_ecostate as int),
    ensures
        r == payout(former_ecostate as int, current_ecostate as int),
        r >= 0,
{
    let diff: i64 = current_ecostate - former_ecostate;
    if diff < 0 {
        0
    } else if diff < STEP {
        if current_ecostate > BASELINE {
            let above_fifty: i64 = current_ecostate - BASELINE;
            (above_fifty * 2) / 100
        } else {
            0
        }
    } else {
        diff
    }
}

/// Tells whether [`calculate_payout`] can be called on these values.
pub fn payout_in_range(former_ecostate: i64, current_ecostate: i64) -> (r: bool)
    ensures
        r == payout_fits(former_ecostate as int, current_ecostate as int),
{
    let diff: i128 = current_ecostate as i128 - former_ecostate as i128;
    if diff < i64::MIN as i128 || diff > i64::MAX as i128 {
        false
    } else if 0 <= diff && diff < STEP as i128 && current_ecostate > BASELINE {
        (current_ecostate as i128 - BASELINE as i128) * 2 <= i64::MAX as i128
    } else {
        true
    }
}

/// A regression of the metric pays nothing; so does an unchanged metric at or
/// below 50.49%.
pub proof fn lemma_regression_pays_nothing(a: int, b: int)
    requires
        b <= a,
        b < a || b < BASELINE + 50,
    ensures
        payout(a, b) == 0,
{
    if b == a && b > BASELINE {
        assert((b - BASELINE) * 2 < 100);
    }
}

/// An improvement of at least one percentage point pays exactly the scaled
/// difference.
pub proof fn lemma_large_gain_pays_difference(a: int, b: int)
    requires
        b - a >= STEP,
    ensures
        payout(a, b) == b - a,
{
}

/// An improvement below one percentage point that ends at or below 50% pays
/// nothing.
pub proof fn lemma_small_gain_below_baseline_pays_nothing(a: int, b: int)
    requires
        0 <= b - a < STEP,
        b <= BASELINE,
    ensures
        payout(a, b) == 0,
{
}

/// An improvement below one percentage point that ends above 50% pays two
/// tokens per whole percentage point above the baseline.
pub proof fn lemma_small_gain_above_baseline_pays_bonus(a: int, b: int)
    requires
        0 <= b - a < STEP,
        b > BASELINE,
    ensures
        payout(a, b) == (b - BASELINE) * 2 / 100,
{
}

} // verus!
