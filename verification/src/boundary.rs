//! Limits: the values beyond which a new sample counts as a regression.
//!
//! A limit lies at a distance from the mean of the baseline that is the
//! standard deviation times a critical value: the quantile of the test's
//! distribution that belongs to the boundary probability. Critical values
//! come in millionths and may be negative, which puts the limit on the far
//! side of the mean.

use vstd::prelude::*;
use vstd::arithmetic::div_mod::lemma_div_is_ordered;
use vstd::arithmetic::div_mod::lemma_fundamental_div_mod;
use crate::baseline::Baseline;
use crate::baseline::BaselineStats;
use crate::numeric::floor_sqrt;
use crate::numeric::isqrt;
use crate::numeric::lemma_floor_sqrt;
use crate::numeric::lemma_floor_sqrt_monotonic;
use crate::numeric::lemma_floor_sqrt_of_square;
use crate::policy::Boundary;
use crate::policy::BoundarySide;
use crate::policy::StatisticKind;
use crate::policy::StatisticPolicy;

verus! {

/// The square of the number of parts to the unit.
pub const UNIT_SQUARED: u128 = 1_000_000_000_000;

/// The critical values of a policy for one baseline, in millionths: for
/// each side the quantile that belongs to its boundary probability, under
/// the policy's test and with the baseline's degrees of freedom. A side
/// without a quantile has `None`.
#[derive(Debug, Clone, Copy, PartialEq, Eq)]
pub struct CriticalValues {
    pub lower: Option<i64>,
    pub upper: Option<i64>,
}

/// The limits of a policy for one baseline, in the units of the metric.
#[derive(Debug, Clone, Copy, PartialEq, Eq)]
pub struct Limits {
    pub lower: Option<i128>,
    pub upper: Option<i128>,
}

/// The factor, in millionths rounded down, by which the test widens the
/// distance of a limit: one for the z-test, and the square root of
/// `1 + 1/count` for the t-test, which judges a single new observation.
pub open spec fn prediction_factor(test: StatisticKind, count: nat) -> nat {
    match test {
        StatisticKind::Z => 1_000_000,
        StatisticKind::T => floor_sqrt(
            ((count as int + 1) * 1_000_000_000_000 / (count as int)) as nat,
        ),
    }
}

/// The absolute value.
pub open spec fn magnitude(x: int) -> nat {
    if x >= 0 {
        x as nat
    } else {
        (-x) as nat
    }
}

/// The distance of a limit from the mean: the magnitude of the critical
/// value times the standard deviation times the prediction factor, rounded
/// down to whole units of the metric.
pub open spec fn limit_distance(test: StatisticKind, stats: BaselineStats, critical: int) -> nat {
    (magnitude(critical) * stats.std_dev * prediction_factor(test, stats.count)
        / 1_000_000_000_000) as nat
}

/// The limit on one side: the mean minus the distance for the lower side
/// and plus the distance for the upper side, where the critical value is
/// not negative; with a negative critical value the distance is taken the
/// other way.
pub open spec fn limit_value(
    test: StatisticKind,
    stats: BaselineStats,
    side: BoundarySide,
    critical: int,
) -> int {
    let distance = limit_distance(test, stats, critical) as int;
    let offset = if critical >= 0 {
        distance
    } else {
        -distance
    };
    match side {
        BoundarySide::Lower => stats.mean - offset,
        BoundarySide::Upper => stats.mean + offset,
    }
}

/// The limit on one side of a policy: there is none where the side is
/// switched off or has no critical value.
pub open spec fn side_limit(
    test: StatisticKind,
    stats: BaselineStats,
    side: BoundarySide,
    boundary: Option<Boundary>,
    critical: Option<i64>,
) -> Option<i128> {
    if boundary is Some && critical is Some {
        Some(limit_value(test, stats, side, critical->0 as int) as i128)
    } else {
        None
    }
}

/// The two limits of a policy for a baseline.
pub open spec fn limits_of(policy: StatisticPolicy, stats: BaselineStats, critical: CriticalValues)
    -> Limits {
    Limits {
        lower: side_limit(
            policy.test,
            stats,
            BoundarySide::Lower,
            policy.lower_boundary,
            critical.lower,
        ),
        upper: side_limit(
            policy.test,
            stats,
            BoundarySide::Upper,
            policy.upper_boundary,
            critical.upper,
        ),
    }
}

/// The prediction factor lies between one and the square root of two.
pub proof fn lemma_prediction_factor_bounds(test: StatisticKind, count: nat)
    requires
        count >= 1,
    ensures
        1_000_000 <= prediction_factor(test, count) <= 1_414_213,
{
    if test == StatisticKind::T {
        let n = count as int;
        let x = (n + 1) * 1_000_000_000_000 / n;
        lemma_div_is_ordered(n * 1_000_000_000_000, (n + 1) * 1_000_000_000_000, n);
        lemma_div_is_ordered((n + 1) * 1_000_000_000_000, n * 2_000_000_000_000, n);
        vstd::arithmetic::div_mod::lemma_div_multiples_vanish(1_000_000_000_000, n);
        vstd::arithmetic::div_mod::lemma_div_multiples_vanish(2_000_000_000_000, n);
        assert(1_000_000_000_000 <= x <= 2_000_000_000_000);
        lemma_floor_sqrt(x as nat);
        lemma_floor_sqrt_monotonic(1_000_000_000_000, x as nat);
        assert(1_000_000_000_000 == 1_000_000nat * 1_000_000nat) by (nonlinear_arith);
        lemma_floor_sqrt_of_square(1_000_000);
        let r = floor_sqrt(x as nat) as int;
        assert(r <= 1_414_213) by (nonlinear_arith)
            requires
                r * r <= x,
                x <= 2_000_000_000_000,
        ;
    }
}

/// Computes the prediction factor of a test for a baseline of `count`
/// samples.
pub fn prediction_factor_of(test: StatisticKind, count: u32) -> (factor: u64)
    requires
        count >= 1,
    ensures
        factor == prediction_factor(test, count as nat),
        1_000_000 <= factor <= 1_414_213,
{
    proof {
        lemma_prediction_factor_bounds(test, count as nat);
    }
    match test {
        StatisticKind::Z => 1_000_000,
        StatisticKind::T => {
            let n: u128 = count as u128;
            let radicand: u128 = (n + 1) * UNIT_SQUARED / n;
            isqrt(radicand) as u64
        },
    }
}

/// Computes the limit on one side of the baseline for a critical value in
/// millionths.
pub fn limit(baseline: &Baseline, test: StatisticKind, side: BoundarySide, critical: i64) -> (limit:
    i128)
    ensures
        limit == limit_value(test, baseline@, side, critical as int),
{
    let count: u32 = baseline.count();
    let std_dev: u128 = baseline.std_dev() as u128;
    let factor: u128 = prediction_factor_of(test, count) as u128;
    let size: u128 = if critical >= 0 {
        critical as u128
    } else {
        (-(critical as i128)) as u128
    };
    proof {
        assert(size * std_dev <= 0x8000_0000_0000_0000 * 0x200_0000_0000) by (nonlinear_arith)
            requires
                size <= 0x8000_0000_0000_0000,
                std_dev <= 0x200_0000_0000,
        ;
        assert(size * std_dev * factor <= 0x8000_0000_0000_0000 * 0x200_0000_0000 * 1_414_213)
            by (nonlinear_arith)
            requires
                size * std_dev <= 0x8000_0000_0000_0000 * 0x200_0000_0000,
                factor <= 1_414_213,
        ;
    }
    let product: u128 = size * std_dev * factor;
    let distance: u128 = product / UNIT_SQUARED;
    proof {
        lemma_fundamental_div_mod(product as int, UNIT_SQUARED as int);
    }
    let offset: i128 = if critical >= 0 {
        distance as i128
    } else {
        -(distance as i128)
    };
    match side {
        BoundarySide::Lower => baseline.mean() as i128 - offset,
        BoundarySide::Upper => baseline.mean() as i128 + offset,
    }
}

/// Computes the limits of a policy for a baseline. A side has a limit where
/// the policy gives it a boundary and a critical value is at hand.
pub fn limits(baseline: &Baseline, policy: &StatisticPolicy, critical: &CriticalValues) -> (limits:
    Limits)
    ensures
        limits == limits_of(*policy, baseline@, *critical),
{
    let lower: Option<i128> = match (policy.lower_boundary, critical.lower) {
        (Some(_), Some(c)) => Some(limit(baseline, policy.test, BoundarySide::Lower, c)),
        _ => None,
    };
    let upper: Option<i128> = match (policy.upper_boundary, critical.upper) {
        (Some(_), Some(c)) => Some(limit(baseline, policy.test, BoundarySide::Upper, c)),
        _ => None,
    };
    Limits { lower, upper }
}

/// Where the history does not vary, each limit is the mean, whatever the
/// test and the critical value.
pub proof fn lemma_limit_without_deviation(
    test: StatisticKind,
    stats: BaselineStats,
    side: BoundarySide,
    critical: int,
)
    requires
        stats.std_dev == 0,
    ensures
        limit_value(test, stats, side, critical) == stats.mean,
{
    assert(magnitude(critical) * 0 * prediction_factor(test, stats.count) == 0) by (nonlinear_arith);
}

/// With more samples the t-test widens a limit less: its prediction
/// factor does not grow with the count, is never below that of the z-test,
/// and equals it from half a million samples on.
pub proof fn lemma_prediction_factor_narrows(count: nat)
    requires
        count >= 1,
    ensures
        prediction_factor(StatisticKind::T, count + 1) <= prediction_factor(StatisticKind::T, count),
        prediction_factor(StatisticKind::T, count) >= prediction_factor(StatisticKind::Z, count),
        count >= 500_000 ==> prediction_factor(StatisticKind::T, count) == prediction_factor(
            StatisticKind::Z,
            count,
        ),
{
    let n = count as int;
    let unit: int = 1_000_000_000_000;
    let here = (n + 1) * unit / n;
    let next = (n + 2) * unit / (n + 1);
    lemma_prediction_factor_bounds(StatisticKind::T, count);
    lemma_prediction_factor_bounds(StatisticKind::T, count + 1);
    // (n + 2) / (n + 1) <= (n + 1) / n
    lemma_fundamental_div_mod((n + 1) * unit, n);
    lemma_fundamental_div_mod((n + 2) * unit, n + 1);
    let r_here = ((n + 1) * unit) % n;
    let r_next = ((n + 2) * unit) % (n + 1);
    assert(next <= here) by (nonlinear_arith)
        requires
            n >= 1,
            unit > 0,
            (n + 1) * unit == n * here + r_here,
            0 <= r_here < n,
            (n + 2) * unit == (n + 1) * next + r_next,
            0 <= r_next < n + 1,
    {
        // n * (n + 2) <= (n + 1) * (n + 1), so next * n * (n + 1) <= (n + 1) * (here * n + n - 1) + ...
        assert(n * (n + 2) * unit <= (n + 1) * (n + 1) * unit);
        assert(n * ((n + 1) * next) <= n * (n + 2) * unit);
        assert((n + 1) * (n + 1) * unit == (n + 1) * (n * here + r_here));
        assert(n * (n + 1) * next <= (n + 1) * (n * here + r_here));
        assert(n * next <= n * here + r_here);
        assert(n * next < n * (here + 1));
    }
    lemma_floor_sqrt_monotonic(next as nat, here as nat);
    if count >= 500_000 {
        lemma_fundamental_div_mod(unit, n);
        let e = unit / n;
        assert(e <= 2_000_000) by (nonlinear_arith)
            requires
                n >= 500_000,
                unit == n * e + unit % n,
                0 <= unit % n,
                unit == 1_000_000_000_000,
        ;
        assert((n + 1) * unit == (unit + e) * n + unit % n) by (nonlinear_arith)
            requires
                unit == n * e + unit % n,
        ;
        vstd::arithmetic::div_mod::lemma_fundamental_div_mod_converse(
            (n + 1) * unit,
            n,
            unit + e,
            unit % n,
        );
        assert(here == unit + e);
        lemma_floor_sqrt(here as nat);
        let r = floor_sqrt(here as nat) as int;
        assert(r < 1_000_001) by (nonlinear_arith)
            requires
                r * r <= here,
                here <= 1_000_000_000_000 + 2_000_000,
        ;
    }
}

/// The prediction factor of the t-test does not grow with the count.
pub proof fn lemma_prediction_factor_falls(fewer: nat, more: nat)
    requires
        1 <= fewer <= more,
    ensures
        prediction_factor(StatisticKind::T, more) <= prediction_factor(StatisticKind::T, fewer),
    decreases more - fewer,
{
    if fewer < more {
        lemma_prediction_factor_falls(fewer, (more - 1) as nat);
        lemma_prediction_factor_narrows((more - 1) as nat);
    }
}

/// For the t-test, more samples narrow the limit: with the same deviation,
/// a count that is no smaller, and a critical value that is no greater in
/// magnitude, as the quantiles of Student's t are for more degrees of
/// freedom, the limit lies no farther from the mean. It never lies nearer
/// than that of the z-test for the same critical value, and from half a
/// million samples on the two are the same.
pub proof fn lemma_distance_narrows(
    fewer: BaselineStats,
    more: BaselineStats,
    wide: int,
    narrow: int,
)
    requires
        1 <= fewer.count <= more.count,
        fewer.std_dev == more.std_dev,
        magnitude(narrow) <= magnitude(wide),
    ensures
        limit_distance(StatisticKind::T, more, narrow) <= limit_distance(
            StatisticKind::T,
            fewer,
            wide,
        ),
        limit_distance(StatisticKind::T, more, narrow) >= limit_distance(
            StatisticKind::Z,
            more,
            narrow,
        ),
        more.count >= 500_000 ==> limit_distance(StatisticKind::T, more, narrow) == limit_distance(
            StatisticKind::Z,
            more,
            narrow,
        ),
{
    lemma_prediction_factor_falls(fewer.count, more.count);
    lemma_prediction_factor_narrows(more.count);
    let deviation = more.std_dev as int;
    let z = prediction_factor(StatisticKind::Z, more.count) as int;
    let t_more = prediction_factor(StatisticKind::T, more.count) as int;
    let t_fewer = prediction_factor(StatisticKind::T, fewer.count) as int;
    let a = magnitude(narrow) as int;
    let b = magnitude(wide) as int;
    assert(a * deviation * z <= a * deviation * t_more && a * deviation * t_more <= b * deviation
        * t_fewer) by (nonlinear_arith)
        requires
            0 <= a <= b,
            0 <= deviation,
            0 <= z <= t_more <= t_fewer,
    ;
    lemma_div_is_ordered(a * deviation * z, a * deviation * t_more, 1_000_000_000_000);
    lemma_div_is_ordered(a * deviation * t_more, b * deviation * t_fewer, 1_000_000_000_000);
}

/// A critical value of greater magnitude puts the limit farther from the
/// mean, or leaves it where it is.
pub proof fn lemma_distance_grows(
    test: StatisticKind,
    stats: BaselineStats,
    smaller: int,
    greater: int,
)
    requires
        magnitude(smaller) <= magnitude(greater),
    ensures
        limit_distance(test, stats, smaller) <= limit_distance(test, stats, greater),
{
    let factor = prediction_factor(test, stats.count) as int;
    let deviation = stats.std_dev as int;
    let a = magnitude(smaller) as int;
    let b = magnitude(greater) as int;
    assert(a * deviation * factor <= b * deviation * factor) by (nonlinear_arith)
        requires
            0 <= a <= b,
            0 <= deviation,
            0 <= factor,
    ;
    lemma_div_is_ordered(a * deviation * factor, b * deviation * factor, 1_000_000_000_000);
}

/// The distance of a limit fits in 87 bits, whatever the critical value of
/// 64 bits.
pub proof fn lemma_distance_bound(test: StatisticKind, stats: BaselineStats, critical: int)
    requires
        stats.count >= 1,
        stats.std_dev <= 0x200_0000_0000,
        i64::MIN <= critical <= i64::MAX,
    ensures
        limit_distance(test, stats, critical) <= 0x4000_0000_0000_0000_0000_00,
{
    lemma_prediction_factor_bounds(test, stats.count);
    let factor = prediction_factor(test, stats.count) as int;
    let deviation = stats.std_dev as int;
    let size = magnitude(critical) as int;
    let most: int = 0x8000_0000_0000_0000int * 0x200_0000_0000int * 1_414_213int;
    assert(size * deviation * factor <= most) by (nonlinear_arith)
        requires
            0 <= size <= 0x8000_0000_0000_0000,
            0 <= deviation <= 0x200_0000_0000,
            0 <= factor <= 1_414_213,
            most == 0x8000_0000_0000_0000int * 0x200_0000_0000int * 1_414_213int,
    ;
    lemma_div_is_ordered(size * deviation * factor, most, 1_000_000_000_000);
}

} // verus!
