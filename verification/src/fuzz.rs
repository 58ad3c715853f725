//! Exact interval lengths and the seeded fuzz that spreads due dates.
use vstd::prelude::*;
use rand::rngs::StdRng;
use rand::{RngCore, SeedableRng};
use crate::decimal::{lemma_rounding_is_monotonic, round_half_away, Decimal};

verus! {

/// Interval lengths are exact fractions of a day, counted in units of
/// `1 / UNITS_PER_DAY` day: half a day, times a billionth for the multiplier,
/// times a billionth for the interval modifier.
pub const UNITS_PER_DAY: u128 = 2_000_000_000_000_000_000;

/// The length from which every rounding of an interval, fuzzed or not, is
/// past the largest day count: 2^33 days, in units.
pub const INTERVAL_CAP: u128 = 17_179_869_184_000_000_000_000_000_000;

/// Intervals shorter than this, 2.5 days, are not fuzzed.
pub const FUZZ_START: u128 = 5_000_000_000_000_000_000;

/// Seven days, where the second fuzz range begins.
pub const FUZZ_WEEK: u128 = 14_000_000_000_000_000_000;

/// Twenty days, where the last fuzz range begins.
pub const FUZZ_TWENTY_DAYS: u128 = 40_000_000_000_000_000_000;

/// The denominator of a fuzz factor: a factor is `numerator / 2^52`.
pub const FUZZ_FACTOR_SCALE: u64 = 0x10_0000_0000_0000;

/// `x` brought into `[low, high]`: `low` below it, `high` above it.
pub open spec fn spec_clamp(x: int, low: int, high: int) -> int {
    if x < low {
        low
    } else if x > high {
        high
    } else {
        x
    }
}

/// `num / den` as a day count: rounded to the nearest integer, halves going
/// away from zero, then brought into the range of `u32`.
pub open spec fn spec_days(num: int, den: int) -> int
    recommends
        den > 0,
{
    spec_clamp(round_half_away(num, den), 0, u32::MAX as int)
}

/// An exact interval as the engine carries it: negative lengths become 0, and
/// lengths from [`INTERVAL_CAP`] on become the cap.
pub open spec fn spec_saturate(exact: int) -> int {
    spec_clamp(exact, 0, INTERVAL_CAP as int)
}

/// How much of `[start, end)` the interval `[0, interval)` covers.
pub open spec fn spec_covered(interval: int, start: int, end: int) -> int {
    let top = if interval < end {
        interval
    } else {
        end
    };
    if top > start {
        top - start
    } else {
        0
    }
}

/// The fuzz applied to `interval` in both directions, in twentieths of a
/// unit. Intervals under 2.5 days get none. All others get one day, plus 15%
/// of their days in `[2.5, 7)`, 10% of those in `[7, 20)` and 5% of those
/// from 20 on.
pub open spec fn spec_fuzz_delta(interval: int) -> int {
    if interval < FUZZ_START {
        0
    } else {
        20 * UNITS_PER_DAY + 3 * spec_covered(interval, FUZZ_START as int, FUZZ_WEEK as int) + 2
            * spec_covered(interval, FUZZ_WEEK as int, FUZZ_TWENTY_DAYS as int) + if interval
            > FUZZ_TWENTY_DAYS {
            interval - FUZZ_TWENTY_DAYS
        } else {
            0
        }
    }
}

/// The fuzz range around `interval`: the interval less its fuzz, and plus its
/// fuzz, each as a day count.
pub open spec fn spec_fuzz_bounds(interval: int) -> (int, int) {
    (
        spec_days(20 * interval - spec_fuzz_delta(interval), 20 * UNITS_PER_DAY),
        spec_days(20 * interval + spec_fuzz_delta(interval), 20 * UNITS_PER_DAY),
    )
}

/// The fuzz range within `[minimum, maximum]`. A range of one day count above
/// 2 is widened by a day where `maximum` leaves room.
pub open spec fn spec_constrained_fuzz_bounds(interval: int, minimum: int, maximum: int) -> (
    int,
    int,
) {
    let minimum = if minimum < maximum {
        minimum
    } else {
        maximum
    };
    let lower = spec_clamp(spec_fuzz_bounds(interval).0, minimum, maximum);
    let upper = spec_clamp(spec_fuzz_bounds(interval).1, minimum, maximum);
    if upper == lower && upper > 2 && upper < maximum {
        (lower, lower + 1)
    } else {
        (lower, upper)
    }
}

/// The day count that the factor `numerator / 2^52` picks from
/// `[lower, upper]`: `lower` plus that share of the range's length, rounded
/// down.
pub open spec fn spec_pick(numerator: int, lower: int, upper: int) -> int {
    lower + (numerator * (1 + upper - lower)) / (FUZZ_FACTOR_SCALE as int)
}

/// The day count for `interval` within `[minimum, maximum]`: picked from the
/// constrained fuzz range where there is a fuzz factor, else the interval
/// rounded and brought into the range.
pub open spec fn spec_with_review_fuzz(
    fuzz_factor: Option<FuzzFactor>,
    interval: int,
    minimum: int,
    maximum: int,
) -> int {
    match fuzz_factor {
        Some(factor) => {
            let (lower, upper) = spec_constrained_fuzz_bounds(interval, minimum, maximum);
            spec_pick(factor@, lower, upper)
        },
        None => spec_clamp(spec_days(interval, UNITS_PER_DAY as int), minimum, maximum),
    }
}

/// A fuzz factor in `[0, 1)`, held exactly as a numerator over 2^52.
#[derive(Clone, Copy, Debug)]
pub struct FuzzFactor {
    numerator: u64,
}

impl View for FuzzFactor {
    type V = int;

    /// The numerator: the factor is `self@ / 2^52`.
    closed spec fn view(&self) -> int {
        self.numerator as int
    }
}

impl FuzzFactor {
    /// The factor is below 1.
    #[verifier::type_invariant]
    pub closed spec fn wf(self) -> bool {
        self.numerator < FUZZ_FACTOR_SCALE
    }

    /// The factor that a uniform 64-bit word stands for: its upper 52 bits
    /// over 2^52.
    pub fn from_word(word: u64) -> (r: FuzzFactor)
        ensures
            r.wf(),
            r@ == word / 4096,
    {
        FuzzFactor { numerator: word / 4096 }
    }

    /// The numerator of the factor over 2^52.
    pub fn numerator(&self) -> (r: u64)
        ensures
            r == self@,
            r < FUZZ_FACTOR_SCALE,
    {
        proof {
            use_type_invariant(self);
        }
        self.numerator
    }
}

/// The first 64-bit word that the seeded generator gives for `seed`.
pub uninterp spec fn seeded_word(seed: u64) -> u64;

/// Calls `rand::rngs::StdRng::seed_from_u64` and then `next_u64` on the
/// generator. The contract claims only that the word depends on nothing but
/// the seed; which word it is stays unstated.
#[verifier::external_body]
fn first_word(seed: u64) -> (word: u64)
    ensures
        word == seeded_word(seed),
{
    StdRng::seed_from_u64(seed).next_u64()
}

/// A fuzz factor in `[0, 1)` drawn with `seed`; none without a seed.
pub fn get_fuzz_factor(seed: Option<u64>) -> (r: Option<FuzzFactor>)
    ensures
        r is Some <==> seed is Some,
        seed is Some ==> r.unwrap().wf() && r.unwrap()@ == seeded_word(seed.unwrap()) / 4096,
{
    match seed {
        Some(s) => Some(FuzzFactor::from_word(first_word(s))),
        None => None,
    }
}

/// An interval length in units, kept within `[0, INTERVAL_CAP]`.
#[derive(Clone, Copy, Debug)]
pub struct RawInterval {
    units: u128,
}

impl View for RawInterval {
    type V = int;

    /// The length in units of `1 / UNITS_PER_DAY` day.
    closed spec fn view(&self) -> int {
        self.units as int
    }
}

impl RawInterval {
    /// The length is at most [`INTERVAL_CAP`].
    #[verifier::type_invariant]
    pub closed spec fn wf(self) -> bool {
        self.units <= INTERVAL_CAP
    }

    /// The interval of `units` units, cut at the cap.
    pub fn from_units(units: u128) -> (r: RawInterval)
        ensures
            r.wf(),
            r@ == spec_saturate(units as int),
    {
        RawInterval { units: if units > INTERVAL_CAP { INTERVAL_CAP } else { units } }
    }

    /// An interval in half days times billionths, scaled by `modifier`: the
    /// exact product, saturated.
    pub fn from_product(interval: i128, modifier: Decimal) -> (r: RawInterval)
        ensures
            r.wf(),
            r@ == spec_saturate(interval * modifier@),
    {
        let factor: i128 = modifier.nanos as i128;
        if interval == 0 || factor == 0 {
            assert(interval * factor == 0) by (nonlinear_arith)
                requires
                    interval == 0 || factor == 0,
            ;
            return RawInterval { units: 0 };
        }
        if (interval < 0) != (factor < 0) {
            assert(interval * factor <= 0) by (nonlinear_arith)
                requires
                    (interval < 0) != (factor < 0),
            ;
            return RawInterval { units: 0 };
        }
        let a: u128 = if interval < 0 {
            if interval == i128::MIN {
                0x8000_0000_0000_0000_0000_0000_0000_0000u128
            } else {
                (-interval) as u128
            }
        } else {
            interval as u128
        };
        let b: u128 = if factor < 0 {
            (-factor) as u128
        } else {
            factor as u128
        };
        assert(a * b == interval * factor && a * b >= 1) by (nonlinear_arith)
            requires
                (interval < 0) == (factor < 0),
                a == if interval < 0 { -interval } else { interval as int },
                b == if factor < 0 { -factor } else { factor as int },
                a >= 1,
                b >= 1,
        ;
        match a.checked_mul(b) {
            Some(product) => RawInterval::from_units(product),
            None => RawInterval { units: INTERVAL_CAP },
        }
    }

    /// The length in units.
    pub fn units(&self) -> (r: u128)
        ensures
            r == self@,
            r <= INTERVAL_CAP,
    {
        proof {
            use_type_invariant(self);
        }
        self.units
    }
}

/// `num / den` rounded to the nearest day count, halves going up, and cut at
/// the largest day count.
fn to_days(num: u128, den: u128) -> (r: u32)
    requires
        den > 0,
        2 * num + den <= u128::MAX,
        2 * den <= u128::MAX,
    ensures
        r == spec_days(num as int, den as int),
{
    let quotient: u128 = (2 * num + den) / (2 * den);
    if quotient > 0xffff_ffff {
        0xffff_ffff
    } else {
        quotient as u32
    }
}

/// `x` brought into `[low, high]`.
pub(crate) fn clamp_days(x: u32, low: u32, high: u32) -> (r: u32)
    ensures
        r == spec_clamp(x as int, low as int, high as int),
{
    if x < low {
        low
    } else if x > high {
        high
    } else {
        x
    }
}

/// How much of `[start, end)` the interval `[0, interval)` covers.
fn covered(interval: u128, start: u128, end: u128) -> (r: u128)
    ensures
        r == spec_covered(interval as int, start as int, end as int),
{
    let top: u128 = if interval < end {
        interval
    } else {
        end
    };
    if top > start {
        top - start
    } else {
        0
    }
}

/// The interval rounded to whole days.
pub fn rounded_days(interval: RawInterval) -> (r: u32)
    ensures
        r == spec_days(interval@, UNITS_PER_DAY as int),
{
    to_days(interval.units(), UNITS_PER_DAY)
}

/// The amount of fuzz to apply to the interval in both directions, in
/// twentieths of a unit. Short intervals are not fuzzed. All others are
/// fuzzed by a day plus the share of their days in each fuzz range.
pub fn fuzz_delta(interval: RawInterval) -> (delta: u128)
    ensures
        delta == spec_fuzz_delta(interval@),
{
    let units: u128 = interval.units();
    if units < FUZZ_START {
        0
    } else {
        let first: u128 = covered(units, FUZZ_START, FUZZ_WEEK);
        let second: u128 = covered(units, FUZZ_WEEK, FUZZ_TWENTY_DAYS);
        let third: u128 = if units > FUZZ_TWENTY_DAYS {
            units - FUZZ_TWENTY_DAYS
        } else {
            0
        };
        20 * UNITS_PER_DAY + 3 * first + 2 * second + third
    }
}

/// The lower and upper day count of the fuzz range around the interval.
pub fn fuzz_bounds(interval: RawInterval) -> (r: (u32, u32))
    ensures
        (r.0 as int, r.1 as int) == spec_fuzz_bounds(interval@),
        r.0 <= r.1,
{
    let units: u128 = interval.units();
    let delta: u128 = fuzz_delta(interval);
    let scaled: u128 = 20 * units;
    assert(delta <= scaled);
    (to_days(scaled - delta, 20 * UNITS_PER_DAY), to_days(scaled + delta, 20 * UNITS_PER_DAY))
}

/// The bounds of the fuzz range, respecting `minimum` and `maximum`. The upper
/// bound is made larger than the lower one where `maximum` allows it and it
/// is larger than 2.
pub fn constrained_fuzz_bounds(interval: RawInterval, minimum: u32, maximum: u32) -> (r: (
    u32,
    u32,
))
    ensures
        (r.0 as int, r.1 as int) == spec_constrained_fuzz_bounds(
            interval@,
            minimum as int,
            maximum as int,
        ),
        r.0 <= r.1,
{
    let minimum: u32 = if minimum < maximum {
        minimum
    } else {
        maximum
    };
    let (lower, upper) = fuzz_bounds(interval);
    let lower: u32 = clamp_days(lower, minimum, maximum);
    let upper: u32 = clamp_days(upper, minimum, maximum);
    if upper == lower && upper > 2 && upper < maximum {
        (lower, lower + 1)
    } else {
        (lower, upper)
    }
}

/// The day count for `interval` within `[minimum, maximum]`: with a fuzz
/// factor, the day that the factor picks from the constrained fuzz range;
/// without one, the interval rounded and brought into the range.
pub fn with_review_fuzz(
    fuzz_factor: Option<FuzzFactor>,
    interval: RawInterval,
    minimum: u32,
    maximum: u32,
) -> (r: u32)
    requires
        fuzz_factor is None ==> minimum <= maximum,
    ensures
        r == spec_with_review_fuzz(fuzz_factor, interval@, minimum as int, maximum as int),
{
    match fuzz_factor {
        Some(factor) => {
            let (lower, upper) = constrained_fuzz_bounds(interval, minimum, maximum);
            let numerator: u128 = factor.numerator() as u128;
            let width: u128 = 1 + (upper - lower) as u128;
            proof {
                lemma_share_is_below_width(numerator as int, width as int);
            }
            let share: u128 = numerator * width / (FUZZ_FACTOR_SCALE as u128);
            lower + share as u32
        },
        None => clamp_days(rounded_days(interval), minimum, maximum),
    }
}

/// A share of a width, taken with a factor below 1, is a whole number below
/// the width.
proof fn lemma_share_is_below_width(numerator: int, width: int)
    requires
        0 <= numerator < FUZZ_FACTOR_SCALE,
        0 < width,
    ensures
        0 <= numerator * width < FUZZ_FACTOR_SCALE * width,
        0 <= (numerator * width) / (FUZZ_FACTOR_SCALE as int) < width,
{
    assert(0 <= numerator * width < FUZZ_FACTOR_SCALE * width) by (nonlinear_arith)
        requires
            0 <= numerator < FUZZ_FACTOR_SCALE,
            0 < width,
    ;
    vstd::arithmetic::div_mod::lemma_div_pos_is_pos(numerator * width, FUZZ_FACTOR_SCALE as int);
    vstd::arithmetic::div_mod::lemma_div_by_multiple_is_strongly_ordered(
        numerator * width,
        FUZZ_FACTOR_SCALE * width,
        width,
        FUZZ_FACTOR_SCALE as int,
    );
    vstd::arithmetic::div_mod::lemma_div_by_multiple(width, FUZZ_FACTOR_SCALE as int);
}

/// Saturating an interval changes neither its rounding nor its fuzz range:
/// below 0 all of them are 0, and from the cap on all are the largest day
/// count.
pub proof fn lemma_saturation_keeps_days(exact: int)
    ensures
        spec_days(exact, UNITS_PER_DAY as int) == spec_days(
            spec_saturate(exact),
            UNITS_PER_DAY as int,
        ),
        spec_fuzz_bounds(exact) == spec_fuzz_bounds(spec_saturate(exact)),
{
    if exact < 0 {
        assert(round_half_away(exact, UNITS_PER_DAY as int) <= 0);
        assert(round_half_away(20 * exact, 20 * UNITS_PER_DAY) <= 0);
    } else if exact > INTERVAL_CAP {
        let cap = INTERVAL_CAP as int;
        let den = 20 * UNITS_PER_DAY;
        let low = 20 * exact - spec_fuzz_delta(exact);
        let low_at_cap = 20 * cap - spec_fuzz_delta(cap);
        let high = 20 * exact + spec_fuzz_delta(exact);
        assert(0 <= low_at_cap <= low <= high);
        lemma_quotient_is_at_least(2 * cap + UNITS_PER_DAY, 2 * UNITS_PER_DAY, 0x1_0000_0000);
        lemma_quotient_is_at_least(2 * low_at_cap + den, 2 * den, 0x1_0000_0000);
        lemma_rounding_is_monotonic(cap, exact, UNITS_PER_DAY as int);
        lemma_rounding_is_monotonic(low_at_cap, low, den);
        lemma_rounding_is_monotonic(low_at_cap, high, den);
        lemma_rounding_is_monotonic(low_at_cap, 20 * cap + spec_fuzz_delta(cap), den);
    }
}

/// With `minimum <= maximum`, the day count chosen for an interval lies in
/// `[minimum, maximum]`, fuzzed or not.
pub proof fn lemma_review_fuzz_stays_in_range(
    fuzz_factor: Option<FuzzFactor>,
    interval: int,
    minimum: int,
    maximum: int,
)
    requires
        fuzz_factor is Some ==> fuzz_factor.unwrap().wf(),
        minimum <= maximum,
    ensures
        minimum <= spec_with_review_fuzz(fuzz_factor, interval, minimum, maximum) <= maximum,
{
    match fuzz_factor {
        Some(factor) => {
            let (lower, upper) = spec_constrained_fuzz_bounds(interval, minimum, maximum);
            lemma_fuzz_bounds_are_ordered(interval);
            assert(minimum <= lower <= upper <= maximum);
            lemma_share_is_below_width(factor@, 1 + upper - lower);
        },
        None => {},
    }
}

/// A numerator of at least `q * d` gives a quotient of at least `q`.
proof fn lemma_quotient_is_at_least(x: int, d: int, q: int)
    requires
        0 <= q,
        0 < d,
        q * d <= x,
    ensures
        q <= x / d,
{
    vstd::arithmetic::div_mod::lemma_div_by_multiple(q, d);
    vstd::arithmetic::div_mod::lemma_div_is_ordered(q * d, x, d);
}

/// The lower end of a fuzz range is not above its upper end.
pub proof fn lemma_fuzz_bounds_are_ordered(interval: int)
    ensures
        spec_fuzz_bounds(interval).0 <= spec_fuzz_bounds(interval).1,
{
    let delta = spec_fuzz_delta(interval);
    assert(delta >= 0);
    lemma_rounding_is_monotonic(20 * interval - delta, 20 * interval + delta, 20 * UNITS_PER_DAY);
}

} // verus!
