use anki_srs_kai::decimal::Decimal;
use anki_srs_kai::fuzz::{
    constrained_fuzz_bounds, fuzz_bounds, fuzz_delta, get_fuzz_factor, rounded_days,
    with_review_fuzz, FuzzFactor, RawInterval, FUZZ_FACTOR_SCALE, INTERVAL_CAP, UNITS_PER_DAY,
};
use rand::rngs::StdRng;
use rand::{Rng, SeedableRng};

/// An interval of `thousandths` thousandths of a day.
fn interval(thousandths: u64) -> RawInterval {
    RawInterval::from_units(thousandths as u128 * (UNITS_PER_DAY / 1000))
}

/// A fuzz delta of `thousandths` thousandths of a day, as `fuzz_delta` counts it.
fn delta(thousandths: u64) -> u128 {
    thousandths as u128 * (20 * UNITS_PER_DAY / 1000)
}

/// The fuzz factor `numerator / 2^52`.
fn factor(numerator: u64) -> FuzzFactor {
    FuzzFactor::from_word(numerator << 12)
}

const HALF: u64 = 1 << 51;
const ALMOST_ONE: u64 = (1 << 52) - 1;

#[test]
fn fuzz_factor_matches_a_uniform_draw_from_the_seeded_generator() {
    for seed in (0u64..500).chain([123, u64::MAX, 1 << 40, 0xdead_beef]) {
        let drawn: f64 = StdRng::seed_from_u64(seed).gen_range(0.0..1.0);
        let ours = get_fuzz_factor(Some(seed)).unwrap();
        assert!(ours.numerator() < FUZZ_FACTOR_SCALE);
        assert_eq!(ours.numerator() as f64 / FUZZ_FACTOR_SCALE as f64, drawn);
    }
}

#[test]
fn no_seed_gives_no_fuzz_factor() {
    assert!(get_fuzz_factor(None).is_none());
}

#[test]
fn fuzz_factor_differs_from_seed_to_seed() {
    let a = get_fuzz_factor(Some(1)).unwrap().numerator();
    let b = get_fuzz_factor(Some(2)).unwrap().numerator();
    let again = get_fuzz_factor(Some(1)).unwrap().numerator();
    assert_ne!(a, b);
    assert_eq!(a, again);
    assert_ne!(a, 1 >> 12);
}

#[test]
fn fuzz_factor_keeps_the_upper_52_bits_of_a_word() {
    assert_eq!(FuzzFactor::from_word(0).numerator(), 0);
    assert_eq!(FuzzFactor::from_word(4095).numerator(), 0);
    assert_eq!(FuzzFactor::from_word(4096).numerator(), 1);
    assert_eq!(FuzzFactor::from_word(u64::MAX).numerator(), ALMOST_ONE);
}

#[test]
fn short_intervals_get_no_fuzz() {
    assert_eq!(fuzz_delta(interval(0)), 0);
    assert_eq!(fuzz_delta(interval(1_000)), 0);
    assert_eq!(fuzz_delta(interval(2_499)), 0);
    assert_eq!(fuzz_delta(RawInterval::from_units(5 * UNITS_PER_DAY / 2 - 1)), 0);
}

#[test]
fn fuzz_delta_adds_up_the_ranges() {
    // at 2.5 days: one day
    assert_eq!(fuzz_delta(interval(2_500)), delta(1_000));
    // at 5 days: 1 + 0.15 * 2.5
    assert_eq!(fuzz_delta(interval(5_000)), delta(1_375));
    // at 7 days: 1 + 0.15 * 4.5
    assert_eq!(fuzz_delta(interval(7_000)), delta(1_675));
    // at 10 days: 1 + 0.675 + 0.1 * 3
    assert_eq!(fuzz_delta(interval(10_000)), delta(1_975));
    // at 20 days: 1 + 0.675 + 1.3
    assert_eq!(fuzz_delta(interval(20_000)), delta(2_975));
    // at 100 days: 1 + 0.675 + 1.3 + 0.05 * 80
    assert_eq!(fuzz_delta(interval(100_000)), delta(6_975));
    // at 150 and 200 days
    assert_eq!(fuzz_delta(interval(150_000)), delta(9_475));
    assert_eq!(fuzz_delta(interval(200_000)), delta(11_975));
}

#[test]
fn fuzz_bounds_round_both_ends() {
    assert_eq!(fuzz_bounds(interval(0)), (0, 0));
    assert_eq!(fuzz_bounds(interval(1_000)), (1, 1));
    assert_eq!(fuzz_bounds(interval(2_490)), (2, 2));
    assert_eq!(fuzz_bounds(interval(2_500)), (2, 4));
    assert_eq!(fuzz_bounds(interval(7_000)), (5, 9));
    assert_eq!(fuzz_bounds(interval(20_000)), (17, 23));
    assert_eq!(fuzz_bounds(interval(100_000)), (93, 107));
    assert_eq!(fuzz_bounds(interval(150_000)), (141, 159));
    assert_eq!(fuzz_bounds(interval(200_000)), (188, 212));
}

#[test]
fn fuzz_bounds_saturate_at_the_largest_day_count() {
    assert_eq!(fuzz_bounds(RawInterval::from_units(INTERVAL_CAP)), (u32::MAX, u32::MAX));
    assert_eq!(fuzz_bounds(RawInterval::from_units(u128::MAX)), (u32::MAX, u32::MAX));
    assert_eq!(rounded_days(RawInterval::from_units(u128::MAX)), u32::MAX);
    assert_eq!(RawInterval::from_units(u128::MAX).units(), INTERVAL_CAP);
    // 4.4e9 days: the lower end is still inside u32, the upper end is not
    let (lower, upper) = fuzz_bounds(interval(4_400_000_000_000));
    assert_eq!(lower, 4_179_999_998);
    assert_eq!(upper, u32::MAX);
}

#[test]
fn rounded_days_puts_halves_up() {
    assert_eq!(rounded_days(interval(0)), 0);
    assert_eq!(rounded_days(interval(499)), 0);
    assert_eq!(rounded_days(interval(500)), 1);
    assert_eq!(rounded_days(interval(1_499)), 1);
    assert_eq!(rounded_days(interval(1_500)), 2);
    assert_eq!(rounded_days(interval(224_500)), 225);
}

#[test]
fn constrained_bounds_stay_within_minimum_and_maximum() {
    assert_eq!(constrained_fuzz_bounds(interval(100_000), 1, 36500), (93, 107));
    assert_eq!(constrained_fuzz_bounds(interval(100_000), 95, 100), (95, 100));
    assert_eq!(constrained_fuzz_bounds(interval(100_000), 120, 36500), (120, 121));
    assert_eq!(constrained_fuzz_bounds(interval(100_000), 1, 50), (50, 50));
    // a minimum above the maximum counts as the maximum
    assert_eq!(constrained_fuzz_bounds(interval(100_000), 99, 98), (98, 98));
}

#[test]
fn a_range_of_one_day_is_widened_only_above_2_and_below_the_maximum() {
    // both ends clamp to 3: widened
    assert_eq!(constrained_fuzz_bounds(interval(1_000), 3, 10), (3, 4));
    // both ends clamp to 2: not above 2
    assert_eq!(constrained_fuzz_bounds(interval(1_000), 2, 10), (2, 2));
    // both ends at the maximum: no room
    assert_eq!(constrained_fuzz_bounds(interval(1_000), 10, 10), (10, 10));
    assert_eq!(constrained_fuzz_bounds(interval(1_000), 1, 10), (1, 1));
}

#[test]
fn fuzz_factor_picks_from_lower_to_upper() {
    let hundred = interval(100_000);
    assert_eq!(with_review_fuzz(Some(factor(0)), hundred, 1, 36500), 93);
    assert_eq!(with_review_fuzz(Some(factor(HALF)), hundred, 1, 36500), 100);
    assert_eq!(with_review_fuzz(Some(factor(ALMOST_ONE)), hundred, 1, 36500), 107);
    // 15 days wide: a factor of exactly 2/15 would be the first to give 95
    let two_fifteenths = ((2u128 << 52) / 15) as u64;
    assert_eq!(with_review_fuzz(Some(factor(two_fifteenths)), hundred, 1, 36500), 94);
    assert_eq!(with_review_fuzz(Some(factor(two_fifteenths + 1)), hundred, 1, 36500), 95);
    // a minimum above the maximum counts as the maximum
    assert_eq!(with_review_fuzz(Some(factor(HALF)), hundred, 200, 150), 150);
}

#[test]
fn pick_spans_the_whole_range_of_day_counts() {
    // lower 1, upper u32::MAX: the widest range there is
    let cap = RawInterval::from_units(INTERVAL_CAP);
    assert_eq!(with_review_fuzz(Some(factor(0)), cap, 1, u32::MAX), u32::MAX);
    let wide = interval(2_000_000_000_000);
    let (lower, upper) = constrained_fuzz_bounds(wide, 1, u32::MAX);
    assert_eq!((lower, upper), (1_899_999_998, 2_100_000_002));
    assert_eq!(with_review_fuzz(Some(factor(0)), wide, 1, u32::MAX), lower);
    assert_eq!(with_review_fuzz(Some(factor(ALMOST_ONE)), wide, 1, u32::MAX), upper);
}

#[test]
fn without_a_fuzz_factor_the_interval_is_rounded_and_clamped() {
    assert_eq!(with_review_fuzz(None, interval(100_000), 1, 36500), 100);
    assert_eq!(with_review_fuzz(None, interval(100_499), 1, 36500), 100);
    assert_eq!(with_review_fuzz(None, interval(100_500), 1, 36500), 101);
    assert_eq!(with_review_fuzz(None, interval(100_000), 101, 36500), 101);
    assert_eq!(with_review_fuzz(None, interval(100_000), 1, 99), 99);
    assert_eq!(with_review_fuzz(None, interval(100_000), 7, 7), 7);
}

#[test]
fn products_are_exact_and_saturate() {
    let one = Decimal::from_units(1);
    // 2 half days times 1.0, times 1.0: one day
    assert_eq!(RawInterval::from_product(2_000_000_000, one).units(), UNITS_PER_DAY);
    assert_eq!(RawInterval::from_product(3, Decimal::from_nanos(7)).units(), 21);
    assert_eq!(RawInterval::from_product(-3, Decimal::from_nanos(-7)).units(), 21);
    assert_eq!(RawInterval::from_product(-3, Decimal::from_nanos(7)).units(), 0);
    assert_eq!(RawInterval::from_product(3, Decimal::from_nanos(-7)).units(), 0);
    assert_eq!(RawInterval::from_product(0, Decimal::from_nanos(i64::MIN)).units(), 0);
    assert_eq!(RawInterval::from_product(i128::MAX, Decimal::from_nanos(0)).units(), 0);
    assert_eq!(RawInterval::from_product(i128::MAX, Decimal::from_nanos(i64::MAX)).units(), INTERVAL_CAP);
    assert_eq!(RawInterval::from_product(i128::MIN, Decimal::from_nanos(i64::MIN)).units(), INTERVAL_CAP);
    assert_eq!(RawInterval::from_product(i128::MIN, Decimal::from_nanos(1)).units(), 0);
    assert_eq!(
        RawInterval::from_product(INTERVAL_CAP as i128 - 1, Decimal::from_nanos(1)).units(),
        INTERVAL_CAP - 1
    );
    assert_eq!(
        RawInterval::from_product(INTERVAL_CAP as i128 + 1, Decimal::from_nanos(1)).units(),
        INTERVAL_CAP
    );
}
