use anki_srs_kai::decimal::Decimal;
use anki_srs_kai::scheduler::{InternalScheduler, NextState, Scheduler};

fn dec(value: f64) -> Decimal {
    Decimal::from_nanos((value * 1e9).round() as i64)
}

#[allow(clippy::too_many_arguments)]
fn build(
    enable_fuzz: bool,
    maximum_interval: u32,
    interval_modifier: f64,
    hard_multiplier: f64,
    good_multiplier: f64,
    easy_multiplier: f64,
    fuzz_seed: u64,
    scheduled_days: u32,
    elapsed_days: u32,
) -> InternalScheduler {
    InternalScheduler::new(
        enable_fuzz,
        maximum_interval,
        dec(interval_modifier),
        dec(hard_multiplier),
        dec(good_multiplier),
        dec(easy_multiplier),
        fuzz_seed,
        scheduled_days,
        elapsed_days,
    )
}

fn next(hard: Option<u32>, good: Option<u32>, easy: Option<u32>) -> NextState {
    NextState { hard_interval: hard, good_interval: good, easy_interval: easy }
}

#[test]
fn default_anki_algorithm_is_used_for_early_reviews() {
    let under_test = build(true, 36500, 1.0, 2.0, 3.0, 4.0, 123, 50, 25);

    let result = under_test.next_states();

    assert_eq!(result, next(None, None, None));
}

#[test]
fn disable_fuzz() {
    let under_test = build(false, 36500, 1.0, 2.0, 3.0, 4.0, 123, 50, 50);

    let result = under_test.next_states();

    assert_eq!(result, next(Some(100), Some(150), Some(200)));
}

#[test]
fn disable_fuzz_with_overdue_card() {
    let under_test = build(false, 36500, 1.0, 2.0, 3.0, 4.0, 123, 50, 100);

    let result = under_test.next_states();

    assert_eq!(result, next(Some(100), Some(225), Some(400)));
}

#[test]
fn enable_fuzz() {
    let under_test = build(true, 36500, 1.0, 2.0, 3.0, 4.0, 123, 50, 50);

    let result = under_test.next_states();

    assert_eq!(result, next(Some(95), Some(144), Some(192)));
}

#[test]
fn intervals_do_not_exceed_maximum_interval() {
    let under_test = build(false, 125, 1.0, 2.0, 3.0, 4.0, 123, 50, 50);

    let result = under_test.next_states();

    assert_eq!(result, next(Some(100), Some(125), Some(125)));
}

#[test]
fn interval_modifier_affects_all_intervals() {
    let under_test = build(false, 36500, 2.0, 2.0, 3.0, 4.0, 123, 50, 50);

    let result = under_test.next_states();

    assert_eq!(result, next(Some(200), Some(300), Some(400)));
}

#[test]
fn use_original_anki_algorithm_if_hard_multiplier_is_0() {
    let under_test = build(false, 36500, 1.0, 0.0, 3.0, 4.0, 123, 50, 50);

    let result = under_test.next_states();

    assert_eq!(result, next(None, Some(150), Some(200)));
}

#[test]
fn use_original_anki_algorithm_if_good_multiplier_is_0() {
    let under_test = build(false, 36500, 1.0, 2.0, 0.0, 4.0, 123, 50, 50);

    let result = under_test.next_states();

    assert_eq!(result, next(Some(100), None, Some(200)));
}

#[test]
fn use_original_anki_algorithm_if_easy_multiplier_is_0() {
    let under_test = build(false, 36500, 1.0, 2.0, 3.0, 0.0, 123, 50, 50);

    let result = under_test.next_states();

    assert_eq!(result, next(Some(100), Some(150), None));
}

#[test]
fn use_original_anki_algorithm_if_all_multipliers_are_0() {
    let under_test = build(false, 36500, 1.0, 0.0, 0.0, 0.0, 123, 50, 50);

    let result = under_test.next_states();

    assert_eq!(result, next(None, None, None));
}

#[test]
fn early_reviews_get_nothing_whatever_the_multipliers() {
    for (hard, good, easy) in [(2.0, 3.0, 4.0), (0.0, 0.0, 0.0), (-1.0, 0.5, 1e6), (1.0, 1.0, 1.0)] {
        for fuzz in [false, true] {
            for (scheduled, elapsed) in [(1u32, 0u32), (50, 49), (u32::MAX, 0), (u32::MAX, u32::MAX - 1)] {
                let under_test = build(fuzz, 36500, 1.3, hard, good, easy, 7, scheduled, elapsed);
                assert_eq!(under_test.next_states(), next(None, None, None));
                assert!(under_test.days_late() < 0);
                assert_eq!(under_test.passing_review_intervals(), None);
            }
        }
    }
}

#[test]
fn days_before_the_due_date_do_not_count_as_days_late() {
    let early = build(false, 36500, 1.0, 2.0, 3.0, 4.0, 123, 50, 25);
    assert_eq!(early.passing_review_intervals(), None);
    assert_eq!(early.passing_nonearly_review_intervals(), (100, 150, 200));
    let due = build(false, 36500, 1.0, 2.0, 3.0, 4.0, 123, 50, 50);
    assert_eq!(due.passing_review_intervals(), Some((100, 150, 200)));
    // multipliers of 0 still have intervals; they are withheld at the end
    let none = build(false, 36500, 1.0, 0.0, 0.0, 0.0, 123, 50, 50);
    assert_eq!(none.passing_review_intervals(), Some((1, 51, 52)));
}

#[test]
fn maximum_interval_caps_fuzzed_intervals_too() {
    for seed in 0u64..200 {
        let result = build(true, 125, 1.0, 2.0, 3.0, 4.0, seed, 50, 50).next_states();
        let hard = result.hard_interval.unwrap();
        let good = result.good_interval.unwrap();
        let easy = result.easy_interval.unwrap();
        assert!((93..=107).contains(&hard));
        assert!(good <= 125 && easy <= 125);
        assert!(good > hard || good == 125);
        assert!(easy > good || easy == 125);
    }
}

#[test]
fn a_maximum_interval_of_0_counts_as_1() {
    let result = build(false, 0, 1.0, 2.0, 3.0, 4.0, 123, 50, 50).next_states();
    assert_eq!(result, next(Some(1), Some(1), Some(1)));
    let under_test = build(false, 0, 1.0, 2.0, 3.0, 4.0, 123, 50, 50);
    assert_eq!(under_test.min_and_max_review_intervals(0), (1, 1));
    assert_eq!(under_test.min_and_max_review_intervals(77), (1, 1));
}

#[test]
fn minimum_is_at_least_1_and_at_most_the_maximum() {
    let under_test = build(false, 100, 1.0, 2.0, 3.0, 4.0, 123, 50, 50);
    assert_eq!(under_test.min_and_max_review_intervals(0), (1, 100));
    assert_eq!(under_test.min_and_max_review_intervals(1), (1, 100));
    assert_eq!(under_test.min_and_max_review_intervals(51), (51, 100));
    assert_eq!(under_test.min_and_max_review_intervals(100), (100, 100));
    assert_eq!(under_test.min_and_max_review_intervals(101), (100, 100));
    assert_eq!(under_test.min_and_max_review_intervals(1 << 32), (100, 100));
}

#[test]
fn same_inputs_give_the_same_intervals() {
    for seed in [0u64, 1, 123, u64::MAX] {
        let first = build(true, 36500, 1.1, 1.2, 2.5, 3.25, seed, 80, 95).next_states();
        let second = build(true, 36500, 1.1, 1.2, 2.5, 3.25, seed, 80, 95).next_states();
        assert_eq!(first, second);
    }
}

#[test]
fn days_late_is_the_signed_difference() {
    assert_eq!(build(false, 1, 1.0, 1.0, 1.0, 1.0, 0, 50, 100).days_late(), 50);
    assert_eq!(build(false, 1, 1.0, 1.0, 1.0, 1.0, 0, 50, 50).days_late(), 0);
    assert_eq!(build(false, 1, 1.0, 1.0, 1.0, 1.0, 0, 50, 20).days_late(), -30);
    assert_eq!(build(false, 1, 1.0, 1.0, 1.0, 1.0, 0, 0, u32::MAX).days_late(), 4_294_967_295);
    assert_eq!(build(false, 1, 1.0, 1.0, 1.0, 1.0, 0, u32::MAX, 0).days_late(), -4_294_967_295);
}

#[test]
fn hard_multiplier_of_at_most_1_does_not_force_growth() {
    // hard 1.0: the hard interval may equal the current one, good starts above the current one
    let result = build(false, 36500, 1.0, 1.0, 1.0, 1.0, 0, 10, 10).next_states();
    assert_eq!(result, next(Some(10), Some(11), Some(12)));
    // hard 0.5: may shrink
    let result = build(false, 36500, 1.0, 0.5, 1.0, 1.0, 0, 10, 10).next_states();
    assert_eq!(result, next(Some(5), Some(11), Some(12)));
    // hard just above 1: must exceed the current interval, and good must exceed hard
    let result = build(false, 36500, 1.0, 1.01, 1.0, 1.0, 0, 10, 10).next_states();
    assert_eq!(result, next(Some(11), Some(12), Some(13)));
}

#[test]
fn halves_round_away_from_zero_without_fuzz() {
    // 5 days times 0.5 is 2.5 days
    let result = build(false, 36500, 1.0, 0.5, 0.3, 0.1, 0, 5, 5).next_states();
    assert_eq!(result.hard_interval, Some(3));
    // 5 days times 0.49 is 2.45 days
    let result = build(false, 36500, 1.0, 0.49, 0.3, 0.1, 0, 5, 5).next_states();
    assert_eq!(result.hard_interval, Some(2));
    // an overdue card: (5 + 1/2) * 3 = 16.5
    let result = build(false, 36500, 1.0, 0.5, 3.0, 0.1, 0, 5, 6).next_states();
    assert_eq!(result.good_interval, Some(17));
}

#[test]
fn negative_and_huge_products_stay_in_range() {
    let result = build(false, 36500, 1.0, -2.0, -3.0, -4.0, 0, 50, 50).next_states();
    assert_eq!(result, next(Some(1), Some(51), Some(52)));
    let result = build(false, 36500, -1.0, -2.0, 3.0, -4.0, 0, 50, 50).next_states();
    assert_eq!(result, next(Some(100), Some(51), Some(200)));
    let huge = 9_000_000_000.0;
    let result = build(true, u32::MAX, huge, huge, huge, huge, 5, u32::MAX, u32::MAX).next_states();
    assert_eq!(result, next(Some(u32::MAX), Some(u32::MAX), Some(u32::MAX)));
    let result = build(false, u32::MAX, huge, huge, huge, huge, 5, 1, 1).next_states();
    assert_eq!(result, next(Some(u32::MAX), Some(u32::MAX), Some(u32::MAX)));
    let result = build(false, 36500, 1.0, 2.0, 3.0, 4.0, 5, 0, 0).next_states();
    assert_eq!(result, next(Some(1), Some(2), Some(3)));
}

#[test]
fn constrain_without_fuzz_rounds_and_clamps() {
    let under_test = build(true, 200, 1.5, 2.0, 3.0, 4.0, 123, 50, 50);
    // 10 days (20 half days) times 2.0, times the modifier 1.5: 30 days
    let interval: i128 = 20 * 2_000_000_000;
    assert_eq!(under_test.constrain_passing_interval(interval, 0, false), 30);
    assert_eq!(under_test.constrain_passing_interval(interval, 31, false), 31);
    assert_eq!(under_test.constrain_passing_interval(interval * 100, 31, false), 200);
    assert_eq!(under_test.constrain_passing_interval(-interval, 0, false), 1);
    let fuzzed = under_test.constrain_passing_interval(interval, 0, true);
    assert!((27..=33).contains(&fuzzed));
}

fn two(_: Decimal, _: u32) -> Decimal {
    Decimal::from_units(2)
}

fn ease_plus_one(ease: Decimal, _: u32) -> Decimal {
    Decimal::from_nanos(ease.nanos() + 1_000_000_000)
}

fn tenth_of_interval(_: Decimal, interval: u32) -> Decimal {
    Decimal::from_nanos(interval as i64 * 100_000_000)
}

#[test]
fn scheduler_asks_its_providers_about_the_current_ease_and_interval() {
    let provider: fn(Decimal, u32) -> Decimal = two;
    let providers: [fn(Decimal, u32) -> Decimal; 3] = [provider, ease_plus_one, tenth_of_interval];
    let under_test = Scheduler::new(false, 36500, dec(1.0), providers[0], providers[1], providers[2]);
    // ease 2.5, interval 50: multipliers 2.0, 3.5 and 5.0
    let result = under_test.next_states(123, 50, 50, dec(2.5));
    assert_eq!(result, next(Some(100), Some(175), Some(250)));
    // the same card reviewed early
    let result = under_test.next_states(123, 50, 49, dec(2.5));
    assert_eq!(result, next(None, None, None));
}

#[test]
fn scheduler_draws_fuzz_from_the_seed_only_when_enabled() {
    let provider: fn(Decimal, u32) -> Decimal = two;
    let fuzzed = Scheduler::new(true, 36500, dec(1.0), provider, provider, provider);
    let plain = Scheduler::new(false, 36500, dec(1.0), provider, provider, provider);
    let by_hand = build(true, 36500, 1.0, 2.0, 2.0, 2.0, 99, 50, 50).next_states();
    assert_eq!(fuzzed.next_states(99, 50, 50, dec(2.5)), by_hand);
    assert_eq!(plain.next_states(99, 50, 50, dec(2.5)), next(Some(100), Some(101), Some(102)));
    assert_eq!(plain.next_states(100, 50, 50, dec(2.5)), plain.next_states(99, 50, 50, dec(2.5)));
}
