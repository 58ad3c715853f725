//! The ease reward: a higher ease factor after a run of successful reviews.
use vstd::prelude::*;
use crate::decimal::{lemma_rounding_is_monotonic, pow10, round_half_away, Decimal};

verus! {

/// The smallest value the lower ease bound can be configured to: 1.3.
pub const EASE_FLOOR: i64 = 1_300_000_000;

/// The largest value the upper ease bound can be configured to: 9.99.
pub const EASE_CEILING: i64 = 9_990_000_000;

/// `value` (in billionths) rounded to `places` decimal places, halves going
/// away from zero. Nine places or more leave the value as it is.
pub open spec fn spec_round_to_places(value: int, places: nat) -> int {
    if places >= 9 {
        value
    } else {
        round_half_away(value, pow10((9 - places) as nat)) * pow10((9 - places) as nat)
    }
}

/// The powers of ten that a nine-place decimal can need.
proof fn lemma_pow10_values()
    ensures
        pow10(0) == 1,
        pow10(1) == 10,
        pow10(2) == 100,
        pow10(3) == 1_000,
        pow10(4) == 10_000,
        pow10(5) == 100_000,
        pow10(6) == 1_000_000,
        pow10(7) == 10_000_000,
        pow10(8) == 100_000_000,
        pow10(9) == 1_000_000_000,
{
    reveal_with_fuel(pow10, 11);
}

/// Ten to the power `n`, for the exponents a nine-place decimal can need.
fn power_of_ten(n: u32) -> (r: i128)
    requires
        n <= 9,
    ensures
        r == pow10(n as nat),
        1 <= r <= 1_000_000_000,
{
    proof {
        lemma_pow10_values();
    }
    match n {
        0 => 1,
        1 => 10,
        2 => 100,
        3 => 1_000,
        4 => 10_000,
        5 => 100_000,
        6 => 1_000_000,
        7 => 10_000_000,
        8 => 100_000_000,
        _ => 1_000_000_000,
    }
}

/// Rounds `value` to `decimal_places` places, halves going away from zero.
pub fn round_to_places(value: Decimal, decimal_places: u32) -> (r: Decimal)
    requires
        i64::MIN <= spec_round_to_places(value@, decimal_places as nat) <= i64::MAX,
    ensures
        r@ == spec_round_to_places(value@, decimal_places as nat),
{
    if decimal_places >= 9 {
        return value;
    }
    let step: i128 = power_of_ten(9 - decimal_places);
    let wide: i128 = value.nanos as i128;
    if wide >= 0 {
        let quotient: i128 = (2 * wide + step) / (2 * step);
        assert(quotient * step <= i64::MAX);
        assert(0 <= quotient * step) by (nonlinear_arith)
            requires
                quotient >= 0,
                step >= 1,
        ;
        Decimal { nanos: (quotient * step) as i64 }
    } else {
        let quotient: i128 = (step - 2 * wide) / (2 * step);
        assert(-(quotient * step) == (-quotient) * step) by (nonlinear_arith);
        assert(0 <= quotient * step) by (nonlinear_arith)
            requires
                quotient >= 0,
                step >= 1,
        ;
        Decimal { nanos: (-(quotient * step)) as i64 }
    }
}

/// The per-deck rule that raises a card's ease factor after a run of
/// successful reviews.
pub struct EaseReward {
    minimum_consecutive_successful_reviews_required_for_reward: u32,
    base_ease_reward: Decimal,
    step_ease_reward: Decimal,
    minimum_ease: Decimal,
    maximum_ease: Decimal,
}

impl EaseReward {
    /// What every value of the type satisfies: rewards are not negative, the
    /// lower ease bound is at least 1.3, the upper one lies in `[0, 9.99]`.
    #[verifier::type_invariant]
    pub closed spec fn wf(self) -> bool {
        &&& self.base_ease_reward@ >= 0
        &&& self.step_ease_reward@ >= 0
        &&& self.minimum_ease@ >= EASE_FLOOR
        &&& 0 <= self.maximum_ease@ <= EASE_CEILING
    }

    /// The run length from which a reward is given; 0 switches rewards off.
    pub closed spec fn threshold(&self) -> int {
        self.minimum_consecutive_successful_reviews_required_for_reward as int
    }

    /// The reward at the threshold, in billionths.
    pub closed spec fn base_reward(&self) -> int {
        self.base_ease_reward@
    }

    /// The reward added for each success beyond the threshold, in billionths.
    pub closed spec fn step_reward(&self) -> int {
        self.step_ease_reward@
    }

    /// The lower end of the band of eases that are rewarded, in billionths.
    pub closed spec fn lowest_ease(&self) -> int {
        self.minimum_ease@
    }

    /// The upper end of the band of eases that are rewarded, in billionths.
    pub closed spec fn highest_ease(&self) -> int {
        self.maximum_ease@
    }

    /// Whether a card with `ease_factor` earns a reward after
    /// `number_of_successful_reviews` successes in a row.
    pub open spec fn rewards(&self, number_of_successful_reviews: u32, ease_factor: Decimal) -> bool {
        &&& self.threshold() != 0
        &&& number_of_successful_reviews >= self.threshold()
        &&& self.lowest_ease() <= ease_factor@ <= self.highest_ease()
    }

    /// The reward after `number_of_successful_reviews` successes, in
    /// billionths: the base reward plus one step per success beyond the
    /// threshold.
    pub open spec fn spec_reward(&self, number_of_successful_reviews: u32) -> int {
        self.base_reward() + (number_of_successful_reviews - self.threshold())
            * self.step_reward()
    }

    /// The ease before rounding: the old ease plus the reward, raised to the
    /// lower bound and then cut at the upper one.
    pub open spec fn spec_bounded_ease(
        &self,
        number_of_successful_reviews: u32,
        ease_factor: Decimal,
    ) -> int {
        let raised = ease_factor@ + self.spec_reward(number_of_successful_reviews);
        let floored = if raised < self.lowest_ease() {
            self.lowest_ease()
        } else {
            raised
        };
        if floored > self.highest_ease() {
            self.highest_ease()
        } else {
            floored
        }
    }

    /// The new ease factor, in billionths: the old one where no reward is
    /// earned, else the bounded ease rounded to three places.
    pub open spec fn spec_new_ease_factor(
        &self,
        number_of_successful_reviews: u32,
        ease_factor: Decimal,
    ) -> int {
        if self.rewards(number_of_successful_reviews, ease_factor) {
            spec_round_to_places(
                self.spec_bounded_ease(number_of_successful_reviews, ease_factor),
                3,
            )
        } else {
            ease_factor@
        }
    }

    /// Builds the rule, pulling each setting into its allowed range: negative
    /// rewards become 0, a lower bound under 1.3 becomes 1.3, and the upper
    /// bound is cut to `[0, 9.99]`.
    pub fn new(
        minimum_consecutive_successful_reviews_required_for_reward: u32,
        base_ease_reward: Decimal,
        step_ease_reward: Decimal,
        minimum_ease: Decimal,
        maximum_ease: Decimal,
    ) -> (r: Self)
        ensures
            r.wf(),
            r.threshold() == minimum_consecutive_successful_reviews_required_for_reward,
            r.base_reward() == if base_ease_reward@ < 0 { 0 } else { base_ease_reward@ },
            r.step_reward() == if step_ease_reward@ < 0 { 0 } else { step_ease_reward@ },
            r.lowest_ease() == if minimum_ease@ < EASE_FLOOR { EASE_FLOOR as int } else { minimum_ease@ },
            r.highest_ease() == if maximum_ease@ < 0 {
                0
            } else if maximum_ease@ > EASE_CEILING {
                EASE_CEILING as int
            } else {
                maximum_ease@
            },
    {
        Self {
            minimum_consecutive_successful_reviews_required_for_reward,
            base_ease_reward: if base_ease_reward.nanos < 0 {
                Decimal { nanos: 0 }
            } else {
                base_ease_reward
            },
            step_ease_reward: if step_ease_reward.nanos < 0 {
                Decimal { nanos: 0 }
            } else {
                step_ease_reward
            },
            minimum_ease: if minimum_ease.nanos < EASE_FLOOR {
                Decimal { nanos: EASE_FLOOR }
            } else {
                minimum_ease
            },
            maximum_ease: if maximum_ease.nanos < 0 {
                Decimal { nanos: 0 }
            } else if maximum_ease.nanos > EASE_CEILING {
                Decimal { nanos: EASE_CEILING }
            } else {
                maximum_ease
            },
        }
    }

    /// The ease factor a card gets after `number_of_successful_reviews`
    /// successes in a row. Outside the rewarded band, below the threshold, or
    /// with rewards switched off, it is `ease_factor` itself.
    pub fn calculate_new_ease_factor(
        &self,
        number_of_successful_reviews: u32,
        ease_factor: Decimal,
    ) -> (r: Decimal)
        ensures
            r@ == self.spec_new_ease_factor(number_of_successful_reviews, ease_factor),
    {
        proof {
            use_type_invariant(self);
        }
        if self.minimum_consecutive_successful_reviews_required_for_reward == 0
            || number_of_successful_reviews
            < self.minimum_consecutive_successful_reviews_required_for_reward
            || ease_factor.nanos < self.minimum_ease.nanos
            || ease_factor.nanos > self.maximum_ease.nanos {
            return ease_factor;
        }
        let extra: u32 = number_of_successful_reviews
            - self.minimum_consecutive_successful_reviews_required_for_reward;
        let step: i128 = self.step_ease_reward.nanos as i128;
        assert(0 <= extra * step <= 0xffff_ffff * 0x7fff_ffff_ffff_ffff) by (nonlinear_arith)
            requires
                0 <= extra <= 0xffff_ffff,
                0 <= step <= 0x7fff_ffff_ffff_ffff,
        ;
        let reward: i128 = self.base_ease_reward.nanos as i128 + extra as i128 * step;
        let raised: i128 = ease_factor.nanos as i128 + reward;
        let floored: i128 = if raised < self.minimum_ease.nanos as i128 {
            self.minimum_ease.nanos as i128
        } else {
            raised
        };
        let bounded: i64 = if floored > self.maximum_ease.nanos as i128 {
            self.maximum_ease.nanos
        } else {
            floored as i64
        };
        proof {
            lemma_round_to_thousandths(bounded as int);
        }
        // The host keeps an ease factor to its third decimal place.
        round_to_places(Decimal { nanos: bounded }, 3)
    }
}

/// Rounding to three places moves a value by at most half a thousandth and
/// lands on a whole number of thousandths; whole thousandths stay where they
/// are.
pub proof fn lemma_round_to_thousandths(value: int)
    ensures
        spec_round_to_places(value, 3) % 1_000_000 == 0,
        value - 500_000 <= spec_round_to_places(value, 3) <= value + 500_000,
        value % 1_000_000 == 0 ==> spec_round_to_places(value, 3) == value,
{
    lemma_pow10_values();
    let rounded = round_half_away(value, 1_000_000);
    assert(spec_round_to_places(value, 3) == rounded * 1_000_000);
}

/// Rounding to three places keeps the order of two values.
pub proof fn lemma_round_to_thousandths_is_monotonic(a: int, b: int)
    requires
        a <= b,
    ensures
        spec_round_to_places(a, 3) <= spec_round_to_places(b, 3),
{
    lemma_pow10_values();
    lemma_rounding_is_monotonic(a, b, 1_000_000);
}

/// With the threshold at 0 no reward is ever given: the ease factor comes back
/// unchanged for every run length.
pub proof fn lemma_zero_threshold_gives_no_reward(
    rule: EaseReward,
    number_of_successful_reviews: u32,
    ease_factor: Decimal,
)
    requires
        rule.wf(),
        rule.threshold() == 0,
    ensures
        rule.spec_new_ease_factor(number_of_successful_reviews, ease_factor) == ease_factor@,
{
}

/// A rewarded ease is a whole number of thousandths and lies between the two
/// bounds rounded to three places; so it is at least the lower bound where
/// that is a whole number of thousandths, and at most the upper one where that
/// is.
pub proof fn lemma_rewarded_ease_is_rounded_and_bounded(
    rule: EaseReward,
    number_of_successful_reviews: u32,
    ease_factor: Decimal,
)
    requires
        rule.wf(),
        rule.rewards(number_of_successful_reviews, ease_factor),
    ensures
        rule.spec_new_ease_factor(number_of_successful_reviews, ease_factor) % 1_000_000 == 0,
        spec_round_to_places(rule.lowest_ease(), 3) <= rule.spec_new_ease_factor(
            number_of_successful_reviews,
            ease_factor,
        ) <= spec_round_to_places(rule.highest_ease(), 3),
        rule.lowest_ease() % 1_000_000 == 0 ==> rule.lowest_ease() <= rule.spec_new_ease_factor(
            number_of_successful_reviews,
            ease_factor,
        ),
        rule.highest_ease() % 1_000_000 == 0 ==> rule.spec_new_ease_factor(
            number_of_successful_reviews,
            ease_factor,
        ) <= rule.highest_ease(),
{
    let bounded = rule.spec_bounded_ease(number_of_successful_reviews, ease_factor);
    assert(rule.lowest_ease() <= bounded <= rule.highest_ease());
    lemma_round_to_thousandths(bounded);
    lemma_round_to_thousandths(rule.lowest_ease());
    lemma_round_to_thousandths(rule.highest_ease());
    lemma_round_to_thousandths_is_monotonic(rule.lowest_ease(), bounded);
    lemma_round_to_thousandths_is_monotonic(bounded, rule.highest_ease());
}

/// The new ease factor is a function of the rule, the run length and the old
/// ease factor: any two values that meet its description are the same.
pub proof fn lemma_new_ease_factor_is_determined(
    rule: EaseReward,
    number_of_successful_reviews: u32,
    ease_factor: Decimal,
    first: Decimal,
    second: Decimal,
)
    requires
        first@ == rule.spec_new_ease_factor(number_of_successful_reviews, ease_factor),
        second@ == rule.spec_new_ease_factor(number_of_successful_reviews, ease_factor),
    ensures
        first == second,
{
}

} // verus!
