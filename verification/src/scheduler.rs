//! The next intervals of a card in review, from its deck's multipliers.
use vstd::prelude::*;
use crate::decimal::{Decimal, NANOS_PER_UNIT};
use crate::fuzz::{
    clamp_days, get_fuzz_factor, lemma_review_fuzz_stays_in_range, lemma_saturation_keeps_days,
    rounded_days, seeded_word, spec_clamp, spec_days, spec_with_review_fuzz, with_review_fuzz,
    FuzzFactor, RawInterval, UNITS_PER_DAY,
};

verus! {

/// The next interval, in days, for each passing rating. `None` leaves the
/// rating to the host's own schedule.
#[derive(Clone, Copy, Debug, PartialEq, Eq, Structural)]
pub struct NextState {
    pub hard_interval: Option<u32>,
    pub good_interval: Option<u32>,
    pub easy_interval: Option<u32>,
}

/// One review, ready to be scheduled: the deck's settings, the three
/// multipliers already evaluated, the fuzz factor if fuzz is on, and the
/// card's current interval and age.
#[derive(Clone, Copy, Debug)]
pub struct InternalScheduler {
    pub fuzz_factor: Option<FuzzFactor>,
    pub maximum_interval: u32,
    pub interval_modifier: Decimal,
    pub hard_multiplier: Decimal,
    pub good_multiplier: Decimal,
    pub easy_multiplier: Decimal,
    pub scheduled_days: u32,
    pub elapsed_days: u32,
}

impl InternalScheduler {
    /// The fuzz factor, where there is one, is below 1.
    pub open spec fn wf(&self) -> bool {
        self.fuzz_factor is Some ==> self.fuzz_factor.unwrap().wf()
    }

    /// How many days after its due date the card is reviewed; negative for an
    /// early review.
    pub open spec fn spec_days_late(&self) -> int {
        self.elapsed_days - self.scheduled_days
    }

    /// The days late that count towards the next interval: none for an early
    /// review.
    pub open spec fn spec_counted_days_late(&self) -> int {
        if self.spec_days_late() < 0 {
            0
        } else {
            self.spec_days_late()
        }
    }

    /// The least and the largest interval a review may get, for a wanted
    /// `minimum`: the largest is the configured maximum but at least 1, the
    /// least is `minimum` but at least 1 and at most the largest.
    pub open spec fn spec_min_and_max_review_intervals(&self, minimum: int) -> (int, int) {
        let maximum = if self.maximum_interval < 1 {
            1
        } else {
            self.maximum_interval as int
        };
        (spec_clamp(minimum, 1, maximum), maximum)
    }

    /// The day count for an `interval` given in half days times billionths:
    /// scaled by the interval modifier, then fuzzed or rounded into the
    /// allowed range.
    pub open spec fn spec_constrain_passing_interval(
        &self,
        interval: int,
        minimum: int,
        fuzz: bool,
    ) -> int {
        let (minimum, maximum) = self.spec_min_and_max_review_intervals(minimum);
        if fuzz {
            spec_with_review_fuzz(
                self.fuzz_factor,
                interval * self.interval_modifier@,
                minimum,
                maximum,
            )
        } else {
            spec_clamp(
                spec_days(interval * self.interval_modifier@, UNITS_PER_DAY as int),
                minimum,
                maximum,
            )
        }
    }

    /// The hard interval of a passing review: the current interval times the
    /// hard multiplier; above the current interval where the multiplier is
    /// above 1.
    pub open spec fn spec_hard_interval(&self) -> int {
        self.spec_constrain_passing_interval(
            2 * self.scheduled_days * self.hard_multiplier@,
            if self.hard_multiplier@ <= NANOS_PER_UNIT {
                0
            } else {
                self.scheduled_days + 1
            },
            true,
        )
    }

    /// The good interval of a passing review: the current interval plus half
    /// the days late, times the good multiplier; above the hard interval
    /// where the hard multiplier is above 1, else above the current interval.
    pub open spec fn spec_good_interval(&self) -> int {
        self.spec_constrain_passing_interval(
            (2 * self.scheduled_days + self.spec_counted_days_late()) * self.good_multiplier@,
            if self.hard_multiplier@ <= NANOS_PER_UNIT {
                self.scheduled_days + 1
            } else {
                self.spec_hard_interval() + 1
            },
            true,
        )
    }

    /// The easy interval of a passing review: the current interval plus the
    /// days late, times the easy multiplier; above the good interval.
    pub open spec fn spec_easy_interval(&self) -> int {
        self.spec_constrain_passing_interval(
            (2 * self.scheduled_days + 2 * self.spec_counted_days_late()) * self.easy_multiplier@,
            self.spec_good_interval() + 1,
            true,
        )
    }

    /// The three intervals of a passing review; none for an early review.
    pub open spec fn spec_passing_review_intervals(&self) -> Option<(int, int, int)> {
        if self.spec_days_late() < 0 {
            None
        } else {
            Some((self.spec_hard_interval(), self.spec_good_interval(), self.spec_easy_interval()))
        }
    }

    /// What the scheduler recommends: nothing for an early review, and
    /// nothing for a rating whose multiplier is 0; else the rating's
    /// interval.
    pub open spec fn spec_next_states(&self) -> NextState {
        match self.spec_passing_review_intervals() {
            None => NextState { hard_interval: None, good_interval: None, easy_interval: None },
            Some((hard, good, easy)) => NextState {
                hard_interval: if self.hard_multiplier@ == 0 {
                    None
                } else {
                    Some(hard as u32)
                },
                good_interval: if self.good_multiplier@ == 0 {
                    None
                } else {
                    Some(good as u32)
                },
                easy_interval: if self.easy_multiplier@ == 0 {
                    None
                } else {
                    Some(easy as u32)
                },
            },
        }
    }

    /// Readies one review. With fuzz enabled the fuzz factor is drawn from
    /// `fuzz_seed`; with fuzz disabled there is none.
    pub fn new(
        enable_fuzz: bool,
        maximum_interval: u32,
        interval_modifier: Decimal,
        hard_multiplier: Decimal,
        good_multiplier: Decimal,
        easy_multiplier: Decimal,
        fuzz_seed: u64,
        scheduled_days: u32,
        elapsed_days: u32,
    ) -> (r: Self)
        ensures
            r.wf(),
            r.fuzz_factor is Some <==> enable_fuzz,
            enable_fuzz ==> r.fuzz_factor.unwrap()@ == seeded_word(fuzz_seed) / 4096,
            r.maximum_interval == maximum_interval,
            r.interval_modifier == interval_modifier,
            r.hard_multiplier == hard_multiplier,
            r.good_multiplier == good_multiplier,
            r.easy_multiplier == easy_multiplier,
            r.scheduled_days == scheduled_days,
            r.elapsed_days == elapsed_days,
    {
        let fuzz_factor = if enable_fuzz {
            get_fuzz_factor(Some(fuzz_seed))
        } else {
            get_fuzz_factor(None)
        };
        Self {
            fuzz_factor,
            maximum_interval,
            interval_modifier,
            hard_multiplier,
            good_multiplier,
            easy_multiplier,
            scheduled_days,
            elapsed_days,
        }
    }

    /// The recommended next interval for each passing rating.
    pub fn next_states(&self) -> (r: NextState)
        ensures
            r == self.spec_next_states(),
    {
        match self.passing_review_intervals() {
            None => NextState { hard_interval: None, good_interval: None, easy_interval: None },
            Some((hard_interval, good_interval, easy_interval)) => NextState {
                hard_interval: if self.hard_multiplier.nanos == 0 {
                    None
                } else {
                    Some(hard_interval)
                },
                good_interval: if self.good_multiplier.nanos == 0 {
                    None
                } else {
                    Some(good_interval)
                },
                easy_interval: if self.easy_multiplier.nanos == 0 {
                    None
                } else {
                    Some(easy_interval)
                },
            },
        }
    }

    /// How many days after its due date the card is reviewed.
    pub fn days_late(&self) -> (r: i64)
        ensures
            r == self.spec_days_late(),
    {
        self.elapsed_days as i64 - self.scheduled_days as i64
    }

    /// The hard, good and easy interval of a passing review. An early review
    /// gets none: the host's own schedule stands for it.
    pub fn passing_review_intervals(&self) -> (r: Option<(u32, u32, u32)>)
        ensures
            match r {
                Some((hard, good, easy)) => self.spec_passing_review_intervals() == Some(
                    (hard as int, good as int, easy as int),
                ),
                None => self.spec_passing_review_intervals() is None,
            },
    {
        if self.days_late() < 0 {
            None
        } else {
            Some(self.passing_nonearly_review_intervals())
        }
    }

    /// The hard, good and easy interval of a review on or after the due date.
    pub fn passing_nonearly_review_intervals(&self) -> (r: (u32, u32, u32))
        ensures
            r.0 == self.spec_hard_interval(),
            r.1 == self.spec_good_interval(),
            r.2 == self.spec_easy_interval(),
    {
        let twice_current: i128 = 2 * (self.scheduled_days as i128);
        let days_late: i128 = if self.days_late() < 0 {
            0
        } else {
            self.days_late() as i128
        };

        // hard
        let hard_factor: i128 = self.hard_multiplier.nanos as i128;
        let hard_minimum: u64 = if hard_factor <= NANOS_PER_UNIT as i128 {
            0
        } else {
            self.scheduled_days as u64 + 1
        };
        proof {
            lemma_product_fits(twice_current as int, hard_factor as int);
            lemma_product_fits(
                (twice_current + days_late) as int,
                self.good_multiplier.nanos as int,
            );
            lemma_product_fits(
                (twice_current + 2 * days_late) as int,
                self.easy_multiplier.nanos as int,
            );
        }
        let hard_interval = self.constrain_passing_interval(
            twice_current * hard_factor,
            hard_minimum,
            true,
        );
        // good
        let good_minimum: u64 = if hard_factor <= NANOS_PER_UNIT as i128 {
            self.scheduled_days as u64 + 1
        } else {
            hard_interval as u64 + 1
        };
        let good_interval = self.constrain_passing_interval(
            (twice_current + days_late) * (self.good_multiplier.nanos as i128),
            good_minimum,
            true,
        );
        // easy
        let easy_interval = self.constrain_passing_interval(
            (twice_current + 2 * days_late) * (self.easy_multiplier.nanos as i128),
            good_interval as u64 + 1,
            true,
        );

        (hard_interval, good_interval, easy_interval)
    }

    /// Transforms a hard, good or easy interval, given in half days times
    /// billionths.
    /// - Applies the interval modifier.
    /// - Applies fuzz, or rounds where `fuzz` is off.
    /// - Ensures it is at least `minimum`, and at least 1.
    /// - Ensures it is at or below the configured maximum interval.
    ///
    pub fn constrain_passing_interval(&self, interval: i128, minimum: u64, fuzz: bool) -> (r: u32)
        ensures
            r == self.spec_constrain_passing_interval(interval as int, minimum as int, fuzz),
    {
        let scaled = RawInterval::from_product(interval, self.interval_modifier);
        proof {
            lemma_saturation_keeps_days(interval * self.interval_modifier@);
        }
        let (minimum, maximum) = self.min_and_max_review_intervals(minimum);
        if fuzz {
            self.with_review_fuzz(scaled, minimum, maximum)
        } else {
            clamp_days(rounded_days(scaled), minimum, maximum)
        }
    }

    /// The minimum and maximum review intervals.
    /// - `maximum` is the configured maximum interval, but at least 1.
    /// - `minimum` is as passed, but at least 1, and at most `maximum`.
    pub fn min_and_max_review_intervals(&self, minimum: u64) -> (r: (u32, u32))
        ensures
            (r.0 as int, r.1 as int) == self.spec_min_and_max_review_intervals(minimum as int),
            1 <= r.0 <= r.1,
    {
        let maximum: u32 = if self.maximum_interval < 1 {
            1
        } else {
            self.maximum_interval
        };
        let minimum: u32 = if minimum < 1 {
            1
        } else if minimum > maximum as u64 {
            maximum
        } else {
            minimum as u32
        };
        (minimum, maximum)
    }

    /// The day count for the scaled `interval` within `[minimum, maximum]`,
    /// with this review's fuzz factor.
    pub fn with_review_fuzz(&self, interval: RawInterval, minimum: u32, maximum: u32) -> (r: u32)
        requires
            self.fuzz_factor is None ==> minimum <= maximum,
        ensures
            r == spec_with_review_fuzz(
                self.fuzz_factor,
                interval@,
                minimum as int,
                maximum as int,
            ),
    {
        with_review_fuzz(self.fuzz_factor, interval, minimum, maximum)
    }
}

/// The product of a count of half days and a multiplier fits well inside
/// `i128`.
proof fn lemma_product_fits(half_days: int, multiplier: int)
    requires
        0 <= half_days <= 4 * 0xffff_ffff,
        -0x8000_0000_0000_0000 <= multiplier <= 0x7fff_ffff_ffff_ffff,
    ensures
        -0x4_0000_0000_0000_0000_0000_0000 <= half_days * multiplier
            <= 0x4_0000_0000_0000_0000_0000_0000,
{
    assert(-0x4_0000_0000_0000_0000_0000_0000 <= half_days * multiplier
        <= 0x4_0000_0000_0000_0000_0000_0000) by (nonlinear_arith)
        requires
            0 <= half_days <= 4 * 0xffff_ffff,
            -0x8000_0000_0000_0000 <= multiplier <= 0x7fff_ffff_ffff_ffff,
    ;
}

/// A deck's scheduling settings and its three multiplier providers. A
/// provider is handed the card's current ease factor and current interval in
/// days and answers with the multiplier for its rating.
pub struct Scheduler<P> {
    pub enable_fuzz: bool,
    pub maximum_interval: u32,
    pub interval_modifier: Decimal,
    pub calculate_hard_multiplier: P,
    pub calculate_good_multiplier: P,
    pub calculate_easy_multiplier: P,
}

impl<P: Fn(Decimal, u32) -> Decimal> Scheduler<P> {
    /// Whether all three providers can be asked about a card with
    /// `ease_factor` and `scheduled_days`.
    pub open spec fn accepts(&self, ease_factor: Decimal, scheduled_days: u32) -> bool {
        &&& call_requires(self.calculate_hard_multiplier, (ease_factor, scheduled_days))
        &&& call_requires(self.calculate_good_multiplier, (ease_factor, scheduled_days))
        &&& call_requires(self.calculate_easy_multiplier, (ease_factor, scheduled_days))
    }

    /// Whether each provider has one answer only about a card with
    /// `ease_factor` and `scheduled_days`.
    pub open spec fn answers_uniquely(&self, ease_factor: Decimal, scheduled_days: u32) -> bool {
        &&& forall|a: Decimal, b: Decimal|
            call_ensures(self.calculate_hard_multiplier, (ease_factor, scheduled_days), a)
                && call_ensures(self.calculate_hard_multiplier, (ease_factor, scheduled_days), b)
                ==> a == b
        &&& forall|a: Decimal, b: Decimal|
            call_ensures(self.calculate_good_multiplier, (ease_factor, scheduled_days), a)
                && call_ensures(self.calculate_good_multiplier, (ease_factor, scheduled_days), b)
                ==> a == b
        &&& forall|a: Decimal, b: Decimal|
            call_ensures(self.calculate_easy_multiplier, (ease_factor, scheduled_days), a)
                && call_ensures(self.calculate_easy_multiplier, (ease_factor, scheduled_days), b)
                ==> a == b
    }

    /// Whether `review` is this deck's review of the card: the deck's
    /// settings, the card's interval and age, multipliers that the three
    /// providers can give for the card's current ease factor and interval,
    /// and the fuzz factor of `fuzz_seed` exactly where fuzz is enabled.
    pub open spec fn prepares(
        &self,
        fuzz_seed: u64,
        scheduled_days: u32,
        elapsed_days: u32,
        ease_factor: Decimal,
        review: InternalScheduler,
    ) -> bool {
        &&& review.wf()
        &&& review.fuzz_factor is Some <==> self.enable_fuzz
        &&& self.enable_fuzz ==> review.fuzz_factor.unwrap()@ == seeded_word(fuzz_seed) / 4096
        &&& review.maximum_interval == self.maximum_interval
        &&& review.interval_modifier == self.interval_modifier
        &&& call_ensures(
            self.calculate_hard_multiplier,
            (ease_factor, scheduled_days),
            review.hard_multiplier,
        )
        &&& call_ensures(
            self.calculate_good_multiplier,
            (ease_factor, scheduled_days),
            review.good_multiplier,
        )
        &&& call_ensures(
            self.calculate_easy_multiplier,
            (ease_factor, scheduled_days),
            review.easy_multiplier,
        )
        &&& review.scheduled_days == scheduled_days
        &&& review.elapsed_days == elapsed_days
    }

    /// Whether `next` is a recommendation this deck can make for the card:
    /// the recommendation of a review that the deck prepares.
    pub open spec fn recommends_next(
        &self,
        fuzz_seed: u64,
        scheduled_days: u32,
        elapsed_days: u32,
        ease_factor: Decimal,
        next: NextState,
    ) -> bool {
        exists|review: InternalScheduler| #[trigger]
            self.prepares(fuzz_seed, scheduled_days, elapsed_days, ease_factor, review) && next
                == review.spec_next_states()
    }

    /// Puts a deck's settings and providers together.
    pub fn new(
        enable_fuzz: bool,
        maximum_interval: u32,
        interval_modifier: Decimal,
        calculate_hard_multiplier: P,
        calculate_good_multiplier: P,
        calculate_easy_multiplier: P,
    ) -> (r: Self)
        ensures
            r.enable_fuzz == enable_fuzz,
            r.maximum_interval == maximum_interval,
            r.interval_modifier == interval_modifier,
            r.calculate_hard_multiplier == calculate_hard_multiplier,
            r.calculate_good_multiplier == calculate_good_multiplier,
            r.calculate_easy_multiplier == calculate_easy_multiplier,
    {
        Scheduler {
            enable_fuzz,
            maximum_interval,
            interval_modifier,
            calculate_hard_multiplier,
            calculate_good_multiplier,
            calculate_easy_multiplier,
        }
    }

    /// The recommended next intervals for a card in review. Each provider is
    /// asked once, about the ease factor and interval the card has now.
    pub fn next_states(
        &self,
        fuzz_seed: u64,
        scheduled_days: u32,
        elapsed_days: u32,
        ease_factor: Decimal,
    ) -> (r: NextState)
        requires
            self.accepts(ease_factor, scheduled_days),
        ensures
            self.recommends_next(fuzz_seed, scheduled_days, elapsed_days, ease_factor, r),
            elapsed_days < scheduled_days ==> r == (NextState {
                hard_interval: None,
                good_interval: None,
                easy_interval: None,
            }),
    {
        let hard_multiplier = self.calculate_hard_multiplier(ease_factor, scheduled_days);
        let good_multiplier = self.calculate_good_multiplier(ease_factor, scheduled_days);
        let easy_multiplier = self.calculate_easy_multiplier(ease_factor, scheduled_days);
        let scheduler = InternalScheduler::new(
            self.enable_fuzz,
            self.maximum_interval,
            self.interval_modifier,
            hard_multiplier,
            good_multiplier,
            easy_multiplier,
            fuzz_seed,
            scheduled_days,
            elapsed_days,
        );
        assert(self.prepares(fuzz_seed, scheduled_days, elapsed_days, ease_factor, scheduler));
        scheduler.next_states()
    }

    fn calculate_hard_multiplier(&self, current_ease_factor: Decimal, current_interval: u32) -> (r:
        Decimal)
        requires
            call_requires(self.calculate_hard_multiplier, (current_ease_factor, current_interval)),
        ensures
            call_ensures(
                self.calculate_hard_multiplier,
                (current_ease_factor, current_interval),
                r,
            ),
    {
        (self.calculate_hard_multiplier)(current_ease_factor, current_interval)
    }

    fn calculate_good_multiplier(&self, current_ease_factor: Decimal, current_interval: u32) -> (r:
        Decimal)
        requires
            call_requires(self.calculate_good_multiplier, (current_ease_factor, current_interval)),
        ensures
            call_ensures(
                self.calculate_good_multiplier,
                (current_ease_factor, current_interval),
                r,
            ),
    {
        (self.calculate_good_multiplier)(current_ease_factor, current_interval)
    }

    fn calculate_easy_multiplier(&self, current_ease_factor: Decimal, current_interval: u32) -> (r:
        Decimal)
        requires
            call_requires(self.calculate_easy_multiplier, (current_ease_factor, current_interval)),
        ensures
            call_ensures(
                self.calculate_easy_multiplier,
                (current_ease_factor, current_interval),
                r,
            ),
    {
        (self.calculate_easy_multiplier)(current_ease_factor, current_interval)
    }
}

/// A review before the due date gets no recommendation at all, whatever the
/// multipliers, the fuzz and the limits are.
pub proof fn lemma_early_review_gets_no_recommendation(review: InternalScheduler)
    requires
        review.elapsed_days < review.scheduled_days,
    ensures
        review.spec_next_states() == (NextState {
            hard_interval: None,
            good_interval: None,
            easy_interval: None,
        }),
{
}

/// A rating gets no recommendation exactly where the review is early or the
/// rating's multiplier is 0. A multiplier of 0 takes away its own rating's
/// interval and no other.
pub proof fn lemma_zero_multiplier_gives_no_recommendation(review: InternalScheduler)
    ensures
        review.spec_next_states().hard_interval is None <==> review.elapsed_days
            < review.scheduled_days || review.hard_multiplier@ == 0,
        review.spec_next_states().good_interval is None <==> review.elapsed_days
            < review.scheduled_days || review.good_multiplier@ == 0,
        review.spec_next_states().easy_interval is None <==> review.elapsed_days
            < review.scheduled_days || review.easy_multiplier@ == 0,
{
}

/// Every interval that a review can be given lies between 1 and the
/// configured maximum, or is 1 where the maximum is 0.
pub proof fn lemma_constrained_interval_is_within_limits(
    review: InternalScheduler,
    interval: int,
    minimum: int,
    fuzz: bool,
)
    requires
        review.wf(),
    ensures
        1 <= review.spec_min_and_max_review_intervals(minimum).0
            <= review.spec_constrain_passing_interval(interval, minimum, fuzz)
            <= review.spec_min_and_max_review_intervals(minimum).1 <= u32::MAX,
        review.spec_min_and_max_review_intervals(minimum).1 == if review.maximum_interval == 0 {
            1
        } else {
            review.maximum_interval as int
        },
{
    let (least, largest) = review.spec_min_and_max_review_intervals(minimum);
    lemma_review_fuzz_stays_in_range(
        review.fuzz_factor,
        interval * review.interval_modifier@,
        least,
        largest,
    );
}

/// The recommended intervals lie between 1 and the maximum. The easy interval
/// is above the good one unless it is at the maximum; with a hard multiplier
/// above 1 the hard interval is above the current one, and the good interval
/// above the hard one, unless at the maximum; else the good interval is above
/// the current one unless at the maximum.
pub proof fn lemma_recommended_intervals_are_limited_and_ordered(review: InternalScheduler)
    requires
        review.wf(),
    ensures
        ({
            let maximum = if review.maximum_interval == 0 {
                1
            } else {
                review.maximum_interval as int
            };
            let hard = review.spec_hard_interval();
            let good = review.spec_good_interval();
            let easy = review.spec_easy_interval();
            &&& 1 <= hard <= maximum
            &&& 1 <= good <= maximum
            &&& 1 <= easy <= maximum
            &&& easy > good || easy == maximum
            &&& review.hard_multiplier@ > NANOS_PER_UNIT ==> (hard > review.scheduled_days || hard
                == maximum) && (good > hard || good == maximum)
            &&& review.hard_multiplier@ <= NANOS_PER_UNIT ==> good > review.scheduled_days || good
                == maximum
        }),
{
    let current = review.scheduled_days as int;
    let late = review.spec_counted_days_late();
    let hard_minimum = if review.hard_multiplier@ <= NANOS_PER_UNIT {
        0
    } else {
        current + 1
    };
    lemma_constrained_interval_is_within_limits(
        review,
        2 * current * review.hard_multiplier@,
        hard_minimum,
        true,
    );
    let good_minimum = if review.hard_multiplier@ <= NANOS_PER_UNIT {
        current + 1
    } else {
        review.spec_hard_interval() + 1
    };
    lemma_constrained_interval_is_within_limits(
        review,
        (2 * current + late) * review.good_multiplier@,
        good_minimum,
        true,
    );
    lemma_constrained_interval_is_within_limits(
        review,
        (2 * current + 2 * late) * review.easy_multiplier@,
        review.spec_good_interval() + 1,
        true,
    );
}

/// The recommendation is a function of the review's settings, multipliers,
/// interval and age and of the value of its fuzz factor: two reviews that
/// agree in these get the same recommendation.
pub proof fn lemma_recommendation_is_determined(first: InternalScheduler, second: InternalScheduler)
    requires
        first.fuzz_factor is Some <==> second.fuzz_factor is Some,
        first.fuzz_factor is Some ==> first.fuzz_factor.unwrap()@ == second.fuzz_factor.unwrap()@,
        first.maximum_interval == second.maximum_interval,
        first.interval_modifier == second.interval_modifier,
        first.hard_multiplier == second.hard_multiplier,
        first.good_multiplier == second.good_multiplier,
        first.easy_multiplier == second.easy_multiplier,
        first.scheduled_days == second.scheduled_days,
        first.elapsed_days == second.elapsed_days,
    ensures
        first.spec_next_states() == second.spec_next_states(),
{
    assert(first.spec_hard_interval() == second.spec_hard_interval());
    assert(first.spec_good_interval() == second.spec_good_interval());
    assert(first.spec_easy_interval() == second.spec_easy_interval());
}

/// Scheduling is repeatable: where each provider gives one answer to one
/// question, a deck recommends one thing only for the same seed and the same
/// card.
pub proof fn lemma_same_inputs_give_the_same_recommendation<P: Fn(Decimal, u32) -> Decimal>(
    deck: Scheduler<P>,
    fuzz_seed: u64,
    scheduled_days: u32,
    elapsed_days: u32,
    ease_factor: Decimal,
    first: NextState,
    second: NextState,
)
    requires
        deck.answers_uniquely(ease_factor, scheduled_days),
        deck.recommends_next(fuzz_seed, scheduled_days, elapsed_days, ease_factor, first),
        deck.recommends_next(fuzz_seed, scheduled_days, elapsed_days, ease_factor, second),
    ensures
        first == second,
{
    let a = choose|review: InternalScheduler| #[trigger]
        deck.prepares(fuzz_seed, scheduled_days, elapsed_days, ease_factor, review) && first
            == review.spec_next_states();
    let b = choose|review: InternalScheduler| #[trigger]
        deck.prepares(fuzz_seed, scheduled_days, elapsed_days, ease_factor, review) && second
            == review.spec_next_states();
    lemma_recommendation_is_determined(a, b);
}

} // verus!
