//! The scheduling states and custom data that the host hands over.
use vstd::prelude::*;
use crate::decimal::Decimal;

verus! {

/// The memory model's state of a card, carried along untouched.
#[derive(Clone, Copy, Debug, PartialEq, Eq, Structural)]
pub struct FsrsMemoryState {
    pub stability: Decimal,
    pub difficulty: Decimal,
}

/// A card that has not been studied yet.
#[derive(Clone, Copy, Debug, PartialEq, Eq, Structural)]
pub struct NewState {
    pub position: u32,
}

/// A card in its learning steps.
#[derive(Clone, Copy, Debug, PartialEq, Eq, Structural)]
pub struct LearnState {
    pub remaining_steps: u32,
    pub scheduled_secs: u32,
    pub elapsed_secs: u32,
    pub memory_state: Option<FsrsMemoryState>,
}

/// A card in review: it has an interval and an ease factor.
#[derive(Clone, Copy, Debug, PartialEq, Eq, Structural)]
pub struct ReviewState {
    pub scheduled_days: u32,
    pub elapsed_days: u32,
    pub ease_factor: Decimal,
    pub lapses: u32,
    pub leeched: bool,
    pub memory_state: Option<FsrsMemoryState>,
}

/// A lapsed card that is being learned again.
#[derive(Clone, Copy, Debug, PartialEq, Eq, Structural)]
pub struct RelearnState {
    pub learning: LearnState,
    pub review: ReviewState,
}

/// The state of a card in an ordinary deck.
#[derive(Clone, Copy, Debug, PartialEq, Eq, Structural)]
pub enum NormalState {
    New(NewState),
    Learning(LearnState),
    Review(ReviewState),
    Relearning(RelearnState),
}

/// A card that is only previewed in a filtered deck.
#[derive(Clone, Copy, Debug, PartialEq, Eq, Structural)]
pub struct PreviewState {
    pub scheduled_secs: u32,
    pub finished: bool,
}

/// A card in a filtered deck that reschedules: its ordinary state underneath.
#[derive(Clone, Copy, Debug, PartialEq, Eq, Structural)]
pub struct ReschedulingFilterState {
    pub original_state: NormalState,
}

/// The state of a card in a filtered deck.
#[derive(Clone, Copy, Debug, PartialEq, Eq, Structural)]
pub enum FilteredState {
    Preview(PreviewState),
    Rescheduling(ReschedulingFilterState),
}

/// Either kind of scheduling state.
#[derive(Clone, Copy, Debug, PartialEq, Eq, Structural)]
pub enum SchedulingStateKind {
    Normal(NormalState),
    Filtered(FilteredState),
}

impl SchedulingStateKind {
    /// The ordinary state that counts: the state itself, or the one under a
    /// rescheduling filter; none for a preview.
    pub open spec fn spec_normal(&self) -> Option<NormalState> {
        match *self {
            SchedulingStateKind::Normal(normal) => Some(normal),
            SchedulingStateKind::Filtered(FilteredState::Preview(_)) => None,
            SchedulingStateKind::Filtered(FilteredState::Rescheduling(rescheduling)) => Some(
                rescheduling.original_state,
            ),
        }
    }

    /// The review data, where the state that counts is a review.
    pub open spec fn spec_review(&self) -> Option<ReviewState> {
        match self.spec_normal() {
            Some(NormalState::Review(review)) => Some(review),
            _ => None,
        }
    }

    /// Whether the state that counts is a relearning state.
    pub open spec fn spec_is_relearning(&self) -> bool {
        self.spec_normal() matches Some(NormalState::Relearning(_))
    }

    /// This state with `review` in place of its review data; the state
    /// itself where it holds none.
    pub open spec fn spec_with_review(&self, review: ReviewState) -> SchedulingStateKind {
        match *self {
            SchedulingStateKind::Normal(NormalState::Review(_)) => SchedulingStateKind::Normal(
                NormalState::Review(review),
            ),
            SchedulingStateKind::Filtered(
                FilteredState::Rescheduling(
                    ReschedulingFilterState { original_state: NormalState::Review(_) },
                ),
            ) => SchedulingStateKind::Filtered(
                FilteredState::Rescheduling(
                    ReschedulingFilterState { original_state: NormalState::Review(review) },
                ),
            ),
            _ => *self,
        }
    }

    /// The ordinary state that counts: the state itself, or the one under a
    /// rescheduling filter; none for a preview.
    pub fn normal(&self) -> (r: Option<NormalState>)
        ensures
            r == self.spec_normal(),
    {
        match *self {
            SchedulingStateKind::Normal(normal) => Some(normal),
            SchedulingStateKind::Filtered(filtered) => match filtered {
                FilteredState::Preview(_) => None,
                FilteredState::Rescheduling(rescheduling) => Some(rescheduling.original_state),
            },
        }
    }

    /// The review data, where the state that counts is a review.
    pub fn review(&self) -> (r: Option<ReviewState>)
        ensures
            r == self.spec_review(),
    {
        match self.normal() {
            Some(NormalState::Review(review)) => Some(review),
            _ => None,
        }
    }

    /// Whether the state that counts is a relearning state.
    pub fn is_relearning(&self) -> (r: bool)
        ensures
            r == self.spec_is_relearning(),
    {
        match self.normal() {
            Some(NormalState::Relearning(_)) => true,
            _ => false,
        }
    }

    /// Puts `review` in place of the review data, where the state holds any.
    pub fn set_review(&mut self, review: ReviewState)
        ensures
            *final(self) == old(self).spec_with_review(review),
    {
        match *self {
            SchedulingStateKind::Normal(NormalState::Review(_)) => {
                *self = SchedulingStateKind::Normal(NormalState::Review(review));
            },
            SchedulingStateKind::Filtered(
                FilteredState::Rescheduling(
                    ReschedulingFilterState { original_state: NormalState::Review(_) },
                ),
            ) => {
                *self = SchedulingStateKind::Filtered(
                    FilteredState::Rescheduling(
                        ReschedulingFilterState { original_state: NormalState::Review(review) },
                    ),
                );
            },
            _ => {},
        }
    }
}

/// One of the states the host proposes for a card, with the custom data the
/// host keeps beside it.
#[derive(Clone, Debug, PartialEq, Eq)]
pub struct SchedulingState {
    pub kind: SchedulingStateKind,
    pub custom_data: Option<String>,
}

impl SchedulingState {
    /// This state with `scheduled_days` as its interval, where it is a
    /// review; else the state itself.
    pub open spec fn spec_with_scheduled_days(self, scheduled_days: u32) -> SchedulingState {
        match self.kind.spec_review() {
            Some(review) => SchedulingState {
                kind: self.kind.spec_with_review(
                    ReviewState { scheduled_days, ..review },
                ),
                ..self
            },
            None => self,
        }
    }

    /// This state with `ease_factor` as its ease factor, where it is a
    /// review; else the state itself.
    pub open spec fn spec_with_ease_factor(self, ease_factor: Decimal) -> SchedulingState {
        match self.kind.spec_review() {
            Some(review) => SchedulingState {
                kind: self.kind.spec_with_review(ReviewState { ease_factor, ..review }),
                ..self
            },
            None => self,
        }
    }

    /// Overrides the interval of a review; any other state is left as it is.
    pub fn set_scheduled_days(&mut self, scheduled_days: u32)
        ensures
            *final(self) == old(self).spec_with_scheduled_days(scheduled_days),
    {
        match self.kind.review() {
            Some(review) => {
                let mut changed = review;
                changed.scheduled_days = scheduled_days;
                self.kind.set_review(changed);
            },
            None => {},
        }
    }

    /// Overrides the ease factor of a review; any other state is left as it
    /// is.
    pub fn set_ease_factor(&mut self, ease_factor: Decimal)
        ensures
            *final(self) == old(self).spec_with_ease_factor(ease_factor),
    {
        match self.kind.review() {
            Some(review) => {
                let mut changed = review;
                changed.ease_factor = ease_factor;
                self.kind.set_review(changed);
            },
            None => {},
        }
    }
}

/// The state the card is in and the state each rating would put it in.
#[derive(Clone, Debug, PartialEq, Eq)]
pub struct SchedulingStates {
    pub current: SchedulingState,
    pub again: SchedulingState,
    pub hard: SchedulingState,
    pub good: SchedulingState,
    pub easy: SchedulingState,
}

/// What the host tells about the answer at hand: the card's deck, and a seed
/// that is the same whenever the same answer is computed again.
#[derive(Clone, Debug, PartialEq, Eq)]
pub struct SchedulingContext {
    pub deck_name: String,
    pub seed: u64,
}

/// The custom data of one rating: `c` counts the successful reviews in a row.
#[derive(Clone, Copy, Debug, PartialEq, Eq, Structural)]
pub struct CustomDataState {
    pub c: Option<u32>,
}

impl CustomDataState {
    /// The count kept so far, if any.
    pub fn c(&self) -> (r: Option<u32>)
        ensures
            r == self.c,
    {
        self.c
    }

    /// Replaces the count.
    pub fn set_c(&mut self, c: Option<u32>)
        ensures
            final(self).c == c,
    {
        self.c = c;
    }
}

/// The custom data of all four ratings.
#[derive(Clone, Copy, Debug, PartialEq, Eq, Structural)]
pub struct CustomDataStates {
    pub again: CustomDataState,
    pub hard: CustomDataState,
    pub good: CustomDataState,
    pub easy: CustomDataState,
}

/// Everything the host exposes while a card is answered.
#[derive(Clone, Debug, PartialEq, Eq)]
pub struct Host {
    pub context: SchedulingContext,
    pub states: SchedulingStates,
    pub custom_data: CustomDataStates,
}

} // verus!
