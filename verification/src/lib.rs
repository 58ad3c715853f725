//! Next intervals and ease factors for flashcards in review.
//!
//! For a card that is being answered, the library computes what each of the
//! ratings "again", "hard", "good" and "easy" should do to it: the next
//! interval in days, fuzzed from a seed so that cards do not pile up on one
//! day, and an ease factor that is raised after a run of successful reviews.
//! Cards that are not in review are left to the host.
//!
//! All fractional quantities are [`decimal::Decimal`]s, and every
//! computation on them is exact: intervals are carried as exact fractions of
//! a day until they are rounded to whole days.
use vstd::prelude::*;
use crate::anki::{
    CustomDataState, CustomDataStates, Host, ReviewState, SchedulingContext, SchedulingState,
    SchedulingStates,
};
use crate::decimal::Decimal;
use crate::decks::DeckOptionsByName;
use crate::ease_reward::EaseReward;
use crate::scheduler::{lemma_same_inputs_give_the_same_recommendation, NextState, Scheduler};

pub mod anki;
pub mod decimal;
pub mod decks;
pub mod ease_reward;
pub mod fuzz;
pub mod scheduler;

verus! {

/// The options of one deck: how ease is rewarded and how intervals are set.
pub struct DeckOptions<P> {
    pub ease_reward: EaseReward,
    pub scheduler: Scheduler<P>,
}

/// The name under which the options for all other decks are kept.
pub open spec fn spec_global_settings() -> Seq<char> {
    "Global Settings"@
}

/// The options that hold for the deck `deck_name`: those under the deck's
/// own name, else those under "Global Settings", else none.
pub open spec fn spec_selected<P>(
    decks: Map<Seq<char>, DeckOptions<P>>,
    deck_name: Seq<char>,
) -> Option<DeckOptions<P>> {
    if decks.contains_key(deck_name) {
        Some(decks[deck_name])
    } else if decks.contains_key(spec_global_settings()) {
        Some(decks[spec_global_settings()])
    } else {
        None
    }
}

/// The number a rating's count of successes goes to: one more than before,
/// starting at 1.
pub open spec fn spec_successes(counter: CustomDataState) -> int {
    match counter.c {
        Some(c) => c + 1,
        None => 1,
    }
}

/// Whether the count of a rating that is to be rewarded can still grow.
pub open spec fn spec_has_room(state: SchedulingState, counter: CustomDataState) -> bool {
    state.kind.spec_review() is Some ==> counter.c != Some(u32::MAX)
}

/// The custom data of "again" after an answer: its count is dropped where
/// "again" sends the card to relearning.
pub open spec fn spec_again_data(
    state: SchedulingState,
    counter: CustomDataState,
) -> CustomDataState {
    if state.kind.spec_is_relearning() {
        CustomDataState { c: None }
    } else {
        counter
    }
}

/// The "hard" state after an answer: a review takes the recommended
/// interval, where there is one.
pub open spec fn spec_hard_state(state: SchedulingState, interval: Option<u32>) -> SchedulingState {
    match interval {
        Some(days) => state.spec_with_scheduled_days(days),
        None => state,
    }
}

/// The "good" or "easy" state after an answer. A review gets the ease factor
/// that `ease_reward` gives for one more success, and the recommended
/// interval where there is one. Any other state stays as it is.
pub open spec fn spec_rewarded_state(
    state: SchedulingState,
    counter: CustomDataState,
    ease_reward: EaseReward,
    interval: Option<u32>,
) -> SchedulingState {
    match state.kind.spec_review() {
        Some(review) => {
            let rewarded = state.spec_with_ease_factor(
                Decimal {
                    nanos: ease_reward.spec_new_ease_factor(
                        spec_successes(counter) as u32,
                        review.ease_factor,
                    ) as i64,
                },
            );
            match interval {
                Some(days) => rewarded.spec_with_scheduled_days(days),
                None => rewarded,
            }
        },
        None => state,
    }
}

/// The custom data of "good" or "easy" after an answer: a review counts one
/// more success.
pub open spec fn spec_rewarded_data(
    state: SchedulingState,
    counter: CustomDataState,
) -> CustomDataState {
    if state.kind.spec_review() is Some {
        CustomDataState { c: Some(spec_successes(counter) as u32) }
    } else {
        counter
    }
}

/// What the host holds after the recommendation `next` and the ease reward
/// have been written into it.
pub open spec fn spec_outcome(host: Host, ease_reward: EaseReward, next: NextState) -> Host {
    Host {
        context: host.context,
        states: SchedulingStates {
            current: host.states.current,
            again: host.states.again,
            hard: spec_hard_state(host.states.hard, next.hard_interval),
            good: spec_rewarded_state(
                host.states.good,
                host.custom_data.good,
                ease_reward,
                next.good_interval,
            ),
            easy: spec_rewarded_state(
                host.states.easy,
                host.custom_data.easy,
                ease_reward,
                next.easy_interval,
            ),
        },
        custom_data: CustomDataStates {
            again: spec_again_data(host.states.again, host.custom_data.again),
            hard: host.custom_data.hard,
            good: spec_rewarded_data(host.states.good, host.custom_data.good),
            easy: spec_rewarded_data(host.states.easy, host.custom_data.easy),
        },
    }
}

/// Whether the card's answer can be computed: where options hold for the
/// card's deck and the card is in review, the deck's providers can be asked
/// about the card, and the counts of "good" and "easy" can still grow.
pub open spec fn spec_answerable<P: Fn(Decimal, u32) -> Decimal>(
    decks: Map<Seq<char>, DeckOptions<P>>,
    host: Host,
) -> bool {
    match (spec_selected(decks, host.context.deck_name@), host.states.current.kind.spec_review()) {
        (Some(deck), Some(review)) => {
            &&& deck.scheduler.accepts(review.ease_factor, review.scheduled_days)
            &&& spec_has_room(host.states.good, host.custom_data.good)
            &&& spec_has_room(host.states.easy, host.custom_data.easy)
        },
        _ => true,
    }
}

/// Whether `after` is what answering the card can make of `before`. Where no
/// options hold for the card's deck, or the card is not in review, nothing
/// changes. Else the deck's scheduler recommends the next intervals for the
/// card's current interval, age and ease factor with the host's seed, and
/// these and the deck's ease reward are written into the host.
pub open spec fn spec_answers<P: Fn(Decimal, u32) -> Decimal>(
    decks: Map<Seq<char>, DeckOptions<P>>,
    before: Host,
    after: Host,
) -> bool {
    match (
        spec_selected(decks, before.context.deck_name@),
        before.states.current.kind.spec_review(),
    ) {
        (Some(deck), Some(review)) => exists|next: NextState| #[trigger]
            deck.scheduler.recommends_next(
                before.context.seed,
                review.scheduled_days,
                review.elapsed_days,
                review.ease_factor,
                next,
            ) && after == spec_outcome(before, deck.ease_reward, next),
        _ => after == before,
    }
}

/// The deck and seed of the answer at hand.
pub fn get_context(host: &Host) -> (r: &SchedulingContext)
    ensures
        *r == host.context,
{
    &host.context
}

/// The states the host proposes for the card.
pub fn get_states(host: &Host) -> (r: &SchedulingStates)
    ensures
        *r == host.states,
{
    &host.states
}

/// The custom data the host keeps for each rating.
pub fn get_custom_data(host: &Host) -> (r: &CustomDataStates)
    ensures
        *r == host.custom_data,
{
    &host.custom_data
}

/// The options that hold for the deck `deck_name`: its own, else those under
/// "Global Settings"; none where `decks` has neither.
pub fn select_deck_options<'a, P>(
    decks: &'a DeckOptionsByName<P>,
    deck_name: &String,
) -> (r: Option<&'a DeckOptions<P>>)
    ensures
        match spec_selected(decks@, deck_name@) {
            Some(options) => r == Some(&options),
            None => r is None,
        },
{
    match decks.get(deck_name) {
        Some(options) => Some(options),
        None => {
            let global_settings = "Global Settings".to_owned();
            decks.get(&global_settings)
        },
    }
}

/// The review data of the card's current state; none unless the card is in
/// review, directly or under a rescheduling filter.
pub fn current_review(states: &SchedulingStates) -> (r: Option<ReviewState>)
    ensures
        r == states.current.kind.spec_review(),
{
    states.current.kind.review()
}

/// Rewards one of the ratings "good" and "easy": a review counts one more
/// success, gets the ease factor for that count and, where `interval` holds
/// one, that interval.
pub fn reward_rating(
    state: &mut SchedulingState,
    counter: &mut CustomDataState,
    ease_reward: &EaseReward,
    interval: Option<u32>,
)
    requires
        spec_has_room(*old(state), *old(counter)),
    ensures
        *final(state) == spec_rewarded_state(*old(state), *old(counter), *ease_reward, interval),
        *final(counter) == spec_rewarded_data(*old(state), *old(counter)),
{
    match state.kind.review() {
        Some(review) => {
            let number_of_successful_reviews: u32 = match counter.c() {
                Some(c) => c + 1,
                None => 1,
            };
            state.set_ease_factor(
                ease_reward.calculate_new_ease_factor(
                    number_of_successful_reviews,
                    review.ease_factor,
                ),
            );
            counter.set_c(Some(number_of_successful_reviews));
            if let Some(days) = interval {
                state.set_scheduled_days(days);
            }
        },
        None => {},
    }
}

/// Writes a recommendation into the host's states and custom data.
/// - "again": its count of successes is dropped where it leads to relearning.
/// - "hard": a review takes the recommended interval.
/// - "good" and "easy": a review counts one more success, is given the
///   rewarded ease factor, and takes the recommended interval.
pub fn apply_next_states(host: &mut Host, ease_reward: &EaseReward, next_states: NextState)
    requires
        spec_has_room(old(host).states.good, old(host).custom_data.good),
        spec_has_room(old(host).states.easy, old(host).custom_data.easy),
    ensures
        *final(host) == spec_outcome(*old(host), *ease_reward, next_states),
{
    if host.states.again.kind.is_relearning() {
        host.custom_data.again.set_c(None);
    }
    if let Some(hard_interval) = next_states.hard_interval {
        host.states.hard.set_scheduled_days(hard_interval);
    }
    reward_rating(
        &mut host.states.good,
        &mut host.custom_data.good,
        ease_reward,
        next_states.good_interval,
    );
    reward_rating(
        &mut host.states.easy,
        &mut host.custom_data.easy,
        ease_reward,
        next_states.easy_interval,
    );
}

/// Computes the next states of the card being answered and writes them into
/// `host`. Nothing is changed, and `false` is returned, where no options
/// hold for the card's deck or the card is not in review.
pub fn calculate_next_card_states<P: Fn(Decimal, u32) -> Decimal>(
    deck_name_to_deck_options: &DeckOptionsByName<P>,
    host: &mut Host,
) -> (applied: bool)
    requires
        spec_answerable(deck_name_to_deck_options@, *old(host)),
    ensures
        applied <==> spec_selected(deck_name_to_deck_options@, old(host).context.deck_name@)
            is Some && old(host).states.current.kind.spec_review() is Some,
        spec_answers(deck_name_to_deck_options@, *old(host), *final(host)),
{
    let deck_options = match select_deck_options(
        deck_name_to_deck_options,
        &get_context(host).deck_name,
    ) {
        None => {
            return false;
        },
        Some(deck_options) => deck_options,
    };
    let review = match current_review(get_states(host)) {
        // Cards that are new, being learned or relearned, or previewed keep
        // the host's own schedule.
        None => {
            return false;
        },
        Some(review) => review,
    };
    let next_states = deck_options.scheduler.next_states(
        get_context(host).seed,
        review.scheduled_days,
        review.elapsed_days,
        review.ease_factor,
    );
    apply_next_states(host, &deck_options.ease_reward, next_states);
    true
}

/// Answering is repeatable: where each provider of the deck in charge gives
/// one answer to one question, the same decks and the same host lead to one
/// outcome only.
pub proof fn lemma_same_inputs_give_the_same_outcome<P: Fn(Decimal, u32) -> Decimal>(
    decks: Map<Seq<char>, DeckOptions<P>>,
    before: Host,
    first: Host,
    second: Host,
)
    requires
        match (
            spec_selected(decks, before.context.deck_name@),
            before.states.current.kind.spec_review(),
        ) {
            (Some(deck), Some(review)) => deck.scheduler.answers_uniquely(
                review.ease_factor,
                review.scheduled_days,
            ),
            _ => true,
        },
        spec_answers(decks, before, first),
        spec_answers(decks, before, second),
    ensures
        first == second,
{
    match (
        spec_selected(decks, before.context.deck_name@),
        before.states.current.kind.spec_review(),
    ) {
        (Some(deck), Some(review)) => {
            let a = choose|next: NextState| #[trigger]
                deck.scheduler.recommends_next(
                    before.context.seed,
                    review.scheduled_days,
                    review.elapsed_days,
                    review.ease_factor,
                    next,
                ) && first == spec_outcome(before, deck.ease_reward, next);
            let b = choose|next: NextState| #[trigger]
                deck.scheduler.recommends_next(
                    before.context.seed,
                    review.scheduled_days,
                    review.elapsed_days,
                    review.ease_factor,
                    next,
                ) && second == spec_outcome(before, deck.ease_reward, next);
            lemma_same_inputs_give_the_same_recommendation(
                deck.scheduler,
                before.context.seed,
                review.scheduled_days,
                review.elapsed_days,
                review.ease_factor,
                a,
                b,
            );
        },
        _ => {},
    }
}

} // verus!
