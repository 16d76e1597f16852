//! What holds of a chicken across every sequence of instructions applied to
//! its stats account.

use vstd::prelude::*;
use crate::chicken_proxy::{ChickenError, ChickenStats, INITIAL_BREEDS, bred_first, bred_second, breeding_refusal, periods_since};

verus! {

/// One instruction that changes a chicken's stats account.
#[derive(Clone, Debug)]
pub enum ChickenEvent {
    /// A meal at cluster time `now` worth `units` whole feed tokens.
    Feed { now: u64, units: u8 },
    /// A breeding with `partner`, this chicken being the first parent when
    /// `as_first` holds and the second otherwise.
    BreedWith { partner: ChickenStats, as_first: bool },
    /// An update of the stat named `key` to `value`.
    Update { key: String, value: u8 },
}

/// The stats after one event, and whether the event was a breeding that
/// went through. A refused event changes nothing.
pub open spec fn step(s: ChickenStats, e: ChickenEvent) -> (ChickenStats, bool) {
    match e {
        ChickenEvent::Feed { now, units } => {
            if s.is_dead { (s, false) } else { (s.fed(now, units), false) }
        },
        ChickenEvent::BreedWith { partner, as_first } => {
            let refusal = if as_first { breeding_refusal(s, partner) } else { breeding_refusal(partner, s) };
            if refusal is Some {
                (s, false)
            } else if as_first {
                (bred_first(s), true)
            } else {
                (bred_second(s), true)
            }
        },
        ChickenEvent::Update { key, value } => (s.updated(key@, value), false),
    }
}

/// The stats after the events, applied in order.
pub open spec fn run(s: ChickenStats, events: Seq<ChickenEvent>) -> ChickenStats
    decreases events.len(),
{
    if events.len() == 0 {
        s
    } else {
        run(step(s, events[0]).0, events.drop_first())
    }
}

/// How many of the events were breedings that went through.
pub open spec fn breedings(s: ChickenStats, events: Seq<ChickenEvent>) -> nat
    decreases events.len(),
{
    if events.len() == 0 {
        0
    } else {
        let (next, bred) = step(s, events[0]);
        (if bred { 1nat } else { 0nat }) + breedings(next, events.drop_first())
    }
}

/// Every breeding that goes through uses up one of the chicken's breeds,
/// and nothing else changes how many it has left: the breeds left and the
/// breedings done always add up to the breeds it started with.
pub proof fn breeds_account_for_breedings(s: ChickenStats, events: Seq<ChickenEvent>)
    ensures
        breedings(s, events) + run(s, events).breeds == s.breeds,
    decreases events.len(),
{
    if events.len() > 0 {
        breeds_account_for_breedings(step(s, events[0]).0, events.drop_first());
    }
}

/// A chicken whose stats account was just created can be bred at most five
/// times, whatever happens to it afterwards.
pub proof fn created_chicken_breeds_at_most_five(s: ChickenStats, events: Seq<ChickenEvent>)
    requires
        s.breeds == INITIAL_BREEDS,
    ensures
        breedings(s, events) <= 5,
{
    breeds_account_for_breedings(s, events);
}

/// Death is final: feeding refuses a dead chicken, breeding refuses a pair
/// with a dead chicken in it whichever parent it is, and an update of any
/// stat leaves it dead.
pub proof fn dead_chicken_refused(s: ChickenStats, partner: ChickenStats, key: Seq<char>, value: u8)
    requires
        s.is_dead,
    ensures
        breeding_refusal(s, partner) == Some(ChickenError::ChickenDead),
        breeding_refusal(partner, s) == Some(ChickenError::ChickenDead),
        s.updated(key, value).is_dead,
{
}

/// Once dead, a chicken stays dead through any sequence of instructions.
pub proof fn dead_chicken_stays_dead(s: ChickenStats, events: Seq<ChickenEvent>)
    requires
        s.is_dead,
    ensures
        run(s, events).is_dead,
    decreases events.len(),
{
    if events.len() > 0 {
        let next = step(s, events[0]).0;
        match events[0] {
            ChickenEvent::Update { key, value } => {
                dead_chicken_refused(s, s, key@, value);
            },
            _ => {},
        }
        assert(next.is_dead);
        dead_chicken_stays_dead(next, events.drop_first());
    }
}

/// A meal never makes a chicken less happy or less fertile, and raises each
/// by at most one.
pub proof fn meal_raises_moods_by_at_most_one(s: ChickenStats, now: u64, units: u8)
    ensures
        s.happiness <= s.fed(now, units).happiness <= s.happiness + 1,
        s.fertility <= s.fed(now, units).fertility <= s.fertility + 1,
{
}

/// Feeding never makes a chicken less happy or less fertile, never revives
/// it, and records the meal's time; only a successful feed moves the time of
/// the last meal, since a refused one changes nothing.
pub proof fn feeding_is_monotone(s: ChickenStats, now: u64, units: u8)
    ensures
        s.fed(now, units).happiness >= s.happiness,
        s.fed(now, units).fertility >= s.fertility,
        s.is_dead ==> s.fed(now, units).is_dead,
        s.fed(now, units).last_fed_date == now,
        step(s, ChickenEvent::Feed { now, units }).0.last_fed_date != s.last_fed_date ==> !s.is_dead,
{
}

/// A meal worth at least the chicken's hunger (grown for the periods it
/// waited) leaves it with no hunger at all; a smaller meal lowers hunger by
/// exactly its worth.
pub proof fn meal_lowers_hunger_by_its_worth(s: ChickenStats, now: u64, units: u8)
    requires
        !s.feed_overflows(now),
    ensures
        units >= s.hunger_before_meal(now) ==> s.fed(now, units).hunger == 0,
        units < s.hunger_before_meal(now) ==> s.fed(now, units).hunger == s.hunger_before_meal(now) - units,
{
}

/// A chicken that was fed before and then left seven or more periods
/// without food is dead after its next meal.
pub proof fn starved_chicken_dies(s: ChickenStats, now: u64, units: u8)
    requires
        s.last_fed_date > 0,
        periods_since(s.last_fed_date, now) >= 7,
    ensures
        s.fed(now, units).is_dead,
{
}

/// A meal taken less than a period after the previous one changes neither
/// happiness, fertility nor the hunger the chicken had, beyond what the meal
/// itself takes off.
pub proof fn timely_meal_changes_only_hunger(s: ChickenStats, now: u64, units: u8)
    requires
        s.last_fed_date > 0,
        periods_since(s.last_fed_date, now) < 1,
    ensures
        s.fed(now, units).happiness == s.happiness,
        s.fed(now, units).fertility == s.fertility,
        s.hunger_before_meal(now) == s.hunger,
        !s.fed(now, units).is_dead || s.is_dead,
{
}

} // verus!
