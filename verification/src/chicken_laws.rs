//! What feeding, breeding and updating do to a chicken's stats, stated
//! field by field over all inputs.

use vstd::prelude::*;
use crate::chicken_proxy::{ChickenStats, bred_first, bred_second};

verus! {

/// What is left of hunger `h` after a meal worth `units`: zero when the meal
/// covers it, the difference otherwise.
pub open spec fn hunger_left(h: int, units: int) -> int {
    if units >= h { 0 } else { h - units }
}

/// `v` raised by one, unless it is at 255.
pub open spec fn raised_once(v: u8) -> int {
    if v < 255 { v + 1 } else { v as int }
}

/// The two stats agree on every field but hunger, happiness, fertility,
/// health, breeds, the time of the last meal and death.
pub open spec fn same_records(a: ChickenStats, b: ChickenStats) -> bool {
    &&& a.dna == b.dna
    &&& a.bump == b.bump
    &&& a.feeds == b.feeds
    &&& a.list_price_lamports == b.list_price_lamports
    &&& a.current_owner == b.current_owner
    &&& a.for_sale == b.for_sale
}

/// A meal changes only hunger, happiness, fertility, death and the time of
/// the last meal, which becomes the meal's time.
pub proof fn meal_keeps_other_fields(s: ChickenStats, now: u64, units: u8)
    ensures
        same_records(s.fed(now, units), s),
        s.fed(now, units).health == s.health,
        s.fed(now, units).breeds == s.breeds,
        s.fed(now, units).last_fed_date == now,
{
}

/// A chicken's first meal (it was never fed) raises happiness and fertility
/// by one (up to 255), takes the meal's worth off its hunger (not below
/// zero), and does not kill it.
pub proof fn first_meal(s: ChickenStats, now: u64, units: u8)
    requires
        s.last_fed_date == 0,
    ensures
        s.fed(now, units).happiness == raised_once(s.happiness),
        s.fed(now, units).fertility == raised_once(s.fertility),
        s.fed(now, units).hunger == hunger_left(s.hunger as int, units as int),
        s.fed(now, units).is_dead == s.is_dead,
{
}

/// A meal less than one period (300 s) after the last one changes neither
/// happiness, fertility nor death, and only takes the meal's worth off the
/// hunger (not below zero). A clock that reads no later than the last meal
/// counts as no time passed.
pub proof fn timely_meal(s: ChickenStats, now: u64, units: u8)
    requires
        s.last_fed_date > 0,
        now < s.last_fed_date + 300,
    ensures
        s.fed(now, units).happiness == s.happiness,
        s.fed(now, units).fertility == s.fertility,
        s.fed(now, units).hunger == hunger_left(s.hunger as int, units as int),
        s.fed(now, units).is_dead == s.is_dead,
{
    if now > s.last_fed_date {
        assert((now - s.last_fed_date) / 300 == 0);
    }
}

/// A meal one to six whole periods late raises happiness and fertility by
/// one (up to 255) and keeps the chicken alive; unless hunger is already at
/// 255, hunger first grows by 1, 2, 4, 8, 16 or 16 for one to six missed
/// periods, whatever it was (zero included), and the meal's worth is then
/// taken off (not below zero). A hunger of 255 does not grow. Growth past
/// 255 is outside the feed instruction's domain and left out here.
pub proof fn late_meal(s: ChickenStats, now: u64, units: u8)
    requires
        s.last_fed_date > 0,
        now >= s.last_fed_date + 300,
        now < s.last_fed_date + 2100,
    ensures
        s.fed(now, units).happiness == raised_once(s.happiness),
        s.fed(now, units).fertility == raised_once(s.fertility),
        s.fed(now, units).is_dead == s.is_dead,
        s.hunger == 255 ==> s.fed(now, units).hunger == hunger_left(255, units as int),
        now < s.last_fed_date + 600 && s.hunger + 1 <= 255
            ==> s.fed(now, units).hunger == hunger_left(s.hunger + 1, units as int),
        s.last_fed_date + 600 <= now < s.last_fed_date + 900 && s.hunger + 2 <= 255
            ==> s.fed(now, units).hunger == hunger_left(s.hunger + 2, units as int),
        s.last_fed_date + 900 <= now < s.last_fed_date + 1200 && s.hunger + 4 <= 255
            ==> s.fed(now, units).hunger == hunger_left(s.hunger + 4, units as int),
        s.last_fed_date + 1200 <= now < s.last_fed_date + 1500 && s.hunger + 8 <= 255
            ==> s.fed(now, units).hunger == hunger_left(s.hunger + 8, units as int),
        s.last_fed_date + 1500 <= now < s.last_fed_date + 2100 && s.hunger + 16 <= 255
            ==> s.fed(now, units).hunger == hunger_left(s.hunger + 16, units as int),
{
    let d: int = now - s.last_fed_date;
    assert(d >= 300 && d < 2100);
    if d < 600 {
        assert(d / 300 == 1);
    } else if d < 900 {
        assert(d / 300 == 2);
    } else if d < 1200 {
        assert(d / 300 == 3);
    } else if d < 1500 {
        assert(d / 300 == 4);
    } else if d < 1800 {
        assert(d / 300 == 5);
    } else {
        assert(d / 300 == 6);
    }
}

/// A meal seven or more whole periods late kills the chicken; hunger does not
/// grow, the meal's worth is taken off it (not below zero), and happiness
/// and fertility still rise by one (up to 255).
pub proof fn starved_meal(s: ChickenStats, now: u64, units: u8)
    requires
        s.last_fed_date > 0,
        now >= s.last_fed_date + 2100,
    ensures
        s.fed(now, units).is_dead,
        s.fed(now, units).hunger == hunger_left(s.hunger as int, units as int),
        s.fed(now, units).happiness == raised_once(s.happiness),
        s.fed(now, units).fertility == raised_once(s.fertility),
{
    let d: int = now - s.last_fed_date;
    assert(d / 300 >= 7);
}

/// A breeding that goes through costs each parent seven fertility and one
/// breed and raises its happiness by one (up to 255); the first parent's
/// health rises by one while below 253, the second's while below 255.
/// Nothing else about either parent changes: hunger, death, the time of the
/// last meal and every record stay as they were.
pub proof fn breeding_changes(a: ChickenStats, b: ChickenStats)
    requires
        a.fertility >= 7,
        b.fertility >= 7,
        a.breeds >= 1,
        b.breeds >= 1,
    ensures
        bred_first(a).fertility == a.fertility - 7,
        bred_second(b).fertility == b.fertility - 7,
        bred_first(a).breeds == a.breeds - 1,
        bred_second(b).breeds == b.breeds - 1,
        bred_first(a).happiness == raised_once(a.happiness),
        bred_second(b).happiness == raised_once(b.happiness),
        bred_first(a).health == (if a.health < 253 { a.health + 1 } else { a.health as int }),
        bred_second(b).health == raised_once(b.health),
        same_records(bred_first(a), a),
        same_records(bred_second(b), b),
        bred_first(a).hunger == a.hunger,
        bred_second(b).hunger == b.hunger,
        bred_first(a).is_dead == a.is_dead,
        bred_second(b).is_dead == b.is_dead,
        bred_first(a).last_fed_date == a.last_fed_date,
        bred_second(b).last_fed_date == b.last_fed_date,
{
}

/// The four stats an update can touch: hunger, happiness, fertility and
/// health.
pub open spec fn mood_stats(s: ChickenStats) -> (u8, u8, u8, u8) {
    (s.hunger, s.happiness, s.fertility, s.health)
}

/// An update sets exactly one stat and nothing else: `"hunger"`,
/// `"happiness"` and `"fertility"` set the stat of that name, `"health"`,
/// `"breeds"` and `"feeds"` set health, and every other key changes nothing.
/// Breeds, feeds, death, the time of the last meal and every record are never
/// touched.
pub proof fn update_sets_one_stat(s: ChickenStats, key: Seq<char>, v: u8)
    ensures
        same_records(s.updated(key, v), s),
        s.updated(key, v).breeds == s.breeds,
        s.updated(key, v).is_dead == s.is_dead,
        s.updated(key, v).last_fed_date == s.last_fed_date,
        key == "hunger"@ ==> mood_stats(s.updated(key, v)) == (v, s.happiness, s.fertility, s.health),
        key == "happiness"@ ==> mood_stats(s.updated(key, v)) == (s.hunger, v, s.fertility, s.health),
        key == "fertility"@ ==> mood_stats(s.updated(key, v)) == (s.hunger, s.happiness, v, s.health),
        key == "health"@ ==> mood_stats(s.updated(key, v)) == (s.hunger, s.happiness, s.fertility, v),
        key == "breeds"@ ==> mood_stats(s.updated(key, v)) == (s.hunger, s.happiness, s.fertility, v),
        key == "feeds"@ ==> mood_stats(s.updated(key, v)) == (s.hunger, s.happiness, s.fertility, v),
        key != "hunger"@ && key != "happiness"@ && key != "fertility"@ && key != "health"@
            && key != "breeds"@ && key != "feeds"@ ==> s.updated(key, v) == s,
{
    reveal_strlit("hunger");
    reveal_strlit("happiness");
    reveal_strlit("fertility");
    reveal_strlit("health");
    reveal_strlit("breeds");
    reveal_strlit("feeds");
    assert("feeds"@.len() != "fertility"@.len());
    assert("hunger"@[1] != "health"@[1]);
    assert("hunger"@[0] != "breeds"@[0]);
    assert("health"@[0] != "breeds"@[0]);
    assert("happiness"@[0] != "fertility"@[0]);
}

} // verus!
