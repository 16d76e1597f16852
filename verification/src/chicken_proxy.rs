//! The chicken program: feeding, breeding, culling and hatching chickens,
//! and the stats account that each chicken carries.

use vstd::prelude::*;
use crate::cpi::{PdaAuthority, PdaSigner, TokenCpi};

verus! {

/// Length of one feeding period, in seconds of the cluster clock.
pub const FEED_PERIOD_SECONDS: u64 = 300;

/// Number of breedings a freshly created chicken is allowed.
pub const INITIAL_BREEDS: u8 = 5;

/// Fertility that one breeding costs each parent.
pub const BREEDING_FERTILITY_COST: u8 = 7;

/// Number of missed feeding periods after which a chicken dies.
pub const STARVATION_PERIODS: u64 = 7;

/// Base units of the token that breeding costs: one whole token of nine
/// decimals.
pub const BREEDING_PRICE: u64 = 1_000_000_000;

/// Base units of feed token handed back when a chicken is culled: twenty
/// whole tokens of nine decimals.
pub const CULL_REFUND: u64 = 20_000_000_000;

/// Why the chicken program refuses an instruction.
#[derive(Clone, Copy, Debug, PartialEq, Eq, Structural)]
pub enum ChickenError {
    /// Chicken is dead.
    ChickenDead,
    /// Chickens cannot be bred as they don't have any breeds left.
    NoBreedsLeft,
    /// Chickens cannot be bred as they don't have any fertility left.
    NoFertilityLeft,
}

/// The stats account of one chicken.
#[derive(Clone, Debug, PartialEq, Eq)]
pub struct ChickenStats {
    pub dna: String,
    pub bump: u8,
    pub health: u8,
    pub hunger: u8,
    pub happiness: u8,
    pub fertility: u8,
    pub feeds: u8,
    pub breeds: u8,
    pub last_fed_date: u64,
    pub list_price_lamports: u64,
    pub current_owner: [u8; 32],
    pub for_sale: bool,
    pub is_dead: bool,
}

/// Seconds that passed between the last meal and `now` (none when the clock
/// reads no later than the last meal).
pub open spec fn elapsed(last_fed: u64, now: u64) -> int {
    if now > last_fed { now - last_fed } else { 0 }
}

/// Whole feeding periods that passed between the last meal and `now`.
pub open spec fn periods_since(last_fed: u64, now: u64) -> int {
    elapsed(last_fed, now) / (FEED_PERIOD_SECONDS as int)
}

/// The chicken had been fed before and at least one full period has passed.
pub open spec fn is_overdue(last_fed: u64, now: u64) -> bool {
    last_fed > 0 && periods_since(last_fed, now) >= 1
}

/// How much hunger a chicken gains for `periods` missed feeding periods: it
/// doubles with each period up to the fifth, stays at sixteen through the
/// sixth, and a starved chicken (seven or more) gains none.
pub open spec fn hunger_increment(periods: int) -> int {
    if periods < 1 {
        0
    } else if periods < 2 {
        1
    } else if periods < 3 {
        2
    } else if periods < 4 {
        4
    } else if periods < 5 {
        8
    } else if periods < 7 {
        16
    } else {
        0
    }
}

/// `v` raised by one, unless it is already at its maximum.
pub open spec fn bumped(v: u8) -> u8 {
    if v < 255 { (v + 1) as u8 } else { v }
}

impl ChickenStats {
    /// Every field is zero, empty or false: the stats of an account that was
    /// just allocated.
    pub open spec fn is_zeroed(self) -> bool {
        &&& self.dna@ == Seq::<char>::empty()
        &&& self.bump == 0
        &&& self.health == 0
        &&& self.hunger == 0
        &&& self.happiness == 0
        &&& self.fertility == 0
        &&& self.feeds == 0
        &&& self.breeds == 0
        &&& self.last_fed_date == 0
        &&& self.list_price_lamports == 0
        &&& self.current_owner@ == Seq::new(32, |i: int| 0u8)
        &&& !self.for_sale
        &&& !self.is_dead
    }

    /// Feeding at `now` rewards the chicken: its first meal ever, or a meal
    /// after at least one full period.
    pub open spec fn meal_rewarded(self, now: u64) -> bool {
        self.last_fed_date == 0 || is_overdue(self.last_fed_date, now)
    }

    /// Hunger grows at `now`: the meal is overdue and hunger is not yet at
    /// its maximum.
    pub open spec fn hunger_grows(self, now: u64) -> bool {
        is_overdue(self.last_fed_date, now) && self.hunger < 255
    }

    /// Hunger just before the meal at `now` is taken into account.
    pub open spec fn hunger_before_meal(self, now: u64) -> int {
        if self.hunger_grows(now) {
            self.hunger + hunger_increment(periods_since(self.last_fed_date, now))
        } else {
            self.hunger as int
        }
    }

    /// Feeding at `now` would push hunger past 255, which the `u8` counter
    /// cannot hold.
    pub open spec fn feed_overflows(self, now: u64) -> bool {
        self.hunger_before_meal(now) > 255
    }

    /// The chicken starves at `now`: seven or more periods passed since its
    /// last meal.
    pub open spec fn starves(self, now: u64) -> bool {
        is_overdue(self.last_fed_date, now) && periods_since(self.last_fed_date, now) >= STARVATION_PERIODS
    }

    /// The stats after a successful meal at `now` of `units` whole feed
    /// tokens.
    pub open spec fn fed(self, now: u64, units: u8) -> ChickenStats {
        let h = self.hunger_before_meal(now);
        let rewarded = self.meal_rewarded(now);
        ChickenStats {
            happiness: if rewarded { bumped(self.happiness) } else { self.happiness },
            fertility: if rewarded { bumped(self.fertility) } else { self.fertility },
            hunger: if units >= h { 0 } else { (h - units) as u8 },
            is_dead: self.is_dead || self.starves(now),
            last_fed_date: now,
            ..self
        }
    }
}

/// The chicken program's own authority account.
#[derive(Clone, Copy, Debug, PartialEq, Eq, Structural)]
pub struct AuthorityData {
    pub bump: u8,
}

/// The culling authority's account.
#[derive(Clone, Copy, Debug, PartialEq, Eq, Structural)]
pub struct CullAuthorityData {
    pub bump: u8,
}

/// The breeding authority's account.
#[derive(Clone, Copy, Debug, PartialEq, Eq, Structural)]
pub struct BreedAuthorityData {
    pub bump: u8,
}

/// The accounts of the authority initialisation that hold state.
#[derive(Clone, Copy, Debug, PartialEq, Eq, Structural)]
pub struct InitializeAuthority {
    pub authority_data: AuthorityData,
}

/// The accounts of the culling-authority initialisation that hold state.
#[derive(Clone, Copy, Debug, PartialEq, Eq, Structural)]
pub struct InitializeCullAuthority {
    pub authority_data: CullAuthorityData,
}

/// The accounts of the breeding-authority initialisation that hold state.
#[derive(Clone, Copy, Debug, PartialEq, Eq, Structural)]
pub struct InitializeBreedAuthority {
    pub authority_data: BreedAuthorityData,
}

/// The accounts of the cull instruction: the culling authority's state and
/// the addresses of the accounts the token calls are made with.
#[derive(Clone, Copy, Debug, PartialEq, Eq)]
pub struct CullChicken {
    pub token_authority: [u8; 32],
    pub feed_mint_authority: [u8; 32],
    pub mint: [u8; 32],
    pub to: [u8; 32],
    pub cull_authority: CullAuthorityData,
    pub token_program: [u8; 32],
    pub feed_to: [u8; 32],
    pub feed_from: [u8; 32],
}

/// The addresses of the accounts of the burn instruction.
#[derive(Clone, Copy, Debug, PartialEq, Eq)]
pub struct BurnChicken {
    pub token_authority: [u8; 32],
    pub mint: [u8; 32],
    pub to: [u8; 32],
    pub token_program: [u8; 32],
}

/// The addresses of the accounts of the hatch instruction.
#[derive(Clone, Copy, Debug, PartialEq, Eq)]
pub struct HatchChicken {
    pub authority: [u8; 32],
    pub egg_mint: [u8; 32],
    pub egg_to: [u8; 32],
    pub token_program: [u8; 32],
}

/// The accounts of the stats-account creation that hold state.
#[derive(Clone, Debug, PartialEq, Eq)]
pub struct ChickenStatsAccount {
    pub stats: ChickenStats,
}

/// The accounts of the stats update that hold state.
#[derive(Clone, Debug, PartialEq, Eq)]
pub struct UpdateChickenStats {
    pub stats: ChickenStats,
}

/// Records the bump of the chicken program's authority.
pub fn initialize(ctx: &mut InitializeAuthority, auth_bump: u8)
    ensures
        final(ctx).authority_data.bump == auth_bump,
{
    ctx.authority_data.bump = auth_bump;
}

/// Records the bump of the culling authority.
pub fn initialize_cull_authority(ctx: &mut InitializeCullAuthority, auth_bump: u8)
    ensures
        final(ctx).authority_data.bump == auth_bump,
{
    ctx.authority_data.bump = auth_bump;
}

/// Records the bump of the breeding authority.
pub fn initialize_breed_authority(ctx: &mut InitializeBreedAuthority, auth_bump: u8)
    ensures
        final(ctx).authority_data.bump == auth_bump,
{
    ctx.authority_data.bump = auth_bump;
}

/// Burning a chicken burns its one token of `mint` from the token account
/// `to`, authorised by its owner.
pub fn burn_chicken(ctx: &BurnChicken) -> (r: TokenCpi)
    ensures
        r == (TokenCpi::Burn { token_program: ctx.token_program, mint: ctx.mint, from: ctx.to, authority: ctx.token_authority, amount: 1 }),
{
    TokenCpi::Burn { token_program: ctx.token_program, mint: ctx.mint, from: ctx.to, authority: ctx.token_authority, amount: 1 }
}

/// Hatching a chicken burns its one egg token of `egg_mint` from the token
/// account `egg_to`, authorised by the egg's owner.
pub fn hatch_chicken(ctx: &HatchChicken) -> (r: TokenCpi)
    ensures
        r == (TokenCpi::Burn { token_program: ctx.token_program, mint: ctx.egg_mint, from: ctx.egg_to, authority: ctx.authority, amount: 1 }),
{
    TokenCpi::Burn { token_program: ctx.token_program, mint: ctx.egg_mint, from: ctx.egg_to, authority: ctx.authority, amount: 1 }
}

/// Culling a chicken burns its one token of `mint` from `to`, authorised by
/// its owner, then moves the cull refund of feed token from `feed_from` to
/// `feed_to`, authorised by `feed_mint_authority` and signed by the culling
/// authority. The two calls are returned in the order in which they are made.
pub fn cull_chicken(ctx: &CullChicken) -> (r: (TokenCpi, TokenCpi))
    ensures
        r.0 == (TokenCpi::Burn { token_program: ctx.token_program, mint: ctx.mint, from: ctx.to, authority: ctx.token_authority, amount: 1 }),
        r.1 == (TokenCpi::Transfer {
            token_program: ctx.token_program,
            from: ctx.feed_from,
            to: ctx.feed_to,
            authority: ctx.feed_mint_authority,
            amount: CULL_REFUND,
            signer: Some(PdaSigner { authority: PdaAuthority::Culling, bump: ctx.cull_authority.bump }),
        }),
{
    let burn = TokenCpi::Burn { token_program: ctx.token_program, mint: ctx.mint, from: ctx.to, authority: ctx.token_authority, amount: 1 };
    let refund = TokenCpi::Transfer {
        token_program: ctx.token_program,
        from: ctx.feed_from,
        to: ctx.feed_to,
        authority: ctx.feed_mint_authority,
        amount: CULL_REFUND,
        signer: Some(PdaSigner { authority: PdaAuthority::Culling, bump: ctx.cull_authority.bump }),
    };
    (burn, refund)
}

/// Fills a newly created stats account: it records its bump and the breeds
/// a chicken starts with, and leaves every other field as it was.
pub fn create_chicken_stats_account(ctx: &mut ChickenStatsAccount, bump: u8)
    ensures
        final(ctx).stats == (ChickenStats { bump, breeds: INITIAL_BREEDS, ..old(ctx).stats }),
{
    ctx.stats.bump = bump;
    ctx.stats.breeds = INITIAL_BREEDS;
}

impl Default for ChickenStats {
    fn default() -> (r: ChickenStats)
        ensures
            r.is_zeroed(),
    {
        let r = ChickenStats {
            dna: String::new(),
            bump: 0,
            health: 0,
            hunger: 0,
            happiness: 0,
            fertility: 0,
            feeds: 0,
            breeds: 0,
            last_fed_date: 0,
            list_price_lamports: 0,
            current_owner: [0u8; 32],
            for_sale: false,
            is_dead: false,
        };
        assert(r.current_owner@ =~= Seq::new(32, |i: int| 0u8));
        r
    }
}

impl ChickenStats {
    /// The stats after an update of the stat named `key` to `value`.
    /// `"hunger"`, `"happiness"` and `"fertility"` set the stat of that name;
    /// `"health"`, and also `"breeds"` and `"feeds"`, set health; any other key
    /// changes nothing.
    pub open spec fn updated(self, key: Seq<char>, value: u8) -> ChickenStats {
        if key == "hunger"@ {
            ChickenStats { hunger: value, ..self }
        } else if key == "happiness"@ {
            ChickenStats { happiness: value, ..self }
        } else if key == "fertility"@ {
            ChickenStats { fertility: value, ..self }
        } else if key == "health"@ || key == "breeds"@ || key == "feeds"@ {
            ChickenStats { health: value, ..self }
        } else {
            self
        }
    }
}

/// Sets the stat named `key` to `value` (see `ChickenStats::updated`).
pub fn update_chicken_stats_account(ctx: &mut UpdateChickenStats, key: String, value: u8)
    ensures
        final(ctx).stats == old(ctx).stats.updated(key@, value),
{
    proof {
        reveal_strlit("hunger");
        reveal_strlit("happiness");
        reveal_strlit("fertility");
        reveal_strlit("health");
        reveal_strlit("breeds");
        reveal_strlit("feeds");
        assert("feeds"@.len() != "fertility"@.len());
        assert("hunger"@[1] != "health"@[1]);
        assert("hunger"@[0] != "breeds"@[0]);
        assert("health"@[0] != "breeds"@[0]);
        assert("happiness"@[0] != "fertility"@[0]);
    }
    if key == "hunger".to_owned() {
        ctx.stats.hunger = value;
    }
    if key == "happiness".to_owned() {
        ctx.stats.happiness = value;
    }
    if key == "fertility".to_owned() {
        ctx.stats.fertility = value;
    }
    if key == "health".to_owned() {
        ctx.stats.health = value;
    }
    if key == "breeds".to_owned() {
        ctx.stats.health = value;
    }
    if key == "feeds".to_owned() {
        ctx.stats.health = value;
    }
}

/// The accounts of the feed instruction: the chicken's stats and the
/// addresses of the accounts the burn is made with.
#[derive(Clone, Debug, PartialEq, Eq)]
pub struct FeedChicken {
    pub feed_mint: [u8; 32],
    pub feed_to: [u8; 32],
    pub token_program: [u8; 32],
    pub stats: ChickenStats,
    pub token_authority: [u8; 32],
}

/// Whether feeding the chicken at cluster time `unix_timestamp` would push
/// its hunger past 255 (see `ChickenStats::feed_overflows`); the feed
/// instruction cannot proceed on such a chicken unless it is dead.
pub fn hunger_would_overflow(stats: &ChickenStats, unix_timestamp: i64) -> (r: bool)
    ensures
        r == stats.feed_overflows(unix_timestamp as u64),
{
    let now: u64 = unix_timestamp as u64;
    if stats.last_fed_date == 0 || now <= stats.last_fed_date || stats.hunger == 255 {
        return false;
    }
    let periods: u64 = (now - stats.last_fed_date) / FEED_PERIOD_SECONDS;
    assert(periods == periods_since(stats.last_fed_date, now));
    let increment: u8 = if periods < 1 {
        0
    } else if periods < 2 {
        1
    } else if periods < 3 {
        2
    } else if periods < 4 {
        4
    } else if periods < 5 {
        8
    } else if periods < STARVATION_PERIODS {
        16
    } else {
        0
    };
    increment > 255 - stats.hunger
}

/// Feeds a chicken with `amount` base units of feed token, worth
/// `feed_units` whole tokens, at cluster time `unix_timestamp`.
///
/// A dead chicken is refused. Otherwise the returned burn of `amount` of
/// `feed_mint` from `feed_to`, authorised by `token_authority`, is what the
/// meal costs, and the stats take the meal: a first meal, or one
/// after at least a full period, raises happiness and fertility by one;
/// an overdue meal adds hunger according to the periods missed, and seven
/// missed periods kill the chicken; the meal then lowers hunger by
/// `feed_units` (not below zero) and the meal time becomes the last one.
///
/// Hunger is added to a `u8` without saturation, so a live chicken whose
/// grown hunger would pass 255 cannot be fed (`hunger_would_overflow` tells
/// a caller beforehand); such inputs are outside this function's domain.
pub fn feed_chicken(ctx: &mut FeedChicken, unix_timestamp: i64, amount: u64, feed_units: u8) -> (r: Result<TokenCpi, ChickenError>)
    requires
        old(ctx).stats.is_dead || !old(ctx).stats.feed_overflows(unix_timestamp as u64),
    ensures
        old(ctx).stats.is_dead ==> r == Err::<TokenCpi, ChickenError>(ChickenError::ChickenDead) && *final(ctx) == *old(ctx),
        !old(ctx).stats.is_dead ==> r == Ok::<TokenCpi, ChickenError>(TokenCpi::Burn {
                token_program: old(ctx).token_program,
                mint: old(ctx).feed_mint,
                from: old(ctx).feed_to,
                authority: old(ctx).token_authority,
                amount,
            })
            && *final(ctx) == (FeedChicken { stats: old(ctx).stats.fed(unix_timestamp as u64, feed_units), ..*old(ctx) }),
{
    if ctx.stats.is_dead {
        return Err(ChickenError::ChickenDead);
    }
    let ghost before = ctx.stats;
    let current_day: u64 = unix_timestamp as u64;
    let mut time_passed: u64 = 0;
    if current_day > ctx.stats.last_fed_date {
        time_passed = current_day - ctx.stats.last_fed_date;
    }
    let one_day: u64 = FEED_PERIOD_SECONDS;

    if ctx.stats.last_fed_date == 0 {
        if ctx.stats.happiness < 255 {
            ctx.stats.happiness = ctx.stats.happiness + 1;
        }
        if ctx.stats.fertility < 255 {
            ctx.stats.fertility = ctx.stats.fertility + 1;
        }
    }
    let relative: u64 = time_passed / one_day;
    assert(relative == periods_since(before.last_fed_date, current_day));
    if ctx.stats.last_fed_date > 0 && relative >= 1 {
        if ctx.stats.fertility < 255 {
            ctx.stats.fertility = ctx.stats.fertility + 1;
        }
        if ctx.stats.happiness < 255 {
            ctx.stats.happiness = ctx.stats.happiness + 1;
        }
        if relative >= 1 && relative < 2 {
            if ctx.stats.hunger < 255 {
                ctx.stats.hunger = ctx.stats.hunger + 1;
            }
        }
        if relative >= 2 && relative < 3 {
            if ctx.stats.hunger < 255 {
                ctx.stats.hunger = ctx.stats.hunger + 2;
            }
        }
        if relative >= 3 && relative < 4 {
            if ctx.stats.hunger < 255 {
                ctx.stats.hunger = ctx.stats.hunger + 4;
            }
        }
        if relative >= 4 && relative < 5 {
            if ctx.stats.hunger < 255 {
                ctx.stats.hunger = ctx.stats.hunger + 8;
            }
        }
        if relative >= 5 && relative < 7 {
            if ctx.stats.hunger < 255 {
                ctx.stats.hunger = ctx.stats.hunger + 16;
            }
        }
        if relative >= STARVATION_PERIODS {
            ctx.stats.is_dead = true;
        }
    }
    assert(ctx.stats.hunger == before.hunger_before_meal(current_day));

    if ctx.stats.hunger > 0 {
        if feed_units > ctx.stats.hunger {
            ctx.stats.hunger = 0;
        } else {
            ctx.stats.hunger = ctx.stats.hunger - feed_units;
        }
    }
    ctx.stats.last_fed_date = current_day;
    Ok(TokenCpi::Burn {
        token_program: ctx.token_program,
        mint: ctx.feed_mint,
        from: ctx.feed_to,
        authority: ctx.token_authority,
        amount,
    })
}


/// The stats after a successful breeding, for the first parent: fertility
/// drops by the breeding cost, happiness rises by one (up to 255), health
/// rises by one while it is below 253, and one breed is used up.
pub open spec fn bred_first(s: ChickenStats) -> ChickenStats {
    ChickenStats {
        fertility: (s.fertility - BREEDING_FERTILITY_COST) as u8,
        happiness: bumped(s.happiness),
        health: if s.health < 253 { (s.health + 1) as u8 } else { s.health },
        breeds: (s.breeds - 1) as u8,
        ..s
    }
}

/// The stats after a successful breeding, for the second parent: as for the
/// first, except that health rises by one up to 255.
pub open spec fn bred_second(s: ChickenStats) -> ChickenStats {
    ChickenStats {
        fertility: (s.fertility - BREEDING_FERTILITY_COST) as u8,
        happiness: bumped(s.happiness),
        health: bumped(s.health),
        breeds: (s.breeds - 1) as u8,
        ..s
    }
}

/// Why two chickens cannot be bred, checked in this order: either is dead,
/// either has no breeds left, either has less fertility than a breeding
/// costs. `None` when they can be bred.
pub open spec fn breeding_refusal(first: ChickenStats, second: ChickenStats) -> Option<ChickenError> {
    if first.is_dead || second.is_dead {
        Some(ChickenError::ChickenDead)
    } else if first.breeds == 0 || second.breeds == 0 {
        Some(ChickenError::NoBreedsLeft)
    } else if first.fertility < BREEDING_FERTILITY_COST || second.fertility < BREEDING_FERTILITY_COST {
        Some(ChickenError::NoFertilityLeft)
    } else {
        None
    }
}


/// The accounts of the breed instruction: both chickens' stats, the breeding
/// authority, and the addresses of the accounts the transfer is made with.
#[derive(Clone, Debug, PartialEq, Eq)]
pub struct BreedChicken {
    pub acf_to: [u8; 32],
    pub acf_from: [u8; 32],
    pub token_program: [u8; 32],
    pub stats_for_first_chicken: ChickenStats,
    pub stats_for_second_chicken: ChickenStats,
    pub acf_authority: BreedAuthorityData,
    pub user: [u8; 32],
}

/// Breeds two chickens.
///
/// Refused, with nothing changed, when either is dead, then when either has
/// no breeds left, then when either has less fertility than a breeding
/// costs. Otherwise the returned transfer of the breeding price from
/// `acf_from` to `acf_to`, authorised by `user` and signed by the breeding
/// authority, is what the breeding costs, and both parents
/// take the breeding (see `bred_first` and `bred_second`).
pub fn breed_chicken(ctx: &mut BreedChicken) -> (r: Result<TokenCpi, ChickenError>)
    ensures
        breeding_refusal(old(ctx).stats_for_first_chicken, old(ctx).stats_for_second_chicken) matches Some(e)
            ==> r == Err::<TokenCpi, ChickenError>(e) && *final(ctx) == *old(ctx),
        breeding_refusal(old(ctx).stats_for_first_chicken, old(ctx).stats_for_second_chicken) is None ==> {
            &&& r == Ok::<TokenCpi, ChickenError>(TokenCpi::Transfer {
                token_program: old(ctx).token_program,
                from: old(ctx).acf_from,
                to: old(ctx).acf_to,
                authority: old(ctx).user,
                amount: BREEDING_PRICE,
                signer: Some(PdaSigner { authority: PdaAuthority::Breeding, bump: old(ctx).acf_authority.bump }),
            })
            &&& final(ctx).stats_for_first_chicken == bred_first(old(ctx).stats_for_first_chicken)
            &&& final(ctx).stats_for_second_chicken == bred_second(old(ctx).stats_for_second_chicken)
            &&& *final(ctx) == (BreedChicken {
                stats_for_first_chicken: final(ctx).stats_for_first_chicken,
                stats_for_second_chicken: final(ctx).stats_for_second_chicken,
                ..*old(ctx)
            })
        },
{
    if ctx.stats_for_first_chicken.is_dead == true || ctx.stats_for_second_chicken.is_dead == true {
        return Err(ChickenError::ChickenDead);
    }
    if ctx.stats_for_first_chicken.breeds == 0 || ctx.stats_for_second_chicken.breeds == 0 {
        return Err(ChickenError::NoBreedsLeft);
    }
    if ctx.stats_for_first_chicken.fertility < BREEDING_FERTILITY_COST
        || ctx.stats_for_second_chicken.fertility < BREEDING_FERTILITY_COST {
        return Err(ChickenError::NoFertilityLeft);
    }
    let transfer = TokenCpi::Transfer {
        token_program: ctx.token_program,
        from: ctx.acf_from,
        to: ctx.acf_to,
        authority: ctx.user,
        amount: BREEDING_PRICE,
        signer: Some(PdaSigner { authority: PdaAuthority::Breeding, bump: ctx.acf_authority.bump }),
    };

    ctx.stats_for_first_chicken.fertility = ctx.stats_for_first_chicken.fertility - BREEDING_FERTILITY_COST;
    ctx.stats_for_second_chicken.fertility = ctx.stats_for_second_chicken.fertility - BREEDING_FERTILITY_COST;

    if ctx.stats_for_first_chicken.happiness < 255 {
        ctx.stats_for_first_chicken.happiness = ctx.stats_for_first_chicken.happiness + 1;
    }
    if ctx.stats_for_second_chicken.happiness < 255 {
        ctx.stats_for_second_chicken.happiness = ctx.stats_for_second_chicken.happiness + 1;
    }

    if ctx.stats_for_first_chicken.health < 253 {
        ctx.stats_for_first_chicken.health = ctx.stats_for_first_chicken.health + 1;
    }
    if ctx.stats_for_second_chicken.health < 255 {
        ctx.stats_for_second_chicken.health = ctx.stats_for_second_chicken.health + 1;
    }
    ctx.stats_for_first_chicken.breeds = ctx.stats_for_first_chicken.breeds - 1;
    ctx.stats_for_second_chicken.breeds = ctx.stats_for_second_chicken.breeds - 1;

    Ok(transfer)
}

} // verus!
