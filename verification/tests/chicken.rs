use chicken_farm::chicken_proxy::{
    breed_chicken, burn_chicken, BurnChicken, HatchChicken, create_chicken_stats_account, cull_chicken, feed_chicken, hatch_chicken,
    hunger_would_overflow, initialize, initialize_breed_authority, initialize_cull_authority,
    update_chicken_stats_account, AuthorityData, BreedAuthorityData, BreedChicken, ChickenError, ChickenStats,
    ChickenStatsAccount, CullAuthorityData, CullChicken, FeedChicken, InitializeAuthority,
    InitializeBreedAuthority, InitializeCullAuthority, UpdateChickenStats, BREEDING_PRICE, CULL_REFUND,
    FEED_PERIOD_SECONDS,
};
use chicken_farm::cpi::{seed_prefix, signer_seeds, PdaAuthority, PdaSigner, TokenCpi};

const FEED_MINT: [u8; 32] = [11u8; 32];
const FEED_TO: [u8; 32] = [12u8; 32];
const TOKEN_PROGRAM: [u8; 32] = [13u8; 32];
const TOKEN_AUTHORITY: [u8; 32] = [14u8; 32];

fn burn_of(amount: u64) -> TokenCpi {
    TokenCpi::Burn { token_program: TOKEN_PROGRAM, mint: FEED_MINT, from: FEED_TO, authority: TOKEN_AUTHORITY, amount }
}

fn chicken() -> ChickenStats {
    ChickenStats {
        dna: "AB12".to_string(),
        bump: 254,
        health: 10,
        hunger: 10,
        happiness: 20,
        fertility: 30,
        feeds: 0,
        breeds: 5,
        last_fed_date: 1_000,
        list_price_lamports: 0,
        current_owner: [7u8; 32],
        for_sale: false,
        is_dead: false,
    }
}

fn feed(stats: ChickenStats, ts: i64, amount: u64, units: u8) -> (Result<TokenCpi, ChickenError>, ChickenStats) {
    let mut ctx = FeedChicken {
        feed_mint: FEED_MINT,
        feed_to: FEED_TO,
        token_program: TOKEN_PROGRAM,
        stats,
        token_authority: TOKEN_AUTHORITY,
    };
    let r = feed_chicken(&mut ctx, ts, amount, units);
    (r, ctx.stats)
}

#[test]
fn default_stats_are_zeroed() {
    let s = ChickenStats::default();
    assert_eq!(s.dna, "");
    assert_eq!(s.breeds, 0);
    assert_eq!(s.current_owner, [0u8; 32]);
    assert!(!s.is_dead);
}

#[test]
fn first_meal_rewards_and_records_time() {
    let mut s = chicken();
    s.last_fed_date = 0;
    let (r, after) = feed(s, 5_000, 3_000_000_000, 3);
    assert_eq!(r, Ok(burn_of(3_000_000_000)));
    assert_eq!(after.happiness, 21);
    assert_eq!(after.fertility, 31);
    assert_eq!(after.hunger, 7);
    assert_eq!(after.last_fed_date, 5_000);
    assert!(!after.is_dead);
}

#[test]
fn timely_meal_only_lowers_hunger() {
    let (r, after) = feed(chicken(), 1_000 + 299, 1, 4);
    assert_eq!(r, Ok(burn_of(1)));
    assert_eq!(after.happiness, 20);
    assert_eq!(after.fertility, 30);
    assert_eq!(after.hunger, 6);
    assert_eq!(after.last_fed_date, 1_299);
}

#[test]
fn hunger_grows_with_missed_periods() {
    let increments = [(1u64, 1u8), (2, 2), (3, 4), (4, 8), (5, 16), (6, 16)];
    for (periods, inc) in increments {
        let ts = 1_000 + periods * FEED_PERIOD_SECONDS;
        let (r, after) = feed(chicken(), ts as i64, 0, 0);
        assert!(r.is_ok());
        assert_eq!(after.hunger, 10 + inc, "periods {}", periods);
        assert_eq!(after.happiness, 21);
        assert_eq!(after.fertility, 31);
        assert!(!after.is_dead);
    }
}

#[test]
fn seven_missed_periods_kill_the_chicken() {
    let ts = 1_000 + 7 * FEED_PERIOD_SECONDS;
    let (r, after) = feed(chicken(), ts as i64, 5, 2);
    assert_eq!(r, Ok(burn_of(5)));
    assert!(after.is_dead);
    assert_eq!(after.hunger, 8);
    assert_eq!(after.last_fed_date, ts);
}

#[test]
fn big_meal_clears_hunger() {
    let (_, after) = feed(chicken(), 1_000 + 2 * 300, 0, 200);
    assert_eq!(after.hunger, 0);
}

#[test]
fn dead_chicken_is_not_fed() {
    let mut s = chicken();
    s.is_dead = true;
    let (r, after) = feed(s.clone(), 100_000, 9, 9);
    assert_eq!(r, Err(ChickenError::ChickenDead));
    assert_eq!(after, s);
}

#[test]
fn clock_before_last_meal_counts_as_no_time() {
    let (_, after) = feed(chicken(), 10, 0, 1);
    assert_eq!(after.hunger, 9);
    assert_eq!(after.happiness, 20);
    assert_eq!(after.last_fed_date, 10);
}

#[test]
fn negative_timestamp_wraps() {
    let (_, after) = feed(chicken(), -1, 0, 0);
    assert_eq!(after.last_fed_date, u64::MAX);
    assert!(after.is_dead);
}

#[test]
fn hunger_overflow_is_detected() {
    let mut s = chicken();
    s.hunger = 250;
    assert!(hunger_would_overflow(&s, (1_000 + 5 * 300) as i64));
    assert!(!hunger_would_overflow(&s, (1_000 + 2 * 300) as i64));
    assert!(!hunger_would_overflow(&s, (1_000 + 8 * 300) as i64));
    s.hunger = 255;
    assert!(!hunger_would_overflow(&s, (1_000 + 5 * 300) as i64));
    s.hunger = 250;
    s.last_fed_date = 0;
    assert!(!hunger_would_overflow(&s, 1_000_000));
}

fn breed(a: ChickenStats, b: ChickenStats) -> (Result<TokenCpi, ChickenError>, BreedChicken) {
    let mut ctx = BreedChicken {
        acf_to: [21u8; 32],
        acf_from: [22u8; 32],
        token_program: TOKEN_PROGRAM,
        stats_for_first_chicken: a,
        stats_for_second_chicken: b,
        acf_authority: BreedAuthorityData { bump: 251 },
        user: [23u8; 32],
    };
    let r = breed_chicken(&mut ctx);
    (r, ctx)
}

#[test]
fn breeding_updates_both_parents() {
    let (r, ctx) = breed(chicken(), chicken());
    assert_eq!(
        r,
        Ok(TokenCpi::Transfer {
            token_program: TOKEN_PROGRAM,
            from: [22u8; 32],
            to: [21u8; 32],
            authority: [23u8; 32],
            amount: BREEDING_PRICE,
            signer: Some(PdaSigner { authority: PdaAuthority::Breeding, bump: 251 }),
        })
    );
    for s in [&ctx.stats_for_first_chicken, &ctx.stats_for_second_chicken] {
        assert_eq!(s.fertility, 23);
        assert_eq!(s.happiness, 21);
        assert_eq!(s.health, 11);
        assert_eq!(s.breeds, 4);
    }
}

#[test]
fn first_parent_health_stops_at_253() {
    let mut a = chicken();
    a.health = 253;
    let mut b = chicken();
    b.health = 253;
    let (_, ctx) = breed(a, b);
    assert_eq!(ctx.stats_for_first_chicken.health, 253);
    assert_eq!(ctx.stats_for_second_chicken.health, 254);
}

#[test]
fn breeding_refusals_in_order() {
    let mut dead = chicken();
    dead.is_dead = true;
    dead.breeds = 0;
    let mut barren = chicken();
    barren.breeds = 0;
    barren.fertility = 0;
    let mut tired = chicken();
    tired.fertility = 6;
    assert_eq!(breed(chicken(), dead.clone()).0, Err(ChickenError::ChickenDead));
    assert_eq!(breed(dead.clone(), barren.clone()).0, Err(ChickenError::ChickenDead));
    assert_eq!(breed(barren.clone(), chicken()).0, Err(ChickenError::NoBreedsLeft));
    assert_eq!(breed(tired.clone(), barren.clone()).0, Err(ChickenError::NoBreedsLeft));
    assert_eq!(breed(chicken(), tired.clone()).0, Err(ChickenError::NoFertilityLeft));
    let (_, ctx) = breed(tired.clone(), chicken());
    assert_eq!(ctx.stats_for_first_chicken, tired);
    assert_eq!(ctx.stats_for_second_chicken, chicken());
}

#[test]
fn created_chicken_breeds_five_times_only() {
    let mut ctx = ChickenStatsAccount { stats: ChickenStats::default() };
    create_chicken_stats_account(&mut ctx, 200);
    assert_eq!(ctx.stats.bump, 200);
    assert_eq!(ctx.stats.breeds, 5);
    let mut a = ctx.stats.clone();
    a.fertility = 255;
    let mut partner = chicken();
    partner.breeds = 255;
    partner.fertility = 255;
    let mut done = 0;
    for _ in 0..8 {
        let (r, after) = breed(a.clone(), partner.clone());
        if r.is_ok() {
            done += 1;
        }
        a = after.stats_for_first_chicken;
        partner = after.stats_for_second_chicken;
    }
    assert_eq!(done, 5);
    assert_eq!(a.breeds, 0);
    assert_eq!(breed(a, partner).0, Err(ChickenError::NoBreedsLeft));
}

fn update(key: &str, value: u8) -> ChickenStats {
    let mut ctx = UpdateChickenStats { stats: chicken() };
    update_chicken_stats_account(&mut ctx, key.to_string(), value);
    ctx.stats
}

#[test]
fn updates_by_key() {
    assert_eq!(update("hunger", 99).hunger, 99);
    assert_eq!(update("happiness", 98).happiness, 98);
    assert_eq!(update("fertility", 97).fertility, 97);
    assert_eq!(update("health", 96).health, 96);
    let b = update("breeds", 95);
    assert_eq!(b.health, 95);
    assert_eq!(b.breeds, 5);
    let f = update("feeds", 94);
    assert_eq!(f.health, 94);
    assert_eq!(f.feeds, 0);
    assert_eq!(update("is_dead", 1), chicken());
    assert_eq!(update("Hunger", 1), chicken());
}

#[test]
fn dead_chicken_stays_dead_through_updates() {
    let mut s = chicken();
    s.is_dead = true;
    let mut ctx = UpdateChickenStats { stats: s };
    for key in ["hunger", "happiness", "fertility", "health", "breeds", "feeds"] {
        update_chicken_stats_account(&mut ctx, key.to_string(), 0);
    }
    assert!(ctx.stats.is_dead);
    assert_eq!(feed(ctx.stats, 1_000_000, 1, 1).0, Err(ChickenError::ChickenDead));
}

#[test]
fn token_calls_of_simple_instructions() {
    let burn_ctx = BurnChicken { token_authority: [1u8; 32], mint: [2u8; 32], to: [3u8; 32], token_program: TOKEN_PROGRAM };
    assert_eq!(
        burn_chicken(&burn_ctx),
        TokenCpi::Burn { token_program: TOKEN_PROGRAM, mint: [2u8; 32], from: [3u8; 32], authority: [1u8; 32], amount: 1 }
    );
    let hatch_ctx = HatchChicken { authority: [4u8; 32], egg_mint: [5u8; 32], egg_to: [6u8; 32], token_program: TOKEN_PROGRAM };
    assert_eq!(
        hatch_chicken(&hatch_ctx),
        TokenCpi::Burn { token_program: TOKEN_PROGRAM, mint: [5u8; 32], from: [6u8; 32], authority: [4u8; 32], amount: 1 }
    );
    let cull_ctx = CullChicken {
        token_authority: [1u8; 32],
        feed_mint_authority: [7u8; 32],
        mint: [2u8; 32],
        to: [3u8; 32],
        cull_authority: CullAuthorityData { bump: 9 },
        token_program: TOKEN_PROGRAM,
        feed_to: [8u8; 32],
        feed_from: [9u8; 32],
    };
    let (burn, refund) = cull_chicken(&cull_ctx);
    assert_eq!(
        burn,
        TokenCpi::Burn { token_program: TOKEN_PROGRAM, mint: [2u8; 32], from: [3u8; 32], authority: [1u8; 32], amount: 1 }
    );
    assert_eq!(
        refund,
        TokenCpi::Transfer {
            token_program: TOKEN_PROGRAM,
            from: [9u8; 32],
            to: [8u8; 32],
            authority: [7u8; 32],
            amount: CULL_REFUND,
            signer: Some(PdaSigner { authority: PdaAuthority::Culling, bump: 9 }),
        }
    );
    assert_eq!(CULL_REFUND, 20_000_000_000);
    assert_eq!(BREEDING_PRICE, 1_000_000_000);
}

#[test]
fn authority_seeds_are_their_names() {
    assert_eq!(seed_prefix(PdaAuthority::Breeding), b"breeding_authority".to_vec());
    assert_eq!(seed_prefix(PdaAuthority::Culling), b"culling_authority".to_vec());
    assert_eq!(seed_prefix(PdaAuthority::Barn), b"barn_authority".to_vec());
    assert_eq!(seed_prefix(PdaAuthority::Store), b"store_authority".to_vec());
    assert_eq!(
        signer_seeds(&PdaSigner { authority: PdaAuthority::Culling, bump: 254 }),
        vec![b"culling_authority".to_vec(), vec![254u8]]
    );
}

#[test]
fn authorities_record_their_bump() {
    let mut a = InitializeAuthority { authority_data: AuthorityData { bump: 0 } };
    initialize(&mut a, 255);
    assert_eq!(a.authority_data.bump, 255);
    let mut c = InitializeCullAuthority { authority_data: CullAuthorityData { bump: 0 } };
    initialize_cull_authority(&mut c, 254);
    assert_eq!(c.authority_data.bump, 254);
    let mut b = InitializeBreedAuthority { authority_data: BreedAuthorityData { bump: 0 } };
    initialize_breed_authority(&mut b, 253);
    assert_eq!(b.authority_data.bump, 253);
}
