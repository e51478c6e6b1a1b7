use chrono::{DateTime, Duration, TimeZone, Utc};
use rand::rngs::StdRng;
use rand::SeedableRng;

use shellagotchi::config::Config;
use shellagotchi::pet::engine::{
    catch_up, catch_up_with_rolls, clean, feed, feed_with_roll, hatch, pet_interaction, tick,
    tick_with_roll, FeedEvent,
};
use shellagotchi::pet::state::{pick_random_species, Activity, PetState, Species};
use shellagotchi::pet::stats::Stat;

fn ms(t: DateTime<Utc>) -> i64 {
    t.timestamp_millis()
}

fn dur(d: Duration) -> i64 {
    d.num_milliseconds()
}

fn fixed_now() -> i64 {
    ms(Utc.with_ymd_and_hms(2026, 1, 1, 12, 0, 0).unwrap())
}

fn at(y: i32, mo: u32, d: u32, h: u32, mi: u32, s: u32) -> i64 {
    ms(Utc.with_ymd_and_hms(y, mo, d, h, mi, s).unwrap())
}

#[test]
fn decay_after_one_hour() {
    let start = fixed_now();
    let mut state = PetState::newborn("T".into(), Species::Blob, start);
    let cfg = Config::default();
    let mut rng = StdRng::seed_from_u64(0);

    tick(&mut state, start + dur(Duration::hours(1)), &cfg, &mut rng);

    assert_eq!(state.satiety.get(), 70 - 3);
    assert_eq!(state.energy.get(), 70 - 2);
    assert_eq!(state.hygiene.get(), 100 - 1);
    assert_eq!(state.last_tick, start + dur(Duration::hours(1)));
}

#[test]
fn no_change_if_elapsed_less_than_a_tick() {
    let start = fixed_now();
    let mut state = PetState::newborn("T".into(), Species::Blob, start);
    let cfg = Config::default();
    let mut rng = StdRng::seed_from_u64(0);

    tick(&mut state, start + dur(Duration::seconds(1)), &cfg, &mut rng);

    assert_eq!(state.satiety.get(), 70);
    assert_eq!(state.energy.get(), 70);
    assert_eq!(state.hygiene.get(), 100);
    assert_eq!(state.last_tick, start + dur(Duration::seconds(1)));
}

#[test]
fn idempotent_when_called_twice_with_same_now() {
    let start = fixed_now();
    let mut state = PetState::newborn("T".into(), Species::Blob, start);
    let cfg = Config::default();
    let mut rng = StdRng::seed_from_u64(0);
    let now = start + dur(Duration::hours(2));

    tick(&mut state, now, &cfg, &mut rng);
    let satiety_after_first = state.satiety.get();
    let energy_after_first = state.energy.get();
    let hygiene_after_first = state.hygiene.get();

    tick(&mut state, now, &cfg, &mut rng);

    assert_eq!(state.satiety.get(), satiety_after_first);
    assert_eq!(state.energy.get(), energy_after_first);
    assert_eq!(state.hygiene.get(), hygiene_after_first);
}

#[test]
fn sleeps_at_night() {
    let start = at(2026, 1, 1, 20, 0, 0);
    let mut state = PetState::newborn("T".into(), Species::Blob, start);
    let cfg = Config::default();
    let mut rng = StdRng::seed_from_u64(0);

    tick(&mut state, at(2026, 1, 1, 23, 30, 0), &cfg, &mut rng);

    assert_eq!(state.activity, Activity::Asleep);
}

#[test]
fn energy_climbs_while_asleep() {
    let start = at(2026, 1, 1, 23, 0, 0);
    let mut state = PetState::newborn("T".into(), Species::Blob, start);
    state.energy = Stat::new(50);
    state.last_tick = start;
    let cfg = Config::default();
    let mut rng = StdRng::seed_from_u64(0);

    tick(&mut state, start + dur(Duration::hours(1)), &cfg, &mut rng);

    assert_eq!(state.energy.get(), 58);
    assert_eq!(state.activity, Activity::Asleep);
}

#[test]
fn satiety_decay_halved_while_asleep() {
    let start = at(2026, 1, 1, 23, 0, 0);
    let mut state = PetState::newborn("T".into(), Species::Blob, start);
    state.satiety = Stat::new(70);
    state.last_tick = start;
    let cfg = Config::default();
    let mut rng = StdRng::seed_from_u64(0);

    tick(&mut state, start + dur(Duration::hours(1)), &cfg, &mut rng);

    assert!(
        state.satiety.get() >= 68,
        "expected halved decay (>=68), got {}",
        state.satiety.get()
    );
    assert_eq!(state.activity, Activity::Asleep);
}

#[test]
fn wakes_at_morning() {
    let start = at(2026, 1, 1, 6, 0, 0);
    let mut state = PetState::newborn("T".into(), Species::Blob, start);
    state.activity = Activity::Asleep;
    let cfg = Config::default();
    let mut rng = StdRng::seed_from_u64(0);

    tick(&mut state, at(2026, 1, 1, 7, 30, 0), &cfg, &mut rng);

    assert_eq!(state.activity, Activity::Awake);
}

#[test]
fn sleep_window_crosses_midnight_correctly() {
    let cfg = Config::default();
    let mut rng = StdRng::seed_from_u64(0);

    let start = at(2026, 1, 1, 22, 30, 0);
    let mut state = PetState::newborn("T".into(), Species::Blob, start);
    tick(&mut state, at(2026, 1, 1, 23, 0, 0), &cfg, &mut rng);
    assert_eq!(state.activity, Activity::Asleep, "hour 23 should be asleep");

    let start = at(2026, 1, 2, 2, 30, 0);
    let mut state = PetState::newborn("T".into(), Species::Blob, start);
    tick(&mut state, at(2026, 1, 2, 3, 0, 0), &cfg, &mut rng);
    assert_eq!(state.activity, Activity::Asleep, "hour 3 should be asleep");

    let start = at(2026, 1, 2, 11, 30, 0);
    let mut state = PetState::newborn("T".into(), Species::Blob, start);
    tick(&mut state, at(2026, 1, 2, 12, 0, 0), &cfg, &mut rng);
    assert_eq!(state.activity, Activity::Awake, "hour 12 should be awake");
}

#[test]
fn forced_nap_when_energy_zero() {
    let start = at(2026, 1, 1, 14, 0, 0);
    let mut state = PetState::newborn("T".into(), Species::Blob, start);
    state.energy = Stat::new(0);
    let cfg = Config::default();
    let mut rng = StdRng::seed_from_u64(0);

    tick(&mut state, start + dur(Duration::minutes(5)), &cfg, &mut rng);

    assert_eq!(state.activity, Activity::Asleep);
}

fn default_cfg_for_feed() -> Config {
    Config::default()
}

fn feed_event(exit_code: i32, argv0: &str) -> FeedEvent<'_> {
    FeedEvent {
        exit_code,
        argv0,
        now: fixed_now(),
    }
}

#[test]
fn feed_success_increases_satiety_and_happiness() {
    let mut state = PetState::newborn("T".into(), Species::Blob, fixed_now());
    let cfg = default_cfg_for_feed();
    let mut rng = StdRng::seed_from_u64(0);

    feed(&mut state, feed_event(0, "cargo"), &cfg, &mut rng);

    assert_eq!(state.satiety.get(), 72);
    assert_eq!(state.happiness.get(), 71);
    assert_eq!(state.success_streak, 1);
    assert_eq!(state.failure_streak, 0);
    assert_eq!(state.commands_eaten, 1);
    assert_eq!(state.bad_food_meter, 0);
}

#[test]
fn feed_ten_success_streak_gives_bonus() {
    let mut state = PetState::newborn("T".into(), Species::Blob, fixed_now());
    let cfg = default_cfg_for_feed();
    let mut rng = StdRng::seed_from_u64(0);

    for _ in 0..10 {
        feed(&mut state, feed_event(0, "cargo"), &cfg, &mut rng);
    }

    assert_eq!(state.success_streak, 10);
    assert_eq!(state.happiness.get(), 70 + 10 + 5);
}

#[test]
fn feed_failure_raises_satiety_more_and_bumps_bad_food_meter() {
    let mut state = PetState::newborn("T".into(), Species::Blob, fixed_now());
    let cfg = default_cfg_for_feed();
    let mut rng = StdRng::seed_from_u64(0);

    feed(&mut state, feed_event(1, "cargo"), &cfg, &mut rng);

    assert_eq!(state.satiety.get(), 73);
    assert_eq!(state.failure_streak, 1);
    assert_eq!(state.success_streak, 0);
    assert_eq!(state.bad_food_meter, 1);
    assert_eq!(state.health.get(), 100);
    assert_eq!(state.commands_eaten, 1);
    assert_ne!(state.activity, Activity::Sick);
}

#[test]
fn feed_ignored_exit_code_is_neutral() {
    let mut state = PetState::newborn("T".into(), Species::Blob, fixed_now());
    let cfg = default_cfg_for_feed();
    let mut rng = StdRng::seed_from_u64(0);

    feed(&mut state, feed_event(130, "cargo"), &cfg, &mut rng);

    assert_eq!(state.satiety.get(), 70);
    assert_eq!(state.happiness.get(), 70);
    assert_eq!(state.bad_food_meter, 0);
    assert_eq!(state.commands_eaten, 1);
}

#[test]
fn feed_junk_food_bumps_meter_regardless_of_exit_code() {
    let mut state = PetState::newborn("T".into(), Species::Blob, fixed_now());
    let cfg = default_cfg_for_feed();
    let mut rng = StdRng::seed_from_u64(0);

    feed(&mut state, feed_event(0, "rm"), &cfg, &mut rng);

    assert_eq!(state.bad_food_meter, 1);
}

#[test]
fn feed_while_asleep_is_full_noop() {
    let mut state = PetState::newborn("T".into(), Species::Blob, fixed_now());
    state.activity = Activity::Asleep;
    let cfg = default_cfg_for_feed();
    let mut rng = StdRng::seed_from_u64(0);

    feed(&mut state, feed_event(0, "cargo"), &cfg, &mut rng);

    assert_eq!(state.commands_eaten, 0);
    assert_eq!(state.satiety.get(), 70);
}

#[test]
fn feed_dead_pet_is_noop() {
    let mut state = PetState::newborn("T".into(), Species::Blob, fixed_now());
    state.alive = false;
    let cfg = default_cfg_for_feed();
    let mut rng = StdRng::seed_from_u64(0);

    feed(&mut state, feed_event(0, "cargo"), &cfg, &mut rng);

    assert_eq!(state.commands_eaten, 0);
    assert_eq!(state.satiety.get(), 70);
}

#[test]
fn sickness_can_trigger_with_high_bad_food_meter() {
    let cfg = default_cfg_for_feed();
    let mut triggered = false;

    for seed in 0..50 {
        let mut state = PetState::newborn("T".into(), Species::Blob, fixed_now());
        state.bad_food_meter = 20;
        let mut rng = StdRng::seed_from_u64(seed);

        feed(&mut state, feed_event(1, "cargo"), &cfg, &mut rng);

        if state.health.get() < 100 && state.activity == Activity::Sick {
            triggered = true;
            break;
        }
    }

    assert!(
        triggered,
        "expected sickness to trigger at least once across 50 seeds with p=0.5"
    );
}

#[test]
fn boredom_rises_after_idle_threshold() {
    let start = fixed_now();
    let mut state = PetState::newborn("T".into(), Species::Blob, start);
    state.last_command_at = start;
    let cfg = Config::default();
    let mut rng = StdRng::seed_from_u64(0);

    tick(&mut state, start + dur(Duration::minutes(45 + 15)), &cfg, &mut rng);

    assert_eq!(state.boredom.get(), 5);
}

#[test]
fn no_boredom_within_threshold() {
    let start = fixed_now();
    let mut state = PetState::newborn("T".into(), Species::Blob, start);
    state.last_command_at = start;
    let cfg = Config::default();
    let mut rng = StdRng::seed_from_u64(0);

    tick(&mut state, start + dur(Duration::minutes(30)), &cfg, &mut rng);

    assert_eq!(state.boredom.get(), 0);
}

#[test]
fn pet_interaction_resets_boredom() {
    let start = fixed_now();
    let mut state = PetState::newborn("T".into(), Species::Blob, start);
    state.boredom = Stat::new(80);

    pet_interaction(&mut state, start);

    assert_eq!(state.boredom.get(), 0);
    assert_eq!(state.last_pet_interaction, Some(start));
}

#[test]
fn pet_interaction_respects_cooldown() {
    let t0 = fixed_now();
    let mut state = PetState::newborn("T".into(), Species::Blob, t0);

    pet_interaction(&mut state, t0);
    state.boredom = Stat::new(80);

    pet_interaction(&mut state, t0 + dur(Duration::minutes(5)));

    assert_eq!(state.boredom.get(), 80);
    assert_eq!(state.last_pet_interaction, Some(t0));
}

#[test]
fn high_boredom_drains_happiness_over_time() {
    let start = fixed_now();
    let mut state = PetState::newborn("T".into(), Species::Blob, start);
    state.boredom = Stat::new(80);
    state.last_command_at = start - dur(Duration::hours(24));
    let cfg = Config::default();
    let mut rng = StdRng::seed_from_u64(0);

    tick(&mut state, start + dur(Duration::minutes(15)), &cfg, &mut rng);

    assert!(
        state.happiness.get() < 70,
        "expected happiness drain, got {}",
        state.happiness.get()
    );
}

#[test]
fn asleep_pets_dont_accrue_boredom() {
    let start = at(2026, 1, 1, 23, 0, 0);
    let mut state = PetState::newborn("T".into(), Species::Blob, start);
    state.activity = Activity::Asleep;
    state.last_command_at = start - dur(Duration::hours(5));
    let cfg = Config::default();
    let mut rng = StdRng::seed_from_u64(0);

    tick(&mut state, start + dur(Duration::minutes(30)), &cfg, &mut rng);

    assert_eq!(state.boredom.get(), 0);
    assert_eq!(state.activity, Activity::Asleep);
}

fn feed_n_successes(state: &mut PetState, cfg: &Config, n: u32) {
    let mut rng = StdRng::seed_from_u64(0);
    for _ in 0..n {
        feed(state, feed_event(0, "cargo"), cfg, &mut rng);
    }
}

#[test]
fn poop_appears_after_interval_commands() {
    let mut state = PetState::newborn("T".into(), Species::Blob, fixed_now());
    let cfg = default_cfg_for_feed();

    feed_n_successes(&mut state, &cfg, 40);
    assert_eq!(state.poops.len(), 1);

    feed_n_successes(&mut state, &cfg, 39);
    assert_eq!(state.poops.len(), 1, "should still be 1 at 79 commands");

    feed_n_successes(&mut state, &cfg, 1);
    assert_eq!(state.poops.len(), 2, "should become 2 exactly at 80");
}

#[test]
fn each_poop_drops_hygiene_by_fifteen() {
    let mut state = PetState::newborn("T".into(), Species::Blob, fixed_now());
    let cfg = default_cfg_for_feed();

    feed_n_successes(&mut state, &cfg, 40);

    assert_eq!(state.hygiene.get(), 100 - 15);
}

#[test]
fn poop_does_not_appear_from_time_alone() {
    let start = fixed_now();
    let mut state = PetState::newborn("T".into(), Species::Blob, start);
    let cfg = Config::default();
    let mut rng = StdRng::seed_from_u64(0);

    tick(&mut state, start + dur(Duration::hours(24)), &cfg, &mut rng);

    assert!(state.poops.is_empty());
}

#[test]
fn uncleaned_poops_persist_across_ticks() {
    let start = fixed_now();
    let mut state = PetState::newborn("T".into(), Species::Blob, start);
    let cfg = default_cfg_for_feed();
    let mut rng = StdRng::seed_from_u64(0);

    feed_n_successes(&mut state, &cfg, 40);
    assert_eq!(state.poops.len(), 1);

    tick(&mut state, start + dur(Duration::hours(1)), &cfg, &mut rng);
    assert_eq!(state.poops.len(), 1);

    tick(&mut state, start + dur(Duration::hours(2)), &cfg, &mut rng);
    assert_eq!(state.poops.len(), 1);
}

#[test]
fn clean_empties_poops_and_maxes_hygiene() {
    let mut state = PetState::newborn("T".into(), Species::Blob, fixed_now());
    let cfg = default_cfg_for_feed();

    feed_n_successes(&mut state, &cfg, 80);
    assert_eq!(state.poops.len(), 2);
    assert!(state.hygiene.get() < 100);

    state.happiness = Stat::new(50);
    let happiness_before = state.happiness.get();

    clean(&mut state);

    assert!(state.poops.is_empty());
    assert_eq!(state.hygiene.get(), 100);
    assert_eq!(state.happiness.get(), happiness_before + 5);
}

#[test]
fn feed_with_clean_argv0_cleans_pet_on_success() {
    let mut state = PetState::newborn("T".into(), Species::Blob, fixed_now());
    let cfg = default_cfg_for_feed();
    let mut rng = StdRng::seed_from_u64(0);

    feed_n_successes(&mut state, &cfg, 40);
    assert_eq!(state.poops.len(), 1);
    assert!(state.hygiene.get() < 100);

    state.happiness = Stat::new(50);
    let happiness_before = state.happiness.get();

    feed(&mut state, feed_event(0, "clean"), &cfg, &mut rng);

    assert!(state.poops.is_empty());
    assert_eq!(state.hygiene.get(), 100);
    assert_eq!(state.happiness.get(), happiness_before + 1 + 5);
}

#[test]
fn feed_with_clean_argv0_cleans_but_no_bonus_on_failure() {
    let mut state = PetState::newborn("T".into(), Species::Blob, fixed_now());
    let cfg = default_cfg_for_feed();
    let mut rng = StdRng::seed_from_u64(0);

    feed_n_successes(&mut state, &cfg, 40);
    assert_eq!(state.poops.len(), 1);
    assert!(state.hygiene.get() < 100);

    let happiness_before = state.happiness.get();

    feed(&mut state, feed_event(127, "clean"), &cfg, &mut rng);

    assert!(state.poops.is_empty());
    assert_eq!(state.hygiene.get(), 100);
    assert_eq!(state.happiness.get(), happiness_before);
}

#[test]
fn poop_sickness_can_trigger_with_many_poops() {
    let cfg = Config::default();
    let mut triggered = false;

    for seed in 0..50 {
        let start = fixed_now();
        let mut state = PetState::newborn("T".into(), Species::Blob, start);
        state.poops = vec![start, start, start, start, start];
        let mut rng = StdRng::seed_from_u64(seed);

        tick(&mut state, start + dur(Duration::hours(1)), &cfg, &mut rng);

        if state.activity == Activity::Sick && state.health.get() < 100 {
            triggered = true;
            break;
        }
    }

    assert!(
        triggered,
        "expected poop-driven sickness to trigger at least once across 50 seeds"
    );
}

#[test]
fn sick_pet_loses_health_over_time() {
    let start = fixed_now();
    let mut state = PetState::newborn("T".into(), Species::Blob, start);
    state.activity = Activity::Sick;
    state.health = Stat::new(50);
    state.hygiene = Stat::new(50);
    let cfg = Config::default();
    let mut rng = StdRng::seed_from_u64(0);

    tick(&mut state, start + dur(Duration::hours(2)), &cfg, &mut rng);

    assert!(
        state.health.get() < 50,
        "expected sick health drain, got {}",
        state.health.get()
    );
}

#[test]
fn sick_activity_is_not_overridden_by_sleep_wake_logic() {
    let start = at(2026, 1, 1, 23, 0, 0);
    let mut state = PetState::newborn("T".into(), Species::Blob, start);
    state.activity = Activity::Sick;
    state.hygiene = Stat::new(50);
    let cfg = Config::default();
    let mut rng = StdRng::seed_from_u64(0);

    tick(&mut state, at(2026, 1, 2, 8, 0, 0), &cfg, &mut rng);

    assert_eq!(state.activity, Activity::Sick);
}

#[test]
fn sick_pet_cured_when_hygiene_and_satiety_recover() {
    let start = fixed_now();
    let mut state = PetState::newborn("T".into(), Species::Blob, start);
    state.activity = Activity::Sick;
    state.hygiene = Stat::new(90);
    state.satiety = Stat::new(70);
    let cfg = Config::default();
    let mut rng = StdRng::seed_from_u64(0);

    tick(&mut state, start + dur(Duration::minutes(5)), &cfg, &mut rng);

    assert_eq!(state.activity, Activity::Awake);
}

#[test]
fn death_when_health_reaches_zero_via_tick() {
    let start = fixed_now();
    let mut state = PetState::newborn("T".into(), Species::Blob, start);
    state.activity = Activity::Sick;
    state.health = Stat::new(3);
    state.hygiene = Stat::new(50);
    let cfg = Config::default();
    let mut rng = StdRng::seed_from_u64(0);

    tick(&mut state, start + dur(Duration::hours(3)), &cfg, &mut rng);

    assert_eq!(state.health.get(), 0);
    assert!(!state.alive);
    assert_eq!(state.activity, Activity::Dead);
}

#[test]
fn death_when_health_reaches_zero_via_feed() {
    let cfg = default_cfg_for_feed();
    let mut triggered = false;

    for seed in 0..50 {
        let mut state = PetState::newborn("T".into(), Species::Blob, fixed_now());
        state.health = Stat::new(5);
        state.bad_food_meter = 20;
        let mut rng = StdRng::seed_from_u64(seed);

        feed(&mut state, feed_event(1, "cargo"), &cfg, &mut rng);

        if !state.alive {
            assert_eq!(state.activity, Activity::Dead);
            assert_eq!(state.health.get(), 0);
            triggered = true;
            break;
        }
    }

    assert!(
        triggered,
        "expected death via feed() to trigger at least once across 50 seeds"
    );
}

#[test]
fn small_gap_behaves_like_normal_tick() {
    let start = fixed_now();
    let cfg = Config::default();

    let mut via_catch_up = PetState::newborn("T".into(), Species::Blob, start);
    let mut rng1 = StdRng::seed_from_u64(0);
    catch_up(&mut via_catch_up, start + dur(Duration::hours(1)), &cfg, &mut rng1);

    let mut via_tick = PetState::newborn("T".into(), Species::Blob, start);
    let mut rng2 = StdRng::seed_from_u64(0);
    tick(&mut via_tick, start + dur(Duration::hours(1)), &cfg, &mut rng2);

    assert_eq!(via_catch_up.satiety.get(), via_tick.satiety.get());
    assert_eq!(via_catch_up.energy.get(), via_tick.energy.get());
    assert_eq!(via_catch_up.hygiene.get(), via_tick.hygiene.get());
    assert_eq!(via_catch_up.last_tick, via_tick.last_tick);
}

#[test]
fn gap_is_capped_at_max_offline_hours() {
    let start = fixed_now();
    let mut state = PetState::newborn("T".into(), Species::Blob, start);
    let cfg = Config {
        max_offline_millis: Some(dur(Duration::hours(12))),
        ..Config::default()
    };
    let mut rng = StdRng::seed_from_u64(0);

    let now = start + dur(Duration::hours(24 * 3));
    catch_up(&mut state, now, &cfg, &mut rng);

    assert_eq!(state.last_tick, now);
    assert!(
        state.satiety.get() > 0,
        "expected only ~12h of decay to be applied, got satiety {}",
        state.satiety.get()
    );
}

#[test]
fn max_offline_hours_none_disables_cap() {
    let start = fixed_now();
    let mut state = PetState::newborn("T".into(), Species::Blob, start);
    let cfg = Config {
        max_offline_millis: None,
        ..Config::default()
    };
    let mut rng = StdRng::seed_from_u64(0);

    let now = start + dur(Duration::hours(20));
    catch_up(&mut state, now, &cfg, &mut rng);

    assert_eq!(state.last_tick, now);
    assert!(
        state.satiety.get() < 70,
        "expected decay over the full uncapped 20h gap, got satiety {}",
        state.satiety.get()
    );
}

#[test]
fn nights_within_gap_are_simulated_as_sleep() {
    let start = at(2026, 1, 1, 10, 0, 0);
    let mut state = PetState::newborn("T".into(), Species::Blob, start);
    let cfg = Config {
        max_offline_millis: Some(dur(Duration::hours(30))),
        ..Config::default()
    };
    let mut rng = StdRng::seed_from_u64(0);

    let now = start + dur(Duration::hours(24));
    catch_up(&mut state, now, &cfg, &mut rng);

    assert_eq!(state.last_tick, now);
    assert!(
        state.energy.get() > 22,
        "expected the ~8h night window within the gap to be simulated as \
         sleep (boosting energy), but energy was {} (<=22 would suggest \
         the pet was awake the whole time)",
        state.energy.get()
    );
}

#[test]
fn zero_or_negative_gap_is_noop() {
    let start = fixed_now();
    let mut state = PetState::newborn("T".into(), Species::Blob, start);
    let cfg = Config::default();
    let mut rng = StdRng::seed_from_u64(0);

    let before = state.clone();
    catch_up(&mut state, start, &cfg, &mut rng);

    assert_eq!(state, before);
}

#[test]
fn hatch_produces_a_fresh_newborn() {
    let now = fixed_now();
    let hatched = hatch("Rusty".into(), Species::Dragon, now);

    assert_eq!(
        hatched,
        PetState::newborn("Rusty".into(), Species::Dragon, now)
    );
    assert!(hatched.alive);
    assert_eq!(hatched.activity, Activity::Awake);
    assert_eq!(hatched.satiety.get(), 70);
    assert_eq!(hatched.health.get(), 100);
    assert!(hatched.poops.is_empty());
}

// --- further cases -------------------------------------------------------

#[test]
fn tick_with_roll_applies_poop_sickness_exactly() {
    let start = fixed_now();
    let mut state = PetState::newborn("T".into(), Species::Blob, start);
    state.poops = vec![start, start, start];
    let cfg = Config::default();

    tick_with_roll(&mut state, start + dur(Duration::hours(1)), &cfg, true);

    // Decay 3/2/1, poop penalty 3 happiness, sickness hit 5 plus 5/hour drain.
    assert_eq!(state.activity, Activity::Sick);
    assert_eq!(state.health.get(), 90);
    assert_eq!(state.happiness.get(), 67);
    assert_eq!(state.satiety.get(), 67);
}

#[test]
fn tick_with_roll_ignores_roll_below_three_poops() {
    let start = fixed_now();
    let mut state = PetState::newborn("T".into(), Species::Blob, start);
    state.poops = vec![start, start];
    let cfg = Config::default();

    tick_with_roll(&mut state, start + dur(Duration::hours(1)), &cfg, true);

    assert_eq!(state.activity, Activity::Awake);
    assert_eq!(state.health.get(), 100);
    assert_eq!(state.happiness.get(), 68);
}

#[test]
fn half_points_round_up() {
    // Half an hour of awake hygiene decay is 0.5 points, which rounds to 1.
    let start = fixed_now();
    let mut state = PetState::newborn("T".into(), Species::Blob, start);
    let cfg = Config::default();

    tick_with_roll(&mut state, start + dur(Duration::minutes(30)), &cfg, false);

    assert_eq!(state.hygiene.get(), 99);
    assert_eq!(state.energy.get(), 69);
    assert_eq!(state.satiety.get(), 68);
}

#[test]
fn feed_with_roll_makes_pet_sick_on_bad_food() {
    let mut state = PetState::newborn("T".into(), Species::Blob, fixed_now());
    let cfg = Config::default();

    feed_with_roll(&mut state, feed_event(2, "make"), &cfg, true);

    assert_eq!(state.activity, Activity::Sick);
    assert_eq!(state.health.get(), 90);
    assert_eq!(state.happiness.get(), 68);
    assert_eq!(state.satiety.get(), 73);
}

#[test]
fn dead_pet_only_moves_its_clock() {
    let start = fixed_now();
    let mut state = PetState::newborn("T".into(), Species::Blob, start);
    state.activity = Activity::Dead;
    state.alive = false;
    let cfg = Config::default();
    let mut before = state.clone();

    tick_with_roll(&mut state, start + dur(Duration::hours(5)), &cfg, true);

    before.last_tick = start + dur(Duration::hours(5));
    assert_eq!(state, before);
}

#[test]
fn catch_up_replays_hourly_and_lands_on_now() {
    let start = fixed_now();
    let mut state = PetState::newborn("T".into(), Species::Blob, start);
    let cfg = Config {
        max_offline_millis: Some(dur(Duration::hours(2))),
        ..Config::default()
    };
    let mut rng = StdRng::seed_from_u64(0);
    let now = start + dur(Duration::hours(5));

    catch_up(&mut state, now, &cfg, &mut rng);

    // Only two hours (12:00 to 14:00, awake) are simulated.
    assert_eq!(state.satiety.get(), 64);
    assert_eq!(state.energy.get(), 66);
    assert_eq!(state.hygiene.get(), 98);
    assert_eq!(state.last_tick, now);
}

#[test]
fn negative_offline_cap_simulates_nothing() {
    let start = fixed_now();
    let mut state = PetState::newborn("T".into(), Species::Blob, start);
    let cfg = Config {
        max_offline_millis: Some(-5),
        ..Config::default()
    };
    let mut rng = StdRng::seed_from_u64(0);
    let now = start + dur(Duration::hours(5));

    catch_up(&mut state, now, &cfg, &mut rng);

    assert_eq!(state.satiety.get(), 70);
    assert_eq!(state.last_tick, now);
}

#[test]
fn pet_interaction_after_cooldown_takes_effect() {
    let t0 = fixed_now();
    let mut state = PetState::newborn("T".into(), Species::Blob, t0);

    pet_interaction(&mut state, t0);
    state.boredom = Stat::new(80);
    pet_interaction(&mut state, t0 + dur(Duration::minutes(10)));

    assert_eq!(state.boredom.get(), 0);
    assert_eq!(state.last_pet_interaction, Some(t0 + dur(Duration::minutes(10))));
}

#[test]
fn zero_poop_interval_never_poops() {
    let mut state = PetState::newborn("T".into(), Species::Blob, fixed_now());
    let cfg = Config {
        poop_interval_commands: 0,
        ..Config::default()
    };

    feed_n_successes(&mut state, &cfg, 50);

    assert!(state.poops.is_empty());
    assert_eq!(state.commands_eaten, 50);
}

#[test]
fn capped_catch_up_equals_uncapped_catch_up_to_the_cap() {
    let start = fixed_now();
    let cap = dur(Duration::hours(5));
    let capped = Config { max_offline_millis: Some(cap), ..Config::default() };
    let uncapped = Config { max_offline_millis: None, ..Config::default() };
    let now = start + dur(Duration::hours(30));

    let mut a = PetState::newborn("T".into(), Species::Cat, start);
    let mut rng1 = StdRng::seed_from_u64(7);
    catch_up(&mut a, now, &capped, &mut rng1);

    let mut b = PetState::newborn("T".into(), Species::Cat, start);
    let mut rng2 = StdRng::seed_from_u64(7);
    catch_up(&mut b, start + cap, &uncapped, &mut rng2);
    b.last_tick = now;

    assert_eq!(a, b);
    assert_eq!(a.last_tick, now);
}

#[test]
fn failed_command_draws_at_five_percent_per_meter_point() {
    let start = fixed_now();
    let cfg = Config::default();
    // With the meter one short of the cap the chance is 50%: over many
    // independent feedings both outcomes occur.
    let mut sick = 0;
    let mut well = 0;
    for seed in 0..200u64 {
        let mut state = PetState::newborn("T".into(), Species::Blob, start);
        state.bad_food_meter = 9;
        let mut rng = StdRng::seed_from_u64(seed);
        feed(&mut state, FeedEvent { exit_code: 1, argv0: "ls", now: start }, &cfg, &mut rng);
        assert_eq!(state.bad_food_meter, 10);
        if state.activity == Activity::Sick {
            assert_eq!(state.health.get(), 90);
            sick += 1;
        } else {
            assert_eq!(state.health.get(), 100);
            well += 1;
        }
    }
    assert!(sick > 50 && well > 50, "sick {sick}, well {well}");

    // A fresh meter gives 5%: rarely sick.
    let mut sick = 0;
    for seed in 0..200u64 {
        let mut state = PetState::newborn("T".into(), Species::Blob, start);
        let mut rng = StdRng::seed_from_u64(seed);
        feed(&mut state, FeedEvent { exit_code: 1, argv0: "ls", now: start }, &cfg, &mut rng);
        if state.activity == Activity::Sick {
            sick += 1;
        }
    }
    assert!(sick < 40, "sick {sick}");
}

#[test]
fn steps_that_do_not_draw_leave_the_generator_alone() {
    let start = fixed_now();
    let cfg = Config::default();
    let fresh = || StdRng::seed_from_u64(42);
    let mut reference = fresh();
    let expected: u64 = rand::Rng::next_u64(&mut reference);

    // A tick with no poops draws nothing.
    let mut state = PetState::newborn("T".into(), Species::Blob, start);
    let mut rng = fresh();
    tick(&mut state, start + dur(Duration::hours(2)), &cfg, &mut rng);
    assert_eq!(rand::Rng::next_u64(&mut rng), expected);

    // A successful command draws nothing.
    let mut rng = fresh();
    feed(&mut state, FeedEvent { exit_code: 0, argv0: "ls", now: start }, &cfg, &mut rng);
    assert_eq!(rand::Rng::next_u64(&mut rng), expected);

    // Feeding a sleeping pet draws nothing.
    let mut asleep = PetState::newborn("T".into(), Species::Blob, start);
    asleep.activity = Activity::Asleep;
    let mut rng = fresh();
    feed(&mut asleep, FeedEvent { exit_code: 1, argv0: "ls", now: start }, &cfg, &mut rng);
    assert_eq!(rand::Rng::next_u64(&mut rng), expected);

    // Catching up a pet without poops draws nothing.
    let mut rng = fresh();
    catch_up(&mut state, start + dur(Duration::hours(9)), &cfg, &mut rng);
    assert_eq!(rand::Rng::next_u64(&mut rng), expected);
}

#[test]
fn random_species_is_one_of_the_four() {
    let mut rng = StdRng::seed_from_u64(3);
    let mut seen = std::collections::HashSet::new();
    for _ in 0..200 {
        seen.insert(format!("{:?}", pick_random_species(&mut rng).picked_or(Species::Blob)));
    }
    assert_eq!(seen.len(), 4);
}

#[test]
fn draws_are_reported_with_their_outcome() {
    let start = fixed_now();
    let cfg = Config::default();
    let mut rng = StdRng::seed_from_u64(11);

    let mut clean_pet = PetState::newborn("T".into(), Species::Blob, start);
    assert!(tick(&mut clean_pet, start + dur(Duration::hours(1)), &cfg, &mut rng).is_none());

    let mut messy = PetState::newborn("T".into(), Species::Blob, start);
    messy.poops = vec![start, start, start];
    let drawn = tick(&mut messy, start + dur(Duration::hours(6)), &cfg, &mut rng)
        .expect("three poops draw");
    assert_eq!(drawn.outcome(), messy.activity == Activity::Sick);

    let mut pet = PetState::newborn("T".into(), Species::Blob, start);
    let ok = FeedEvent { exit_code: 0, argv0: "ls", now: start };
    assert!(feed(&mut pet, ok, &cfg, &mut rng).is_none());
    let bad = FeedEvent { exit_code: 2, argv0: "ls", now: start };
    let drawn = feed(&mut pet, bad, &cfg, &mut rng).expect("a failed command draws");
    assert_eq!(drawn.outcome(), pet.activity == Activity::Sick);

    let mut gap = PetState::newborn("T".into(), Species::Blob, start);
    gap.poops = vec![start, start, start];
    let draws = catch_up(&mut gap, start + dur(Duration::hours(3)) + 1, &cfg, &mut rng);
    assert_eq!(draws.len(), 4);
}

#[test]
fn catch_up_with_rolls_matches_ticks_with_the_same_rolls() {
    let start = fixed_now();
    let cfg = Config::default();
    let mut poopy = PetState::newborn("T".into(), Species::Blob, start);
    poopy.poops = vec![start, start, start];

    // A small gap is one tick with the same roll.
    for roll in [false, true] {
        let mut a = poopy.clone();
        catch_up_with_rolls(&mut a, start + dur(Duration::minutes(40)), &cfg, &[roll]);
        let mut b = poopy.clone();
        tick_with_roll(&mut b, start + dur(Duration::minutes(40)), &cfg, roll);
        assert_eq!(a, b);
    }

    // A capped gap equals an uncapped catch-up to the cap, then the clock moved.
    let cap = dur(Duration::hours(4));
    let capped = Config { max_offline_millis: Some(cap), ..Config::default() };
    let uncapped = Config { max_offline_millis: None, ..Config::default() };
    let rolls = [false, true, false, false, true];
    let now = start + dur(Duration::hours(20));
    let mut a = poopy.clone();
    catch_up_with_rolls(&mut a, now, &capped, &rolls);
    let mut b = poopy.clone();
    catch_up_with_rolls(&mut b, start + cap, &uncapped, &rolls);
    b.last_tick = now;
    assert_eq!(a, b);
}
