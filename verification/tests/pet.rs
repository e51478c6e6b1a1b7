use chrono::{DateTime, TimeZone, Utc};

use shellagotchi::config::Config;
use shellagotchi::pet::mood::{derive_mood, Mood};
use shellagotchi::pet::state::{Activity, PetState, Species};
use shellagotchi::pet::stats::Stat;

fn fixed_now() -> i64 {
    Utc.with_ymd_and_hms(2026, 1, 1, 12, 0, 0).unwrap().timestamp_millis()
}

#[test]
fn stat_clamps_at_bounds() {
    assert_eq!(Stat::new(200).get(), 100);
    assert_eq!((Stat::new(3) - 10).get(), 0);
    assert_eq!((Stat::new(98) + 10).get(), 100);
}

#[test]
fn stat_arithmetic_inside_bounds() {
    assert_eq!((Stat::new(40) + 7).get(), 47);
    assert_eq!((Stat::new(40) - 7).get(), 33);
    assert_eq!(Stat::new(0).get(), 0);
    assert_eq!(Stat::new(100).get(), 100);
    assert_eq!(Stat::MAX, 100);
}

#[test]
fn newborn_has_documented_defaults() {
    let now = fixed_now();
    let p = PetState::newborn("Rusty".into(), Species::Blob, now);
    assert_eq!(p.schema_version, 1);
    assert_eq!(p.satiety.get(), 70);
    assert_eq!(p.happiness.get(), 70);
    assert_eq!(p.energy.get(), 70);
    assert_eq!(p.hygiene.get(), 100);
    assert_eq!(p.health.get(), 100);
    assert_eq!(p.boredom.get(), 0);
    assert_eq!(p.commands_eaten, 0);
    assert_eq!(p.success_streak, 0);
    assert_eq!(p.failure_streak, 0);
    assert_eq!(p.bad_food_meter, 0);
    assert!(p.poops.is_empty());
    assert_eq!(p.activity, Activity::Awake);
    assert!(p.alive);
}

#[test]
fn newborn_times_and_identity() {
    let now = fixed_now();
    let p = PetState::newborn("Rusty".into(), Species::Phantom, now);
    assert_eq!(p.name, "Rusty");
    assert_eq!(p.species, Species::Phantom);
    assert_eq!(p.born_at, now);
    assert_eq!(p.last_tick, now);
    assert_eq!(p.last_command_at, now);
    assert_eq!(p.last_pet_interaction, None);
}

fn make_state(alive: bool, activity: Activity, happiness: u16) -> PetState {
    let fixed_now = DateTime::from_timestamp(0, 0).unwrap().timestamp_millis();
    let mut state = PetState::newborn("T".into(), Species::Blob, fixed_now);
    state.alive = alive;
    state.activity = activity;
    state.happiness = Stat::new(happiness);
    state
}

#[test]
fn mood_bands_table_driven() {
    let cases = [
        (false, Activity::Awake, 100u16, Mood::Dead),
        (true, Activity::Sick, 100, Mood::Sick),
        (true, Activity::Awake, 95, Mood::Ecstatic),
        (true, Activity::Awake, 75, Mood::Happy),
        (true, Activity::Awake, 60, Mood::Content),
        (true, Activity::Awake, 40, Mood::Meh),
        (true, Activity::Awake, 25, Mood::Sad),
        (true, Activity::Awake, 5, Mood::Miserable),
    ];

    for (alive, activity, happiness, expected) in cases {
        let state = make_state(alive, activity, happiness);
        assert_eq!(
            derive_mood(&state),
            expected,
            "alive={alive}, activity={activity:?}, happiness={happiness} -> expected {expected:?}"
        );
    }
}

#[test]
fn mood_band_edges() {
    assert_eq!(derive_mood(&make_state(true, Activity::Awake, 90)), Mood::Ecstatic);
    assert_eq!(derive_mood(&make_state(true, Activity::Awake, 89)), Mood::Happy);
    assert_eq!(derive_mood(&make_state(true, Activity::Awake, 70)), Mood::Happy);
    assert_eq!(derive_mood(&make_state(true, Activity::Awake, 69)), Mood::Content);
    assert_eq!(derive_mood(&make_state(true, Activity::Asleep, 50)), Mood::Content);
    assert_eq!(derive_mood(&make_state(true, Activity::Awake, 49)), Mood::Meh);
    assert_eq!(derive_mood(&make_state(true, Activity::Awake, 35)), Mood::Meh);
    assert_eq!(derive_mood(&make_state(true, Activity::Awake, 34)), Mood::Sad);
    assert_eq!(derive_mood(&make_state(true, Activity::Awake, 20)), Mood::Sad);
    assert_eq!(derive_mood(&make_state(true, Activity::Awake, 19)), Mood::Miserable);
    assert_eq!(derive_mood(&make_state(true, Activity::Awake, 0)), Mood::Miserable);
    assert_eq!(derive_mood(&make_state(false, Activity::Sick, 95)), Mood::Dead);
}

#[test]
fn config_defaults() {
    let c = Config::default();
    assert_eq!(c.pet_name, "Pet");
    assert_eq!(c.boredom_after_minutes, 45);
    assert_eq!(c.sleep_start_hour, 23);
    assert_eq!(c.wake_hour, 7);
    assert_eq!(c.poop_interval_commands, 40);
    assert!(c.unicode);
    assert_eq!(c.junk_food_commands, vec!["rm", "kill", "pkill", "dd"]);
    assert_eq!(c.clean_commands, vec!["clean", "shellagotchi-clean"]);
    assert_eq!(c.ignored_exit_codes, vec![130]);
    assert_eq!(c.bad_food_meter_decay_per_hour, 1);
    assert_eq!(c.max_offline_millis, Some(12 * 3_600_000));
    assert_eq!(c.tick_interval_secs, 60);
}
