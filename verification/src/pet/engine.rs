//! The pure pet simulation engine.
//!
//! `tick` advances a [`PetState`] to reflect elapsed wall-clock time. It never
//! reads the clock itself: `now` (milliseconds since the Unix epoch) is always
//! supplied by the caller, and it never performs I/O. Random sickness draws
//! come from a caller-supplied generator; every step that draws also has a
//! variant that takes the outcome of the draw as an argument.
use vstd::prelude::*;

use crate::chance::{draw_ratio, drawn_at, outcome_of, Draw};
use crate::config::{Config, ConfigView};
use crate::pet::state::{newborn_view, Activity, PetState, PetView, Species};
use crate::pet::stats::{clamp_stat, lemma_stat_fits_byte, Stat};

verus! {

pub const MILLIS_PER_SECOND: i64 = 1000;
pub const MILLIS_PER_MINUTE: i64 = 60_000;
pub const MILLIS_PER_HOUR: i64 = 3_600_000;
pub const MILLIS_PER_DAY: i64 = 86_400_000;

/// `num / den` rounded to the nearest integer, halves rounding up
/// (for `num >= 0`, `den > 0`).
pub open spec fn round_ratio(num: int, den: int) -> int {
    (2 * num + den) / (2 * den)
}

/// `v` lowered by `x`, stopping at zero.
pub open spec fn stat_sub(v: nat, x: int) -> nat {
    clamp_stat(v - x)
}

/// `v` raised by `x`, stopping at 100.
pub open spec fn stat_add(v: nat, x: int) -> nat {
    clamp_stat(v + x)
}

/// The UTC hour of day (0..=23) of an instant given in milliseconds.
pub open spec fn hour_of_day(ms: int) -> int {
    (ms % (MILLIS_PER_DAY as int)) / (MILLIS_PER_HOUR as int)
}

/// Whether `hour` falls within the configured sleep window
/// (`sleep_start_hour` up to, not including, `wake_hour`), where a window
/// with `sleep_start_hour > wake_hour` crosses midnight.
pub open spec fn in_sleep_window(hour: int, cfg: ConfigView) -> bool {
    if cfg.sleep_start_hour <= cfg.wake_hour {
        cfg.sleep_start_hour <= hour && hour < cfg.wake_hour
    } else {
        hour >= cfg.sleep_start_hour || hour < cfg.wake_hour
    }
}

/// The activity a tick settles on before applying decay: a sick pet whose
/// hygiene and satiety recovered is cured first; then a pet that is neither
/// dead nor sick sleeps when out of energy or within the sleep window, and is
/// awake otherwise.
pub open spec fn settled_activity(s: PetView, now: int, cfg: ConfigView) -> Activity {
    let cured = s.activity == Activity::Sick && s.hygiene > 80 && s.satiety > 60;
    let a = if cured { Activity::Awake } else { s.activity };
    if a != Activity::Dead && a != Activity::Sick {
        if s.energy == 0 || in_sleep_window(hour_of_day(now), cfg) {
            Activity::Asleep
        } else {
            Activity::Awake
        }
    } else {
        a
    }
}

/// Time-based decay over `secs` seconds: asleep, satiety drops 1.5/hour,
/// hygiene 1/hour and energy climbs 8/hour; otherwise satiety drops 3/hour,
/// energy 2/hour and hygiene 1/hour; each amount rounded to the nearest point.
pub open spec fn decayed(s: PetView, secs: int) -> PetView {
    if s.activity == Activity::Asleep {
        PetView {
            satiety: stat_sub(s.satiety, round_ratio(3 * secs, 7200)),
            hygiene: stat_sub(s.hygiene, round_ratio(secs, 3600)),
            energy: stat_add(s.energy, round_ratio(8 * secs, 3600)),
            ..s
        }
    } else {
        PetView {
            satiety: stat_sub(s.satiety, round_ratio(3 * secs, 3600)),
            energy: stat_sub(s.energy, round_ratio(2 * secs, 3600)),
            hygiene: stat_sub(s.hygiene, round_ratio(secs, 3600)),
            ..s
        }
    }
}

/// Uncleaned poops drain one happiness point per poop per hour.
pub open spec fn mess_penalized(s: PetView, secs: int) -> PetView {
    if s.poops.len() > 0 {
        PetView { happiness: stat_sub(s.happiness, round_ratio(s.poops.len() * secs, 3600)), ..s }
    } else {
        s
    }
}

/// With at least three uncleaned poops, a successful sickness draw costs five
/// health points and makes the pet sick.
pub open spec fn sickness_rolled(s: PetView, roll: bool) -> PetView {
    if s.poops.len() >= 3 && roll {
        PetView { health: stat_sub(s.health, 5), activity: Activity::Sick, ..s }
    } else {
        s
    }
}

/// A sick pet loses five health points per hour.
pub open spec fn sickness_drained(s: PetView, secs: int) -> PetView {
    if s.activity == Activity::Sick {
        PetView { health: stat_sub(s.health, round_ratio(5 * secs, 3600)), ..s }
    } else {
        s
    }
}

/// The later of the last command and the last explicit interaction.
pub open spec fn last_activity_at(s: PetView) -> int {
    match s.last_pet_interaction {
        Some(t) => if t >= s.last_command_at { t } else { s.last_command_at },
        None => s.last_command_at,
    }
}

/// Boredom of an awake pet: five points per quarter hour of idle time past
/// the configured threshold (zero within it); a boredom above 70 then drains
/// two happiness points per quarter hour of the tick.
pub open spec fn boredom_updated(s: PetView, now: int, elapsed: int, cfg: ConfigView) -> PetView {
    if s.activity == Activity::Awake {
        let idle = now - last_activity_at(s);
        let threshold = cfg.boredom_after_minutes * (MILLIS_PER_MINUTE as int);
        let b = if idle > threshold {
            clamp_stat(round_ratio((idle - threshold) / (MILLIS_PER_MINUTE as int), 3))
        } else {
            0
        };
        if b > 70 {
            PetView {
                boredom: b,
                happiness: stat_sub(s.happiness, round_ratio(2 * (elapsed / (MILLIS_PER_MINUTE as int)), 15)),
                ..s
            }
        } else {
            PetView { boredom: b, ..s }
        }
    } else {
        s
    }
}

/// A pet whose health reached zero dies.
pub open spec fn death_applied(s: PetView) -> PetView {
    if s.health == 0 {
        PetView { alive: false, activity: Activity::Dead, ..s }
    } else {
        s
    }
}

/// The state after a tick to `now`, where `roll` is the outcome of the
/// poop-driven sickness draw (used only when [`tick_draws`] holds).
pub open spec fn tick_spec(s: PetView, now: int, cfg: ConfigView, roll: bool) -> PetView {
    let elapsed = now - s.last_tick;
    if elapsed <= 0 {
        s
    } else {
        let a = settled_activity(s, now, cfg);
        if a == Activity::Dead {
            PetView { last_tick: now, ..s }
        } else {
            let secs = elapsed / (MILLIS_PER_SECOND as int);
            let s1 = decayed(PetView { activity: a, ..s }, secs);
            let s2 = mess_penalized(s1, secs);
            let s3 = sickness_rolled(s2, roll);
            let s4 = sickness_drained(s3, secs);
            let s5 = boredom_updated(s4, now, elapsed, cfg);
            death_applied(PetView { last_tick: now, ..s5 })
        }
    }
}

/// Whether a tick to `now` draws for poop-driven sickness: time passed, the
/// pet is not dead, and at least three poops are uncleaned.
pub open spec fn tick_draws(s: PetView, now: int) -> bool {
    &&& now - s.last_tick > 0
    &&& s.activity != Activity::Dead
    &&& s.poops.len() >= 3
}

/// The chance of poop-driven sickness in a tick, as (numerator, denominator):
/// 5% per poop per hour, capped at 90%.
pub open spec fn tick_odds(s: PetView, now: int) -> (nat, nat) {
    let n = s.poops.len() * ((now - s.last_tick) / (MILLIS_PER_SECOND as int));
    if 10 * n >= 648_000 {
        (9, 10)
    } else {
        (n as nat, 72_000)
    }
}

// ---------------------------------------------------------------------------
// Arithmetic helpers
// ---------------------------------------------------------------------------

/// `round_ratio(num, den)`, saturated at 255.
fn round_ratio_capped(num: u128, den: u128) -> (r: u8)
    requires
        0 < den <= 1_000_000,
        num <= 0x0fff_ffff_ffff_ffff_ffff_ffff_ffff_ffff,
    ensures
        r as int == if round_ratio(num as int, den as int) > 255 {
            255
        } else {
            round_ratio(num as int, den as int)
        },
{
    let q = (2 * num + den) / (2 * den);
    if q > 255 {
        255
    } else {
        q as u8
    }
}

/// The UTC hour of day of `ms`.
fn hour_of(ms: i64) -> (h: u32)
    ensures
        h as int == hour_of_day(ms as int),
        h < 24,
{
    let r = ms % MILLIS_PER_DAY;
    let r2: i64 = if r < 0 {
        r + MILLIS_PER_DAY
    } else {
        r
    };
    assert(r2 as int == (ms as int) % (MILLIS_PER_DAY as int));
    (r2 / MILLIS_PER_HOUR) as u32
}

/// Whether `now`'s hour-of-day falls within the configured sleep window.
fn is_within_sleep_window(now: i64, cfg: &Config) -> (b: bool)
    ensures
        b == in_sleep_window(hour_of_day(now as int), cfg@),
{
    let hour = hour_of(now);
    if cfg.sleep_start_hour <= cfg.wake_hour {
        hour >= cfg.sleep_start_hour && hour < cfg.wake_hour
    } else {
        hour >= cfg.sleep_start_hour || hour < cfg.wake_hour
    }
}

/// Lowers `s` by the rounded amount `x`, saturated at 255 as a byte.
fn lowered(s: Stat, x: u8, Ghost(exact): Ghost<int>) -> (r: Stat)
    requires
        x as int == if exact > 255 { 255 } else { exact },
        exact >= 0,
    ensures
        r@ == stat_sub(s@, exact),
{
    proof {
        lemma_stat_fits_byte(s);
    }
    s - x
}

/// Raises `s` by the rounded amount `x`, saturated at 255 as a byte.
fn raised(s: Stat, x: u8, Ghost(exact): Ghost<int>) -> (r: Stat)
    requires
        x as int == if exact > 255 { 255 } else { exact },
        exact >= 0,
    ensures
        r@ == stat_add(s@, exact),
{
    s + x
}

// ---------------------------------------------------------------------------
// Tick
// ---------------------------------------------------------------------------

fn settle_activity(state: &PetState, now: i64, cfg: &Config) -> (a: Activity)
    ensures
        a == settled_activity(state@, now as int, cfg@),
{
    let cured = state.activity == Activity::Sick && state.hygiene.get() > 80 && state.satiety.get() > 60;
    let a = if cured {
        Activity::Awake
    } else {
        state.activity
    };
    if a != Activity::Dead && a != Activity::Sick {
        if state.energy.get() == 0 || is_within_sleep_window(now, cfg) {
            Activity::Asleep
        } else {
            Activity::Awake
        }
    } else {
        a
    }
}

fn apply_decay(state: &mut PetState, secs: u128)
    requires
        secs <= 0xff_ffff_ffff_ffff,
    ensures
        final(state)@ == decayed(old(state)@, secs as int),
{
    if state.activity == Activity::Asleep {
        let satiety_loss = round_ratio_capped(3 * secs, 7200);
        let hygiene_loss = round_ratio_capped(secs, 3600);
        let energy_gain = round_ratio_capped(8 * secs, 3600);
        state.satiety = lowered(state.satiety, satiety_loss, Ghost(round_ratio(3 * secs, 7200)));
        state.hygiene = lowered(state.hygiene, hygiene_loss, Ghost(round_ratio(secs as int, 3600)));
        state.energy = raised(state.energy, energy_gain, Ghost(round_ratio(8 * secs, 3600)));
    } else {
        let satiety_loss = round_ratio_capped(3 * secs, 3600);
        let energy_loss = round_ratio_capped(2 * secs, 3600);
        let hygiene_loss = round_ratio_capped(secs, 3600);
        state.satiety = lowered(state.satiety, satiety_loss, Ghost(round_ratio(3 * secs, 3600)));
        state.energy = lowered(state.energy, energy_loss, Ghost(round_ratio(2 * secs, 3600)));
        state.hygiene = lowered(state.hygiene, hygiene_loss, Ghost(round_ratio(secs as int, 3600)));
    }
}

fn apply_mess_penalty(state: &mut PetState, secs: u128)
    requires
        secs <= 0xff_ffff_ffff_ffff,
    ensures
        final(state)@ == mess_penalized(old(state)@, secs as int),
{
    let n = state.poops.len();
    if n > 0 {
        let len = n as u128;
        assert(len * secs <= 0xffff_ffff_ffff_ffff * 0xff_ffff_ffff_ffff) by (nonlinear_arith)
            requires
                len <= 0xffff_ffff_ffff_ffff,
                secs <= 0xff_ffff_ffff_ffff,
        ;
        let penalty = round_ratio_capped(len * secs, 3600);
        state.happiness = lowered(state.happiness, penalty, Ghost(round_ratio(n * secs, 3600)));
    }
}

fn apply_sickness_roll(state: &mut PetState, roll: bool)
    ensures
        final(state)@ == sickness_rolled(old(state)@, roll),
{
    if state.poops.len() >= 3 && roll {
        state.health = state.health - 5;
        state.activity = Activity::Sick;
    }
}

fn apply_sickness_drain(state: &mut PetState, secs: u128)
    requires
        secs <= 0xff_ffff_ffff_ffff,
    ensures
        final(state)@ == sickness_drained(old(state)@, secs as int),
{
    if state.activity == Activity::Sick {
        let loss = round_ratio_capped(5 * secs, 3600);
        state.health = lowered(state.health, loss, Ghost(round_ratio(5 * secs, 3600)));
    }
}

fn apply_boredom(state: &mut PetState, now: i64, elapsed: i128, cfg: &Config)
    requires
        0 < elapsed <= 0x1_ffff_ffff_ffff_ffff,
    ensures
        final(state)@ == boredom_updated(old(state)@, now as int, elapsed as int, cfg@),
{
    if state.activity == Activity::Awake {
        let last_activity: i64 = match state.last_pet_interaction {
            Some(t) => if t >= state.last_command_at { t } else { state.last_command_at },
            None => state.last_command_at,
        };
        let idle: i128 = now as i128 - last_activity as i128;
        let threshold: i128 = state_threshold(cfg);
        if idle > threshold {
            let minutes: i128 = (idle - threshold) / (MILLIS_PER_MINUTE as i128);
            let gain = round_ratio_capped(minutes as u128, 3);
            state.boredom = Stat::new(gain as u16);
        } else {
            state.boredom = Stat::new(0);
        }
        if state.boredom.get() > 70 {
            let quarter_minutes: i128 = elapsed / (MILLIS_PER_MINUTE as i128);
            let loss = round_ratio_capped(2 * (quarter_minutes as u128), 15);
            state.happiness = lowered(
                state.happiness,
                loss,
                Ghost(round_ratio(2 * ((elapsed as int) / (MILLIS_PER_MINUTE as int)), 15)),
            );
        }
    }
}

/// The configured idle threshold, in milliseconds.
fn state_threshold(cfg: &Config) -> (t: i128)
    ensures
        t == cfg.boredom_after_minutes * (MILLIS_PER_MINUTE as int),
        0 <= t <= 0xffff_ffff * 60_000,
{
    cfg.boredom_after_minutes as i128 * MILLIS_PER_MINUTE as i128
}

fn apply_death(state: &mut PetState)
    ensures
        final(state)@ == death_applied(old(state)@),
{
    if state.health.get() == 0 {
        state.alive = false;
        state.activity = Activity::Dead;
    }
}

/// Advances `state` to `now`, taking `sickness_roll` as the outcome of the
/// poop-driven sickness draw (which [`tick`] makes only when [`tick_draws`]
/// holds).
pub fn tick_with_roll(state: &mut PetState, now: i64, cfg: &Config, sickness_roll: bool)
    ensures
        final(state)@ == tick_spec(old(state)@, now as int, cfg@, sickness_roll),
{
    let elapsed: i128 = now as i128 - state.last_tick as i128;
    if elapsed <= 0 {
        return;
    }
    let a = settle_activity(state, now, cfg);
    if a == Activity::Dead {
        state.last_tick = now;
        return;
    }
    state.activity = a;
    let secs: u128 = (elapsed / (MILLIS_PER_SECOND as i128)) as u128;
    apply_decay(state, secs);
    apply_mess_penalty(state, secs);
    apply_sickness_roll(state, sickness_roll);
    apply_sickness_drain(state, secs);
    apply_boredom(state, now, elapsed, cfg);
    state.last_tick = now;
    apply_death(state);
}

/// The chance of poop-driven sickness, for a tick that draws.
fn tick_sickness_odds(state: &PetState, now: i64) -> (odds: (u32, u32))
    requires
        tick_draws(state@, now as int),
    ensures
        (odds.0 as nat, odds.1 as nat) == tick_odds(state@, now as int),
        0 < odds.1,
        odds.0 <= odds.1,
{
    let elapsed: i128 = now as i128 - state.last_tick as i128;
    let secs: u128 = (elapsed / (MILLIS_PER_SECOND as i128)) as u128;
    let len = state.poops.len() as u128;
    assert(len * secs <= 0xffff_ffff_ffff_ffff * 0xff_ffff_ffff_ffff) by (nonlinear_arith)
        requires
            len <= 0xffff_ffff_ffff_ffff,
            secs <= 0xff_ffff_ffff_ffff,
    ;
    let n = len * secs;
    if 10 * n >= 648_000 {
        (9, 10)
    } else {
        (n as u32, 72_000)
    }
}

/// Advances `state` to reflect elapsed wall-clock time up to `now`.
///
/// Pure with respect to time: `now` is supplied by the caller. Idempotent
/// when called twice with the same `now`: the first call moves `last_tick`
/// to `now`, so the second sees no elapsed time and changes nothing.
///
/// Decay is proportional to elapsed time (fractional hours apply fractional
/// decay, rounded to the nearest whole point). The activity determined by
/// `now`'s hour is used for the whole elapsed span. With at least three
/// uncleaned poops, sickness is drawn from `rng` with a chance of 5% per
/// poop per hour, capped at 90%. Returns the draw, if one was made; a tick
/// that does not draw leaves `rng` untouched.
pub fn tick(state: &mut PetState, now: i64, cfg: &Config, rng: &mut rand::rngs::StdRng) -> (drawn:
    Option<Draw>)
    ensures
        tick_draw_matches(old(state)@, now as int, drawn),
        final(state)@ == tick_spec(old(state)@, now as int, cfg@, outcome_of(drawn)),
        drawn is None ==> *final(rng) == *old(rng),
{
    let draws = (now as i128 - state.last_tick as i128) > 0 && state.activity != Activity::Dead
        && state.poops.len() >= 3;
    let drawn = if draws {
        let odds = tick_sickness_odds(state, now);
        Some(draw_ratio(rng, odds.0, odds.1))
    } else {
        None
    };
    let roll = match &drawn {
        Some(d) => d.outcome(),
        None => false,
    };
    tick_with_roll(state, now, cfg, roll);
    drawn
}

// ---------------------------------------------------------------------------
// Catching up after a gap
// ---------------------------------------------------------------------------

/// Size of each simulated chunk in [`catch_up`]'s replay: one hour, so that
/// whole-hour decay amounts round losslessly while the sleep/wake window is
/// still re-evaluated per chunk.
pub const CATCH_UP_CHUNK_MILLIS: i64 = MILLIS_PER_HOUR;

/// The next checkpoint of a replay from `from` toward `target`.
pub open spec fn next_checkpoint(from: int, target: int) -> int {
    if target - from <= CATCH_UP_CHUNK_MILLIS as int {
        target
    } else {
        from + CATCH_UP_CHUNK_MILLIS as int
    }
}

/// Replays ticks from `from` to `target` in one-hour chunks, taking the
/// sickness draws of the successive ticks from `rolls`.
pub open spec fn replay(s: PetView, from: int, target: int, cfg: ConfigView, rolls: Seq<bool>) -> PetView
    decreases target - from,
{
    if from >= target {
        s
    } else {
        let cp = next_checkpoint(from, target);
        replay(tick_spec(s, cp, cfg, rolls[0]), cp, target, cfg, rolls.drop_first())
    }
}

/// A tick from `s` to `now` drew exactly when [`tick_draws`] holds, and then
/// at the chance [`tick_odds`].
pub open spec fn tick_draw_matches(s: PetView, now: int, drawn: Option<Draw>) -> bool {
    match drawn {
        Some(d) => tick_draws(s, now) && drawn_at(d, tick_odds(s, now)),
        None => !tick_draws(s, now),
    }
}

/// The draws of a replay, one entry per replayed tick in order, are those
/// its ticks make.
pub open spec fn replay_draws_match(
    s: PetView,
    from: int,
    target: int,
    cfg: ConfigView,
    draws: Seq<Option<Draw>>,
) -> bool
    decreases target - from,
{
    if from >= target {
        draws.len() == 0
    } else {
        let cp = next_checkpoint(from, target);
        &&& draws.len() > 0
        &&& tick_draw_matches(s, cp, draws[0])
        &&& replay_draws_match(tick_spec(s, cp, cfg, outcome_of(draws[0])), cp, target, cfg, draws.drop_first())
    }
}

/// The outcomes of a sequence of draws that may or may not have been made.
pub open spec fn outcomes(draws: Seq<Option<Draw>>) -> Seq<bool> {
    draws.map_values(|d: Option<Draw>| outcome_of(d))
}

/// The instant up to which a catch-up simulates: the real gap, capped at
/// `max_offline_millis` when one is configured.
pub open spec fn simulated_until(s: PetView, now: int, cfg: ConfigView) -> int {
    let gap = now - s.last_tick;
    let simulated = match cfg.max_offline_millis {
        Some(cap) => if gap <= cap { gap } else { cap },
        None => gap,
    };
    s.last_tick + simulated
}

/// The state after catching up to `now`: nothing changes without a gap;
/// otherwise the (capped) gap is replayed in chunks, and `last_tick` ends
/// at the real `now`.
pub open spec fn catch_up_spec(s: PetView, now: int, cfg: ConfigView, rolls: Seq<bool>) -> PetView {
    if now - s.last_tick <= 0 {
        s
    } else {
        let r = replay(s, s.last_tick, simulated_until(s, now, cfg), cfg, rolls);
        PetView { last_tick: now, ..r }
    }
}

proof fn lemma_replay_step(
    s: PetView,
    from: int,
    target: int,
    cfg: ConfigView,
    d: Option<Draw>,
    rest: Seq<Option<Draw>>,
)
    requires
        from < target,
    ensures
        replay(s, from, target, cfg, outcomes(seq![d] + rest)) == replay(
            tick_spec(s, next_checkpoint(from, target), cfg, outcome_of(d)),
            next_checkpoint(from, target),
            target,
            cfg,
            outcomes(rest),
        ),
        replay_draws_match(s, from, target, cfg, seq![d] + rest) == (tick_draw_matches(
            s,
            next_checkpoint(from, target),
            d,
        ) && replay_draws_match(
            tick_spec(s, next_checkpoint(from, target), cfg, outcome_of(d)),
            next_checkpoint(from, target),
            target,
            cfg,
            rest,
        )),
{
    assert((seq![d] + rest)[0] == d);
    assert((seq![d] + rest).drop_first() =~= rest);
    assert(outcomes(seq![d] + rest)[0] == outcome_of(d));
    assert(outcomes(seq![d] + rest).drop_first() =~= outcomes(rest));
}

/// How many ticks a replay from `from` to `target` makes.
pub open spec fn replay_steps(from: int, target: int) -> nat
    decreases target - from,
{
    if from >= target {
        0
    } else {
        1 + replay_steps(next_checkpoint(from, target), target)
    }
}

proof fn lemma_replay_roll_step(s: PetView, from: int, target: int, cfg: ConfigView, r: bool, rest: Seq<bool>)
    requires
        from < target,
    ensures
        replay(s, from, target, cfg, seq![r] + rest) == replay(
            tick_spec(s, next_checkpoint(from, target), cfg, r),
            next_checkpoint(from, target),
            target,
            cfg,
            rest,
        ),
{
    assert((seq![r] + rest)[0] == r);
    assert((seq![r] + rest).drop_first() =~= rest);
}

/// Catches up like [`catch_up`], taking the outcomes of the replayed ticks'
/// sickness draws from `rolls`, in order (one per replayed tick, used only
/// where that tick draws).
#[verifier::spinoff_prover]
#[verifier::rlimit(50)]
pub fn catch_up_with_rolls(state: &mut PetState, now: i64, cfg: &Config, rolls: &[bool])
    requires
        replay_steps(old(state)@.last_tick, simulated_until(old(state)@, now as int, cfg@))
            <= rolls@.len(),
    ensures
        final(state)@ == catch_up_spec(old(state)@, now as int, cfg@, rolls@),
{
    let real_elapsed: i128 = now as i128 - state.last_tick as i128;
    if real_elapsed <= 0 {
        return;
    }
    let simulated: i128 = match cfg.max_offline_millis {
        Some(cap) => if real_elapsed <= cap as i128 { real_elapsed } else { cap as i128 },
        None => real_elapsed,
    };
    let effective_now: i128 = state.last_tick as i128 + simulated;
    let ghost s0 = state@;
    let ghost start = state@.last_tick;
    let mut checkpoint: i64 = state.last_tick;
    let mut k: usize = 0;
    assert forall|rest: Seq<bool>| #[trigger] (rolls@.take(0) + rest) == rest by {
        assert(rolls@.take(0) + rest =~= rest);
    }
    while (checkpoint as i128) < effective_now
        invariant
            effective_now == simulated_until(s0, now as int, cfg@),
            effective_now <= now,
            start <= checkpoint,
            s0 == old(state)@,
            start == s0.last_tick,
            k + replay_steps(checkpoint as int, effective_now as int) <= rolls@.len(),
            forall|rest: Seq<bool>|
                replay(s0, start, effective_now as int, cfg@, #[trigger] (rolls@.take(k as int) + rest))
                    == replay(state@, checkpoint as int, effective_now as int, cfg@, rest),
        decreases effective_now - checkpoint,
    {
        let next: i64 = if effective_now - (checkpoint as i128) <= CATCH_UP_CHUNK_MILLIS as i128 {
            effective_now as i64
        } else {
            checkpoint + CATCH_UP_CHUNK_MILLIS
        };
        let ghost prev = state@;
        let ghost prev_checkpoint = checkpoint;
        assert(next as int == next_checkpoint(checkpoint as int, effective_now as int));
        assert(replay_steps(checkpoint as int, effective_now as int) == 1 + replay_steps(
            next as int,
            effective_now as int,
        ));
        let roll = rolls[k];
        tick_with_roll(state, next, cfg, roll);
        proof {
            assert forall|rest: Seq<bool>|
                replay(s0, start, effective_now as int, cfg@, #[trigger] (rolls@.take(k + 1) + rest))
                    == replay(state@, next as int, effective_now as int, cfg@, rest) by {
                assert(rolls@.take(k + 1) + rest =~= rolls@.take(k as int) + (seq![roll] + rest));
                lemma_replay_roll_step(prev, prev_checkpoint as int, effective_now as int, cfg@, roll, rest);
            }
        }
        checkpoint = next;
        k = k + 1;
    }
    proof {
        assert(rolls@.take(k as int) + rolls@.skip(k as int) =~= rolls@);
    }
    state.last_tick = now;
}

/// Advances `state` from `state.last_tick` to `now`, handling large gaps
/// (laptop suspend, daemon downtime) by capping the simulated elapsed time at
/// `cfg.max_offline_millis` and replaying it as ticks of at most one hour
/// each, so that sleep/wake windows within the gap are re-evaluated per
/// chunk. Regardless of capping, `state.last_tick` ends at the real `now`:
/// a discarded portion of the gap is never offered to a later call. Returns
/// the draws of the replayed ticks, one entry per tick in order, each made
/// at the chance its tick calls for; when none of them draws, `rng` is left
/// untouched.
#[verifier::spinoff_prover]
#[verifier::rlimit(50)]
pub fn catch_up(state: &mut PetState, now: i64, cfg: &Config, rng: &mut rand::rngs::StdRng) -> (draws:
    Vec<Option<Draw>>)
    ensures
        replay_draws_match(
            old(state)@,
            old(state)@.last_tick,
            simulated_until(old(state)@, now as int, cfg@),
            cfg@,
            draws@,
        ),
        final(state)@ == catch_up_spec(old(state)@, now as int, cfg@, outcomes(draws@)),
        (forall|i: int| 0 <= i < draws@.len() ==> draws@[i] is None) ==> *final(rng) == *old(rng),
{
    let mut draws: Vec<Option<Draw>> = Vec::new();
    let real_elapsed: i128 = now as i128 - state.last_tick as i128;
    if real_elapsed <= 0 {
        assert(state@ == catch_up_spec(old(state)@, now as int, cfg@, outcomes(draws@)));
        return draws;
    }
    let simulated: i128 = match cfg.max_offline_millis {
        Some(cap) => if real_elapsed <= cap as i128 { real_elapsed } else { cap as i128 },
        None => real_elapsed,
    };
    let effective_now: i128 = state.last_tick as i128 + simulated;
    let ghost s0 = state@;
    let ghost start = state@.last_tick;
    let mut checkpoint: i64 = state.last_tick;
    assert forall|rest: Seq<Option<Draw>>| #[trigger] (draws@ + rest) == rest by {
        assert(draws@ + rest =~= rest);
    }
    while (checkpoint as i128) < effective_now
        invariant
            effective_now == simulated_until(s0, now as int, cfg@),
            effective_now <= now,
            start <= checkpoint,
            s0 == old(state)@,
            start == s0.last_tick,
            forall|rest: Seq<Option<Draw>>|
                replay(s0, start, effective_now as int, cfg@, outcomes(#[trigger] (draws@ + rest)))
                    == replay(state@, checkpoint as int, effective_now as int, cfg@, outcomes(rest)),
            forall|rest: Seq<Option<Draw>>|
                replay_draws_match(s0, start, effective_now as int, cfg@, #[trigger] (draws@ + rest))
                    == replay_draws_match(state@, checkpoint as int, effective_now as int, cfg@, rest),
            (forall|i: int| 0 <= i < draws@.len() ==> draws@[i] is None) ==> *rng == *old(rng),
        decreases effective_now - checkpoint,
    {
        let next: i64 = if effective_now - (checkpoint as i128) <= CATCH_UP_CHUNK_MILLIS as i128 {
            effective_now as i64
        } else {
            checkpoint + CATCH_UP_CHUNK_MILLIS
        };
        let ghost prev = state@;
        let ghost prev_checkpoint = checkpoint;
        let ghost before = draws@;
        let drawn = tick(state, next, cfg, rng);
        let ghost d = drawn;
        draws.push(drawn);
        checkpoint = next;
        proof {
            assert(draws@ == before.push(d));
            assert forall|rest: Seq<Option<Draw>>|
                replay(s0, start, effective_now as int, cfg@, outcomes(#[trigger] (draws@ + rest)))
                    == replay(state@, checkpoint as int, effective_now as int, cfg@, outcomes(rest))
                    && replay_draws_match(s0, start, effective_now as int, cfg@, draws@ + rest)
                    == replay_draws_match(state@, checkpoint as int, effective_now as int, cfg@, rest) by {
                assert(draws@ + rest =~= before + (seq![d] + rest));
                lemma_replay_step(prev, prev_checkpoint as int, effective_now as int, cfg@, d, rest);
            }
            assert((forall|i: int| 0 <= i < draws@.len() ==> draws@[i] is None) ==> (forall|i: int|
                0 <= i < before.len() ==> before[i] is None) && d is None) by {
                if forall|i: int| 0 <= i < draws@.len() ==> draws@[i] is None {
                    assert forall|i: int| 0 <= i < before.len() implies before[i] is None by {
                        assert(draws@[i] == before[i]);
                    }
                    assert(draws@[before.len() as int] == d);
                }
            }
        }
    }
    proof {
        assert(draws@ + Seq::<Option<Draw>>::empty() =~= draws@);
    }
    state.last_tick = now;
    draws
}

// ---------------------------------------------------------------------------
// Interaction
// ---------------------------------------------------------------------------

/// Cooldown window for [`pet_interaction`], to prevent spamming boredom resets.
pub const PET_INTERACTION_COOLDOWN_MILLIS: i64 = 10 * MILLIS_PER_MINUTE;

/// Whether an interaction at `now` falls within the cooldown of the last one.
pub open spec fn on_cooldown(s: PetView, now: int) -> bool {
    match s.last_pet_interaction {
        Some(last) => now - last < PET_INTERACTION_COOLDOWN_MILLIS as int,
        None => false,
    }
}

/// The state after an explicit "pet"/"play" interaction at `now`.
pub open spec fn pet_interaction_spec(s: PetView, now: int) -> PetView {
    if on_cooldown(s, now) {
        s
    } else {
        PetView { boredom: 0, last_pet_interaction: Some(now), ..s }
    }
}

/// Processes an explicit "pet"/"play" command, resetting boredom to 0.
///
/// Subject to a 10-minute cooldown: if called again before the cooldown
/// elapses (relative to `state.last_pet_interaction`), it's a no-op.
pub fn pet_interaction(state: &mut PetState, now: i64)
    ensures
        final(state)@ == pet_interaction_spec(old(state)@, now as int),
{
    let on_cooldown = match state.last_pet_interaction {
        Some(last) => (now as i128) - (last as i128) < PET_INTERACTION_COOLDOWN_MILLIS as i128,
        None => false,
    };
    if on_cooldown {
        return;
    }
    state.boredom = Stat::new(0);
    state.last_pet_interaction = Some(now);
}

/// Cleans up all uncleaned poops: empties `state.poops`, maxes out hygiene,
/// and always gives the small happiness bonus for a tidy habitat.
pub fn clean(state: &mut PetState)
    ensures
        final(state)@ == cleaned(old(state)@, true),
{
    apply_clean(state, true);
}

/// Produces a brand-new newborn pet, replacing a dead one.
pub fn hatch(name: String, species: Species, now: i64) -> (p: PetState)
    ensures
        p@ == newborn_view(name@, species, now as int),
{
    PetState::newborn(name, species, now)
}

// ---------------------------------------------------------------------------
// Feeding
// ---------------------------------------------------------------------------

/// A single shell command completion, fed to [`feed`] to update the pet's
/// stats. `now` is in milliseconds since the Unix epoch.
pub struct FeedEvent<'a> {
    pub exit_code: i32,
    pub argv0: &'a str,
    pub now: i64,
}

/// Each poop drops hygiene by this flat amount.
pub const POOP_HYGIENE_COST: u8 = 15;

/// The names in a configured command list.
pub open spec fn names(list: Seq<Seq<char>>, name: Seq<char>) -> bool {
    list.contains(name)
}

/// Whether `commands_eaten` just crossed a multiple of the poop interval; if
/// so a poop appears at `now` and hygiene drops by fifteen.
pub open spec fn pooped(s: PetView, cfg: ConfigView, now: i64) -> PetView {
    if s.commands_eaten > 0 && cfg.poop_interval_commands != 0 && s.commands_eaten
        % cfg.poop_interval_commands == 0 {
        PetView {
            poops: s.poops.push(now),
            hygiene: stat_sub(s.hygiene, POOP_HYGIENE_COST as int),
            ..s
        }
    } else {
        s
    }
}

/// Good food: small satiety/happiness gains and a longer success streak,
/// with a bonus of five happiness points on every tenth success in a row.
pub open spec fn fed_well(s: PetView) -> PetView {
    let s1 = PetView {
        satiety: stat_add(s.satiety, 2),
        happiness: stat_add(s.happiness, 1),
        success_streak: s.success_streak + 1,
        failure_streak: 0,
        ..s
    };
    if s1.success_streak % 10 == 0 {
        PetView { happiness: stat_add(s1.happiness, 5), ..s1 }
    } else {
        s1
    }
}

/// Bad food: more filling, ends the success streak and fills the bad-food
/// meter; a successful sickness draw costs ten health and two happiness
/// points and makes the pet sick.
pub open spec fn fed_badly(s: PetView, roll: bool) -> PetView {
    let s1 = PetView {
        satiety: stat_add(s.satiety, 3),
        failure_streak: s.failure_streak + 1,
        success_streak: 0,
        bad_food_meter: s.bad_food_meter + 1,
        ..s
    };
    if roll {
        PetView {
            health: stat_sub(s1.health, 10),
            happiness: stat_sub(s1.happiness, 2),
            activity: Activity::Sick,
            ..s1
        }
    } else {
        s1
    }
}

/// Empties the poops and maxes out hygiene; with `bonus`, also five
/// happiness points for a tidy habitat.
pub open spec fn cleaned(s: PetView, bonus: bool) -> PetView {
    let s1 = PetView { poops: Seq::empty(), hygiene: 100, ..s };
    if bonus {
        PetView { happiness: stat_add(s1.happiness, 5), ..s1 }
    } else {
        s1
    }
}

/// The state after feeding the command `(exit_code, argv0)` finishing at
/// `now`, where `roll` is the outcome of the bad-food sickness draw (used
/// only when [`feed_draws`] holds).
pub open spec fn feed_spec(
    s: PetView,
    exit_code: i32,
    argv0: Seq<char>,
    now: i64,
    cfg: ConfigView,
    roll: bool,
) -> PetView {
    if !s.alive || s.activity == Activity::Asleep {
        s
    } else {
        let s1 = PetView {
            commands_eaten: s.commands_eaten + 1,
            last_command_at: now as int,
            ..s
        };
        let s2 = pooped(s1, cfg, now);
        if cfg.ignored_exit_codes.contains(exit_code) {
            s2
        } else {
            let s3 = if exit_code == 0 {
                fed_well(s2)
            } else {
                fed_badly(s2, roll)
            };
            let s4 = if cfg.junk_food_commands.contains(argv0) {
                PetView { bad_food_meter: s3.bad_food_meter + 1, ..s3 }
            } else {
                s3
            };
            let s5 = if cfg.clean_commands.contains(argv0) {
                cleaned(s4, exit_code == 0)
            } else {
                s4
            };
            death_applied(s5)
        }
    }
}

/// Whether feeding draws for bad-food sickness: a live, awake pet fed a
/// failed command whose exit code is not ignored.
pub open spec fn feed_draws(s: PetView, exit_code: i32, cfg: ConfigView) -> bool {
    &&& s.alive
    &&& s.activity != Activity::Asleep
    &&& !cfg.ignored_exit_codes.contains(exit_code)
    &&& exit_code != 0
}

/// The chance of bad-food sickness as (numerator, denominator): 5% per
/// point of the (just raised) bad-food meter, capped at 50%.
pub open spec fn feed_odds(s: PetView) -> (nat, nat) {
    let m = s.bad_food_meter + 1;
    if m >= 10 {
        (1, 2)
    } else {
        (m, 20)
    }
}

/// The counters that feeding raises stay within their machine types.
pub open spec fn feed_fits(s: PetView, exit_code: i32, argv0: Seq<char>, cfg: ConfigView) -> bool {
    (s.alive && s.activity != Activity::Asleep) ==> {
        &&& s.commands_eaten < u64::MAX
        &&& !cfg.ignored_exit_codes.contains(exit_code) ==> {
            &&& exit_code == 0 ==> s.success_streak < u32::MAX
            &&& exit_code != 0 ==> s.failure_streak < u32::MAX
            &&& s.bad_food_meter + (if exit_code != 0 { 1int } else { 0 }) + (if cfg.junk_food_commands.contains(argv0) { 1int } else { 0 }) <= u32::MAX
        }
    }
}

fn contains_code(codes: &Vec<i32>, code: i32) -> (b: bool)
    ensures
        b == codes@.contains(code),
{
    let mut i: usize = 0;
    while i < codes.len()
        invariant
            i <= codes.len(),
            forall|j: int| 0 <= j < i ==> codes@[j] != code,
        decreases codes.len() - i,
    {
        if codes[i] == code {
            return true;
        }
        i = i + 1;
    }
    false
}

/// Whether `list` holds a name equal to `name`.
fn contains_name(list: &Vec<String>, name: &String) -> (b: bool)
    ensures
        b == list@.map_values(|s: String| s@).contains(name@),
{
    let ghost views = list@.map_values(|s: String| s@);
    let mut i: usize = 0;
    while i < list.len()
        invariant
            i <= list.len(),
            views == list@.map_values(|s: String| s@),
            forall|j: int| 0 <= j < i ==> views[j] != name@,
        decreases list.len() - i,
    {
        if list[i] == *name {
            assert(views[i as int] == name@);
            return true;
        }
        i = i + 1;
    }
    assert(!views.contains(name@)) by {
        if views.contains(name@) {
            let j = choose|j: int| 0 <= j < views.len() && views[j] == name@;
        }
    }
    false
}

fn apply_poop(state: &mut PetState, cfg: &Config, now: i64)
    ensures
        final(state)@ == pooped(old(state)@, cfg@, now),
{
    if state.commands_eaten > 0 && state.commands_eaten.is_multiple_of(cfg.poop_interval_commands as u64) {
        state.poops.push(now);
        state.hygiene = state.hygiene - POOP_HYGIENE_COST;
    }
}

fn apply_clean(state: &mut PetState, award_happiness_bonus: bool)
    ensures
        final(state)@ == cleaned(old(state)@, award_happiness_bonus),
{
    state.poops.clear();
    state.hygiene = Stat::new(Stat::MAX as u16);
    if award_happiness_bonus {
        state.happiness = state.happiness + 5;
    }
}

fn apply_good_food(state: &mut PetState)
    requires
        old(state).success_streak < u32::MAX,
    ensures
        final(state)@ == fed_well(old(state)@),
{
    state.satiety = state.satiety + 2;
    state.happiness = state.happiness + 1;
    state.success_streak = state.success_streak + 1;
    state.failure_streak = 0;
    if state.success_streak.is_multiple_of(10) {
        state.happiness = state.happiness + 5;
    }
}

fn apply_bad_food(state: &mut PetState, roll: bool)
    requires
        old(state).failure_streak < u32::MAX,
        old(state).bad_food_meter < u32::MAX,
    ensures
        final(state)@ == fed_badly(old(state)@, roll),
{
    state.satiety = state.satiety + 3;
    state.failure_streak = state.failure_streak + 1;
    state.success_streak = 0;
    state.bad_food_meter = state.bad_food_meter + 1;
    if roll {
        state.health = state.health - 10;
        state.happiness = state.happiness - 2;
        state.activity = Activity::Sick;
    }
}

/// The chance of bad-food sickness for a feeding that draws: 5% per point
/// of the bad-food meter after it is raised for this command, capped at 50%.
fn feed_sickness_odds(state: &PetState) -> (odds: (u32, u32))
    requires
        state@.bad_food_meter < u32::MAX,
    ensures
        (odds.0 as nat, odds.1 as nat) == feed_odds(state@),
        0 < odds.1,
        odds.0 <= odds.1,
{
    let meter: u32 = state.bad_food_meter + 1;
    if meter >= 10 {
        (1, 2)
    } else {
        (meter, 20)
    }
}

/// Feeds one finished command, taking `sickness_roll` as the outcome of the
/// bad-food sickness draw (which [`feed`] makes only when [`feed_draws`]
/// holds).
pub fn feed_with_roll(state: &mut PetState, event: FeedEvent, cfg: &Config, sickness_roll: bool)
    requires
        feed_fits(old(state)@, event.exit_code, event.argv0@, cfg@),
    ensures
        final(state)@ == feed_spec(
            old(state)@,
            event.exit_code,
            event.argv0@,
            event.now,
            cfg@,
            sickness_roll,
        ),
{
    if !state.alive {
        return;
    }
    if state.activity == Activity::Asleep {
        return;
    }
    state.commands_eaten = state.commands_eaten + 1;
    state.last_command_at = event.now;
    apply_poop(state, cfg, event.now);
    if contains_code(&cfg.ignored_exit_codes, event.exit_code) {
        return;
    }
    if event.exit_code == 0 {
        apply_good_food(state);
    } else {
        apply_bad_food(state, sickness_roll);
    }
    let argv0 = String::from_str(event.argv0);
    if contains_name(&cfg.junk_food_commands, &argv0) {
        state.bad_food_meter = state.bad_food_meter + 1;
    }
    if contains_name(&cfg.clean_commands, &argv0) {
        apply_clean(state, event.exit_code == 0);
    }
    apply_death(state);
}

/// Processes a single shell command's exit as a "feeding" event: a dead or
/// sleeping pet ignores it; otherwise every command counts toward the poop
/// interval, an ignored exit code carries no further effect, a zero exit
/// code is good food and any other is bad food, which draws for sickness
/// from `rng` with a chance of 5% per point of the bad-food meter, capped at
/// 50%. A junk-food command fills the bad-food meter, and a clean command
/// tidies up (with the happiness bonus only when it succeeded). Returns the
/// draw, if one was made; a feeding that does not draw leaves `rng`
/// untouched.
pub fn feed(state: &mut PetState, event: FeedEvent, cfg: &Config, rng: &mut rand::rngs::StdRng) -> (drawn:
    Option<Draw>)
    requires
        feed_fits(old(state)@, event.exit_code, event.argv0@, cfg@),
    ensures
        match drawn {
            Some(d) => feed_draws(old(state)@, event.exit_code, cfg@) && drawn_at(d, feed_odds(old(state)@)),
            None => !feed_draws(old(state)@, event.exit_code, cfg@),
        },
        final(state)@ == feed_spec(
            old(state)@,
            event.exit_code,
            event.argv0@,
            event.now,
            cfg@,
            outcome_of(drawn),
        ),
        drawn is None ==> *final(rng) == *old(rng),
{
    let draws = state.alive && state.activity != Activity::Asleep && !contains_code(
        &cfg.ignored_exit_codes,
        event.exit_code,
    ) && event.exit_code != 0;
    let drawn = if draws {
        let odds = feed_sickness_odds(state);
        Some(draw_ratio(rng, odds.0, odds.1))
    } else {
        None
    };
    let roll = match &drawn {
        Some(d) => d.outcome(),
        None => false,
    };
    let ev = FeedEvent { exit_code: event.exit_code, argv0: event.argv0, now: event.now };
    feed_with_roll(state, ev, cfg, roll);
    drawn
}

} // verus!
