//! Properties of the simulation that span several calls or hold of every
//! state.
use vstd::prelude::*;

use crate::chance::{outcome_of, Draw};
use crate::config::ConfigView;
use crate::pet::engine::{
    cleaned, feed_draws, feed_odds, feed_spec, next_checkpoint, stat_add, stat_sub, on_cooldown, pet_interaction_spec, replay,
    outcomes, replay_draws_match, simulated_until, tick_draw_matches, tick_draws, tick_odds, tick_spec, catch_up_spec,
    CATCH_UP_CHUNK_MILLIS, PET_INTERACTION_COOLDOWN_MILLIS,
};
use crate::pet::state::{Activity, PetView};
use crate::pet::stats::clamp_stat;

verus! {

/// A tick is idempotent: ticking again to the same `now` changes nothing,
/// whatever the second sickness draw would have been.
pub proof fn law_tick_idempotent(s: PetView, now: int, cfg: ConfigView, first: bool, second: bool)
    ensures
        tick_spec(tick_spec(s, now, cfg, first), now, cfg, second) == tick_spec(s, now, cfg, first),
{
}

/// The outcome of a sickness draw matters only where a draw is made: a tick
/// or a feeding that does not draw ends in the same state whatever the
/// outcome.
pub proof fn law_undrawn_outcome_irrelevant(
    s: PetView,
    now: int,
    exit_code: i32,
    argv0: Seq<char>,
    at: i64,
    cfg: ConfigView,
    first: bool,
    second: bool,
)
    ensures
        !tick_draws(s, now) ==> tick_spec(s, now, cfg, first) == tick_spec(s, now, cfg, second),
        !feed_draws(s, exit_code, cfg) ==> feed_spec(s, exit_code, argv0, at, cfg, first) == feed_spec(
            s,
            exit_code,
            argv0,
            at,
            cfg,
            second,
        ),
{
}

/// A tick without elapsed time changes nothing; a tick with elapsed time
/// moves `last_tick` to `now`.
pub proof fn law_tick_moves_clock(s: PetView, now: int, cfg: ConfigView, roll: bool)
    ensures
        now <= s.last_tick ==> tick_spec(s, now, cfg, roll) == s,
        now > s.last_tick ==> tick_spec(s, now, cfg, roll).last_tick == now,
{
}

/// Time alone never creates or removes poops, nor touches the counters and
/// streaks that feeding drives, nor the pet's identity.
pub proof fn law_tick_keeps_commands(s: PetView, now: int, cfg: ConfigView, roll: bool)
    ensures
        tick_spec(s, now, cfg, roll).poops == s.poops,
        tick_spec(s, now, cfg, roll).commands_eaten == s.commands_eaten,
        tick_spec(s, now, cfg, roll).success_streak == s.success_streak,
        tick_spec(s, now, cfg, roll).failure_streak == s.failure_streak,
        tick_spec(s, now, cfg, roll).bad_food_meter == s.bad_food_meter,
        tick_spec(s, now, cfg, roll).name == s.name,
        tick_spec(s, now, cfg, roll).species == s.species,
        tick_spec(s, now, cfg, roll).born_at == s.born_at,
{
}

/// A dead pet is terminal: a tick only moves its clock, and feeding a pet
/// that is not alive changes nothing.
pub proof fn law_dead_is_terminal(
    s: PetView,
    now: int,
    exit_code: i32,
    argv0: Seq<char>,
    at: i64,
    cfg: ConfigView,
    roll: bool,
)
    ensures
        s.activity == Activity::Dead && now > s.last_tick ==> tick_spec(s, now, cfg, roll) == (
        PetView { last_tick: now, ..s }),
        !s.alive ==> feed_spec(s, exit_code, argv0, at, cfg, roll) == s,
{
}

/// Every operation keeps every stat within `0..=100`.
pub proof fn law_stats_stay_bounded(
    s: PetView,
    now: int,
    exit_code: i32,
    argv0: Seq<char>,
    at: i64,
    cfg: ConfigView,
    roll: bool,
)
    requires
        s.stats_bounded(),
    ensures
        tick_spec(s, now, cfg, roll).stats_bounded(),
        feed_spec(s, exit_code, argv0, at, cfg, roll).stats_bounded(),
        pet_interaction_spec(s, now).stats_bounded(),
        cleaned(s, true).stats_bounded(),
{
}

/// After any tick or feeding, a pet whose health ran out is dead.
pub proof fn law_death_settles(
    s: PetView,
    now: int,
    exit_code: i32,
    argv0: Seq<char>,
    at: i64,
    cfg: ConfigView,
    roll: bool,
)
    requires
        s.death_settled(),
    ensures
        tick_spec(s, now, cfg, roll).death_settled(),
        feed_spec(s, exit_code, argv0, at, cfg, roll).death_settled(),
{
}

/// A sick pet that has not recovered stays sick whatever the hour: the
/// sleep/wake logic never overrides sickness.
pub proof fn law_sickness_not_overridden(s: PetView, now: int, cfg: ConfigView, roll: bool)
    requires
        s.activity == Activity::Sick,
        !(s.hygiene > 80 && s.satiety > 60),
        s.alive,
        tick_spec(s, now, cfg, roll).health > 0,
    ensures
        tick_spec(s, now, cfg, roll).activity == Activity::Sick,
{
}

/// Within the cooldown after an interaction that took effect, another
/// interaction changes nothing.
pub proof fn law_pet_interaction_cooldown(s: PetView, first: int, second: int)
    requires
        !on_cooldown(s, first),
        second - first < PET_INTERACTION_COOLDOWN_MILLIS as int,
    ensures
        pet_interaction_spec(pet_interaction_spec(s, first), second) == pet_interaction_spec(s, first),
{
}

/// Replaying time never creates or removes poops.
pub proof fn law_replay_keeps_poops(s: PetView, from: int, target: int, cfg: ConfigView, rolls: Seq<bool>)
    ensures
        replay(s, from, target, cfg, rolls).poops == s.poops,
    decreases target - from,
{
    if from < target {
        let cp = next_checkpoint(from, target);
        law_tick_keeps_commands(s, cp, cfg, rolls[0]);
        law_replay_keeps_poops(tick_spec(s, cp, cfg, rolls[0]), cp, target, cfg, rolls.drop_first());
    }
}

/// Catching up never creates or removes poops, and with a gap it always
/// ends at the real `now`, however much of the gap was simulated.
pub proof fn law_catch_up_ends_at_now(s: PetView, now: int, cfg: ConfigView, rolls: Seq<bool>)
    ensures
        catch_up_spec(s, now, cfg, rolls).poops == s.poops,
        now > s.last_tick ==> catch_up_spec(s, now, cfg, rolls).last_tick == now,
        now <= s.last_tick ==> catch_up_spec(s, now, cfg, rolls) == s,
{
    law_replay_keeps_poops(s, s.last_tick, simulated_until(s, now, cfg), cfg, rolls);
}

/// Catching up simulates at most the configured offline cap, in steps of
/// at most one hour that move strictly forward and never pass the end of
/// the simulated span.
pub proof fn law_catch_up_is_capped_and_chunked(s: PetView, now: int, cfg: ConfigView, from: int, target: int)
    ensures
        now > s.last_tick ==> simulated_until(s, now, cfg) <= now,
        now > s.last_tick && !(cfg.max_offline_millis matches Some(cap) && cap <= 0)
            ==> s.last_tick < simulated_until(s, now, cfg),
        (cfg.max_offline_millis matches Some(cap)) ==> simulated_until(s, now, cfg) - s.last_tick
            <= cfg.max_offline_millis->0,
        from < target ==> from < next_checkpoint(from, target) <= target,
        from < target ==> next_checkpoint(from, target) - from <= CATCH_UP_CHUNK_MILLIS as int,
{
}

/// Catching up is idempotent: once caught up to `now`, catching up to the
/// same `now` again changes nothing, so a discarded part of a gap is never
/// simulated later.
pub proof fn law_catch_up_idempotent(s: PetView, now: int, cfg: ConfigView, first: Seq<bool>, second: Seq<bool>)
    ensures
        catch_up_spec(catch_up_spec(s, now, cfg, first), now, cfg, second) == catch_up_spec(s, now, cfg, first),
{
}

/// A zero exit code is a good meal and anything else a risky one: feeding a
/// command that succeeded never costs health, never makes the pet sick and
/// never leaves it hungrier, while feeding a failed command whose exit code
/// is not ignored, to a pet that is alive and awake, draws for sickness with
/// a chance above zero.
pub proof fn law_exit_code_decides_the_meal(
    s: PetView,
    exit_code: i32,
    argv0: Seq<char>,
    at: i64,
    cfg: ConfigView,
    roll: bool,
)
    requires
        s.stats_bounded(),
    ensures
        exit_code == 0 ==> feed_spec(s, exit_code, argv0, at, cfg, roll).health == s.health,
        exit_code == 0 && s.health > 0 ==> feed_spec(s, exit_code, argv0, at, cfg, roll).activity
            == s.activity,
        exit_code == 0 ==> feed_spec(s, exit_code, argv0, at, cfg, roll).satiety >= s.satiety,
        exit_code != 0 && s.alive && s.activity != Activity::Asleep
            && !cfg.ignored_exit_codes.contains(exit_code) ==> feed_draws(s, exit_code, cfg)
            && feed_odds(s).0 > 0,
{
}

/// A sleeping pet ignores commands entirely: nothing counts, not even
/// toward the poop interval.
pub proof fn law_sleeping_pet_ignores_commands(
    s: PetView,
    exit_code: i32,
    argv0: Seq<char>,
    at: i64,
    cfg: ConfigView,
    roll: bool,
)
    requires
        s.activity == Activity::Asleep,
    ensures
        feed_spec(s, exit_code, argv0, at, cfg, roll) == s,
{
}

/// A gap of at most one chunk, within the offline cap, catches up exactly
/// like a single tick: with the same draw, if the tick makes one, it ends in
/// the same state, and it draws exactly as that tick does.
pub proof fn law_small_gap_is_one_tick(s: PetView, now: int, cfg: ConfigView, drawn: Option<Draw>)
    requires
        0 < now - s.last_tick <= CATCH_UP_CHUNK_MILLIS as int,
        (match cfg.max_offline_millis {
            Some(cap) => now - s.last_tick <= cap,
            None => true,
        }),
    ensures
        catch_up_spec(s, now, cfg, outcomes(seq![drawn])) == tick_spec(s, now, cfg, outcome_of(drawn)),
        replay_draws_match(s, s.last_tick, simulated_until(s, now, cfg), cfg, seq![drawn])
            == tick_draw_matches(s, now, drawn),
{
    let t = tick_spec(s, now, cfg, outcome_of(drawn));
    assert(simulated_until(s, now, cfg) == now);
    assert(next_checkpoint(s.last_tick, now) == now);
    assert(outcomes(seq![drawn])[0] == outcome_of(drawn));
    assert(replay(t, now, now, cfg, outcomes(seq![drawn]).drop_first()) == t);
    assert(seq![drawn].drop_first().len() == 0);
    assert(seq![drawn][0] == drawn);
    assert(replay_draws_match(t, now, now, cfg, seq![drawn].drop_first()));
    assert(t.last_tick == now);
    assert(PetView { last_tick: now, ..t } == t);
}

/// Every command fed to a pet that is alive and awake counts: the count
/// rises by one, the command's time is remembered, and each time the count
/// reaches a multiple of the poop interval a poop appears at that time and
/// hygiene drops by fifteen (unless the command itself cleans up).
pub proof fn law_feed_counts_commands(
    s: PetView,
    exit_code: i32,
    argv0: Seq<char>,
    at: i64,
    cfg: ConfigView,
    roll: bool,
)
    requires
        s.alive,
        s.activity != Activity::Asleep,
        !cfg.clean_commands.contains(argv0),
        cfg.poop_interval_commands > 0,
    ensures
        feed_spec(s, exit_code, argv0, at, cfg, roll).commands_eaten == s.commands_eaten + 1,
        feed_spec(s, exit_code, argv0, at, cfg, roll).last_command_at == at,
        (s.commands_eaten + 1) % cfg.poop_interval_commands == 0 ==> {
            &&& feed_spec(s, exit_code, argv0, at, cfg, roll).poops == s.poops.push(at)
            &&& feed_spec(s, exit_code, argv0, at, cfg, roll).hygiene == stat_sub(s.hygiene, 15)
        },
        (s.commands_eaten + 1) % cfg.poop_interval_commands != 0 ==> {
            &&& feed_spec(s, exit_code, argv0, at, cfg, roll).poops == s.poops
            &&& feed_spec(s, exit_code, argv0, at, cfg, roll).hygiene == s.hygiene
        },
{
}

/// A clean command that is not ignored always tidies up, even when it
/// failed: no poop is left and hygiene is full. Only a successful one earns
/// the tidy-habitat bonus of five happiness points, on top of the good
/// meal's point and any streak bonus; a failed one whose sickness draw
/// missed leaves happiness as it was.
pub proof fn law_clean_command_cleans(
    s: PetView,
    exit_code: i32,
    argv0: Seq<char>,
    at: i64,
    cfg: ConfigView,
    roll: bool,
)
    requires
        s.stats_bounded(),
        s.alive,
        s.activity != Activity::Asleep,
        cfg.clean_commands.contains(argv0),
        !cfg.ignored_exit_codes.contains(exit_code),
    ensures
        feed_spec(s, exit_code, argv0, at, cfg, roll).poops.len() == 0,
        feed_spec(s, exit_code, argv0, at, cfg, roll).hygiene == 100,
        exit_code == 0 ==> feed_spec(s, exit_code, argv0, at, cfg, roll).happiness == clamp_stat(
            s.happiness + 1 + (if (s.success_streak + 1) % 10 == 0 {
                5int
            } else {
                0int
            }) + 5,
        ),
        exit_code != 0 && !roll ==> feed_spec(s, exit_code, argv0, at, cfg, roll).happiness
            == s.happiness,
{
}

/// What one bad-food sickness draw decides: a hit costs ten health points
/// (stopping at zero) and two happiness points and makes the pet sick, or
/// dead when its health runs out; a miss changes neither. A successful
/// command never draws.
pub proof fn law_bad_food_draw(s: PetView, exit_code: i32, argv0: Seq<char>, at: i64, cfg: ConfigView)
    requires
        s.stats_bounded(),
        feed_draws(s, exit_code, cfg),
        !cfg.clean_commands.contains(argv0),
    ensures
        exit_code != 0,
        feed_spec(s, exit_code, argv0, at, cfg, true).health == stat_sub(s.health, 10),
        feed_spec(s, exit_code, argv0, at, cfg, true).happiness == stat_sub(s.happiness, 2),
        feed_spec(s, exit_code, argv0, at, cfg, true).activity == if stat_sub(s.health, 10) == 0 {
            Activity::Dead
        } else {
            Activity::Sick
        },
        feed_spec(s, exit_code, argv0, at, cfg, false).health == s.health,
        feed_spec(s, exit_code, argv0, at, cfg, false).happiness == s.happiness,
        !feed_draws(s, 0, cfg),
{
}

/// Ticks do not read the offline cap.
proof fn lemma_tick_ignores_cap(s: PetView, now: int, cfg: ConfigView, cap: Option<int>, roll: bool)
    ensures
        tick_spec(s, now, ConfigView { max_offline_millis: cap, ..cfg }, roll) == tick_spec(
            s,
            now,
            cfg,
            roll,
        ),
{
}

/// Replays do not read the offline cap.
proof fn lemma_replay_ignores_cap(
    s: PetView,
    from: int,
    target: int,
    cfg: ConfigView,
    cap: Option<int>,
    rolls: Seq<bool>,
)
    ensures
        replay(s, from, target, ConfigView { max_offline_millis: cap, ..cfg }, rolls) == replay(
            s,
            from,
            target,
            cfg,
            rolls,
        ),
    decreases target - from,
{
    if from < target {
        let cp = next_checkpoint(from, target);
        lemma_tick_ignores_cap(s, cp, cfg, cap, rolls[0]);
        lemma_replay_ignores_cap(tick_spec(s, cp, cfg, rolls[0]), cp, target, cfg, cap, rolls.drop_first());
    }
}

/// A gap longer than the offline cap is simulated only up to the cap: the
/// result is that of catching up, without a cap, to the cap's end, with the
/// clock then moved to the real `now`; the rest of the gap is dropped.
pub proof fn law_capped_catch_up_drops_the_rest(s: PetView, now: int, cfg: ConfigView, rolls: Seq<bool>)
    requires
        cfg.max_offline_millis matches Some(cap) && 0 < cap < now - s.last_tick,
    ensures
        catch_up_spec(s, now, cfg, rolls) == (PetView {
            last_tick: now,
            ..catch_up_spec(
                s,
                s.last_tick + cfg.max_offline_millis->0,
                ConfigView { max_offline_millis: None, ..cfg },
                rolls,
            )
        }),
{
    let cap = cfg.max_offline_millis->0;
    let uncapped = ConfigView { max_offline_millis: None, ..cfg };
    assert(simulated_until(s, now, cfg) == s.last_tick + cap);
    assert(simulated_until(s, s.last_tick + cap, uncapped) == s.last_tick + cap);
    lemma_replay_ignores_cap(s, s.last_tick, s.last_tick + cap, cfg, None, rolls);
}

/// A gap within the offline cap, or any gap when there is no cap, is
/// simulated in full, up to `now`.
pub proof fn law_catch_up_simulates_whole_gap(s: PetView, now: int, cfg: ConfigView)
    requires
        now > s.last_tick,
        cfg.max_offline_millis matches Some(cap) ==> now - s.last_tick <= cap,
    ensures
        simulated_until(s, now, cfg) == now,
{
}

/// A gap longer than an hour, within the offline cap, catches up as one
/// hour-long tick followed by catching up the rest of the gap: nothing of
/// the gap is skipped and nothing is simulated twice.
pub proof fn law_catch_up_is_an_hour_then_the_rest(s: PetView, now: int, cfg: ConfigView, rolls: Seq<bool>)
    requires
        now - s.last_tick > CATCH_UP_CHUNK_MILLIS as int,
        cfg.max_offline_millis matches Some(cap) ==> now - s.last_tick <= cap,
    ensures
        catch_up_spec(s, now, cfg, rolls) == catch_up_spec(
            tick_spec(s, s.last_tick + CATCH_UP_CHUNK_MILLIS as int, cfg, rolls[0]),
            now,
            cfg,
            rolls.drop_first(),
        ),
{
    let hour = CATCH_UP_CHUNK_MILLIS as int;
    let t = tick_spec(s, s.last_tick + hour, cfg, rolls[0]);
    assert(simulated_until(s, now, cfg) == now);
    assert(next_checkpoint(s.last_tick, now) == s.last_tick + hour);
    assert(t.last_tick == s.last_tick + hour);
    assert(simulated_until(t, now, cfg) == now);
}

/// Idle time is counted from the later of the last command and the last
/// petting: a tick that leaves the pet awake finds no boredom while either
/// lies within the configured threshold, and finds some once both lie more
/// than two minutes beyond it.
pub proof fn law_boredom_counts_from_last_activity(s: PetView, now: int, cfg: ConfigView, roll: bool)
    requires
        now > s.last_tick,
        tick_spec(s, now, cfg, roll).activity == Activity::Awake,
    ensures
        ({
            let threshold = cfg.boredom_after_minutes * 60_000;
            now - s.last_command_at <= threshold || (s.last_pet_interaction matches Some(p) && now - p
                <= threshold)
        }) ==> tick_spec(s, now, cfg, roll).boredom == 0,
        ({
            let threshold = cfg.boredom_after_minutes * 60_000;
            now - s.last_command_at > threshold + 120_000 && (s.last_pet_interaction matches Some(p)
                ==> now - p > threshold + 120_000)
        }) ==> tick_spec(s, now, cfg, roll).boredom > 0,
{
}

/// Petting resets the idle clock: a tick within the boredom threshold after
/// a petting that took effect leaves boredom at zero.
pub proof fn law_petting_keeps_boredom_away(s: PetView, t: int, later: int, cfg: ConfigView, roll: bool)
    requires
        !on_cooldown(s, t),
        t <= later <= t + cfg.boredom_after_minutes * 60_000,
    ensures
        tick_spec(pet_interaction_spec(s, t), later, cfg, roll).boredom == 0,
{
}

} // verus!
