//! What the live `watch` view shows and how it reacts to keys: the header
//! text, how the screen height is shared between its sections, one gauge
//! per stat, and the action a key press asks for. Painting onto the
//! terminal and talking to the daemon happen outside the library.
use vstd::prelude::*;

use crate::daemon::ipc::protocol::RequestOp;
use crate::pet::mood::{derive_mood, mood_spec};
use crate::pet::state::{PetState, PetView};
use crate::render::card::whole_minutes;
use crate::render::names::{activity_name, activity_name_spec, mood_name, mood_name_spec};
use crate::render::sprites::{sprite_for, sprite_spec};
use crate::text::{decimal, push_decimal};

verus! {

/// The key legend shown at the bottom of the view.
pub const WATCH_FOOTER: &'static str = "q: quit  c: clean  p: pet  r: refresh";

/// The header: the sprite, then the name, activity, mood and age in whole
/// minutes.
pub open spec fn watch_header_spec(s: PetView, now: int) -> Seq<char> {
    let mood = mood_spec(s);
    sprite_spec(s.species, s.activity, mood) + "\n"@ + s.name + " -- "@ + activity_name_spec(
        s.activity,
    ) + " -- mood: "@ + mood_name_spec(mood) + " -- "@ + decimal(
        whole_minutes(now - s.born_at) as nat,
    ) + "m old"@
}

/// The header text of the view at `now` (milliseconds since the epoch).
pub fn watch_header(state: &PetState, now: i64) -> (out: String)
    ensures
        out@ == watch_header_spec(state@, now as int),
{
    let mood = derive_mood(state);
    let age: i128 = now as i128 - state.born_at as i128;
    let minutes: i128 = if age <= 0 {
        0
    } else {
        age / 60_000
    };
    let mut out = String::from_str(sprite_for(state.species, state.activity, mood));
    out.append("\n");
    out.append(state.name.as_str());
    out.append(" -- ");
    out.append(activity_name(state.activity));
    out.append(" -- mood: ");
    out.append(mood_name(mood));
    out.append(" -- ");
    push_decimal(&mut out, minutes as u128);
    out.append("m old");
    out
}

/// The title of the header's frame.
pub fn watch_title(name: &str) -> (out: String)
    ensures
        out@ == "shellagotchi: "@ + name@,
{
    let mut out = String::from_str("shellagotchi: ");
    out.append(name);
    out
}

/// How many rows the header and the gauges get on a screen `height` rows
/// tall: the header up to 8, the gauges up to 6 of what remains, and the
/// footer the rest; a short screen shrinks the sections instead of
/// overflowing.
pub fn watch_layout(height: u16) -> (rows: (u16, u16))
    ensures
        rows.0 == if height < 8 {
            height
        } else {
            8
        },
        rows.1 == if height - rows.0 < 6 {
            height - rows.0
        } else {
            6
        },
        rows.0 + rows.1 <= height,
{
    let header: u16 = if height < 8 {
        height
    } else {
        8
    };
    let rest: u16 = height - header;
    let gauges: u16 = if rest < 6 {
        rest
    } else {
        6
    };
    (header, gauges)
}

/// One gauge of the view: its title, how full it is, and the text on it.
pub struct Gauge {
    pub title: &'static str,
    pub percent: u8,
    pub label: String,
}

/// The stats shown as gauges, in order.
pub open spec fn gauge_titles() -> Seq<Seq<char>> {
    seq!["satiety"@, "happiness"@, "energy"@, "hygiene"@, "health"@]
}

/// The value of the `i`th gauge.
pub open spec fn gauge_value(s: PetView, i: int) -> nat {
    if i == 0 {
        s.satiety
    } else if i == 1 {
        s.happiness
    } else if i == 2 {
        s.energy
    } else if i == 3 {
        s.hygiene
    } else {
        s.health
    }
}

fn gauge(title: &'static str, value: u8) -> (g: Gauge)
    ensures
        g.title@ == title@,
        g.percent == value,
        g.label@ == decimal(value as nat) + "%"@,
{
    let mut label = String::new();
    push_decimal(&mut label, value as u128);
    label.append("%");
    proof {
        assert(Seq::<char>::empty() + decimal(value as nat) =~= decimal(value as nat));
    }
    Gauge { title, percent: value, label }
}

/// One gauge per tracked stat, top to bottom: satiety, happiness, energy,
/// hygiene and health, each labelled with its percentage.
pub fn watch_gauges(state: &PetState) -> (gauges: Vec<Gauge>)
    ensures
        gauges@.len() == 5,
        forall|i: int|
            0 <= i < 5 ==> {
                &&& #[trigger] gauges@[i].title@ == gauge_titles()[i]
                &&& gauges@[i].percent == gauge_value(state@, i)
                &&& gauges@[i].label@ == decimal(gauge_value(state@, i)) + "%"@
            },
{
    let mut gauges: Vec<Gauge> = Vec::new();
    gauges.push(gauge("satiety", state.satiety.get()));
    gauges.push(gauge("happiness", state.happiness.get()));
    gauges.push(gauge("energy", state.energy.get()));
    gauges.push(gauge("hygiene", state.hygiene.get()));
    gauges.push(gauge("health", state.health.get()));
    gauges
}

/// What a key press in the view asks for.
pub enum WatchAction {
    /// Leave the view.
    Quit,
    /// Send this request to the daemon, then refresh.
    Send(RequestOp),
    /// Fetch fresh state now.
    Refresh,
    /// Nothing.
    Ignore,
}

/// The action for a pressed key (`None` for a key that is not a
/// character): `q` quits, `c` cleans, `p` pets, `r` refreshes, and any
/// other key does nothing.
pub fn watch_action(key: Option<char>) -> (action: WatchAction)
    ensures
        action == match key {
            Some('q') => WatchAction::Quit,
            Some('c') => WatchAction::Send(RequestOp::Clean),
            Some('p') => WatchAction::Send(RequestOp::Pet),
            Some('r') => WatchAction::Refresh,
            _ => WatchAction::Ignore,
        },
{
    match key {
        Some('q') => WatchAction::Quit,
        Some('c') => WatchAction::Send(RequestOp::Clean),
        Some('p') => WatchAction::Send(RequestOp::Pet),
        Some('r') => WatchAction::Refresh,
        _ => WatchAction::Ignore,
    }
}

} // verus!
