//! ASCII sprites keyed by `(Species, Activity, Mood)`.
//!
//! `Blob` covers every `(Activity, Mood)` combination. The other species
//! cover only a subset; any combination not modeled for them falls back to
//! Blob's art for the same `(Activity, Mood)` pair, and failing that to a
//! generic placeholder. [`sprite_for`] therefore never returns an empty
//! string.
use vstd::prelude::*;

use crate::pet::mood::Mood;
use crate::pet::state::{Activity, Species};

verus! {

pub open spec fn placeholder_art() -> Seq<char> {
    "  (?)  \n (o.o) \n  /|\\  "@
}

pub open spec fn dead_art() -> Seq<char> {
    "  x_x  \n /   \\ \n(_____)"@
}

pub open spec fn sick_art() -> Seq<char> {
    " >.<   \n (o_o) \n  |||  "@
}

pub open spec fn asleep_art() -> Seq<char> {
    "  z z  \n (-.-) \n  )_(  "@
}

/// Blob's art for an awake pet in each mood.
pub open spec fn blob_awake_art(mood: Mood) -> Seq<char> {
    match mood {
        Mood::Ecstatic => " \\o/   \n (^o^) \n  | |  "@,
        Mood::Happy => "  ___  \n (^_^) \n  | |  "@,
        Mood::Content => "  ___  \n (-_-) \n  | |  "@,
        Mood::Meh => "  ___  \n (._.) \n  | |  "@,
        Mood::Sad => "  ___  \n (;_;) \n  | |  "@,
        Mood::Miserable => "  ___  \n (T_T) \n  | |  "@,
        Mood::Sick => sick_art(),
        Mood::Dead => dead_art(),
    }
}

/// The art explicitly modeled for a combination, if any. A dead or sick
/// mood takes precedence over Blob's activity-specific art.
pub open spec fn lookup_spec(species: Species, activity: Activity, mood: Mood) -> Option<Seq<char>> {
    match species {
        Species::Blob => Some(
            match mood {
                Mood::Dead => dead_art(),
                Mood::Sick => sick_art(),
                _ => match activity {
                    Activity::Asleep => asleep_art(),
                    Activity::Sick => sick_art(),
                    Activity::Dead => dead_art(),
                    Activity::Awake => blob_awake_art(mood),
                },
            },
        ),
        Species::Cat => if activity == Activity::Asleep {
            Some("  zzz  \n =^.^= \n  )_(  "@)
        } else if activity == Activity::Awake && (mood == Mood::Happy || mood == Mood::Ecstatic) {
            Some(" /\\_/\\ \n( ^.^ )\n > ^ < "@)
        } else {
            None
        },
        Species::Dragon => if activity == Activity::Awake && (mood == Mood::Happy || mood
            == Mood::Ecstatic) {
            Some(" ^....^\n<(^_^)>\n  /||\\ "@)
        } else {
            None
        },
        Species::Phantom => if activity == Activity::Awake && (mood == Mood::Happy || mood
            == Mood::Ecstatic) {
            Some("  .-.  \n (o o) \n  \\_/  "@)
        } else {
            None
        },
    }
}

/// The art for a combination: the species' own, else Blob's, else the
/// placeholder.
pub open spec fn sprite_spec(species: Species, activity: Activity, mood: Mood) -> Seq<char> {
    match lookup_spec(species, activity, mood) {
        Some(art) => art,
        None => match lookup_spec(Species::Blob, activity, mood) {
            Some(art) => art,
            None => placeholder_art(),
        },
    }
}

fn blob_awake(mood: Mood) -> (s: &'static str)
    ensures
        s@ == blob_awake_art(mood),
{
    match mood {
        Mood::Ecstatic => " \\o/   \n (^o^) \n  | |  ",
        Mood::Happy => "  ___  \n (^_^) \n  | |  ",
        Mood::Content => "  ___  \n (-_-) \n  | |  ",
        Mood::Meh => "  ___  \n (._.) \n  | |  ",
        Mood::Sad => "  ___  \n (;_;) \n  | |  ",
        Mood::Miserable => "  ___  \n (T_T) \n  | |  ",
        Mood::Sick => " >.<   \n (o_o) \n  |||  ",
        Mood::Dead => "  x_x  \n /   \\ \n(_____)",
    }
}

fn lookup(species: Species, activity: Activity, mood: Mood) -> (art: Option<&'static str>)
    ensures
        match art {
            Some(a) => lookup_spec(species, activity, mood) == Some(a@),
            None => lookup_spec(species, activity, mood) is None,
        },
{
    let happy_awake = activity == Activity::Awake && (mood == Mood::Happy || mood == Mood::Ecstatic);
    match species {
        Species::Blob => Some(
            match mood {
                Mood::Dead => "  x_x  \n /   \\ \n(_____)",
                Mood::Sick => " >.<   \n (o_o) \n  |||  ",
                _ => match activity {
                    Activity::Asleep => "  z z  \n (-.-) \n  )_(  ",
                    Activity::Sick => " >.<   \n (o_o) \n  |||  ",
                    Activity::Dead => "  x_x  \n /   \\ \n(_____)",
                    Activity::Awake => blob_awake(mood),
                },
            },
        ),
        Species::Cat => if activity == Activity::Asleep {
            Some("  zzz  \n =^.^= \n  )_(  ")
        } else if happy_awake {
            Some(" /\\_/\\ \n( ^.^ )\n > ^ < ")
        } else {
            None
        },
        Species::Dragon => if happy_awake {
            Some(" ^....^\n<(^_^)>\n  /||\\ ")
        } else {
            None
        },
        Species::Phantom => if happy_awake {
            Some("  .-.  \n (o o) \n  \\_/  ")
        } else {
            None
        },
    }
}

/// Looks up ASCII art for a given `(species, activity, mood)` combination.
///
/// Fallback chain: exact species match -> Blob's art for the same
/// `(activity, mood)` -> a generic placeholder.
pub fn sprite_for(species: Species, activity: Activity, mood: Mood) -> (art: &'static str)
    ensures
        art@ == sprite_spec(species, activity, mood),
        art@.len() > 0,
{
    proof {
        lemma_sprite_nonempty(species, activity, mood);
    }
    match lookup(species, activity, mood) {
        Some(art) => art,
        None => match lookup(Species::Blob, activity, mood) {
            Some(art) => art,
            None => "  (?)  \n (o.o) \n  /|\\  ",
        },
    }
}

/// Every combination has non-empty art.
pub proof fn lemma_sprite_nonempty(species: Species, activity: Activity, mood: Mood)
    ensures
        sprite_spec(species, activity, mood).len() > 0,
{
    reveal_strlit("  x_x  \n /   \\ \n(_____)");
    reveal_strlit(" >.<   \n (o_o) \n  |||  ");
    reveal_strlit("  z z  \n (-.-) \n  )_(  ");
    reveal_strlit(" \\o/   \n (^o^) \n  | |  ");
    reveal_strlit("  ___  \n (^_^) \n  | |  ");
    reveal_strlit("  ___  \n (-_-) \n  | |  ");
    reveal_strlit("  ___  \n (._.) \n  | |  ");
    reveal_strlit("  ___  \n (;_;) \n  | |  ");
    reveal_strlit("  ___  \n (T_T) \n  | |  ");
    reveal_strlit("  zzz  \n =^.^= \n  )_(  ");
    reveal_strlit(" /\\_/\\ \n( ^.^ )\n > ^ < ");
    reveal_strlit(" ^....^\n<(^_^)>\n  /||\\ ");
    reveal_strlit("  .-.  \n (o o) \n  \\_/  ");
}

/// Blob models every combination, so the placeholder is never used, and a
/// species without art of its own for a combination shows Blob's; a dead
/// mood shows the dead art whatever the activity.
pub proof fn law_sprite_fallback(species: Species, activity: Activity, mood: Mood)
    ensures
        lookup_spec(Species::Blob, activity, mood) is Some,
        lookup_spec(species, activity, mood) is None ==> sprite_spec(species, activity, mood)
            == sprite_spec(Species::Blob, activity, mood),
        mood == Mood::Dead ==> sprite_spec(Species::Blob, activity, mood) == dead_art(),
{
}

} // verus!
