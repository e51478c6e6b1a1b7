//! The pet's overall mood, derived purely from its current state.
use vstd::prelude::*;

use crate::pet::state::{Activity, PetState, PetView};

verus! {

/// The pet's overall mood.
#[derive(Clone, Copy, Debug, PartialEq, Eq, Structural)]
pub enum Mood {
    Ecstatic,
    Happy,
    Content,
    Meh,
    Sad,
    Miserable,
    Sick,
    Dead,
}

/// The mood band of a happiness value.
pub open spec fn mood_of_happiness(h: nat) -> Mood {
    if 90 <= h <= 100 {
        Mood::Ecstatic
    } else if 70 <= h <= 89 {
        Mood::Happy
    } else if 50 <= h <= 69 {
        Mood::Content
    } else if 35 <= h <= 49 {
        Mood::Meh
    } else if 20 <= h <= 34 {
        Mood::Sad
    } else {
        Mood::Miserable
    }
}

/// `Dead` and `Sick` take precedence over the happiness band.
pub open spec fn mood_spec(s: PetView) -> Mood {
    if !s.alive {
        Mood::Dead
    } else if s.activity == Activity::Sick {
        Mood::Sick
    } else {
        mood_of_happiness(s.happiness)
    }
}

/// Derives the pet's `Mood` from its current state: `Dead` and `Sick` are
/// overriding states that take precedence regardless of the numeric stats;
/// otherwise mood is derived from the `happiness` stat band.
pub fn derive_mood(state: &PetState) -> (m: Mood)
    ensures
        m == mood_spec(state@),
{
    if !state.alive {
        return Mood::Dead;
    }
    if state.activity == Activity::Sick {
        return Mood::Sick;
    }
    let h = state.happiness.get();
    if 90 <= h && h <= 100 {
        Mood::Ecstatic
    } else if 70 <= h && h <= 89 {
        Mood::Happy
    } else if 50 <= h && h <= 69 {
        Mood::Content
    } else if 35 <= h && h <= 49 {
        Mood::Meh
    } else if 20 <= h && h <= 34 {
        Mood::Sad
    } else {
        Mood::Miserable
    }
}

} // verus!
