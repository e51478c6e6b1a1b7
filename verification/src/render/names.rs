//! The display names of the pet's enumerations, as their `Debug` output
//! spells them.
use vstd::prelude::*;

use crate::pet::mood::Mood;
use crate::pet::state::{Activity, Species};

verus! {

pub open spec fn mood_name_spec(m: Mood) -> Seq<char> {
    match m {
        Mood::Ecstatic => "Ecstatic"@,
        Mood::Happy => "Happy"@,
        Mood::Content => "Content"@,
        Mood::Meh => "Meh"@,
        Mood::Sad => "Sad"@,
        Mood::Miserable => "Miserable"@,
        Mood::Sick => "Sick"@,
        Mood::Dead => "Dead"@,
    }
}

/// The name of a mood.
pub fn mood_name(m: Mood) -> (s: &'static str)
    ensures
        s@ == mood_name_spec(m),
{
    match m {
        Mood::Ecstatic => "Ecstatic",
        Mood::Happy => "Happy",
        Mood::Content => "Content",
        Mood::Meh => "Meh",
        Mood::Sad => "Sad",
        Mood::Miserable => "Miserable",
        Mood::Sick => "Sick",
        Mood::Dead => "Dead",
    }
}

pub open spec fn activity_name_spec(a: Activity) -> Seq<char> {
    match a {
        Activity::Awake => "Awake"@,
        Activity::Asleep => "Asleep"@,
        Activity::Sick => "Sick"@,
        Activity::Dead => "Dead"@,
    }
}

/// The name of an activity.
pub fn activity_name(a: Activity) -> (s: &'static str)
    ensures
        s@ == activity_name_spec(a),
{
    match a {
        Activity::Awake => "Awake",
        Activity::Asleep => "Asleep",
        Activity::Sick => "Sick",
        Activity::Dead => "Dead",
    }
}

pub open spec fn species_name_spec(s: Species) -> Seq<char> {
    match s {
        Species::Blob => "Blob"@,
        Species::Cat => "Cat"@,
        Species::Dragon => "Dragon"@,
        Species::Phantom => "Ghost"@,
    }
}

/// The name of a species.
pub fn species_name(sp: Species) -> (s: &'static str)
    ensures
        s@ == species_name_spec(sp),
{
    match sp {
        Species::Blob => "Blob",
        Species::Cat => "Cat",
        Species::Dragon => "Dragon",
        Species::Phantom => "Ghost",
    }
}

} // verus!
