//! The persisted state of a pet and its mathematical model.
use vstd::prelude::*;

use crate::chance::{choose_from, Choice};

use crate::pet::stats::Stat;

verus! {

/// The current on-disk schema version for `PetState`.
pub const CURRENT_SCHEMA_VERSION: u32 = 1;

/// The species of a pet.
#[derive(Clone, Copy, Debug, PartialEq, Eq, Structural)]
pub enum Species {
    Blob,
    Cat,
    Dragon,
    Phantom,
}

/// The current activity/state of a pet.
#[derive(Clone, Copy, Debug, PartialEq, Eq, Structural)]
pub enum Activity {
    Awake,
    Asleep,
    Sick,
    Dead,
}

/// The persisted state of a pet.
///
/// Every instant (`born_at`, `last_tick`, `poops`, `last_command_at`,
/// `last_pet_interaction`) is a count of milliseconds since the Unix epoch,
/// in UTC.
#[derive(Clone, Debug, PartialEq)]
pub struct PetState {
    pub schema_version: u32,
    pub name: String,
    pub species: Species,
    pub born_at: i64,
    pub last_tick: i64,
    pub satiety: Stat,
    pub happiness: Stat,
    pub energy: Stat,
    pub hygiene: Stat,
    pub boredom: Stat,
    pub health: Stat,
    pub bad_food_meter: u32,
    pub poops: Vec<i64>,
    pub commands_eaten: u64,
    pub success_streak: u32,
    pub failure_streak: u32,
    pub activity: Activity,
    pub alive: bool,
    pub last_command_at: i64,
    pub last_pet_interaction: Option<i64>,
}

/// The mathematical model of a [`PetState`]: every stat as a natural number,
/// every collection as a sequence.
#[verifier::ext_equal]
pub struct PetView {
    pub schema_version: nat,
    pub name: Seq<char>,
    pub species: Species,
    pub born_at: int,
    pub last_tick: int,
    pub satiety: nat,
    pub happiness: nat,
    pub energy: nat,
    pub hygiene: nat,
    pub boredom: nat,
    pub health: nat,
    pub bad_food_meter: nat,
    pub poops: Seq<i64>,
    pub commands_eaten: nat,
    pub success_streak: nat,
    pub failure_streak: nat,
    pub activity: Activity,
    pub alive: bool,
    pub last_command_at: int,
    pub last_pet_interaction: Option<int>,
}

impl PetView {
    /// Every stat lies within `0..=100`.
    pub open spec fn stats_bounded(self) -> bool {
        &&& self.satiety <= 100
        &&& self.happiness <= 100
        &&& self.energy <= 100
        &&& self.hygiene <= 100
        &&& self.boredom <= 100
        &&& self.health <= 100
    }

    /// A pet whose health ran out is dead, and a dead pet is not alive.
    pub open spec fn death_settled(self) -> bool {
        self.health == 0 ==> !self.alive && self.activity == Activity::Dead
    }
}

pub open spec fn option_i64_view(o: Option<i64>) -> Option<int> {
    match o {
        Some(t) => Some(t as int),
        None => None,
    }
}

impl View for PetState {
    type V = PetView;

    open spec fn view(&self) -> PetView {
        PetView {
            schema_version: self.schema_version as nat,
            name: self.name@,
            species: self.species,
            born_at: self.born_at as int,
            last_tick: self.last_tick as int,
            satiety: self.satiety@,
            happiness: self.happiness@,
            energy: self.energy@,
            hygiene: self.hygiene@,
            boredom: self.boredom@,
            health: self.health@,
            bad_food_meter: self.bad_food_meter as nat,
            poops: self.poops@,
            commands_eaten: self.commands_eaten as nat,
            success_streak: self.success_streak as nat,
            failure_streak: self.failure_streak as nat,
            activity: self.activity,
            alive: self.alive,
            last_command_at: self.last_command_at as int,
            last_pet_interaction: option_i64_view(self.last_pet_interaction),
        }
    }
}

/// The documented newborn pet: satiety/happiness/energy at 70,
/// hygiene/health at 100, boredom at 0, and all counters, streaks and poops
/// empty or zero.
pub open spec fn newborn_view(name: Seq<char>, species: Species, now: int) -> PetView {
    PetView {
        schema_version: CURRENT_SCHEMA_VERSION as nat,
        name,
        species,
        born_at: now,
        last_tick: now,
        satiety: 70,
        happiness: 70,
        energy: 70,
        hygiene: 100,
        boredom: 0,
        health: 100,
        bad_food_meter: 0,
        poops: Seq::empty(),
        commands_eaten: 0,
        success_streak: 0,
        failure_streak: 0,
        activity: Activity::Awake,
        alive: true,
        last_command_at: now,
        last_pet_interaction: None,
    }
}

impl PetState {
    /// Constructs a freshly-hatched pet with the documented newborn defaults.
    pub fn newborn(name: String, species: Species, now: i64) -> (p: PetState)
        ensures
            p@ == newborn_view(name@, species, now as int),
    {
        PetState {
            schema_version: CURRENT_SCHEMA_VERSION,
            name,
            species,
            born_at: now,
            last_tick: now,
            satiety: Stat::new(70),
            happiness: Stat::new(70),
            energy: Stat::new(70),
            hygiene: Stat::new(100),
            boredom: Stat::new(0),
            health: Stat::new(100),
            bad_food_meter: 0,
            poops: Vec::new(),
            commands_eaten: 0,
            success_streak: 0,
            failure_streak: 0,
            activity: Activity::Awake,
            alive: true,
            last_command_at: now,
            last_pet_interaction: None,
        }
    }
}

/// Every species, in declaration order.
pub open spec fn all_species() -> Seq<Species> {
    seq![Species::Blob, Species::Cat, Species::Dragon, Species::Phantom]
}

/// Picks a species for a freshly hatched pet, uniformly at random among
/// all four, with `rng`; [`Choice::picked_or`] hands it out.
pub fn pick_random_species(rng: &mut rand::rngs::StdRng) -> (c: Choice<Species>)
    ensures
        c.options() == all_species(),
        c.picked_spec() matches Some(species) && all_species().contains(species),
{
    let options: Vec<Species> = vec![Species::Blob, Species::Cat, Species::Dragon, Species::Phantom];
    assert(options@ == all_species());
    choose_from(rng, options.as_slice())
}

} // verus!
