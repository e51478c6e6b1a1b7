//! Random draws, taken from `rand`.
use rand::seq::IndexedRandom;
use rand::RngExt;
use vstd::prelude::*;

verus! {

#[verifier::external_type_specification]
#[verifier::external_body]
pub struct ExStdRng(rand::rngs::StdRng);

/// What every Bernoulli draw with chance `numerator / denominator` can
/// return: never `true` at chance zero, always `true` at chance one.
pub open spec fn draw_possible(numerator: nat, denominator: nat, outcome: bool) -> bool {
    &&& numerator == 0 ==> !outcome
    &&& numerator == denominator ==> outcome
}

/// One random draw that was made: its outcome, and the chance
/// (numerator, denominator) it was drawn at. Only [`draw_ratio`] makes one,
/// so a `Draw` in hand shows at which chance a draw really happened.
pub struct Draw {
    outcome: bool,
    odds: Ghost<(nat, nat)>,
}

impl Draw {
    /// Whether the draw came out `true`.
    pub closed spec fn outcome_spec(&self) -> bool {
        self.outcome
    }

    /// The chance the draw was made at, as (numerator, denominator).
    pub closed spec fn odds(&self) -> (nat, nat) {
        self.odds@
    }

    /// Whether the draw came out `true`.
    pub fn outcome(&self) -> (b: bool)
        ensures
            b == self.outcome_spec(),
    {
        self.outcome
    }
}

/// The draw was made at `odds` and came out as such a draw can.
pub open spec fn drawn_at(d: Draw, odds: (nat, nat)) -> bool {
    &&& d.odds() == odds
    &&& draw_possible(odds.0, odds.1, d.outcome_spec())
}

/// The outcome of a draw that may not have been made: `false` when none was.
pub open spec fn outcome_of(d: Option<Draw>) -> bool {
    match d {
        Some(x) => x.outcome_spec(),
        None => false,
    }
}

/// Calls `rand::RngExt::random_ratio(rng, numerator, denominator)`, which
/// returns `true` with probability `numerator / denominator`, and records
/// the outcome with the chance it was drawn at. rand documents that the
/// result is always `false` when `numerator == 0` and always `true` when
/// `numerator == denominator`; beyond recording its own arguments, that is
/// all this contract claims. It panics when `denominator == 0` or
/// `numerator > denominator`, which the precondition excludes.
#[verifier::external_body]
pub(crate) fn draw_ratio(rng: &mut rand::rngs::StdRng, numerator: u32, denominator: u32) -> (d: Draw)
    requires
        0 < denominator,
        numerator <= denominator,
    ensures
        drawn_at(d, (numerator as nat, denominator as nat)),
{
    Draw {
        outcome: rng.random_ratio(numerator, denominator),
        odds: Ghost((numerator as nat, denominator as nat)),
    }
}

/// The pick of one element among some options: the element picked (none
/// when there were no options) and the options it was picked from. Only
/// [`choose_from`] makes one.
pub struct Choice<T> {
    picked: Option<T>,
    options: Ghost<Seq<T>>,
}

impl<T: Copy> Choice<T> {
    /// The element picked, if any.
    pub closed spec fn picked_spec(&self) -> Option<T> {
        self.picked
    }

    /// The options the element was picked from.
    pub closed spec fn options(&self) -> Seq<T> {
        self.options@
    }

    /// The element picked, or `fallback` when there was none to pick.
    pub fn picked_or(&self, fallback: T) -> (x: T)
        ensures
            x == match self.picked_spec() {
                Some(p) => p,
                None => fallback,
            },
    {
        match self.picked {
            Some(p) => p,
            None => fallback,
        }
    }
}

/// Calls `rand::seq::IndexedRandom::choose(options, rng)`, which picks one
/// element of the slice uniformly at random, or gives `None` for an empty
/// slice, copies the pick out and records the options it was picked from.
/// This contract claims only that: `None` exactly when `options` is empty,
/// otherwise one of its elements.
#[verifier::external_body]
pub(crate) fn choose_from<T: Copy>(rng: &mut rand::rngs::StdRng, options: &[T]) -> (c: Choice<T>)
    ensures
        c.options() == options@,
        match c.picked_spec() {
            Some(x) => options@.contains(x),
            None => options@.len() == 0,
        },
{
    Choice { picked: options.choose(rng).copied(), options: Ghost(options@) }
}

} // verus!
