//! Bounded pet statistics.
use vstd::prelude::*;
use vstd::std_specs::ops::SubSpecImpl;
use vstd::std_specs::ops::AddSpecImpl;

verus! {

/// `v` clamped into `0..=100`.
pub open spec fn clamp_stat(v: int) -> nat {
    if v <= 0 {
        0
    } else if v >= 100 {
        100
    } else {
        v as nat
    }
}

/// A bounded stat value, clamped to the range 0..=100.
#[derive(Clone, Copy, Debug, PartialEq, Eq, Structural, PartialOrd, Ord, Hash)]
pub struct Stat(u8);

impl View for Stat {
    type V = nat;

    closed spec fn view(&self) -> nat {
        self.0 as nat
    }
}

impl Stat {
    pub const MAX: u8 = 100;

    #[verifier::type_invariant]
    spec fn within_bounds(self) -> bool {
        self.0 <= 100
    }

    /// Creates a new `Stat`, clamping the given value to 0..=100.
    pub fn new(v: u16) -> (s: Stat)
        ensures
            s@ == clamp_stat(v as int),
    {
        let c: u8 = if v > 100 { 100 } else { v as u8 };
        Stat(c)
    }

    /// Returns the inner value.
    pub fn get(&self) -> (v: u8)
        ensures
            v as nat == self@,
            v <= 100,
    {
        proof {
            use_type_invariant(self);
        }
        self.0
    }
}

/// A stat's value always fits in a byte.
pub proof fn lemma_stat_fits_byte(s: Stat)
    ensures
        s@ <= 255,
{
}

impl core::ops::Add<u8> for Stat {
    type Output = Stat;

    fn add(self, rhs: u8) -> (s: Stat)
        ensures
            s@ == clamp_stat(self@ + rhs),
    {
        proof {
            use_type_invariant(&self);
        }
        let total: u16 = self.0 as u16 + rhs as u16;
        Stat::new(total)
    }
}

impl AddSpecImpl<u8> for Stat {
    open spec fn obeys_add_spec() -> bool {
        true
    }

    open spec fn add_req(self, rhs: u8) -> bool {
        true
    }

    closed spec fn add_spec(self, rhs: u8) -> Stat {
        Stat(clamp_stat(self.0 + rhs) as u8)
    }
}

impl core::ops::Sub<u8> for Stat {
    type Output = Stat;

    fn sub(self, rhs: u8) -> (s: Stat)
        ensures
            s@ == clamp_stat(self@ - rhs),
    {
        proof {
            use_type_invariant(&self);
        }
        let v: u8 = if self.0 >= rhs { self.0 - rhs } else { 0 };
        Stat(v)
    }
}

impl SubSpecImpl<u8> for Stat {
    open spec fn obeys_sub_spec() -> bool {
        true
    }

    open spec fn sub_req(self, rhs: u8) -> bool {
        true
    }

    closed spec fn sub_spec(self, rhs: u8) -> Stat {
        Stat(clamp_stat(self.0 - rhs) as u8)
    }
}

} // verus!
