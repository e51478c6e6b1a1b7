//! Injectable clock abstraction.
//!
//! Engine logic never reads wall-clock time directly; callers depend on the
//! [`Clock`] trait instead. [`SystemClock`] is the single place that reads
//! the real time; [`FakeClock`] is a controllable clock for deterministic
//! use.
use vstd::prelude::*;

verus! {

/// Abstraction over "now" (milliseconds since the Unix epoch, UTC) so
/// callers can be tested deterministically.
pub trait Clock {
    fn now(&self) -> i64;
}

/// The crate's single sanctioned wall-clock read site.
#[derive(Clone, Copy, Debug)]
pub struct SystemClock;

/// Reads `std::time::SystemTime::now()`, converts it with chrono's
/// `From<SystemTime> for DateTime<Utc>` and returns its `timestamp_millis()`.
/// That conversion accepts clocks set before 1970 (unlike `Utc::now()`,
/// which panics there); its one failure is an instant hundreds of thousands
/// of years away, far beyond the range a Linux system clock can be set to
/// (the kernel stops near the year 2262). The result is the
/// time of the machine's clock, so nothing is stated of it.
#[verifier::external_body]
fn wall_clock_millis() -> i64 {
    chrono::DateTime::<chrono::Utc>::from(std::time::SystemTime::now()).timestamp_millis()
}

impl Clock for SystemClock {
    fn now(&self) -> i64 {
        wall_clock_millis()
    }
}

/// A controllable clock: it reads the instant it was set to, and moves only
/// when advanced.
pub struct FakeClock {
    millis: i64,
}

impl FakeClock {
    /// The instant the clock reads, in milliseconds since the Unix epoch.
    pub closed spec fn reading(&self) -> int {
        self.millis as int
    }

    /// A clock that reads `start`.
    pub fn new(start: i64) -> (c: FakeClock)
        ensures
            c.reading() == start,
    {
        FakeClock { millis: start }
    }

    /// Moves the clock forward by `millis` milliseconds.
    pub fn advance(&mut self, millis: i64)
        requires
            i64::MIN <= old(self).reading() + millis <= i64::MAX,
        ensures
            final(self).reading() == old(self).reading() + millis,
    {
        self.millis = self.millis + millis;
    }
}

impl Clock for FakeClock {
    fn now(&self) -> (t: i64)
        ensures
            t == self.reading(),
    {
        self.millis
    }
}

} // verus!
