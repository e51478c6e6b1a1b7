use chrono::{Duration, TimeZone, Utc};

use shellagotchi::clock::{Clock, FakeClock, SystemClock};

#[test]
fn system_clock_reads_current_time() {
    let a = SystemClock.now();
    let b = SystemClock.now();
    // 2020-01-01 in milliseconds: any real clock reads later than that.
    assert!(a > 1_577_836_800_000);
    assert!(b >= a);
}

#[test]
fn fake_clock_advances_deterministically() {
    let start = Utc.with_ymd_and_hms(2026, 1, 1, 0, 0, 0).unwrap().timestamp_millis();
    let mut clock = FakeClock::new(start);
    assert_eq!(clock.now(), start);
    clock.advance(Duration::hours(3).num_milliseconds());
    assert_eq!(clock.now(), start + Duration::hours(3).num_milliseconds());
    assert_eq!(clock.now(), start + 10_800_000);
}
