use iron_boy::cart::rtc::{Counter, Rtc, DAY_OVERFLOW_MS};

#[test]
fn latch_snapshots_live_time() {
    let mut rtc = Rtc::new(0);
    rtc.latch(true, 3_723_000);
    assert_eq!(rtc.hours(), 1);
    assert_eq!(rtc.minutes(), 2);
    assert_eq!(rtc.seconds(), 3);
    // No new edge: the snapshot stays.
    rtc.latch(true, 10_000_000);
    assert_eq!(rtc.seconds(), 3);
    rtc.latch(false, 10_000_000);
    rtc.latch(true, 10_000_000);
    assert_eq!(rtc.hours(), 2);
}

#[test]
fn day_overflow_sets_carry_and_rebases() {
    let mut rtc = Rtc::new(0);
    rtc.latch(true, DAY_OVERFLOW_MS + 5_000);
    assert!(rtc.day_carry);
    assert_eq!(rtc.days(), 512);
    assert_eq!(rtc.flags() & 0x80, 0x80);
    assert_eq!(rtc.counter.get(DAY_OVERFLOW_MS + 5_000), 5_000);
}

#[test]
fn field_writes_keep_other_fields() {
    let mut rtc = Rtc::new(0);
    let now = 3_723_000; // 1:02:03
    rtc.set_minutes(30, now);
    rtc.latch(true, now);
    assert_eq!(rtc.hours(), 1);
    assert_eq!(rtc.minutes(), 30);
    assert_eq!(rtc.seconds(), 3);
    // Out-of-range values are ignored.
    rtc.set_seconds(60, now);
    rtc.latch(false, now);
    rtc.latch(true, now);
    assert_eq!(rtc.seconds(), 3);
}

#[test]
fn halt_freezes_the_counter() {
    let mut rtc = Rtc::new(0);
    rtc.set_flags(0x40, 10_000);
    assert!(rtc.counter.halted);
    assert_eq!(rtc.counter.get(50_000), 10_000);
    rtc.set_flags(0x00, 50_000);
    assert_eq!(rtc.counter.get(60_000), 20_000);
}

#[test]
fn counter_ignores_clock_going_back() {
    let counter = Counter { elapsed_at: 1_000, since: 5_000, halted: false };
    assert_eq!(counter.get(4_000), 1_000);
    assert_eq!(counter.get(6_000), 2_000);
}
