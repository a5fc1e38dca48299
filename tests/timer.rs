use iron_boy::interrupt::InterruptState;
use iron_boy::timer::{Timer, ENABLE};

fn tma_ff(tac: u8, period: u32) {
    let period = period / 4;
    let mut timer = Timer::new();
    timer.set_tma(0xff);
    timer.set_tima(0xff);
    timer.set_tac(tac | ENABLE);
    let mut requests = 0;
    for i in 0..10 * period {
        let mut bus = InterruptState::new();
        timer.execute(&mut bus);
        if bus.flags & 0x4 != 0 {
            requests += 1;
            // Falling edge, so we increment at the end of the cycle
            assert!((i + 1) % period == 0, "Requested interrupt when not expected");
        }
    }
    assert_eq!(requests, 10, "Did not request correct amount of interrupts");
}

#[test]
fn tma_ff_00() {
    tma_ff(0b00, 1 << 10);
}

#[test]
fn tma_ff_01() {
    tma_ff(0b01, 1 << 4);
}

#[test]
fn tma_ff_10() {
    tma_ff(0b10, 1 << 6);
}

#[test]
fn tma_ff_11() {
    tma_ff(0b11, 1 << 8);
}

#[test]
fn timer_disabled_never_counts() {
    let mut timer = Timer::new();
    timer.set_tac(0b01);
    let mut bus = InterruptState::new();
    for _ in 0..1000 {
        timer.execute(&mut bus);
    }
    assert_eq!(timer.tima(), 0);
    assert_eq!(bus.flags, 0);
}

#[test]
fn timer_reloads_from_modulo() {
    let mut timer = Timer::new();
    timer.set_tma(0x42);
    timer.set_tima(0xfe);
    timer.set_tac(0b01 | ENABLE);
    let mut bus = InterruptState::new();
    for _ in 0..4 {
        timer.execute(&mut bus);
    }
    assert_eq!(timer.tima(), 0xff);
    assert_eq!(bus.flags, 0);
    for _ in 0..4 {
        timer.execute(&mut bus);
    }
    assert_eq!(timer.tima(), 0x42);
    assert_eq!(bus.flags, 0x4);
}

#[test]
fn divider_is_upper_byte() {
    let mut timer = Timer::new();
    let mut bus = InterruptState::new();
    for _ in 0..64 {
        timer.execute(&mut bus);
    }
    assert_eq!(timer.div(), 1);
    timer.reset_div();
    assert_eq!(timer.div(), 0);
}
