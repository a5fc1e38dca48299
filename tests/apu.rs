use iron_boy::apu::{dac, mixer, Apu, DivCounter, Envelope, LengthTimer, PulseChannel, SweepAction, SAMPLE_SCALE};

#[test]
fn envelope_steps_and_clamps() {
    // Volume 14, increasing, pace 1.
    let mut env = Envelope::from_nrx2(0xe9);
    assert_eq!(env.volume, 14);
    env.clock();
    assert_eq!(env.volume, 15);
    env.clock();
    assert_eq!(env.volume, 15);
    // Volume 1, decreasing, pace 2: two ticks per step.
    let mut env = Envelope::from_nrx2(0x12);
    env.clock();
    assert_eq!(env.volume, 1);
    env.clock();
    assert_eq!(env.volume, 0);
    env.clock();
    env.clock();
    assert_eq!(env.volume, 0);
    // Pace 0 disables the envelope.
    let mut env = Envelope::from_nrx2(0xf0);
    env.clock();
    assert_eq!(env.volume, 15);
}

#[test]
fn length_timer_silences_at_maximum() {
    let mut timer = LengthTimer { timer: 62 };
    let mut enabled = true;
    timer.clock(true, 0x40, &mut enabled);
    timer.clock(true, 0x40, &mut enabled);
    assert!(enabled);
    timer.clock(true, 0x40, &mut enabled);
    assert!(!enabled);
    let mut timer = LengthTimer { timer: 0x40 };
    let mut enabled = true;
    timer.clock(false, 0x40, &mut enabled);
    assert!(enabled);
}

#[test]
fn frame_sequencer_rates() {
    let mut seq = DivCounter::new();
    let mut lengths = 0;
    let mut envelopes = 0;
    let mut sweeps = 0;
    // 512 falling edges of divider bit 4.
    for i in 0..(512 * 32) as u32 {
        seq.clock((i % 256) as u8);
        if seq.length_clock() {
            lengths += 1;
        }
        if seq.envelope_clock() {
            envelopes += 1;
        }
        if seq.sweep_clock() {
            sweeps += 1;
        }
    }
    assert_eq!(lengths, 256);
    assert_eq!(envelopes, 64);
    assert_eq!(sweeps, 128);
}

#[test]
fn dac_and_mixer() {
    assert_eq!(dac(true, 15, 15), -15);
    assert_eq!(dac(true, 0, 15), 15);
    assert_eq!(dac(false, 3, 7), 0);
    assert_eq!(mixer(0b0101, [1, 2, 3, 4]), 4);
    assert_eq!(mixer(0b1111, [1, 2, 3, 4]), 10);
    assert_eq!(SAMPLE_SCALE, 960);
}

#[test]
fn sweep_overflow_disables() {
    let mut ch = PulseChannel::new(true);
    ch.nr10 = 0x01; // increase, shift 1
    ch.nrx3 = 0x00;
    ch.nrx4 = 0x06; // period 0x600
    ch.enabled = true;
    assert_eq!(ch.sweep_action(), SweepAction::Disable);
    ch.sweep_clock();
    assert!(!ch.enabled);
    let mut ch = PulseChannel::new(true);
    ch.nr10 = 0x0a; // decrease, shift 2
    ch.nrx3 = 0x00;
    ch.nrx4 = 0x04; // period 0x400
    ch.sweep_clock();
    assert_eq!(ch.nrx3, 0x00);
    assert_eq!(ch.nrx4 % 8, 0x03);
}

#[test]
fn disabled_controller_resets() {
    let mut apu = Apu::new();
    apu.set_nr52(0x80);
    apu.set_nr50(0x77);
    assert_eq!(apu.execute(0), [apu.frame(), apu.frame()]);
    apu.set_nr52(0x00);
    assert_eq!(apu.execute(0), [[0, 0], [0, 0]]);
    assert_eq!(apu.nr50(), 0);
}

#[test]
fn triggered_pulse_produces_output() {
    let mut apu = Apu::new();
    apu.set_nr52(0x80);
    apu.set_nr50(0x77);
    apu.set_nr51(0x11);
    apu.set_nr11(0x80);
    apu.set_nr12(0xf0);
    apu.set_nr13(0x00);
    apu.set_nr14(0x87);
    let mut nonzero = false;
    for _ in 0..1000 {
        let out = apu.execute(0);
        if out[0] != [0, 0] {
            nonzero = true;
        }
    }
    assert!(nonzero);
    assert_eq!(apu.nr52() & 0x01, 0x01);
}
