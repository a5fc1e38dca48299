use vstd::prelude::*;

verus! {

/// A rising-edge detector: reports a signal that was low at the previous call
/// and is high now.
#[derive(Debug, Clone, Copy, PartialEq, Eq, Structural)]
pub struct RisingEdgeDetector {
    pub edge_seen: bool,
}

impl RisingEdgeDetector {
    pub fn at_edge(&mut self, signal: bool) -> (r: bool)
        ensures
            r == (!old(self).edge_seen && signal),
            final(self).edge_seen == signal,
    {
        let edge = !self.edge_seen && signal;
        self.edge_seen = signal;
        edge
    }
}

/// The frame sequencer: a counter clocked by falling edges of bit 4 of the
/// divider register, from which the length (256 Hz), envelope (64 Hz) and
/// sweep (128 Hz) clocks are taken as rising edges.
#[derive(Debug, Clone, Copy, PartialEq, Eq, Structural)]
pub struct DivCounter {
    pub last: u8,
    pub counter: u8,
    pub length: RisingEdgeDetector,
    pub envelope: RisingEdgeDetector,
    pub sweep: RisingEdgeDetector,
}

impl DivCounter {
    pub fn new() -> (r: Self)
        ensures
            r == (DivCounter {
                last: 0,
                counter: 0,
                length: RisingEdgeDetector { edge_seen: false },
                envelope: RisingEdgeDetector { edge_seen: false },
                sweep: RisingEdgeDetector { edge_seen: false },
            }),
    {
        DivCounter {
            last: 0,
            counter: 0,
            length: RisingEdgeDetector { edge_seen: false },
            envelope: RisingEdgeDetector { edge_seen: false },
            sweep: RisingEdgeDetector { edge_seen: false },
        }
    }

    /// The counter after the divider register shows `div`.
    pub open spec fn spec_counter(&self, div: u8) -> u8 {
        if (self.last / 16) % 2 == 1 && (div / 16) % 2 == 0 {
            ((self.counter as int + 1) % 256) as u8
        } else {
            self.counter
        }
    }

    /// Takes the divider register's value; a falling edge of its bit 4
    /// advances the counter.
    #[verifier::rlimit(80)]
    pub fn clock(&mut self, div: u8)
        ensures
            final(self).last == div,
            final(self).counter == if (old(self).last / 16) % 2 == 1 && (div / 16) % 2 == 0 {
                ((old(self).counter as int + 1) % 256) as u8
            } else {
                old(self).counter
            },
            final(self).length == old(self).length,
            final(self).envelope == old(self).envelope,
            final(self).sweep == old(self).sweep,
    {
        if (self.last / 16) % 2 == 1 && (div / 16) % 2 == 0 {
            self.counter = self.counter.wrapping_add(1);
        }
        self.last = div;
    }

    /// The length clock: a rising edge of "counter is even".
    pub fn length_clock(&mut self) -> (r: bool)
        ensures
            r == (!old(self).length.edge_seen && old(self).counter % 2 == 0),
            *final(self) == (DivCounter {
                length: RisingEdgeDetector { edge_seen: old(self).counter % 2 == 0 },
                ..*old(self)
            }),
    {
        let signal = self.counter % 2 == 0;
        self.length.at_edge(signal)
    }

    /// The envelope clock: a rising edge of "counter mod 8 is 7".
    pub fn envelope_clock(&mut self) -> (r: bool)
        ensures
            r == (!old(self).envelope.edge_seen && old(self).counter % 8 == 7),
            *final(self) == (DivCounter {
                envelope: RisingEdgeDetector { edge_seen: old(self).counter % 8 == 7 },
                ..*old(self)
            }),
    {
        let signal = self.counter % 8 == 7;
        self.envelope.at_edge(signal)
    }

    /// The sweep clock: a rising edge of "counter mod 4 is 2".
    pub fn sweep_clock(&mut self) -> (r: bool)
        ensures
            r == (!old(self).sweep.edge_seen && old(self).counter % 4 == 2),
            *final(self) == (DivCounter {
                sweep: RisingEdgeDetector { edge_seen: old(self).counter % 4 == 2 },
                ..*old(self)
            }),
    {
        let signal = self.counter % 4 == 2;
        self.sweep.at_edge(signal)
    }
}

/// A volume envelope: volume 0-15, direction, pace (0 disables) and countdown.
#[derive(Debug, Clone, Copy, PartialEq, Eq, Structural)]
pub struct Envelope {
    pub volume: u8,
    pub increase: bool,
    pub sweep_pace: u8,
    pub countdown: u8,
}

impl Envelope {
    pub open spec fn wf(&self) -> bool {
        self.volume <= 15
    }

    /// The envelope loaded from an NRx2 register: initial volume in bits 4-7,
    /// direction in bit 3, pace in bits 0-2.
    pub open spec fn spec_from(nrx2: u8) -> Envelope {
        Envelope { volume: nrx2 / 16, increase: (nrx2 / 8) % 2 == 1, sweep_pace: nrx2 % 8, countdown: nrx2 % 8 }
    }

    pub fn new() -> (r: Self)
        ensures
            r.wf(),
            r == Envelope::spec_from(0),
    {
        Envelope { volume: 0, increase: false, sweep_pace: 0, countdown: 0 }
    }

    pub fn from_nrx2(nrx2: u8) -> (r: Self)
        ensures
            r.wf(),
            r == Envelope::spec_from(nrx2),
    {
        let pace = nrx2 % 8;
        Envelope { volume: nrx2 / 16, increase: (nrx2 / 8) % 2 == 1, sweep_pace: pace, countdown: pace }
    }

    /// The envelope after one tick.
    pub open spec fn spec_clock(self) -> Envelope {
        if self.sweep_pace == 0 {
            self
        } else if self.countdown > 1 {
            Envelope { countdown: (self.countdown - 1) as u8, ..self }
        } else {
            Envelope {
                volume: if self.increase {
                    if self.volume < 15 { (self.volume + 1) as u8 } else { 15 }
                } else {
                    if self.volume > 0 { (self.volume - 1) as u8 } else { 0 }
                },
                countdown: self.sweep_pace,
                ..self
            }
        }
    }

    /// One envelope tick: count down, and at the end of the count step the
    /// volume by one towards 15 or 0 (clamped) and reload the count from the pace.
    #[verifier::rlimit(80)]
    pub fn clock(&mut self)
        requires
            old(self).wf(),
        ensures
            final(self).wf(),
            *final(self) == old(self).spec_clock(),
            old(self).sweep_pace == 0 ==> *final(self) == *old(self),
            old(self).sweep_pace != 0 && old(self).countdown > 1 ==> *final(self) == (Envelope {
                countdown: (old(self).countdown - 1) as u8,
                ..*old(self)
            }),
            old(self).sweep_pace != 0 && old(self).countdown <= 1 ==> *final(self) == (Envelope {
                volume: if old(self).increase {
                    if old(self).volume < 15 { (old(self).volume + 1) as u8 } else { 15 }
                } else {
                    if old(self).volume > 0 { (old(self).volume - 1) as u8 } else { 0 }
                },
                countdown: old(self).sweep_pace,
                ..*old(self)
            }),
    {
        if self.sweep_pace == 0 {
            return;
        }
        if self.countdown > 1 {
            self.countdown = self.countdown - 1;
        } else {
            if self.increase {
                if self.volume < 0xf {
                    self.volume = self.volume + 1;
                }
            } else if self.volume > 0 {
                self.volume = self.volume - 1;
            }
            self.countdown = self.sweep_pace;
        }
    }
}

/// A channel's period divider: counts down each tick and, on reaching zero,
/// reloads from the period and advances the waveform.
#[derive(Debug, Clone, Copy, PartialEq, Eq, Structural)]
pub struct PeriodDivider {
    pub div: u16,
}

impl PeriodDivider {
    /// One tick; returns whether the waveform advances.
    #[verifier::rlimit(80)]
    pub fn clock(&mut self, period: u16) -> (r: bool)
        ensures
            r == (old(self).div == 1),
            final(self).div == if old(self).div == 1 { period } else { ((old(self).div as int + 0xffff) % 0x10000) as u16 },
    {
        self.div = self.div.wrapping_sub(1);
        if self.div == 0 {
            self.div = period;
            true
        } else {
            false
        }
    }
}

/// A length timer: counts up on each length clock while enabled, and
/// silences its channel on reaching the channel type's maximum.
#[derive(Debug, Clone, Copy, PartialEq, Eq, Structural)]
pub struct LengthTimer {
    pub timer: u16,
}

impl LengthTimer {
    #[verifier::rlimit(80)]
    pub fn clock(&mut self, length_enabled: bool, max: u16, enabled: &mut bool)
        ensures
            !length_enabled ==> *final(self) == *old(self) && *final(enabled) == *old(enabled),
            length_enabled && old(self).timer >= max ==> *final(self) == *old(self) && !*final(enabled),
            length_enabled && old(self).timer < max ==> final(self).timer == old(self).timer + 1,
            length_enabled && old(self).timer < max ==> *final(enabled) == *old(enabled),
    {
        if !length_enabled {
            return;
        }
        if self.timer >= max {
            *enabled = false;
        } else {
            self.timer = self.timer + 1;
        }
    }
}

/// A channel's digital-to-analog output, scaled by 15: `volume - 2 * input`
/// when the DAC is on, else zero.
pub open spec fn spec_dac(enabled: bool, input: u8, volume: u8) -> int {
    if enabled { volume as int - 2 * input as int } else { 0 }
}

pub fn dac(enabled: bool, input: u8, volume: u8) -> (r: i32)
    requires
        input <= volume <= 15,
    ensures
        r == spec_dac(enabled, input, volume),
        -15 <= r <= 15,
{
    if enabled {
        volume as i32 - 2 * input as i32
    } else {
        0
    }
}

/// The sum of the channels that the 4-bit panning mask selects (bit 0 is channel 1).
pub open spec fn spec_mix(bits: u8, ch: [i32; 4]) -> int {
    (if bits % 2 == 1 { ch[0] as int } else { 0 }) + (if (bits / 2) % 2 == 1 { ch[1] as int } else { 0 }) + (
    if (bits / 4) % 2 == 1 { ch[2] as int } else { 0 }) + (if (bits / 8) % 2 == 1 { ch[3] as int } else { 0 })
}

pub fn mixer(bits: u8, ch: [i32; 4]) -> (r: i32)
    requires
        forall|i: int| 0 <= i < 4 ==> -15 <= #[trigger] ch[i] <= 15,
    ensures
        r == spec_mix(bits, ch),
        -60 <= r <= 60,
{
    let mut out: i32 = 0;
    if bits % 2 == 1 {
        out = out + ch[0];
    }
    if (bits / 2) % 2 == 1 {
        out = out + ch[1];
    }
    if (bits / 4) % 2 == 1 {
        out = out + ch[2];
    }
    if (bits / 8) % 2 == 1 {
        out = out + ch[3];
    }
    out
}

/// `v` shifted left `n` times within 16 bits.
pub open spec fn shl16(v: u16, n: nat) -> u16
    decreases n,
{
    if n == 0 { v } else { ((shl16(v, (n - 1) as nat) as int * 2) % 0x10000) as u16 }
}

/// The 11-bit period value held in an NRx3/NRx4 pair.
pub open spec fn spec_neg_period(nrx3: u8, nrx4: u8) -> int {
    (nrx4 % 8) as int * 256 + nrx3 as int
}

/// The divider reload of a pulse or wave channel: 2048 minus the period value, within 11 bits.
pub open spec fn spec_period(nrx3: u8, nrx4: u8) -> u16 {
    ((2048 - spec_neg_period(nrx3, nrx4)) % 2048) as u16
}

fn period_of(nrx3: u8, nrx4: u8) -> (r: u16)
    ensures
        r == spec_period(nrx3, nrx4),
{
    let neg = (nrx4 % 8) as u16 * 256 + nrx3 as u16;
    (2048 - neg) % 2048
}

/// Whether step `index` (0-7) of a pulse with duty code `duty` is high.
pub open spec fn duty_on(duty: u8, index: u8) -> bool {
    if duty == 0 {
        index != 7
    } else if duty == 1 {
        index != 0 && index != 7
    } else if duty == 2 {
        0 < index <= 4
    } else {
        index == 0 || index == 7
    }
}

/// What a frequency-sweep tick does.
#[derive(Debug, Clone, Copy, PartialEq, Eq, Structural)]
pub enum SweepAction {
    Nothing,
    Disable,
    SetPeriod(u16),
}

/// A pulse channel; the first one also has a frequency sweep.
#[derive(Debug, Clone, Copy, PartialEq, Eq, Structural)]
pub struct PulseChannel {
    pub has_sweep: bool,
    pub nr10: u8,
    pub sweep_count: u8,
    pub nrx1: u8,
    pub nrx2: u8,
    pub nrx3: u8,
    pub nrx4: u8,
    pub duty_step: u8,
    pub period_div: PeriodDivider,
    pub length_timer: LengthTimer,
    pub envelope: Envelope,
    pub enabled: bool,
}

impl PulseChannel {
    pub open spec fn wf(&self) -> bool {
        self.envelope.wf()
    }

    pub open spec fn spec_dac_enabled(&self) -> bool {
        self.nrx2 / 16 != 0 || (self.nrx2 / 8) % 2 == 1
    }

    /// The envelope after a tick of the channel (a trigger reloads it).
    pub open spec fn clocked_envelope(&self) -> Envelope {
        if self.nrx4 >= 128 { Envelope::spec_from(self.nrx2) } else { self.envelope }
    }

    /// The duty step after a tick of the channel.
    pub open spec fn clocked_duty(&self) -> u8 {
        let div = if self.nrx4 >= 128 { spec_period(self.nrx3, self.nrx4) } else { self.period_div.div };
        if div == 1 { ((self.duty_step as int + 1) % 256) as u8 } else { self.duty_step }
    }

    /// The (sample, volume) pair of the current duty step.
    pub open spec fn spec_sample(&self) -> (u8, u8) {
        if !self.enabled {
            (0, 0)
        } else if duty_on(self.nrx1 / 64, self.duty_step % 8) {
            (self.envelope.volume, self.envelope.volume)
        } else {
            (0, self.envelope.volume)
        }
    }

    /// The sweep's outcome: after the pace count runs out, a non-zero slope
    /// moves the period by itself shifted right by the slope; an increase past
    /// 11 bits disables the channel.
    pub open spec fn spec_sweep(&self) -> SweepAction {
        let slope = self.nr10 % 8;
        let period = spec_neg_period(self.nrx3, self.nrx4);
        let offset = period / (crate::alu::spec_pow2(slope) as int);
        if self.sweep_count > 0 || slope == 0 {
            SweepAction::Nothing
        } else if (self.nr10 / 8) % 2 == 1 {
            SweepAction::SetPeriod((period - offset) as u16)
        } else if period + offset > 0x7ff {
            SweepAction::Disable
        } else {
            SweepAction::SetPeriod((period + offset) as u16)
        }
    }

    /// A silent channel at power-on.
    pub open spec fn spec_new(has_sweep: bool) -> PulseChannel {
        PulseChannel {
            has_sweep,
            nr10: 0,
            sweep_count: 0,
            nrx1: 0,
            nrx2: 0,
            nrx3: 0,
            nrx4: 0,
            duty_step: 0,
            period_div: PeriodDivider { div: 0 },
            length_timer: LengthTimer { timer: 0 },
            envelope: Envelope::spec_from(0),
            enabled: false,
        }
    }

    pub fn new(has_sweep: bool) -> (r: Self)
        ensures
            r.wf(),
            r == PulseChannel::spec_new(has_sweep),
    {
        PulseChannel {
            has_sweep,
            nr10: 0,
            sweep_count: 0,
            nrx1: 0,
            nrx2: 0,
            nrx3: 0,
            nrx4: 0,
            duty_step: 0,
            period_div: PeriodDivider { div: 0 },
            length_timer: LengthTimer { timer: 0 },
            envelope: Envelope::new(),
            enabled: false,
        }
    }

    pub fn dac_enabled(&self) -> (r: bool)
        ensures
            r == self.spec_dac_enabled(),
    {
        self.nrx2 / 16 != 0 || (self.nrx2 / 8) % 2 == 1
    }

    pub fn sample(&self) -> (r: (u8, u8))
        requires
            self.wf(),
        ensures
            r == self.spec_sample(),
            r.0 <= r.1 <= 15,
    {
        if !self.enabled {
            return (0, 0);
        }
        let index = self.duty_step % 8;
        let duty = self.nrx1 / 64;
        let on = if duty == 0 {
            index != 7
        } else if duty == 1 {
            index != 0 && index != 7
        } else if duty == 2 {
            index > 0 && index <= 4
        } else {
            index == 0 || index == 7
        };
        let volume = self.envelope.volume;
        if on { (volume, volume) } else { (0, volume) }
    }

    /// One tick: a pending trigger (bit 7 of NRx4) restarts the channel; then
    /// the period divider advances the duty step when it expires.
    #[verifier::rlimit(80)]
    pub fn clock(&mut self)
        requires
            old(self).wf(),
        ensures
            final(self).wf(),
            final(self).nrx4 == old(self).nrx4 % 128,
            final(self).has_sweep == old(self).has_sweep,
            final(self).envelope == old(self).clocked_envelope(),
            final(self).duty_step == old(self).clocked_duty(),
            final(self).nrx1 == old(self).nrx1 && final(self).nrx2 == old(self).nrx2 && final(self).nr10 == old(self).nr10,
            final(self).nrx3 == old(self).nrx3,
            old(self).nrx4 < 128 ==> final(self).length_timer == old(self).length_timer,
            old(self).nrx4 >= 128 ==> final(self).enabled && final(self).envelope == Envelope::spec_from(old(self).nrx2)
                && final(self).length_timer.timer == old(self).nrx1 % 64,
            old(self).nrx4 < 128 ==> final(self).enabled == old(self).enabled && final(self).envelope == old(self).envelope,
            ({
                let div = if old(self).nrx4 >= 128 { spec_period(old(self).nrx3, old(self).nrx4) } else { old(self).period_div.div };
                &&& final(self).duty_step == if div == 1 { ((old(self).duty_step as int + 1) % 256) as u8 } else { old(self).duty_step }
                &&& final(self).period_div.div == if div == 1 {
                    spec_period(old(self).nrx3, old(self).nrx4)
                } else {
                    ((div as int + 0xffff) % 0x10000) as u16
                }
            }),
    {
        if self.nrx4 >= 128 {
            self.nrx4 = self.nrx4 - 128;
            self.enabled = true;
            self.period_div.div = period_of(self.nrx3, self.nrx4);
            self.length_timer.timer = (self.nrx1 % 64) as u16;
            self.envelope = Envelope::from_nrx2(self.nrx2);
            self.sweep_count = (self.nr10 / 16) % 8;
        }
        let period = period_of(self.nrx3, self.nrx4);
        if self.period_div.clock(period) {
            self.duty_step = self.duty_step.wrapping_add(1);
        }
    }

    /// A length tick (bit 6 of NRx4 enables the timer; 64 steps silence the channel).
    pub fn length_clock(&mut self)
        ensures
            *final(self) == (PulseChannel {
                enabled: final(self).enabled,
                length_timer: final(self).length_timer,
                ..*old(self)
            }),
            final(self).has_sweep == old(self).has_sweep,
            (old(self).nrx4 / 64) % 2 == 1 && old(self).length_timer.timer >= 0x40 ==> !final(self).enabled,
            !((old(self).nrx4 / 64) % 2 == 1 && old(self).length_timer.timer >= 0x40) ==> final(self).enabled
                == old(self).enabled,
            final(self).envelope == old(self).envelope,
    {
        let length_enabled = (self.nrx4 / 64) % 2 == 1;
        self.length_timer.clock(length_enabled, 0x40, &mut self.enabled);
    }

    pub fn envelope_clock(&mut self)
        requires
            old(self).wf(),
        ensures
            final(self).wf(),
            final(self).has_sweep == old(self).has_sweep,
            *final(self) == (PulseChannel { envelope: old(self).envelope.spec_clock(), ..*old(self) }),
    {
        self.envelope.clock();
    }

    /// Evaluates the frequency sweep.
    pub fn sweep_action(&mut self) -> (r: SweepAction)
        ensures
            r == old(self).spec_sweep(),
            final(self).sweep_count == if old(self).sweep_count > 0 { (old(self).sweep_count - 1) as u8 } else { 0 },
            *final(self) == (PulseChannel { sweep_count: final(self).sweep_count, ..*old(self) }),
    {
        let slope = self.nr10 % 8;
        if self.sweep_count > 0 {
            self.sweep_count = self.sweep_count - 1;
            return SweepAction::Nothing;
        }
        if slope == 0 {
            return SweepAction::Nothing;
        }
        let period = (self.nrx4 % 8) as u16 * 256 + self.nrx3 as u16;
        let divisor = crate::alu::pow2(slope) as u16;
        let offset = period / divisor;
        if (self.nr10 / 8) % 2 == 1 {
            SweepAction::SetPeriod(period - offset)
        } else if period + offset > 0x7ff {
            SweepAction::Disable
        } else {
            SweepAction::SetPeriod(period + offset)
        }
    }

    /// A sweep tick: applies the sweep's outcome to the period or the channel.
    #[verifier::rlimit(60)]
    pub fn sweep_clock(&mut self)
        requires
            old(self).has_sweep,
        ensures
            old(self).spec_sweep() == SweepAction::Disable ==> !final(self).enabled,
            old(self).spec_sweep() matches SweepAction::SetPeriod(p) ==> p < 2048 && spec_neg_period(final(self).nrx3, final(self).nrx4) == p,
            old(self).spec_sweep() == SweepAction::Nothing ==> final(self).nrx3 == old(self).nrx3 && final(self).nrx4 == old(self).nrx4,
            final(self).envelope == old(self).envelope,
            final(self).has_sweep == old(self).has_sweep,
            final(self).duty_step == old(self).duty_step,
            final(self).nrx1 == old(self).nrx1 && final(self).nrx2 == old(self).nrx2,
    {
        match self.sweep_action() {
            SweepAction::Nothing => {},
            SweepAction::Disable => self.enabled = false,
            SweepAction::SetPeriod(period) => {
                self.nrx3 = (period % 256) as u8;
                self.nrx4 = (self.nrx4 / 8) * 8 + ((period / 256) % 8) as u8;
            },
        }
    }
}

/// The custom-waveform channel: 32 four-bit samples in 16 bytes of wave RAM.
pub struct WaveChannel {
    pub nr30: u8,
    pub nr31: u8,
    pub nr32: u8,
    pub nr33: u8,
    pub nr34: u8,
    pub wave_ram: Vec<u8>,
    pub index: u8,
    pub length_timer: LengthTimer,
    pub period_div: PeriodDivider,
    pub enabled: bool,
}

impl WaveChannel {
    pub open spec fn wf(&self) -> bool {
        self.wave_ram@.len() == 16
    }

    pub open spec fn spec_dac_enabled(&self) -> bool {
        self.nr30 >= 128
    }

    /// The wave RAM byte that an access at `addr` reaches: while playing, the
    /// byte being played; otherwise the addressed one.
    pub open spec fn spec_access_offset(&self, addr: u16) -> int {
        if self.enabled { (self.index as int / 2) % 16 } else { addr as int % 16 }
    }

    /// The (sample, volume) pair: the current 4-bit sample shifted right by the
    /// output level minus one; level 0 mutes.
    pub open spec fn spec_sample(&self) -> (u8, u8) {
        let level = (self.nr32 / 32) % 4;
        let i = self.index % 32;
        let byte = self.wave_ram@[(i / 2) as int];
        let nibble = if i % 2 == 0 { byte / 16 } else { byte % 16 };
        if !self.enabled || level == 0 {
            (0, 0)
        } else {
            ((nibble as int / (if level == 1 { 1int } else if level == 2 { 2 } else { 4 })) as u8, 15)
        }
    }

    /// Whether the channel is in its power-on state.
    pub open spec fn is_power_on(&self) -> bool {
        &&& self.nr30 == 0 && self.nr31 == 0 && self.nr32 == 0 && self.nr33 == 0 && self.nr34 == 0
        &&& self.wave_ram@ == crate::cart::mem::zeros(16)
        &&& self.index == 0
        &&& self.length_timer == LengthTimer { timer: 0 }
        &&& self.period_div == PeriodDivider { div: 0 }
        &&& !self.enabled
    }

    pub fn new() -> (r: Self)
        ensures
            r.wf(),
            r.is_power_on(),
    {
        WaveChannel {
            nr30: 0,
            nr31: 0,
            nr32: 0,
            nr33: 0,
            nr34: 0,
            wave_ram: crate::cart::mem::zeroed(16),
            index: 0,
            length_timer: LengthTimer { timer: 0 },
            period_div: PeriodDivider { div: 0 },
            enabled: false,
        }
    }

    pub fn dac_enabled(&self) -> (r: bool)
        ensures
            r == self.spec_dac_enabled(),
    {
        self.nr30 >= 128
    }

    pub fn wave_ram_access_offset(&self, addr: u16) -> (r: usize)
        ensures
            r == self.spec_access_offset(addr),
            r < 16,
    {
        if self.enabled {
            ((self.index / 2) % 16) as usize
        } else {
            (addr % 16) as usize
        }
    }

    pub fn sample(&self) -> (r: (u8, u8))
        requires
            self.wf(),
        ensures
            r == self.spec_sample(),
            r.0 <= r.1 <= 15,
    {
        let level = (self.nr32 / 32) % 4;
        if !self.enabled || level == 0 {
            return (0, 0);
        }
        let i = self.index % 32;
        let byte = self.wave_ram[(i / 2) as usize];
        let nibble = if i % 2 == 0 { byte / 16 } else { byte % 16 };
        let shift: u8 = if level == 1 { 1 } else if level == 2 { 2 } else { 4 };
        (nibble / shift, 15)
    }

    /// One tick: a pending trigger restarts playback from the first sample
    /// (and turns the channel on if its DAC is); then the period divider
    /// advances the sample index when it expires.
    #[verifier::rlimit(80)]
    pub fn clock(&mut self)
        requires
            old(self).wf(),
        ensures
            final(self).wf(),
            final(self).wave_ram@ == old(self).wave_ram@,
            final(self).nr34 == old(self).nr34 % 128,
            old(self).nr34 >= 128 ==> final(self).enabled == (old(self).enabled || old(self).spec_dac_enabled()),
            old(self).nr34 < 128 ==> final(self).enabled == old(self).enabled,
            old(self).nr34 < 128 ==> *final(self) == (WaveChannel {
                index: final(self).index,
                period_div: final(self).period_div,
                ..*old(self)
            }),
            ({
                let div = if old(self).nr34 >= 128 { spec_period(old(self).nr33, old(self).nr34) } else { old(self).period_div.div };
                let index = if old(self).nr34 >= 128 { 0u8 } else { old(self).index };
                &&& final(self).index == if div == 1 { ((index as int + 1) % 256) as u8 } else { index }
                &&& final(self).period_div.div == if div == 1 {
                    spec_period(old(self).nr33, old(self).nr34)
                } else {
                    ((div as int + 0xffff) % 0x10000) as u16
                }
            }),
    {
        if self.nr34 >= 128 {
            self.enabled = self.enabled || self.dac_enabled();
            self.nr34 = self.nr34 - 128;
            self.period_div.div = period_of(self.nr33, self.nr34);
            self.length_timer.timer = self.nr31 as u16;
            self.index = 0;
        }
        let period = period_of(self.nr33, self.nr34);
        if self.period_div.clock(period) {
            self.index = self.index.wrapping_add(1);
        }
    }

    /// A length tick (256 steps silence the channel).
    pub fn length_clock(&mut self)
        requires
            old(self).wf(),
        ensures
            final(self).wf(),
            *final(self) == (WaveChannel {
                enabled: final(self).enabled,
                length_timer: final(self).length_timer,
                ..*old(self)
            }),
            (old(self).nr34 / 64) % 2 == 1 && old(self).length_timer.timer >= 0xff ==> !final(self).enabled,
            !((old(self).nr34 / 64) % 2 == 1 && old(self).length_timer.timer >= 0xff) ==> final(self).enabled
                == old(self).enabled,
    {
        let length_enabled = (self.nr34 / 64) % 2 == 1;
        self.length_timer.clock(length_enabled, 0xff, &mut self.enabled);
    }
}

/// The noise channel's period: divisor code 0 gives 2, code r gives 4r, shifted
/// left by the shift code (within 16 bits).
pub open spec fn spec_noise_period(nr43: u8) -> u16 {
    let r = nr43 % 8;
    shl16(if r == 0 { 2u16 } else { (4 * r) as u16 }, (nr43 / 16) as nat)
}

/// One step of the linear-feedback shift register: the inverted XOR of the
/// two low bits goes into bit 15 (and bit 7 in short mode), then all shift right.
pub open spec fn spec_lfsr_step(lfsr: u16, short: bool) -> u16 {
    let feedback = if lfsr % 2 == (lfsr / 2) % 2 { 1int } else { 0 };
    let b15 = (lfsr / 0x8000) % 2;
    let b7 = (lfsr / 0x80) % 2;
    let cleared = lfsr as int - b15 * 0x8000 - (if short { b7 * 0x80 } else { 0 });
    let set = cleared + feedback * 0x8000 + (if short { feedback * 0x80 } else { 0 });
    (set / 2) as u16
}

/// The noise channel: a linear-feedback shift register clocked by a period divider.
#[derive(Debug, Clone, Copy, PartialEq, Eq, Structural)]
pub struct NoiseChannel {
    pub nr41: u8,
    pub nr42: u8,
    pub nr43: u8,
    pub nr44: u8,
    pub length_timer: LengthTimer,
    pub period_div: PeriodDivider,
    pub envelope: Envelope,
    pub lfsr: u16,
    pub enabled: bool,
}

impl NoiseChannel {
    pub open spec fn wf(&self) -> bool {
        self.envelope.wf()
    }

    pub open spec fn spec_dac_enabled(&self) -> bool {
        self.nr42 / 16 != 0 || (self.nr42 / 8) % 2 == 1
    }

    /// The envelope after a tick of the channel (a trigger reloads it).
    pub open spec fn clocked_envelope(&self) -> Envelope {
        if self.nr44 >= 128 { Envelope::spec_from(self.nr42) } else { self.envelope }
    }

    /// The shift register after a tick of the channel.
    pub open spec fn clocked_lfsr(&self) -> u16 {
        let div = if self.nr44 >= 128 { spec_noise_period(self.nr43) } else { self.period_div.div };
        let lfsr = if self.nr44 >= 128 { 0u16 } else { self.lfsr };
        if div == 1 { spec_lfsr_step(lfsr, (self.nr43 / 8) % 2 == 1) } else { lfsr }
    }

    pub open spec fn spec_sample(&self) -> (u8, u8) {
        if !self.enabled {
            (0, 0)
        } else if self.lfsr % 2 == 1 {
            (self.envelope.volume, self.envelope.volume)
        } else {
            (0, self.envelope.volume)
        }
    }

    /// A silent channel at power-on.
    pub open spec fn spec_new() -> NoiseChannel {
        NoiseChannel {
            nr41: 0,
            nr42: 0,
            nr43: 0,
            nr44: 0,
            length_timer: LengthTimer { timer: 0 },
            period_div: PeriodDivider { div: 0 },
            envelope: Envelope::spec_from(0),
            lfsr: 0,
            enabled: false,
        }
    }

    pub fn new() -> (r: Self)
        ensures
            r.wf(),
            r == NoiseChannel::spec_new(),
    {
        NoiseChannel {
            nr41: 0,
            nr42: 0,
            nr43: 0,
            nr44: 0,
            length_timer: LengthTimer { timer: 0 },
            period_div: PeriodDivider { div: 0 },
            envelope: Envelope::new(),
            lfsr: 0,
            enabled: false,
        }
    }

    pub fn dac_enabled(&self) -> (r: bool)
        ensures
            r == self.spec_dac_enabled(),
    {
        self.nr42 / 16 != 0 || (self.nr42 / 8) % 2 == 1
    }

    pub fn period(&self) -> (r: u16)
        ensures
            r == spec_noise_period(self.nr43),
    {
        let r = self.nr43 % 8;
        let mut p: u16 = if r == 0 { 2 } else { 4 * r as u16 };
        let shift = self.nr43 / 16;
        let mut i: u8 = 0;
        while i < shift
            invariant
                i <= shift,
                p == shl16(if r == 0 { 2u16 } else { (4 * r) as u16 }, i as nat),
            decreases shift - i,
        {
            p = p.wrapping_mul(2);
            i = i + 1;
        }
        p
    }

    pub fn lfsr_clock(&mut self)
        ensures
            *final(self) == (NoiseChannel { lfsr: spec_lfsr_step(old(self).lfsr, (old(self).nr43 / 8) % 2 == 1), ..*old(self) }),
    {
        let l = self.lfsr;
        let short = (self.nr43 / 8) % 2 == 1;
        let feedback: u16 = if l % 2 == (l / 2) % 2 { 1 } else { 0 };
        let b15 = (l / 0x8000) % 2;
        let b7 = (l / 0x80) % 2;
        let cleared = l - b15 * 0x8000 - if short { b7 * 0x80 } else { 0 };
        let set = cleared as u32 + feedback as u32 * 0x8000 + if short { feedback as u32 * 0x80 } else { 0 };
        self.lfsr = (set / 2) as u16;
    }

    pub fn sample(&self) -> (r: (u8, u8))
        requires
            self.wf(),
        ensures
            r == self.spec_sample(),
            r.0 <= r.1 <= 15,
    {
        if !self.enabled {
            return (0, 0);
        }
        let volume = self.envelope.volume;
        if self.lfsr % 2 == 1 { (volume, volume) } else { (0, volume) }
    }

    /// One tick: a pending trigger restarts the channel with a cleared
    /// register; then the period divider steps the register when it expires.
    #[verifier::rlimit(80)]
    pub fn clock(&mut self)
        requires
            old(self).wf(),
        ensures
            final(self).wf(),
            final(self).nr44 == old(self).nr44 % 128,
            final(self).envelope == old(self).clocked_envelope(),
            final(self).lfsr == old(self).clocked_lfsr(),
            final(self).nr42 == old(self).nr42 && final(self).nr43 == old(self).nr43,
            old(self).nr44 >= 128 ==> final(self).enabled && final(self).envelope == Envelope::spec_from(old(self).nr42),
            old(self).nr44 < 128 ==> final(self).enabled == old(self).enabled && final(self).envelope == old(self).envelope,
            ({
                let div = if old(self).nr44 >= 128 { spec_noise_period(old(self).nr43) } else { old(self).period_div.div };
                let lfsr = if old(self).nr44 >= 128 { 0u16 } else { old(self).lfsr };
                &&& final(self).lfsr == if div == 1 { spec_lfsr_step(lfsr, (old(self).nr43 / 8) % 2 == 1) } else { lfsr }
                &&& final(self).period_div.div == if div == 1 {
                    spec_noise_period(old(self).nr43)
                } else {
                    ((div as int + 0xffff) % 0x10000) as u16
                }
            }),
    {
        if self.nr44 >= 128 {
            self.nr44 = self.nr44 - 128;
            self.enabled = true;
            self.period_div.div = self.period();
            self.length_timer.timer = (self.nr41 % 64) as u16;
            self.envelope = Envelope::from_nrx2(self.nr42);
            self.lfsr = 0;
        }
        let period = self.period();
        if self.period_div.clock(period) {
            self.lfsr_clock();
        }
    }

    pub fn length_clock(&mut self)
        ensures
            *final(self) == (NoiseChannel {
                enabled: final(self).enabled,
                length_timer: final(self).length_timer,
                ..*old(self)
            }),
            (old(self).nr44 / 64) % 2 == 1 && old(self).length_timer.timer >= 0x40 ==> !final(self).enabled,
            !((old(self).nr44 / 64) % 2 == 1 && old(self).length_timer.timer >= 0x40) ==> final(self).enabled
                == old(self).enabled,
            final(self).envelope == old(self).envelope,
    {
        let length_enabled = (self.nr44 / 64) % 2 == 1;
        self.length_timer.clock(length_enabled, 0x40, &mut self.enabled);
    }

    pub fn envelope_clock(&mut self)
        requires
            old(self).wf(),
        ensures
            final(self).wf(),
            *final(self) == (NoiseChannel { envelope: old(self).envelope.spec_clock(), ..*old(self) }),
    {
        self.envelope.clock();
    }
}

/// The denominator of the mixed samples: a channel's DAC output is scaled
/// by 15, the mix divided by 4, the master volume taken over 8 and the whole
/// halved, so a sample `s` stands for the value `s / 960`.
pub const SAMPLE_SCALE: i32 = 960;

/// The sound controller: four channels, the frame sequencer, panning (NR51),
/// master volume (NR50) and the global enable (bit 7 of NR52).
pub struct Apu {
    pub nr50: u8,
    pub nr51: u8,
    pub div_counter: DivCounter,
    pub ch1: PulseChannel,
    pub ch2: PulseChannel,
    pub ch3: WaveChannel,
    pub ch4: NoiseChannel,
    pub enabled: bool,
}

impl Apu {
    pub open spec fn wf(&self) -> bool {
        &&& self.ch1.wf()
        &&& self.ch1.has_sweep
        &&& self.ch2.wf()
        &&& self.ch3.wf()
        &&& self.ch4.wf()
    }

    /// The DAC outputs of the four channels.
    pub open spec fn spec_dacs(&self) -> [i32; 4] {
        [
            spec_dac(self.ch1.spec_dac_enabled(), self.ch1.spec_sample().0, self.ch1.spec_sample().1) as i32,
            spec_dac(self.ch2.spec_dac_enabled(), self.ch2.spec_sample().0, self.ch2.spec_sample().1) as i32,
            spec_dac(self.ch3.spec_dac_enabled(), self.ch3.spec_sample().0, self.ch3.spec_sample().1) as i32,
            spec_dac(self.ch4.spec_dac_enabled(), self.ch4.spec_sample().0, self.ch4.spec_sample().1) as i32,
        ]
    }

    /// The stereo pair of the current state: each side mixes the channels its
    /// NR51 nibble selects (high nibble left) and scales by its NR50 volume plus one.
    pub open spec fn spec_frame(&self) -> [i32; 2] {
        [
            (spec_mix(self.nr51 / 16, self.spec_dacs()) * ((self.nr50 / 16) % 8 + 1) as int) as i32,
            (spec_mix(self.nr51 % 16, self.spec_dacs()) * (self.nr50 % 8 + 1) as int) as i32,
        ]
    }

    /// Whether the controller is in its power-on state: everything zero, all
    /// channels silent, the controller off.
    pub open spec fn is_power_on(&self) -> bool {
        &&& self.nr50 == 0 && self.nr51 == 0
        &&& self.div_counter == DivCounter {
            last: 0,
            counter: 0,
            length: RisingEdgeDetector { edge_seen: false },
            envelope: RisingEdgeDetector { edge_seen: false },
            sweep: RisingEdgeDetector { edge_seen: false },
        }
        &&& self.ch1 == PulseChannel::spec_new(true)
        &&& self.ch2 == PulseChannel::spec_new(false)
        &&& self.ch3.is_power_on()
        &&& self.ch4 == NoiseChannel::spec_new()
        &&& !self.enabled
    }

    /// The stereo pair of this state with the wave channel at sample `index`:
    /// the first pair of a cycle is taken one wave step before the second.
    pub open spec fn spec_frame_at_wave_index(&self, index: u8) -> [i32; 2] {
        (Apu { ch3: WaveChannel { index, ..self.ch3 }, ..*self }).spec_frame()
    }

    pub fn new() -> (r: Self)
        ensures
            r.wf(),
            r.is_power_on(),
    {
        Apu {
            nr50: 0,
            nr51: 0,
            div_counter: DivCounter::new(),
            ch1: PulseChannel::new(true),
            ch2: PulseChannel::new(false),
            ch3: WaveChannel::new(),
            ch4: NoiseChannel::new(),
            enabled: false,
        }
    }

    pub fn nr10(&self) -> (r: u8)
        ensures
            r == self.ch1.nr10,
    {
        self.ch1.nr10
    }

    pub fn set_nr10(&mut self, nr10: u8)
        requires
            old(self).wf(),
        ensures
            final(self).wf(),
            *final(self) == (Apu { ch1: PulseChannel { nr10: nr10, ..old(self).ch1 }, ..*old(self) }),
    {
        self.ch1.nr10 = nr10;
    }

    /// Reads back the duty bits only; the length field is write-only.
    pub fn nr11(&self) -> (r: u8)
        ensures
            r == (self.ch1.nrx1 / 64) * 64,
    {
        (self.ch1.nrx1 / 64) * 64
    }

    pub fn set_nr11(&mut self, nr11: u8)
        requires
            old(self).wf(),
        ensures
            final(self).wf(),
            *final(self) == (Apu { ch1: PulseChannel { nrx1: nr11, ..old(self).ch1 }, ..*old(self) }),
    {
        self.ch1.nrx1 = nr11;
    }

    pub fn nr12(&self) -> (r: u8)
        ensures
            r == self.ch1.nrx2,
    {
        self.ch1.nrx2
    }

    pub fn set_nr12(&mut self, nr12: u8)
        requires
            old(self).wf(),
        ensures
            final(self).wf(),
            *final(self) == (Apu { ch1: PulseChannel { nrx2: nr12, ..old(self).ch1 }, ..*old(self) }),
    {
        self.ch1.nrx2 = nr12;
    }

    pub fn nr13(&self) -> (r: u8)
        ensures
            r == self.ch1.nrx3,
    {
        self.ch1.nrx3
    }

    pub fn set_nr13(&mut self, nr13: u8)
        requires
            old(self).wf(),
        ensures
            final(self).wf(),
            *final(self) == (Apu { ch1: PulseChannel { nrx3: nr13, ..old(self).ch1 }, ..*old(self) }),
    {
        self.ch1.nrx3 = nr13;
    }

    /// Reads back the length-enable bit only.
    pub fn nr14(&self) -> (r: u8)
        ensures
            r == ((self.ch1.nrx4 / 64) % 2) * 64,
    {
        ((self.ch1.nrx4 / 64) % 2) * 64
    }

    pub fn set_nr14(&mut self, nr14: u8)
        requires
            old(self).wf(),
        ensures
            final(self).wf(),
            *final(self) == (Apu { ch1: PulseChannel { nrx4: nr14, ..old(self).ch1 }, ..*old(self) }),
    {
        self.ch1.nrx4 = nr14;
    }

    /// Reads back the duty bits only; the length field is write-only.
    pub fn nr21(&self) -> (r: u8)
        ensures
            r == (self.ch2.nrx1 / 64) * 64,
    {
        (self.ch2.nrx1 / 64) * 64
    }

    pub fn set_nr21(&mut self, nr21: u8)
        requires
            old(self).wf(),
        ensures
            final(self).wf(),
            *final(self) == (Apu { ch2: PulseChannel { nrx1: nr21, ..old(self).ch2 }, ..*old(self) }),
    {
        self.ch2.nrx1 = nr21;
    }

    pub fn nr22(&self) -> (r: u8)
        ensures
            r == self.ch2.nrx2,
    {
        self.ch2.nrx2
    }

    pub fn set_nr22(&mut self, nr22: u8)
        requires
            old(self).wf(),
        ensures
            final(self).wf(),
            *final(self) == (Apu { ch2: PulseChannel { nrx2: nr22, ..old(self).ch2 }, ..*old(self) }),
    {
        self.ch2.nrx2 = nr22;
    }

    pub fn nr23(&self) -> (r: u8)
        ensures
            r == self.ch2.nrx3,
    {
        self.ch2.nrx3
    }

    pub fn set_nr23(&mut self, nr23: u8)
        requires
            old(self).wf(),
        ensures
            final(self).wf(),
            *final(self) == (Apu { ch2: PulseChannel { nrx3: nr23, ..old(self).ch2 }, ..*old(self) }),
    {
        self.ch2.nrx3 = nr23;
    }

    /// Reads back the length-enable bit only.
    pub fn nr24(&self) -> (r: u8)
        ensures
            r == ((self.ch2.nrx4 / 64) % 2) * 64,
    {
        ((self.ch2.nrx4 / 64) % 2) * 64
    }

    pub fn set_nr24(&mut self, nr24: u8)
        requires
            old(self).wf(),
        ensures
            final(self).wf(),
            *final(self) == (Apu { ch2: PulseChannel { nrx4: nr24, ..old(self).ch2 }, ..*old(self) }),
    {
        self.ch2.nrx4 = nr24;
    }

    pub fn nr31(&self) -> (r: u8)
        ensures
            r == self.ch3.nr31,
    {
        self.ch3.nr31
    }

    pub fn set_nr31(&mut self, nr31: u8)
        requires
            old(self).wf(),
        ensures
            final(self).wf(),
            *final(self) == (Apu { ch3: WaveChannel { nr31: nr31, ..old(self).ch3 }, ..*old(self) }),
    {
        self.ch3.nr31 = nr31;
    }

    pub fn nr32(&self) -> (r: u8)
        ensures
            r == self.ch3.nr32,
    {
        self.ch3.nr32
    }

    pub fn set_nr32(&mut self, nr32: u8)
        requires
            old(self).wf(),
        ensures
            final(self).wf(),
            *final(self) == (Apu { ch3: WaveChannel { nr32: nr32, ..old(self).ch3 }, ..*old(self) }),
    {
        self.ch3.nr32 = nr32;
    }

    pub fn nr33(&self) -> (r: u8)
        ensures
            r == self.ch3.nr33,
    {
        self.ch3.nr33
    }

    pub fn set_nr33(&mut self, nr33: u8)
        requires
            old(self).wf(),
        ensures
            final(self).wf(),
            *final(self) == (Apu { ch3: WaveChannel { nr33: nr33, ..old(self).ch3 }, ..*old(self) }),
    {
        self.ch3.nr33 = nr33;
    }

    /// Reads back the length-enable bit only.
    pub fn nr34(&self) -> (r: u8)
        ensures
            r == ((self.ch3.nr34 / 64) % 2) * 64,
    {
        ((self.ch3.nr34 / 64) % 2) * 64
    }

    pub fn set_nr34(&mut self, nr34: u8)
        requires
            old(self).wf(),
        ensures
            final(self).wf(),
            *final(self) == (Apu { ch3: WaveChannel { nr34: nr34, ..old(self).ch3 }, ..*old(self) }),
    {
        self.ch3.nr34 = nr34;
    }

    pub fn nr42(&self) -> (r: u8)
        ensures
            r == self.ch4.nr42,
    {
        self.ch4.nr42
    }

    pub fn set_nr42(&mut self, nr42: u8)
        requires
            old(self).wf(),
        ensures
            final(self).wf(),
            *final(self) == (Apu { ch4: NoiseChannel { nr42: nr42, ..old(self).ch4 }, ..*old(self) }),
    {
        self.ch4.nr42 = nr42;
    }

    pub fn nr43(&self) -> (r: u8)
        ensures
            r == self.ch4.nr43,
    {
        self.ch4.nr43
    }

    pub fn set_nr43(&mut self, nr43: u8)
        requires
            old(self).wf(),
        ensures
            final(self).wf(),
            *final(self) == (Apu { ch4: NoiseChannel { nr43: nr43, ..old(self).ch4 }, ..*old(self) }),
    {
        self.ch4.nr43 = nr43;
    }

    /// Reads back the length-enable bit only.
    pub fn nr44(&self) -> (r: u8)
        ensures
            r == ((self.ch4.nr44 / 64) % 2) * 64,
    {
        ((self.ch4.nr44 / 64) % 2) * 64
    }

    pub fn set_nr44(&mut self, nr44: u8)
        requires
            old(self).wf(),
        ensures
            final(self).wf(),
            *final(self) == (Apu { ch4: NoiseChannel { nr44: nr44, ..old(self).ch4 }, ..*old(self) }),
    {
        self.ch4.nr44 = nr44;
    }

    pub fn nr30(&self) -> (r: u8)
        ensures
            r == self.ch3.nr30,
    {
        self.ch3.nr30
    }

    /// Writing NR30 with the DAC off also stops the wave channel.
    pub fn set_nr30(&mut self, nr30: u8)
        requires
            old(self).wf(),
        ensures
            final(self).wf(),
            *final(self) == (Apu {
                ch3: WaveChannel { nr30: nr30, enabled: old(self).ch3.enabled && nr30 >= 128, ..old(self).ch3 },
                ..*old(self)
            }),
    {
        self.ch3.nr30 = nr30;
        self.ch3.enabled = self.ch3.enabled && self.ch3.dac_enabled();
    }

    pub fn set_nr41(&mut self, nr41: u8)
        requires
            old(self).wf(),
        ensures
            final(self).wf(),
            *final(self) == (Apu { ch4: NoiseChannel { nr41: nr41, ..old(self).ch4 }, ..*old(self) }),
    {
        self.ch4.nr41 = nr41;
    }

    pub fn nr50(&self) -> (r: u8)
        ensures
            r == self.nr50,
    {
        self.nr50
    }

    pub fn set_nr50(&mut self, nr50: u8)
        ensures
            *final(self) == (Apu { nr50, ..*old(self) }),
    {
        self.nr50 = nr50;
    }

    pub fn nr51(&self) -> (r: u8)
        ensures
            r == self.nr51,
    {
        self.nr51
    }

    pub fn set_nr51(&mut self, nr51: u8)
        ensures
            *final(self) == (Apu { nr51, ..*old(self) }),
    {
        self.nr51 = nr51;
    }

    /// Bit 7 switches the whole controller on or off.
    pub fn set_nr52(&mut self, nr52: u8)
        ensures
            *final(self) == (Apu { enabled: nr52 >= 128, ..*old(self) }),
    {
        self.enabled = nr52 >= 128;
    }

    /// The global enable in bit 7 and each channel's state in bits 0-3.
    pub fn nr52(&self) -> (r: u8)
        ensures
            r == (if self.enabled { 128int } else { 0 }) + (if self.ch1.enabled { 1int } else { 0 }) + (if self.ch2.enabled {
                2int
            } else {
                0
            }) + (if self.ch3.enabled { 4int } else { 0 }) + (if self.ch4.enabled { 8int } else { 0 }),
    {
        (if self.enabled { 128u8 } else { 0 }) + (if self.ch1.enabled { 1u8 } else { 0 }) + (if self.ch2.enabled {
            2u8
        } else {
            0
        }) + (if self.ch3.enabled { 4u8 } else { 0 }) + (if self.ch4.enabled { 8u8 } else { 0 })
    }

    pub fn read_wave_ram(&self, addr: u16) -> (r: u8)
        requires
            self.wf(),
        ensures
            r == self.ch3.wave_ram@[self.ch3.spec_access_offset(addr)],
    {
        self.ch3.wave_ram[self.ch3.wave_ram_access_offset(addr)]
    }

    pub fn write_wave_ram(&mut self, addr: u16, val: u8)
        requires
            old(self).wf(),
        ensures
            final(self).wf(),
            final(self).ch3.wave_ram@ == old(self).ch3.wave_ram@.update(old(self).ch3.spec_access_offset(addr), val),
    {
        let i = self.ch3.wave_ram_access_offset(addr);
        self.ch3.wave_ram.set(i, val);
    }

    /// The stereo sample pair of the current state, over `SAMPLE_SCALE`.
    #[verifier::rlimit(80)]
    pub fn frame(&self) -> (r: [i32; 2])
        requires
            self.wf(),
        ensures
            r == self.spec_frame(),
    {
        let (s1, v1) = self.ch1.sample();
        let (s2, v2) = self.ch2.sample();
        let (s3, v3) = self.ch3.sample();
        let (s4, v4) = self.ch4.sample();
        let ch = [
            dac(self.ch1.dac_enabled(), s1, v1),
            dac(self.ch2.dac_enabled(), s2, v2),
            dac(self.ch3.dac_enabled(), s3, v3),
            dac(self.ch4.dac_enabled(), s4, v4),
        ];
        assert(ch == self.spec_dacs());
        let mix_left = mixer(self.nr51 / 16, ch);
        let mix_right = mixer(self.nr51 % 16, ch);
        let vol_left = ((self.nr50 / 16) % 8 + 1) as i32;
        let vol_right = (self.nr50 % 8 + 1) as i32;
        assert(-480 <= mix_left * vol_left <= 480 && -480 <= mix_right * vol_right <= 480) by (nonlinear_arith)
            requires
                -60 <= mix_left <= 60,
                -60 <= mix_right <= 60,
                1 <= vol_left <= 8,
                1 <= vol_right <= 8,
        ;
        [mix_left * vol_left, mix_right * vol_right]
    }

    /// The first half of a cycle: the frame sequencer takes the divider,
    /// every channel ticks, and the length, envelope and sweep clocks it
    /// raises are applied.
    #[verifier::rlimit(100)]
    pub fn tick(&mut self, div: u8)
        requires
            old(self).wf(),
            old(self).enabled,
        ensures
            final(self).wf(),
            final(self).enabled,
            final(self).ch3.nr34 < 128,
            ({
                let c = old(self).div_counter.spec_counter(div);
                let length = !old(self).div_counter.length.edge_seen && c % 2 == 0;
                let env = !old(self).div_counter.envelope.edge_seen && c % 8 == 7;
                let sweep = !old(self).div_counter.sweep.edge_seen && c % 4 == 2;
                &&& final(self).div_counter == (DivCounter {
                    last: div,
                    counter: c,
                    length: RisingEdgeDetector { edge_seen: c % 2 == 0 },
                    envelope: RisingEdgeDetector { edge_seen: c % 8 == 7 },
                    sweep: RisingEdgeDetector { edge_seen: c % 4 == 2 },
                })
                &&& final(self).nr50 == old(self).nr50 && final(self).nr51 == old(self).nr51
                &&& final(self).ch1.envelope == if env {
                    old(self).ch1.clocked_envelope().spec_clock()
                } else {
                    old(self).ch1.clocked_envelope()
                }
                &&& final(self).ch2.envelope == if env {
                    old(self).ch2.clocked_envelope().spec_clock()
                } else {
                    old(self).ch2.clocked_envelope()
                }
                &&& final(self).ch4.envelope == if env {
                    old(self).ch4.clocked_envelope().spec_clock()
                } else {
                    old(self).ch4.clocked_envelope()
                }
                &&& final(self).ch1.duty_step == old(self).ch1.clocked_duty()
                &&& final(self).ch2.duty_step == old(self).ch2.clocked_duty()
                &&& final(self).ch4.lfsr == old(self).ch4.clocked_lfsr()
                &&& !sweep ==> final(self).ch1.nrx3 == old(self).ch1.nrx3
                &&& !length ==> final(self).ch2.length_timer == (if old(self).ch2.nrx4 >= 128 {
                    LengthTimer { timer: (old(self).ch2.nrx1 % 64) as u16 }
                } else {
                    old(self).ch2.length_timer
                })
            }),
    {
        self.div_counter.clock(div);
        self.ch1.clock();
        self.ch2.clock();
        self.ch3.clock();
        self.ch4.clock();
        if self.div_counter.length_clock() {
            self.ch1.length_clock();
            self.ch2.length_clock();
            self.ch3.length_clock();
            self.ch4.length_clock();
        }
        if self.div_counter.envelope_clock() {
            self.ch1.envelope_clock();
            self.ch2.envelope_clock();
            self.ch4.envelope_clock();
        }
        if self.div_counter.sweep_clock() {
            self.ch1.sweep_clock();
        }
    }

    /// Advances the sound controller by one machine cycle, given the divider
    /// register's value, and returns two stereo sample pairs (the wave channel
    /// runs at twice the rate). A controller switched off is reset to its
    /// power-on state and outputs silence.
    #[verifier::rlimit(100)]
    pub fn execute(&mut self, div: u8) -> (r: [[i32; 2]; 2])
        requires
            old(self).wf(),
        ensures
            final(self).wf(),
            !old(self).enabled ==> final(self).is_power_on() && r == [[0i32, 0i32], [0i32, 0i32]],
            old(self).enabled ==> final(self).enabled && r[1] == final(self).spec_frame(),
            old(self).enabled ==> ({
                let c = old(self).div_counter.spec_counter(div);
                let env = !old(self).div_counter.envelope.edge_seen && c % 8 == 7;
                &&& final(self).div_counter.counter == c
                &&& final(self).div_counter.last == div
                &&& final(self).nr50 == old(self).nr50 && final(self).nr51 == old(self).nr51
                &&& final(self).ch1.duty_step == old(self).ch1.clocked_duty()
                &&& final(self).ch2.duty_step == old(self).ch2.clocked_duty()
                &&& final(self).ch4.lfsr == old(self).ch4.clocked_lfsr()
                &&& final(self).ch1.envelope == if env {
                    old(self).ch1.clocked_envelope().spec_clock()
                } else {
                    old(self).ch1.clocked_envelope()
                }
                &&& final(self).ch4.envelope == if env {
                    old(self).ch4.clocked_envelope().spec_clock()
                } else {
                    old(self).ch4.clocked_envelope()
                }
                &&& final(self).ch2.envelope == if env {
                    old(self).ch2.clocked_envelope().spec_clock()
                } else {
                    old(self).ch2.clocked_envelope()
                }
                &&& r[0] == final(self).spec_frame_at_wave_index(final(self).ch3.index) || r[0]
                    == final(self).spec_frame_at_wave_index(((final(self).ch3.index as int + 255) % 256) as u8)
            }),
    {
        if !self.enabled {
            *self = Apu::new();
            return [[0, 0], [0, 0]];
        }
        self.tick(div);
        let first = self.frame();
        let ghost before = *self;
        let ghost mid = self.ch3.index;
        self.ch3.clock();
        proof {
            assert(self.ch3 == (WaveChannel { index: self.ch3.index, period_div: self.ch3.period_div, ..before.ch3 }));
            assert(before.spec_frame() == self.spec_frame_at_wave_index(mid));
            assert(first == self.spec_frame_at_wave_index(mid));
            assert(mid == self.ch3.index || mid == ((self.ch3.index as int + 255) % 256) as u8);
        }
        let second = self.frame();
        [first, second]
    }
}

} // verus!
