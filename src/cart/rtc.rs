use vstd::prelude::*;

verus! {

pub const MS_PER_SECOND: u64 = 1000;
pub const SECONDS_PER_MINUTE: u64 = 60;
pub const SECONDS_PER_HOUR: u64 = 3600;
pub const SECONDS_PER_DAY: u64 = 86400;
/// 512 days in milliseconds: the range of the day counter.
pub const DAY_OVERFLOW_MS: u64 = 44236800000;

pub open spec fn sat_add(a: int, b: int) -> u64 {
    if a + b > u64::MAX { u64::MAX } else { (a + b) as u64 }
}

/// A running or halted elapsed-time counter, in milliseconds. `elapsed_at` is
/// the elapsed time at wall-clock instant `since`; while running, the counter
/// advances with the wall clock, so it keeps counting while not emulated.
#[derive(Debug, Clone, Copy, PartialEq, Eq, Structural)]
pub struct Counter {
    pub elapsed_at: u64,
    pub since: u64,
    pub halted: bool,
}

impl Counter {
    /// The elapsed time at wall-clock instant `now` (a clock that went back
    /// counts as no time passed).
    pub open spec fn elapsed(&self, now: u64) -> u64 {
        if self.halted {
            self.elapsed_at
        } else if now >= self.since {
            sat_add(self.elapsed_at as int, now - self.since)
        } else {
            self.elapsed_at
        }
    }

    pub fn new(now: u64) -> (r: Self)
        ensures
            r == (Counter { elapsed_at: 0, since: now, halted: false }),
            r.elapsed(now) == 0,
    {
        Counter { elapsed_at: 0, since: now, halted: false }
    }

    pub fn get(&self, now: u64) -> (r: u64)
        ensures
            r == self.elapsed(now),
    {
        if self.halted {
            self.elapsed_at
        } else if now >= self.since {
            self.elapsed_at.saturating_add(now - self.since)
        } else {
            self.elapsed_at
        }
    }

    /// Sets the elapsed time to `time` at instant `now`.
    pub fn set(&mut self, time: u64, now: u64)
        ensures
            final(self).elapsed(now) == time,
            final(self).halted == old(self).halted,
            *final(self) == (Counter { elapsed_at: time, since: now, halted: old(self).halted }),
    {
        self.elapsed_at = time;
        self.since = now;
    }

    /// Freezes the counter at its value at `now`.
    pub fn halt(&mut self, now: u64)
        ensures
            final(self).halted,
            final(self).elapsed(now) == old(self).elapsed(now),
            old(self).halted ==> *final(self) == *old(self),
    {
        if !self.halted {
            self.elapsed_at = self.get(now);
            self.halted = true;
        }
    }

    /// Lets a halted counter run again from `now`, losing no elapsed time.
    pub fn resume(&mut self, now: u64)
        ensures
            !final(self).halted,
            final(self).elapsed(now) == old(self).elapsed(now),
            !old(self).halted ==> *final(self) == *old(self),
    {
        if self.halted {
            self.since = now;
            self.halted = false;
        }
    }
}

/// Seconds, minutes, hours and whole days of a time in milliseconds.
pub open spec fn secs_of(ms: u64) -> int {
    ms as int / 1000
}

/// A time with the field of unit `unit` seconds (taken modulo `max`) replaced by `units`.
pub open spec fn with_field(ms: u64, unit: int, max: int, units: int) -> u64 {
    let current_units = (secs_of(ms) / unit) % max * unit;
    sat_add(ms - current_units * 1000, units * unit * 1000)
}

/// The real-time clock of a cartridge: a live counter, the snapshot the game
/// reads (taken by latching), and the carry of the day counter.
#[derive(Debug, Clone, Copy, PartialEq, Eq, Structural)]
pub struct Rtc {
    pub counter: Counter,
    pub latched: u64,
    pub latch_signal: bool,
    pub day_carry: bool,
}

impl Rtc {
    pub open spec fn spec_days(&self) -> int {
        secs_of(self.latched) / 86400
    }

    /// The flags register: bit 0 the day counter's bit 8, bit 6 halt, bit 7 day carry.
    pub open spec fn spec_flags(&self) -> u8 {
        ((self.spec_days() / 256) % 2 + (if self.counter.halted { 64int } else { 0 }) + (if self.day_carry {
            128int
        } else {
            0
        })) as u8
    }

    /// A fresh clock, started at zero at instant `now`.
    pub open spec fn spec_new(now: u64) -> Rtc {
        Rtc { counter: Counter { elapsed_at: 0, since: now, halted: false }, latched: 0, latch_signal: false, day_carry: false }
    }

    pub fn new(now: u64) -> (r: Self)
        ensures
            r == Rtc::spec_new(now),
            r.counter.elapsed(now) == 0,
    {
        Rtc { counter: Counter::new(now), latched: 0, latch_signal: false, day_carry: false }
    }

    pub fn seconds(&self) -> (r: u64)
        ensures
            r == secs_of(self.latched) % 60,
    {
        self.latched / MS_PER_SECOND % SECONDS_PER_MINUTE
    }

    pub fn minutes(&self) -> (r: u64)
        ensures
            r == secs_of(self.latched) / 60 % 60,
    {
        self.latched / MS_PER_SECOND / SECONDS_PER_MINUTE % 60
    }

    pub fn hours(&self) -> (r: u64)
        ensures
            r == secs_of(self.latched) / 3600 % 24,
    {
        self.latched / MS_PER_SECOND / SECONDS_PER_HOUR % 24
    }

    pub fn days(&self) -> (r: u64)
        ensures
            r == self.spec_days(),
    {
        self.latched / MS_PER_SECOND / SECONDS_PER_DAY
    }

    pub fn flags(&self) -> (r: u8)
        ensures
            r == self.spec_flags(),
    {
        let msb = (self.days() / 256 % 2) as u8;
        let halt: u8 = if self.counter.halted { 64 } else { 0 };
        let carry: u8 = if self.day_carry { 128 } else { 0 };
        msb + halt + carry
    }

    /// Replaces one field of the live time (units of `unit` seconds, `max` of
    /// them per next unit), keeping the others; out-of-range values are ignored.
    fn set_field(&mut self, unit: u64, max: u64, units: u8, now: u64)
        requires
            unit == 1 || unit == 60 || unit == 3600 || unit == 86400,
            max == 60 || max == 24 || max == 256,
        ensures
            max <= units ==> *final(self) == *old(self),
            (units as int) < (max as int) ==> *final(self) == (Rtc {
                counter: Counter {
                    elapsed_at: with_field(old(self).counter.elapsed(now), unit as int, max as int, units as int),
                    since: now,
                    halted: old(self).counter.halted,
                },
                ..*old(self)
            }),
    {
        let requested = units as u64;
        if requested < max {
            let current = self.counter.get(now);
            let q = current / MS_PER_SECOND / unit % max;
            assert(q * unit <= 256 * 86400) by (nonlinear_arith)
                requires
                    q < max,
                    max <= 256,
                    unit <= 86400,
            ;
            let current_units = q * unit;
            assert(current_units * 1000 <= current) by (nonlinear_arith)
                requires
                    current_units == q * unit,
                    q == current / 1000 / unit % max,
                    unit > 0,
                    max > 0,
            ;
            let kept = current - current_units * MS_PER_SECOND;
            assert(units as u64 * unit * 1000 <= 256 * 86400 * 1000) by (nonlinear_arith)
                requires
                    units < 256,
                    unit <= 86400,
            ;
            let time = kept.saturating_add(units as u64 * unit * MS_PER_SECOND);
            self.counter.set(time, now);
        }
    }

    pub fn set_seconds(&mut self, seconds: u8, now: u64)
        ensures
            seconds >= 60 ==> *final(self) == *old(self),
            seconds < 60 ==> final(self).counter.elapsed(now) == with_field(
                old(self).counter.elapsed(now),
                1,
                60,
                seconds as int,
            ),
    {
        self.set_field(1, SECONDS_PER_MINUTE, seconds, now);
    }

    pub fn set_minutes(&mut self, minutes: u8, now: u64)
        ensures
            minutes >= 60 ==> *final(self) == *old(self),
            minutes < 60 ==> final(self).counter.elapsed(now) == with_field(
                old(self).counter.elapsed(now),
                60,
                60,
                minutes as int,
            ),
    {
        self.set_field(SECONDS_PER_MINUTE, 60, minutes, now);
    }

    pub fn set_hours(&mut self, hours: u8, now: u64)
        ensures
            hours >= 24 ==> *final(self) == *old(self),
            hours < 24 ==> final(self).counter.elapsed(now) == with_field(
                old(self).counter.elapsed(now),
                3600,
                24,
                hours as int,
            ),
    {
        self.set_field(SECONDS_PER_HOUR, 24, hours, now);
    }

    /// Sets the low eight bits of the day counter.
    pub fn set_days(&mut self, days: u8, now: u64)
        ensures
            final(self).counter.elapsed(now) == with_field(old(self).counter.elapsed(now), 86400, 256, days as int),
    {
        self.set_field(SECONDS_PER_DAY, 256, days, now);
    }

    /// Writes the flags register: the day carry, the halt bit (which freezes or
    /// resumes the live counter) and bit 8 of the day counter.
    pub fn set_flags(&mut self, flags: u8, now: u64)
        ensures
            final(self).day_carry == (flags >= 128),
            final(self).counter.halted == ((flags / 64) % 2 == 1),
            final(self).latched == old(self).latched,
            ({
                let t = old(self).counter.elapsed(now);
                let msb = (secs_of(t) / 86400 / 256) % 2;
                final(self).counter.elapsed(now) == sat_add(t - msb * 22118400000, (flags % 2) * 22118400000)
            }),
    {
        self.day_carry = flags >= 128;
        if (flags / 64) % 2 == 1 {
            self.counter.halt(now);
        } else {
            self.counter.resume(now);
        }
        let current = self.counter.get(now);
        let msb = current / MS_PER_SECOND / SECONDS_PER_DAY / 256 % 2;
        let days256: u64 = 22118400000;
        assert(msb * 22118400000 <= current) by (nonlinear_arith)
            requires
                msb == current / 1000 / 86400 / 256 % 2,
                msb == 1 ==> current / 1000 / 86400 / 256 >= 1,
        ;
        let kept = current - msb * days256;
        let time = kept.saturating_add((flags % 2) as u64 * days256);
        self.counter.set(time, now);
    }

    /// On a rising edge of the latch signal, copies the live time into the
    /// snapshot; a day count of 512 or more sets the day carry and moves the
    /// live counter back 512 days so that it can overflow again.
    pub fn latch(&mut self, high: bool, now: u64)
        ensures
            final(self).latch_signal == high,
            !(!old(self).latch_signal && high) ==> *final(self) == (Rtc { latch_signal: high, ..*old(self) }),
            !old(self).latch_signal && high ==> {
                let t = old(self).counter.elapsed(now);
                &&& final(self).latched == t
                &&& (t < DAY_OVERFLOW_MS ==> final(self).counter == old(self).counter
                    && final(self).day_carry == old(self).day_carry)
                &&& (t >= DAY_OVERFLOW_MS ==> final(self).day_carry && final(self).counter.elapsed(now) == t
                    - DAY_OVERFLOW_MS && final(self).counter.halted == old(self).counter.halted)
            },
    {
        if !self.latch_signal && high {
            let t = self.counter.get(now);
            self.latched = t;
            if self.days() >= 512 {
                self.day_carry = true;
                self.counter.set(t - DAY_OVERFLOW_MS, now);
            }
        }
        self.latch_signal = high;
    }
}

} // verus!
