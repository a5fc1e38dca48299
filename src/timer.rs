use crate::interrupt::{Interrupt, InterruptState};
use vstd::arithmetic::div_mod::{lemma_fundamental_div_mod, lemma_fundamental_div_mod_converse};
use vstd::prelude::*;

verus! {

/// The timer's way to raise the Timer interrupt.
pub trait TimerBus: Sized {
    /// The bus after the Timer interrupt was requested.
    spec fn timer_requested(self) -> Self;

    fn request_timer_interrupt(&mut self)
        ensures
            *final(self) == old(self).timer_requested(),
    ;
}

impl TimerBus for InterruptState {
    open spec fn timer_requested(self) -> Self {
        InterruptState { flags: self.flags | 4u8, ..self }
    }

    fn request_timer_interrupt(&mut self) {
        self.request(Interrupt::Timer);
        assert(1u8 << 2u8 == 4u8) by (bit_vector);
    }
}

/// The enable bit of the timer control register.
pub const ENABLE: u8 = 0x4;

/// The period of the programmable counter, in steps of the free-running counter
/// (four per machine cycle), for the frequency selector in the control register.
pub open spec fn period_of(tac: u8) -> int {
    let sel = tac % 4;
    if sel == 0 {
        1024
    } else if sel == 1 {
        16
    } else if sel == 2 {
        64
    } else {
        256
    }
}

/// Whether one machine cycle from `counter` clocks the programmable counter: the
/// timer is enabled and the selected bit of the free-running counter falls.
pub open spec fn timer_ticks(counter: u16, tac: u8) -> bool {
    (tac / 4) % 2 == 1 && (counter as int % period_of(tac)) + 4 >= period_of(tac)
}

/// A free-running 16-bit counter (its upper byte is the divider register) and a
/// programmable 8-bit counter that reloads from the modulo register on overflow.
pub struct Timer {
    pub counter: u16,
    pub tima: u8,
    pub tma: u8,
    pub tac: u8,
}

impl Timer {
    pub fn new() -> (r: Self)
        ensures
            r.counter == 0 && r.tima == 0 && r.tma == 0 && r.tac == 0,
    {
        Timer { counter: 0, tima: 0, tma: 0, tac: 0 }
    }

    /// Advances the timer by one machine cycle.
    #[verifier::rlimit(80)]
    pub fn execute<B: TimerBus>(&mut self, bus: &mut B)
        ensures
            final(self).counter == (old(self).counter as int + 4) % 0x10000,
            final(self).tma == old(self).tma,
            final(self).tac == old(self).tac,
            !timer_ticks(old(self).counter, old(self).tac) ==> final(self).tima == old(self).tima
                && *final(bus) == *old(bus),
            timer_ticks(old(self).counter, old(self).tac) && old(self).tima < 255 ==> final(self).tima
                == old(self).tima + 1 && *final(bus) == *old(bus),
            timer_ticks(old(self).counter, old(self).tac) && old(self).tima == 255 ==> final(self).tima
                == old(self).tma && *final(bus) == old(bus).timer_requested(),
    {
        let old_counter = self.counter;
        self.counter = self.counter.wrapping_add(4);
        if (self.tac / ENABLE) % 2 == 0 {
            return;
        }
        let period: u16 = match self.tac % 4 {
            0 => 1024,
            1 => 16,
            2 => 64,
            _ => 256,
        };
        if old_counter % period + 4 >= period {
            if self.tima == 255 {
                self.tima = self.tma;
                bus.request_timer_interrupt();
            } else {
                self.tima = self.tima + 1;
            }
        }
    }

    /// The divider register: the free-running counter's upper byte.
    pub fn div(&self) -> (r: u8)
        ensures
            r == self.counter / 256,
    {
        (self.counter / 256) as u8
    }

    /// A write to the divider register clears the whole free-running counter.
    pub fn reset_div(&mut self)
        ensures
            *final(self) == (Timer { counter: 0, ..*old(self) }),
    {
        self.counter = 0;
    }

    pub fn tima(&self) -> (r: u8)
        ensures
            r == self.tima,
    {
        self.tima
    }

    pub fn set_tima(&mut self, tima: u8)
        ensures
            *final(self) == (Timer { tima, ..*old(self) }),
    {
        self.tima = tima;
    }

    pub fn tma(&self) -> (r: u8)
        ensures
            r == self.tma,
    {
        self.tma
    }

    pub fn set_tma(&mut self, tma: u8)
        ensures
            *final(self) == (Timer { tma, ..*old(self) }),
    {
        self.tma = tma;
    }

    pub fn tac(&self) -> (r: u8)
        ensures
            r == self.tac,
    {
        self.tac
    }

    pub fn set_tac(&mut self, tac: u8)
        ensures
            *final(self) == (Timer { tac, ..*old(self) }),
    {
        self.tac = tac;
    }
}

/// Timer schedule: started from a cleared free-running counter, the cycle with
/// index `i` (counting from zero) clocks the programmable counter exactly when
/// `i + 1` is a multiple of the selected period in machine cycles, that is on
/// the cycle that ends each period and never earlier.
#[verifier::rlimit(80)]
pub proof fn lemma_timer_schedule(i: int, tac: u8)
    requires
        0 <= i,
        (tac / 4) % 2 == 1,
    ensures
        timer_ticks(((4 * i) % 0x10000) as u16, tac) <==> (i + 1) % (period_of(tac) / 4) == 0,
{
    let p = period_of(tac);
    let q = p / 4;
    let c = (4 * i) % 0x10000;
    lemma_fundamental_div_mod(i, q);
    let k = i / q;
    let m = i % q;
    // 0x10000 is a multiple of p, so reducing the counter keeps its phase.
    lemma_fundamental_div_mod(4 * i, 0x10000);
    let w = (4 * i) / 0x10000;
    assert(c == 4 * i - 0x10000 * w);
    assert(4 * i == p * k + 4 * m) by (nonlinear_arith)
        requires
            i == q * k + m,
            p == 4 * q,
    ;
    assert(c == p * (k - (0x10000int / p) * w) + 4 * m) by (nonlinear_arith)
        requires
            c == 4 * i - 0x10000 * w,
            4 * i == p * k + 4 * m,
            p == 16 || p == 64 || p == 256 || p == 1024,
            0x10000int == p * (0x10000int / p),
    ;
    let j = k - (0x10000int / p) * w;
    assert(c == j * p + 4 * m) by (nonlinear_arith)
        requires
            c == p * j + 4 * m,
    ;
    assert(0 <= m < q);
    lemma_fundamental_div_mod_converse(c, p, j, 4 * m);
    if m + 1 == q {
        assert(i + 1 == (k + 1) * q + 0) by (nonlinear_arith)
            requires
                i == q * k + m,
                m + 1 == q,
        ;
        lemma_fundamental_div_mod_converse(i + 1, q, k + 1, 0);
    } else {
        assert(i + 1 == k * q + (m + 1)) by (nonlinear_arith)
            requires
                i == q * k + m,
        ;
        lemma_fundamental_div_mod_converse(i + 1, q, k, m + 1);
    }
}

} // verus!
