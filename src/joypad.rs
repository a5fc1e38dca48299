use crate::interrupt::{Interrupt, InterruptState};
use vstd::prelude::*;

verus! {

/// The eight buttons; the first four are the directions (bits 0-3 of the held
/// state), the last four the actions (bits 4-7).
#[derive(Debug, Clone, Copy, PartialEq, Eq, Structural)]
pub enum Button {
    Right,
    Left,
    Up,
    Down,
    A,
    B,
    Select,
    Start,
}

impl Button {
    pub open spec fn spec_bit(self) -> u8 {
        match self {
            Button::Right => 0,
            Button::Left => 1,
            Button::Up => 2,
            Button::Down => 3,
            Button::A => 4,
            Button::B => 5,
            Button::Select => 6,
            Button::Start => 7,
        }
    }

    pub fn bit(self) -> (r: u8)
        ensures
            r == self.spec_bit(),
    {
        match self {
            Button::Right => 0,
            Button::Left => 1,
            Button::Up => 2,
            Button::Down => 3,
            Button::A => 4,
            Button::B => 5,
            Button::Select => 6,
            Button::Start => 7,
        }
    }
}

#[derive(Debug, Clone, Copy, PartialEq, Eq, Structural)]
pub enum ButtonState {
    Pressed,
    Released,
}

/// The joypad's way to raise the Joypad interrupt.
pub trait JoypadBus: Sized {
    spec fn joypad_requested(self) -> Self;

    fn request_joypad_interrupt(&mut self)
        ensures
            *final(self) == old(self).joypad_requested(),
    ;
}

impl JoypadBus for InterruptState {
    open spec fn joypad_requested(self) -> Self {
        InterruptState { flags: self.flags | 16u8, ..self }
    }

    fn request_joypad_interrupt(&mut self) {
        self.request(Interrupt::Joypad);
        assert(1u8 << 4u8 == 16u8) by (bit_vector);
    }
}

/// The held buttons and the joypad register, whose bits 4 and 5 select the
/// direction and action columns (a zero bit selects).
pub struct Joypad {
    pub state: u8,
    pub p1: u8,
}

impl Joypad {
    /// The held buttons of the selected columns, one bit per line.
    pub open spec fn selected_bits(&self) -> u8 {
        (if (self.p1 / 16) % 2 == 0 { self.state & 0x0f } else { 0 }) | (if (self.p1 / 32) % 2 == 0 {
            self.state >> 4
        } else {
            0
        })
    }

    pub fn new() -> (r: Self)
        ensures
            r.state == 0,
            r.p1 == 0xc0,
    {
        Joypad { state: 0, p1: 0xc0 }
    }

    /// Records a press or release; a press always raises the Joypad interrupt.
    pub fn handle<B: JoypadBus>(&mut self, button: Button, state: ButtonState, bus: &mut B)
        ensures
            final(self).p1 == old(self).p1,
            state == ButtonState::Pressed ==> final(self).state == old(self).state | (1u8 << button.spec_bit())
                && *final(bus) == old(bus).joypad_requested(),
            state == ButtonState::Released ==> final(self).state == old(self).state & !(1u8
                << button.spec_bit()) && *final(bus) == *old(bus),
    {
        let bit = 1u8 << button.bit();
        match state {
            ButtonState::Pressed => {
                self.state = self.state | bit;
                bus.request_joypad_interrupt();
            },
            ButtonState::Released => self.state = self.state & !bit,
        }
    }

    pub fn direction_bits(&self) -> (r: u8)
        ensures
            r == self.state & 0x0f,
    {
        self.state & 0x0f
    }

    pub fn action_bits(&self) -> (r: u8)
        ensures
            r == self.state >> 4,
    {
        self.state >> 4
    }

    /// The joypad register as the program reads it: the select bits as
    /// written, and in the low nibble a zero for each held button of a
    /// selected column.
    pub fn p1(&self) -> (r: u8)
        ensures
            r == (self.p1 & 0xf0) | (!self.selected_bits() & 0x0f),
    {
        let mut bits: u8 = 0;
        if (self.p1 / 16) % 2 == 0 {
            bits = bits | self.direction_bits();
        }
        if (self.p1 / 32) % 2 == 0 {
            bits = bits | self.action_bits();
        }
        proof {
            assert(0u8 | (self.state & 0x0f) == self.state & 0x0f) by (bit_vector);
            assert(0u8 | (self.state >> 4u8) == self.state >> 4u8) by (bit_vector);
            assert((self.state & 0x0f) | 0u8 == self.state & 0x0f) by (bit_vector);
            assert(0u8 | 0u8 == 0u8) by (bit_vector);
        }
        (self.p1 & 0xf0) | (!bits & 0x0f)
    }

    /// A write of the joypad register changes only the two select bits.
    pub fn set_p1(&mut self, p1: u8)
        ensures
            final(self).state == old(self).state,
            final(self).p1 == (old(self).p1 & !0x30u8) | (p1 & 0x30),
    {
        self.p1 = (self.p1 & !0x30) | (p1 & 0x30);
    }
}

} // verus!
