//! A cycle-accurate core for an 8-bit handheld game console with a colour mode:
//! CPU, timer, interrupt controller, DMA unit, memory banks, joypad and cartridge
//! bank controllers, each with a contract over a small mathematical model.

pub mod alu;
pub mod apu;
pub mod cart;
pub mod cpu;
pub mod dma;
pub mod flat_bus;
pub mod instruction;
pub mod interrupt;
pub mod joypad;
pub mod memory;
pub mod ppu;
pub mod regs;
pub mod system;
pub mod timer;
