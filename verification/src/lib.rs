//! A Game Boy emulator core: the SM83 CPU, its memory bus, cartridges,
//! timer, picture and sound units, with their behaviour stated in contracts.

pub mod bits;
pub mod flags;
pub mod cpu;
pub mod instructions;
pub mod constants;
pub mod timer;
pub mod mmu;
pub mod serial;
pub mod cartridge;
pub mod interrupts;
pub mod joypad;
pub mod ppu;
pub mod interconnect;
pub mod step;
pub mod execute;
pub mod cpu_ops;
pub mod header;
pub mod gameboy;
pub mod laws;
pub mod apu;
