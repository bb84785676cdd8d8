use vstd::prelude::*;

verus! {

/// T-cycles per second of the Game Boy clock.
pub const CLOCK_SPEED: usize = 4_194_304;
/// T-cycles in one frame (the clock speed over 59.7275 frames per second).
pub const MAX_CYCLES_PER_FRAME: usize = 70224;
/// The program counter once the boot ROM has run.
pub const PC_AFTER_BOOT: u16 = 0x100;

pub const LINES_PER_FRAME: u8 = 154;
pub const TICKS_PER_LINE: u32 = 456;
pub const Y_RESOLUTION: u8 = 144;
pub const X_RESOLUTION: u8 = 160;
pub const BUFFER_SIZE: usize = 23040;

pub const ROM_BANK_SIZE: usize = 0x4000;
pub const RAM_BANK_SIZE: usize = 0x2000;

// Memory map addresses
pub const SERIAL_TRASFER_DATA: u16 = 0xFF01;
pub const SERIAL_TRANSFER_CONTROL: u16 = 0xFF02;
pub const DIV: u16 = 0xFF04;
pub const TIMA: u16 = 0xFF05;
pub const TMA: u16 = 0xFF06;
pub const TAC: u16 = 0xFF07;
pub const INTERRUPT_FLAG: u16 = 0xFF0F;
pub const LCDC: u16 = 0xFF40;
pub const INTERRUPT_ENABLE: u16 = 0xFFFF;

} // verus!
