use vstd::prelude::*;
use crate::bits::group_bits;
use crate::flags::Flags;

verus! {

broadcast use group_bits;

/// The word formed by a high byte and a low byte.
pub open spec fn pair(hi: u8, lo: u8) -> u16 {
    (hi as int * 256 + lo as int) as u16
}

/// The eight-bit registers of the CPU, flags included.
#[derive(Debug)]
pub struct Registers {
    /// Accumulator
    pub a: u8,
    pub b: u8,
    pub c: u8,
    pub d: u8,
    pub e: u8,
    pub h: u8,
    pub l: u8,
    /// F register (flags)
    pub f: Flags,
}

impl Registers {
    /// Registers as the boot ROM leaves them: A = 0x01, BC = 0x0013,
    /// DE = 0x00D8, HL = 0x014D, with every flag clear.
    pub fn new() -> (r: Registers)
        ensures
            r.a == 0x01 && r.b == 0x00 && r.c == 0x13 && r.d == 0x00 && r.e == 0xD8,
            r.h == 0x01 && r.l == 0x4D,
            r.f.data == 0,
    {
        Registers { a: 0x01, b: 0x00, c: 0x13, d: 0x00, e: 0xD8, h: 0x01, l: 0x4D, f: Flags::new() }
    }

    /// The register pair BC.
    pub fn bc(&self) -> (r: u16)
        ensures
            r == self.b * 256 + self.c,
    {
        ((self.b as u16) << 8) | (self.c as u16)
    }

    /// Stores `data` in BC: its high byte in B and low byte in C.
    pub fn set_bc(&mut self, data: u16)
        ensures
            final(self).b == data / 256,
            final(self).c == data % 256,
            final(self).a == old(self).a && final(self).d == old(self).d && final(self).e == old(self).e,
            final(self).h == old(self).h && final(self).l == old(self).l && final(self).f == old(self).f,
    {
        self.b = (data >> 8) as u8;
        self.c = (data & 0x00FF) as u8;
    }

    /// The register pair DE.
    pub fn de(&self) -> (r: u16)
        ensures
            r == self.d * 256 + self.e,
    {
        ((self.d as u16) << 8) | (self.e as u16)
    }

    /// Stores `data` in DE: its high byte in D and low byte in E.
    pub fn set_de(&mut self, data: u16)
        ensures
            final(self).d == data / 256,
            final(self).e == data % 256,
            final(self).a == old(self).a && final(self).b == old(self).b && final(self).c == old(self).c,
            final(self).h == old(self).h && final(self).l == old(self).l && final(self).f == old(self).f,
    {
        self.d = (data >> 8) as u8;
        self.e = (data & 0x00FF) as u8;
    }

    /// The register pair HL.
    pub fn hl(&self) -> (r: u16)
        ensures
            r == self.h * 256 + self.l,
    {
        ((self.h as u16) << 8) | (self.l as u16)
    }

    /// Stores `data` in HL: its high byte in H and low byte in L.
    pub fn set_hl(&mut self, data: u16)
        ensures
            final(self).h == data / 256,
            final(self).l == data % 256,
            final(self).a == old(self).a && final(self).b == old(self).b && final(self).c == old(self).c,
            final(self).d == old(self).d && final(self).e == old(self).e && final(self).f == old(self).f,
    {
        self.h = (data >> 8) as u8;
        self.l = (data & 0x00FF) as u8;
    }

    /// The register pair AF (flags in the low byte).
    pub fn af(&self) -> (r: u16)
        ensures
            r == self.a * 256 + self.f.data,
    {
        ((self.a as u16) << 8) | (self.f.data as u16)
    }

    /// Stores `data` in AF: its high byte in A and low byte in F.
    pub fn set_af(&mut self, data: u16)
        ensures
            final(self).a == data / 256,
            final(self).f.data == data % 256,
            final(self).b == old(self).b && final(self).c == old(self).c && final(self).d == old(self).d,
            final(self).e == old(self).e && final(self).h == old(self).h && final(self).l == old(self).l,
    {
        self.a = (data >> 8) as u8;
        self.f.data = (data & 0x00FF) as u8;
    }
}

impl Default for Registers {
    fn default() -> (r: Registers)
        ensures
            r.a == 0x01 && r.b == 0x00 && r.c == 0x13 && r.d == 0x00 && r.e == 0xD8,
            r.h == 0x01 && r.l == 0x4D,
            r.f.data == 0,
    {
        Registers::new()
    }
}

/// The sixteen-bit register pairs that instructions name.
#[derive(Debug, Clone, Copy, PartialEq, Eq, Structural)]
pub enum RegisterPair {
    BC,
    DE,
    HL,
    AF,
    SP,
}

/// The SM83 CPU of the Game Boy.
#[derive(Debug)]
pub struct Cpu {
    pub registers: Registers,
    /// Stack pointer
    pub sp: u16,
    /// Program counter
    pub pc: u16,
    /// Interrupt master enable
    pub ime: bool,
    /// Set by EI: the master enable turns on before the next instruction
    pub ime_to_be_enabled: bool,
    /// Set by HALT until an interrupt is requested
    pub halted: bool,
    /// The opcode being executed
    pub opcode: u8,
    /// The T-cycles the bus ticked during the last tick call
    pub last_cycle: u64,
}

impl Cpu {
    /// A CPU at power-on: registers as the boot ROM leaves them (flags clear),
    /// SP at the top of high RAM, PC at 0.
    pub fn new() -> (cpu: Cpu)
        ensures
            cpu.registers.a == 0x01 && cpu.registers.b == 0x00 && cpu.registers.c == 0x13,
            cpu.registers.d == 0x00 && cpu.registers.e == 0xD8 && cpu.registers.h == 0x01,
            cpu.registers.l == 0x4D && cpu.registers.f.data == 0,
            cpu.sp == 0xFFFE && cpu.pc == 0,
            !cpu.ime && !cpu.ime_to_be_enabled && !cpu.halted,
            cpu.opcode == 0 && cpu.last_cycle == 0,
    {
        Cpu {
            registers: Registers::new(),
            sp: 0xFFFE,
            pc: 0,
            ime: false,
            ime_to_be_enabled: false,
            halted: false,
            opcode: 0,
            last_cycle: 0,
        }
    }
}

impl Cpu {
    /// A CPU before any boot code has run: every register and flag at zero,
    /// SP at the top of high RAM, PC at 0.
    pub fn cleared() -> (cpu: Cpu)
        ensures
            cpu.registers.a == 0 && cpu.registers.b == 0 && cpu.registers.c == 0,
            cpu.registers.d == 0 && cpu.registers.e == 0 && cpu.registers.h == 0,
            cpu.registers.l == 0 && cpu.registers.f.data == 0,
            cpu.sp == 0xFFFE && cpu.pc == 0,
            !cpu.ime && !cpu.ime_to_be_enabled && !cpu.halted,
            cpu.opcode == 0 && cpu.last_cycle == 0,
    {
        Cpu {
            registers: Registers { a: 0, b: 0, c: 0, d: 0, e: 0, h: 0, l: 0, f: Flags::new() },
            sp: 0xFFFE,
            pc: 0,
            ime: false,
            ime_to_be_enabled: false,
            halted: false,
            opcode: 0,
            last_cycle: 0,
        }
    }
}

impl Default for Cpu {
    fn default() -> (cpu: Cpu)
        ensures
            cpu.registers.a == 0x01 && cpu.registers.b == 0x00 && cpu.registers.c == 0x13,
            cpu.registers.d == 0x00 && cpu.registers.e == 0xD8 && cpu.registers.h == 0x01,
            cpu.registers.l == 0x4D && cpu.registers.f.data == 0,
            cpu.sp == 0xFFFE && cpu.pc == 0,
            !cpu.ime && !cpu.ime_to_be_enabled && !cpu.halted,
            cpu.opcode == 0 && cpu.last_cycle == 0,
    {
        Cpu::new()
    }
}

} // verus!
