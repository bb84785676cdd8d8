use vstd::prelude::*;
use crate::bits::group_bits;
use crate::constants::ROM_BANK_SIZE;

verus! {

broadcast use group_bits;

/// The MBC2 bank controller: up to 16 ROM banks and 512 half-bytes of RAM.
#[derive(Debug)]
pub struct Mbc2State {
    pub rom: Vec<u8>,
    pub ram: Vec<u8>,
    pub rom_bank_number: usize,
    pub ram_enabled: bool,
}

/// The controller `m1` is `m0` after a write of `value` to `addr`.
pub open spec fn mbc2_written(m0: Mbc2State, m1: Mbc2State, addr: u16, value: u8) -> bool {
    &&& (m1.rom@ == m0.rom@)
    &&& (addr <= 0x3FFF && (addr / 256) % 2 == 1 ==> m1 == (Mbc2State {
        rom_bank_number: if value % 16 == 0 { 1 } else { (value % 16) as usize },
        ..m0
    }))
    &&& (addr <= 0x3FFF && (addr / 256) % 2 == 0 ==> m1 == (Mbc2State {
        ram_enabled: value % 16 == 0x0A,
        ..m0
    }))
    &&& (0x4000 <= addr <= 0x7FFF ==> m1 == m0)
    &&& (0xA000 <= addr <= 0xBFFF ==> {
        &&& m0.ram_enabled ==> m1.ram@ == m0.ram@.update((addr % 512) as int, value % 16)
        &&& !m0.ram_enabled ==> m1.ram@ == m0.ram@
        &&& m1.rom_bank_number == m0.rom_bank_number
        &&& m1.ram_enabled == m0.ram_enabled
    })
}

impl Mbc2State {
    pub open spec fn wf(&self) -> bool {
        self.rom_bank_number < 16 && self.ram@.len() == 512
    }

    pub open spec fn read_ok(&self, addr: u16) -> bool {
        &&& addr <= 0x7FFF || 0xA000 <= addr <= 0xBFFF
        &&& addr <= 0x3FFF ==> addr < self.rom@.len()
        &&& 0x4000 <= addr <= 0x7FFF ==> 0 < self.rom@.len()
    }

    pub open spec fn write_ok(&self, addr: u16) -> bool {
        addr <= 0x7FFF || 0xA000 <= addr <= 0xBFFF
    }

    /// The offset into the ROM of a read from 0x4000-0x7FFF.
    pub open spec fn banked_rom_address(&self, addr: u16) -> usize {
        ((0x4000 * self.rom_bank_number + addr % 0x4000) as usize) & ((self.rom@.len() - 1) as usize)
    }

    pub open spec fn read_spec(&self, addr: u16) -> u8 {
        if addr <= 0x3FFF {
            self.rom@[addr as int]
        } else if addr <= 0x7FFF {
            self.rom@[self.banked_rom_address(addr) as int]
        } else if self.ram_enabled {
            self.ram@[(addr % 512) as int] | 0xF0
        } else {
            0xFF
        }
    }

    /// A controller holding a copy of `rom`, 512 bytes of zeroed RAM, ROM bank 1.
    pub fn new(rom: &[u8]) -> (m: Mbc2State)
        ensures
            m.rom@ == rom@,
            m.ram@ == Seq::new(512, |i: int| 0u8),
            m.rom_bank_number == 1 && !m.ram_enabled,
            m.wf(),
    {
        Mbc2State {
            rom: crate::mmu::copy_bytes(rom),
            ram: crate::mmu::zeroed(512),
            rom_bank_number: 1,
            ram_enabled: false,
        }
    }

    pub fn read(&self, addr: u16) -> (r: u8)
        requires
            self.wf(),
            self.read_ok(addr),
        ensures
            r == self.read_spec(addr),
    {
        if addr <= 0x3FFF {
            self.rom[addr as usize]
        } else if addr <= 0x7FFF {
            let low: u16 = addr & 0x3FFF;
            let new_addr: usize = ROM_BANK_SIZE * self.rom_bank_number + low as usize;
            let new_addr: usize = new_addr & (self.rom.len() - 1);
            self.rom[new_addr]
        } else {
            if self.ram_enabled {
                let low: u16 = addr & 0x1FFF;
                proof { assert((low as usize) & 511usize == low % 512) by (bit_vector); }
                let new_addr: usize = (low as usize) & (self.ram.len() - 1);
                assert(new_addr == addr % 512);
                return self.ram[new_addr] | 0xF0;
            }
            0xFF
        }
    }

    /// Writes below 0x4000 select the ROM bank (address bit 8 set) or enable
    /// RAM (bit 8 clear); writes to RAM keep the low nibble when RAM is enabled.
    pub fn write(&mut self, addr: u16, value: u8)
        requires
            old(self).wf(),
            old(self).write_ok(addr),
        ensures
            final(self).wf(),
            mbc2_written(*old(self), *final(self), addr, value),
            0xA000 <= addr <= 0xBFFF && old(self).ram_enabled ==> final(self).read_spec(addr) == (value % 16) | 0xF0,
    {
        if addr <= 0x3FFF {
            proof { assert(((addr & 0x100) > 0) == ((addr / 256) % 2 == 1)) by (bit_vector); }
            let bit_8_set: bool = (addr & 0x100) > 0;
            let new_value: u8 = value & 0xF;
            if bit_8_set {
                self.rom_bank_number = if new_value == 0 { 1 } else { new_value as usize };
            } else {
                self.ram_enabled = new_value == 0x0A;
            }
        } else if addr <= 0x7FFF {
        } else {
            if self.ram_enabled {
                let low: u16 = addr & 0x1FFF;
                proof { assert((low as usize) & 511usize == low % 512) by (bit_vector); }
                let new_addr: usize = (low as usize) & (self.ram.len() - 1);
                self.ram.set(new_addr, value & 0xF);
            }
        }
    }
}

} // verus!
