use vstd::prelude::*;
use crate::bits::group_bits;
use crate::constants::{RAM_BANK_SIZE, ROM_BANK_SIZE};

verus! {

broadcast use group_bits;

/// The MBC5 bank controller: a nine-bit ROM bank and a four-bit RAM bank.
#[derive(Debug)]
pub struct Mbc5 {
    pub rom: Vec<u8>,
    pub ram: Vec<u8>,
    pub rom_bank_number: usize,
    pub ram_bank_number: usize,
    pub ram_enabled: bool,
}

/// The controller `m1` is `m0` after a write of `value` to `addr`.
pub open spec fn mbc5_written(m0: Mbc5, m1: Mbc5, addr: u16, value: u8) -> bool {
    &&& (m1.rom@ == m0.rom@)
    &&& (addr <= 0x1FFF ==> m1 == (Mbc5 { ram_enabled: value == 0x0A, ..m0 }))
    &&& (0x2000 <= addr <= 0x2FFF ==> m1 == (Mbc5 { rom_bank_number: value as usize, ..m0 }))
    &&& (0x3000 <= addr <= 0x3FFF ==> m1 == (Mbc5 {
        rom_bank_number: if value % 2 == 1 {
            (m0.rom_bank_number % 256 + 256) as usize
        } else {
            m0.rom_bank_number
        },
        ..m0
    }))
    &&& (0x4000 <= addr <= 0x7FFF ==> m1 == (Mbc5 { ram_bank_number: (value % 16) as usize, ..m0 }))
    &&& (0xA000 <= addr <= 0xBFFF ==> {
        &&& m0.ram_enabled ==> m1.ram@ == m0.ram@.update(m0.ram_address(addr) as int, value)
        &&& !m0.ram_enabled ==> m1.ram@ == m0.ram@
        &&& m1.rom_bank_number == m0.rom_bank_number
        &&& m1.ram_bank_number == m0.ram_bank_number
        &&& m1.ram_enabled == m0.ram_enabled
    })
    &&& (0x8000 <= addr <= 0x9FFF || addr >= 0xC000 ==> m1 == m0)
}

impl Mbc5 {
    pub open spec fn wf(&self) -> bool {
        self.rom_bank_number < 512 && self.ram_bank_number < 16
    }

    pub open spec fn read_ok(&self, addr: u16) -> bool {
        &&& addr <= 0x3FFF ==> addr < self.rom@.len()
        &&& 0x4000 <= addr <= 0x7FFF ==> 0 < self.rom@.len()
        &&& 0xA000 <= addr <= 0xBFFF && self.ram_enabled ==> 0 < self.ram@.len()
    }

    pub open spec fn write_ok(&self, addr: u16) -> bool {
        0xA000 <= addr <= 0xBFFF && self.ram_enabled ==> 0 < self.ram@.len()
    }

    pub open spec fn banked_rom_address(&self, addr: u16) -> usize {
        ((0x4000 * self.rom_bank_number + addr % 0x4000) as usize) & ((self.rom@.len() - 1) as usize)
    }

    pub open spec fn ram_address(&self, addr: u16) -> usize {
        ((0x2000 * self.ram_bank_number + addr % 0x2000) as usize) & ((self.ram@.len() - 1) as usize)
    }

    pub open spec fn read_spec(&self, addr: u16) -> u8 {
        if addr <= 0x3FFF {
            self.rom@[addr as int]
        } else if addr <= 0x7FFF {
            self.rom@[self.banked_rom_address(addr) as int]
        } else if 0xA000 <= addr <= 0xBFFF && self.ram_enabled {
            self.ram@[self.ram_address(addr) as int]
        } else {
            0xFF
        }
    }

    pub fn new(rom: &[u8], ram: &[u8]) -> (m: Mbc5)
        ensures
            m.rom@ == rom@ && m.ram@ == ram@,
            m.rom_bank_number == 1 && m.ram_bank_number == 0 && !m.ram_enabled,
            m.wf(),
    {
        Mbc5 {
            rom: crate::mmu::copy_bytes(rom),
            ram: crate::mmu::copy_bytes(ram),
            rom_bank_number: 1,
            ram_bank_number: 0,
            ram_enabled: false,
        }
    }

    pub fn read(&self, addr: u16) -> (r: u8)
        requires
            self.wf(),
            self.read_ok(addr),
        ensures
            r == self.read_spec(addr),
    {
        if addr <= 0x3FFF {
            self.rom[addr as usize]
        } else if addr <= 0x7FFF {
            let low: u16 = addr & 0x3FFF;
            let new_addr: usize = ROM_BANK_SIZE * self.rom_bank_number + low as usize;
            let new_addr: usize = new_addr & (self.rom.len() - 1);
            self.rom[new_addr]
        } else if 0xA000 <= addr && addr <= 0xBFFF {
            if self.ram_enabled {
                let low: u16 = addr & 0x1FFF;
                let new_addr: usize = (RAM_BANK_SIZE * self.ram_bank_number + low as usize) & (self.ram.len() - 1);
                return self.ram[new_addr];
            }
            0xFF
        } else {
            0xFF
        }
    }

    /// Writes select RAM enable (0x0000-0x1FFF), the low eight bits of the ROM
    /// bank (0x2000-0x2FFF, clearing bit 8), bit 8 of the ROM bank
    /// (0x3000-0x3FFF, or-ed in) and the RAM bank (0x4000-0x7FFF); writes to
    /// 0xA000-0xBFFF store into RAM when it is enabled.
    pub fn write(&mut self, addr: u16, value: u8)
        requires
            old(self).wf(),
            old(self).write_ok(addr),
        ensures
            final(self).wf(),
            mbc5_written(*old(self), *final(self), addr, value),
            0xA000 <= addr <= 0xBFFF && old(self).ram_enabled ==> final(self).read_spec(addr) == value,
    {
        if addr <= 0x1FFF {
            self.ram_enabled = value == 0x0A;
        } else if addr <= 0x2FFF {
            self.rom_bank_number = value as usize;
        } else if addr <= 0x3FFF {
            let new_value: u16 = ((value & 0x1) as u16) << 8;
            let old_bank: usize = self.rom_bank_number;
            proof {
                assert(((value & 1) as u16) << 8u16 == if value % 2 == 1 { 256u16 } else { 0u16 }) by (bit_vector);
                assert(old_bank < 512 ==> (old_bank | 256usize) == old_bank % 256 + 256 && (old_bank | 0usize) == old_bank)
                    by (bit_vector);
            }
            self.rom_bank_number = old_bank | new_value as usize;
        } else if addr <= 0x7FFF {
            self.ram_bank_number = (value & 0xF) as usize;
        } else if 0xA000 <= addr && addr <= 0xBFFF {
            if self.ram_enabled {
                let low: u16 = addr & 0x1FFF;
                let new_addr: usize = (RAM_BANK_SIZE * self.ram_bank_number + low as usize) & (self.ram.len() - 1);
                self.ram.set(new_addr, value);
            }
        }
    }
}

} // verus!
