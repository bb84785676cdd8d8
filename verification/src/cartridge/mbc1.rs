use vstd::prelude::*;
use crate::bits::{group_bits, lemma_mbc1_banks};
use crate::constants::{RAM_BANK_SIZE, ROM_BANK_SIZE};

verus! {

broadcast use group_bits;

/// Which bank the MBC1's two-bit register selects.
#[derive(Debug, Clone, Copy, PartialEq, Eq, Structural)]
pub enum BankingMode {
    Rom,
    Ram,
}

/// The MBC1 bank controller with its ROM and RAM.
#[derive(Debug)]
pub struct Mbc1State {
    pub rom: Vec<u8>,
    pub ram: Vec<u8>,
    pub rom_bank_number: usize,
    pub ram_bank_number: usize,
    pub ram_enabled: bool,
    pub banking_mode: BankingMode,
}

/// The controller `m1` is `m0` after a write of `value` to `addr`.
pub open spec fn mbc1_written(m0: Mbc1State, m1: Mbc1State, addr: u16, value: u8) -> bool {
    &&& (m1.rom@ == m0.rom@)
    &&& (addr <= 0x1FFF ==> m1 == (Mbc1State { ram_enabled: value == 0x0A, ..m0 }))
    &&& (0x2000 <= addr <= 0x3FFF ==> m1 == (Mbc1State {
        rom_bank_number: if value == 0x00 || value == 0x20 || value == 0x40 || value == 0x60 {
            (value + 1) as usize
        } else {
            (value % 32) as usize
        },
        ..m0
    }))
    &&& (0x4000 <= addr <= 0x5FFF ==> m1 == (Mbc1State { ram_bank_number: (value % 4) as usize, ..m0 }))
    &&& (0x6000 <= addr <= 0x7FFF ==> m1 == (Mbc1State {
        banking_mode: if value % 2 == 1 { BankingMode::Ram } else { BankingMode::Rom },
        ..m0
    }))
    &&& (0xA000 <= addr <= 0xBFFF ==> {
        &&& m0.ram_enabled ==> m1.ram@ == m0.ram@.update(
            (addr - 0xA000) + 0x2000 * m0.ram_bank_number, value)
        &&& !m0.ram_enabled ==> m1.ram@ == m0.ram@
        &&& m1.rom_bank_number == m0.rom_bank_number
        &&& m1.ram_bank_number == m0.ram_bank_number
        &&& m1.ram_enabled == m0.ram_enabled
        &&& m1.banking_mode == m0.banking_mode
    })
}

impl Mbc1State {
    /// The bank registers hold what writes can put in them.
    pub open spec fn wf(&self) -> bool {
        self.rom_bank_number < 128 && self.ram_bank_number < 4
    }

    /// The offset into the ROM of `addr` in `bank`, folded by the ROM size.
    pub open spec fn rom_address_spec(&self, addr: u16, bank: usize) -> usize {
        (((addr % 0x4000) + bank * 0x4000) as usize) & ((self.rom@.len() - 1) as usize)
    }

    /// The offset into the RAM of `addr` in `bank`, folded by the RAM size.
    pub open spec fn ram_address_spec(&self, addr: u16, bank: usize) -> usize {
        (((addr % 0x2000) + bank * 0x2000) as usize) & ((self.ram@.len() - 1) as usize)
    }

    pub open spec fn lower_rom_bank_spec(&self) -> usize {
        match self.banking_mode {
            BankingMode::Rom => 0,
            BankingMode::Ram => (self.ram_bank_number * 32) as usize,
        }
    }

    pub open spec fn upper_rom_bank_spec(&self) -> usize {
        self.rom_bank_number | (self.ram_bank_number << 5usize)
    }

    pub open spec fn ram_bank_spec(&self) -> usize {
        match self.banking_mode {
            BankingMode::Rom => 0,
            BankingMode::Ram => self.ram_bank_number,
        }
    }

    /// Reads that land in ROM or cartridge RAM and stay in bounds.
    pub open spec fn read_ok(&self, addr: u16) -> bool {
        &&& addr <= 0x7FFF || 0xA000 <= addr <= 0xBFFF
        &&& self.rom@.len() > 0

    }

    /// What a read of `addr` gives.
    pub open spec fn read_spec(&self, addr: u16) -> u8 {
        if addr <= 0x3FFF {
            self.rom@[self.rom_address_spec(addr, self.lower_rom_bank_spec()) as int]
        } else if addr <= 0x7FFF {
            self.rom@[self.rom_address_spec(addr, self.upper_rom_bank_spec()) as int]
        } else if self.ram@.len() == 0 || !self.ram_enabled {
            0xFF
        } else {
            self.ram@[self.ram_address_spec(addr, self.ram_bank_spec()) as int]
        }
    }

    /// Writes that land in a register range, or in RAM within its bounds.
    pub open spec fn write_ok(&self, addr: u16) -> bool {
        ||| addr <= 0x7FFF
        ||| 0xA000 <= addr <= 0xBFFF && (!self.ram_enabled
            || (addr - 0xA000) + 0x2000 * self.ram_bank_number < self.ram@.len())
    }

    /// A controller holding copies of `rom` and `ram`, ROM bank 1 selected.
    pub fn new(rom: &[u8], ram: &[u8]) -> (m: Mbc1State)
        ensures
            m.rom@ == rom@ && m.ram@ == ram@,
            m.rom_bank_number == 1 && m.ram_bank_number == 0,
            !m.ram_enabled && m.banking_mode == BankingMode::Rom,
            m.wf(),
    {
        Mbc1State {
            rom: crate::mmu::copy_bytes(rom),
            ram: crate::mmu::copy_bytes(ram),
            ram_enabled: false,
            banking_mode: BankingMode::Rom,
            rom_bank_number: 1,
            ram_bank_number: 0,
        }
    }

    /// A controller with 0xFFFF zero bytes of ROM and 0x8000 of RAM.
    pub fn empty() -> (m: Mbc1State)
        ensures
            m.rom@.len() == 0xFFFF && m.ram@.len() == 0x8000,
            forall|i: int| 0 <= i < 0xFFFF ==> m.rom@[i] == 0,
            forall|i: int| 0 <= i < 0x8000 ==> m.ram@[i] == 0,
            m.rom_bank_number == 1 && m.ram_bank_number == 0,
            !m.ram_enabled && m.banking_mode == BankingMode::Rom,
            m.wf(),
    {
        Mbc1State {
            rom: crate::mmu::zeroed(0xFFFF),
            ram: crate::mmu::zeroed(0x8000),
            ram_enabled: false,
            banking_mode: BankingMode::Rom,
            rom_bank_number: 1,
            ram_bank_number: 0,
        }
    }

    /// The offset into the ROM of `addr` in `bank`.
    pub fn get_rom_address(&self, addr: u16, bank: usize) -> (r: usize)
        requires
            self.rom@.len() > 0,
            bank < 0x1_0000,
        ensures
            r == self.rom_address_spec(addr, bank),
            r < self.rom@.len(),
    {
        let offset: usize = bank * ROM_BANK_SIZE;
        let low: u16 = addr & 0x3FFF;
        assert(low == addr % 0x4000);
        let real_address: usize = low as usize + offset;
        assert(real_address == ((addr % 0x4000) + bank * 0x4000) as usize);
        real_address & (self.rom.len() - 1)
    }

    /// The offset into the RAM of `addr` in `bank`.
    pub fn get_ram_address(&self, addr: u16, bank: usize) -> (r: usize)
        requires
            self.ram@.len() > 0,
            bank < 0x1_0000,
        ensures
            r == self.ram_address_spec(addr, bank),
            r < self.ram@.len(),
    {
        let offset: usize = bank * RAM_BANK_SIZE;
        let low: u16 = addr & 0x1FFF;
        assert(low == addr % 0x2000);
        let real_address: usize = low as usize + offset;
        assert(real_address == ((addr % 0x2000) + bank * 0x2000) as usize);
        real_address & (self.ram.len() - 1)
    }

    /// The bank mapped at 0x0000-0x3FFF.
    pub fn get_lower_rom_bank(&self) -> (r: usize)
        requires
            self.wf(),
        ensures
            r == self.lower_rom_bank_spec(),
            r < 128,
    {
        match self.banking_mode {
            BankingMode::Rom => 0,
            BankingMode::Ram => self.ram_bank_number * 32,
        }
    }

    /// The bank mapped at 0x4000-0x7FFF.
    pub fn get_upper_rom_bank(&self) -> (r: usize)
        requires
            self.wf(),
        ensures
            r == self.upper_rom_bank_spec(),
            r < 128,
    {
        proof { lemma_mbc1_banks(self.rom_bank_number, self.ram_bank_number); }
        self.rom_bank_number | (self.ram_bank_number << 5)
    }

    /// The RAM bank mapped at 0xA000-0xBFFF.
    pub fn get_ram_bank(&self) -> (r: usize)
        requires
            self.wf(),
        ensures
            r == self.ram_bank_spec(),
            r < 4,
    {
        match self.banking_mode {
            BankingMode::Rom => 0,
            BankingMode::Ram => self.ram_bank_number,
        }
    }

    pub fn read(&self, addr: u16) -> (r: u8)
        requires
            self.wf(),
            self.read_ok(addr),
        ensures
            r == self.read_spec(addr),
    {
        if addr <= 0x3FFF {
            let bank: usize = self.get_lower_rom_bank();
            let new_addr: usize = self.get_rom_address(addr, bank);
            self.rom[new_addr]
        } else if addr <= 0x7FFF {
            let bank: usize = self.get_upper_rom_bank();
            let new_addr: usize = self.get_rom_address(addr, bank);
            self.rom[new_addr]
        } else {
            if self.ram.len() == 0 || !self.ram_enabled {
                return 0xFF;
            }
            let bank: usize = self.get_ram_bank();
            let ram_addr: usize = self.get_ram_address(addr, bank);
            self.ram[ram_addr]
        }
    }

    /// Register writes below 0x8000 select RAM enable, ROM bank, RAM bank and
    /// banking mode; writes to 0xA000-0xBFFF store into RAM when it is enabled.
    pub fn write(&mut self, addr: u16, value: u8)
        requires
            old(self).wf(),
            old(self).write_ok(addr),
        ensures
            final(self).wf(),
            mbc1_written(*old(self), *final(self), addr, value),
            0xA000 <= addr <= 0xBFFF && old(self).ram_enabled
                && old(self).ram_address_spec(addr, old(self).ram_bank_spec()) == (addr - 0xA000) + 0x2000 * old(self).ram_bank_number
                ==> final(self).read_spec(addr) == value,
    {
        if addr <= 0x1FFF {
            self.ram_enabled = value == 0xA;
        } else if addr <= 0x3FFF {
            if value == 0x0 {
                self.rom_bank_number = 0x1;
                return;
            } else if value == 0x20 {
                self.rom_bank_number = 0x21;
                return;
            } else if value == 0x40 {
                self.rom_bank_number = 0x41;
                return;
            } else if value == 0x60 {
                self.rom_bank_number = 0x61;
                return;
            }
            proof { assert(value & 0x1F == value % 32) by (bit_vector); }
            let rom_bank_bits: u8 = value & 0x1F;
            self.rom_bank_number = rom_bank_bits as usize;
        } else if addr <= 0x5FFF {
            let data: u8 = value & 0b11;
            self.ram_bank_number = data as usize;
        } else if addr <= 0x7FFF {
            proof { assert((value & 1 > 0) == (value % 2 == 1)) by (bit_vector); }
            self.banking_mode = if (value & 1) > 0 {
                BankingMode::Ram
            } else {
                BankingMode::Rom
            };
        } else {
            if !self.ram_enabled {
                return;
            }
            let offset_into_ram: usize = RAM_BANK_SIZE * self.ram_bank_number;
            let address_into_ram: usize = (addr - 0xA000) as usize + offset_into_ram;
            self.ram.set(address_into_ram, value);
        }
    }
}

} // verus!
