pub mod cartridge_info;
pub mod mbc1;
pub mod mbc2;
pub mod mbc3;
pub mod mbc5;
pub mod nombc;

use vstd::prelude::*;
use self::cartridge_info::{CartridgeType, cart_type_code};
use self::mbc1::Mbc1State;
use self::mbc2::Mbc2State;
use self::mbc3::Mbc3State;
use self::mbc5::Mbc5;
use self::nombc::NoMbcState;

verus! {

/// The bank controller of a cartridge, with its ROM and RAM.
pub enum Mbc {
    NoMbc(NoMbcState),
    Mbc1(Mbc1State),
    Mbc2(Mbc2State),
    Mbc3(Mbc3State),
    Mbc5(Mbc5),
}

/// The controller set that the cartridge constructor also knows by this name.
pub type TestMbc = Mbc;

impl Mbc {
    pub open spec fn wf(&self) -> bool {
        match self {
            Mbc::NoMbc(_) => true,
            Mbc::Mbc1(m) => m.wf(),
            Mbc::Mbc2(m) => m.wf(),
            Mbc::Mbc3(m) => m.wf(),
            Mbc::Mbc5(m) => m.wf(),
        }
    }

    /// A read of `addr` stays in bounds.
    pub open spec fn read_ok(&self, addr: u16) -> bool {
        match self {
            Mbc::NoMbc(m) => m.read_ok(addr),
            Mbc::Mbc1(m) => m.read_ok(addr),
            Mbc::Mbc2(m) => m.read_ok(addr),
            Mbc::Mbc3(m) => m.read_ok(addr),
            Mbc::Mbc5(m) => m.read_ok(addr),
        }
    }

    /// A write to `addr` stays in bounds.
    pub open spec fn write_ok(&self, addr: u16) -> bool {
        match self {
            Mbc::NoMbc(_) => true,
            Mbc::Mbc1(m) => m.write_ok(addr),
            Mbc::Mbc2(m) => m.write_ok(addr),
            Mbc::Mbc3(m) => m.write_ok(addr),
            Mbc::Mbc5(m) => m.write_ok(addr),
        }
    }

    /// What a read of `addr` gives.
    pub open spec fn read_spec(&self, addr: u16) -> u8 {
        match self {
            Mbc::NoMbc(m) => if addr < 0x8000 { m.rom@[addr as int] } else { 0xFF },
            Mbc::Mbc1(m) => m.read_spec(addr),
            Mbc::Mbc2(m) => m.read_spec(addr),
            Mbc::Mbc3(m) => m.read_spec(addr),
            Mbc::Mbc5(m) => m.read_spec(addr),
        }
    }

    /// Tells whether a read of `addr` stays in bounds.
    pub fn can_read(&self, addr: u16) -> (r: bool)
        ensures
            r == self.read_ok(addr),
    {
        match self {
            Mbc::NoMbc(m) => addr >= 0x8000 || (addr as usize) < m.rom.len(),
            Mbc::Mbc1(m) => (addr <= 0x7FFF || (0xA000 <= addr && addr <= 0xBFFF)) && m.rom.len() > 0
               ,
            Mbc::Mbc2(m) => (addr <= 0x7FFF || (0xA000 <= addr && addr <= 0xBFFF))
                && (addr > 0x3FFF || (addr as usize) < m.rom.len())
                && (!(0x4000 <= addr && addr <= 0x7FFF) || (m.rom.len() > 0)),
            Mbc::Mbc3(m) => (addr <= 0x7FFF || (0xA000 <= addr && addr <= 0xBFFF))
                && (addr > 0x3FFF || (addr as usize) < m.rom.len())
                && (!(0x4000 <= addr && addr <= 0x7FFF) || (m.rom.len() > 0))
                && (!(0xA000 <= addr && m.ram_enabled) || (m.ram.len() > 0)),
            Mbc::Mbc5(m) => (addr > 0x3FFF || (addr as usize) < m.rom.len())
                && (!(0x4000 <= addr && addr <= 0x7FFF) || (m.rom.len() > 0))
                && (!(0xA000 <= addr && addr <= 0xBFFF && m.ram_enabled) || (m.ram.len() > 0
               )),
        }
    }

    /// Tells whether a write to `addr` stays in bounds.
    pub fn can_write(&self, addr: u16) -> (r: bool)
        requires
            self.wf(),
        ensures
            r == self.write_ok(addr),
    {
        match self {
            Mbc::NoMbc(_) => true,
            Mbc::Mbc1(m) => addr <= 0x7FFF || (0xA000 <= addr && addr <= 0xBFFF && (!m.ram_enabled
                || ((addr - 0xA000) as usize) + 0x2000 * m.ram_bank_number < m.ram.len())),
            Mbc::Mbc2(_) => addr <= 0x7FFF || (0xA000 <= addr && addr <= 0xBFFF),
            Mbc::Mbc3(m) => (addr <= 0x7FFF || (0xA000 <= addr && addr <= 0xBFFF))
                && (!(0xA000 <= addr && m.ram_enabled) || (m.ram.len() > 0)),
            Mbc::Mbc5(m) => !(0xA000 <= addr && addr <= 0xBFFF && m.ram_enabled) || (m.ram.len() > 0
               ),
        }
    }

    /// Reads through the controller.
    pub fn read(&self, addr: u16) -> (r: u8)
        requires
            self.wf(),
            self.read_ok(addr),
        ensures
            r == self.read_spec(addr),
    {
        match self {
            Mbc::NoMbc(mbc) => mbc.read(addr),
            Mbc::Mbc1(mbc) => mbc.read(addr),
            Mbc::Mbc2(mbc) => mbc.read(addr),
            Mbc::Mbc3(mbc) => mbc.read(addr),
            Mbc::Mbc5(mbc) => mbc.read(addr),
        }
    }

    /// Writes through the controller: it stays the same kind of controller,
    /// its ROM is never changed, and its registers and RAM change as that
    /// controller's write does (a cartridge without one ignores writes).
    pub fn write(&mut self, addr: u16, value: u8)
        requires
            old(self).wf(),
            old(self).write_ok(addr),
        ensures
            final(self).wf(),
            mbc_written(*old(self), *final(self), addr, value),
    {
        match self {
            Mbc::NoMbc(mbc) => mbc.write(addr, value),
            Mbc::Mbc1(mbc) => mbc.write(addr, value),
            Mbc::Mbc2(mbc) => mbc.write(addr, value),
            Mbc::Mbc3(mbc) => mbc.write(addr, value),
            Mbc::Mbc5(mbc) => mbc.write(addr, value),
        }
    }
}

/// The controller `m1` is `m0` after a write of `value` to `addr`: the same
/// kind of controller, changed as that controller's write changes it.
pub open spec fn mbc_written(m0: Mbc, m1: Mbc, addr: u16, value: u8) -> bool {
    match (m0, m1) {
        (Mbc::NoMbc(a), Mbc::NoMbc(b)) => a == b,
        (Mbc::Mbc1(a), Mbc::Mbc1(b)) => mbc1::mbc1_written(a, b, addr, value),
        (Mbc::Mbc2(a), Mbc::Mbc2(b)) => mbc2::mbc2_written(a, b, addr, value),
        (Mbc::Mbc3(a), Mbc::Mbc3(b)) => mbc3::mbc3_written(a, b, addr, value),
        (Mbc::Mbc5(a), Mbc::Mbc5(b)) => mbc5::mbc5_written(a, b, addr, value),
        _ => false,
    }
}

/// The controller a cartridge type calls for.
pub open spec fn mbc_kind(t: CartridgeType) -> int {
    match t {
        CartridgeType::MBC1 | CartridgeType::MBC1RAM | CartridgeType::MBC1RAMBattery => 1,
        CartridgeType::MBC2 | CartridgeType::MBC2Battery => 2,
        CartridgeType::MBC3 | CartridgeType::MBC3RAM | CartridgeType::MBC3RAMBattery
        | CartridgeType::MBC3TimerBattery | CartridgeType::MBC3TimerRAMBattery => 3,
        CartridgeType::MBC5 | CartridgeType::MBC5RAM | CartridgeType::MBC5RAMBattery
        | CartridgeType::MBC5Rumble | CartridgeType::MBC5RumbleRAM | CartridgeType::MBC5RumbleRAMBattery => 5,
        _ => 0,
    }
}

/// The sum the header checksum is computed from: each byte of 0x134 up to
/// (not including) `end`, plus one, subtracted from zero.
pub open spec fn header_sum(mbc: Mbc, end: int) -> int
    decreases end - 0x134,
{
    if end <= 0x134 {
        0
    } else {
        header_sum(mbc, end - 1) - mbc.read_spec((end - 1) as u16) - 1
    }
}

/// A game cartridge.
pub struct Cartridge {
    pub title: String,
    pub cartridge_type: CartridgeType,
    pub valid_checksum: bool,
    pub mbc: Mbc,
}

impl Cartridge {
    /// A cartridge with no ROM at all.
    pub fn empty() -> (c: Cartridge)
        ensures
            c.title@ == Seq::<char>::empty(),
            c.cartridge_type == CartridgeType::ROMOnly,
            !c.valid_checksum,
            c.mbc matches Mbc::NoMbc(m) && m.rom@.len() == 0,
            c.mbc.wf(),
    {
        let none: [u8; 0] = [];
        Cartridge {
            title: String::new(),
            cartridge_type: CartridgeType::ROMOnly,
            valid_checksum: false,
            mbc: Mbc::NoMbc(NoMbcState::new(&none)),
        }
    }

    /// A cartridge holding `rom` and `ram` behind the controller that
    /// `cart_type` calls for (none for the types without one).
    pub fn new(rom: &Vec<u8>, ram: &Vec<u8>, cart_type: &CartridgeType) -> (c: Cartridge)
        ensures
            c.mbc.wf(),
            c.title@ == Seq::<char>::empty(),
            c.cartridge_type == CartridgeType::ROMOnly,
            !c.valid_checksum,
            mbc_kind(*cart_type) == 0 ==> (c.mbc matches Mbc::NoMbc(m) && m.rom@ == rom@),
            mbc_kind(*cart_type) == 1 ==> (c.mbc matches Mbc::Mbc1(m) && m.rom@ == rom@ && m.ram@ == ram@
                && m.rom_bank_number == 1 && m.ram_bank_number == 0 && !m.ram_enabled
                && m.banking_mode == mbc1::BankingMode::Rom),
            mbc_kind(*cart_type) == 2 ==> (c.mbc matches Mbc::Mbc2(m) && m.rom@ == rom@
                && m.ram@ == Seq::new(512, |i: int| 0u8) && m.rom_bank_number == 1 && !m.ram_enabled),
            mbc_kind(*cart_type) == 3 ==> (c.mbc matches Mbc::Mbc3(m) && m.rom@ == rom@ && m.ram@ == ram@
                && m.rom_bank_number == 1 && m.ram_bank_number == 0 && !m.ram_enabled),
            mbc_kind(*cart_type) == 5 ==> (c.mbc matches Mbc::Mbc5(m) && m.rom@ == rom@ && m.ram@ == ram@
                && m.rom_bank_number == 1 && m.ram_bank_number == 0 && !m.ram_enabled),
            ({
                let code = cart_type_code(*cart_type);
                &&& 0x01 <= code <= 0x03 <==> c.mbc is Mbc1
                &&& (code == 0x05 || code == 0x06) <==> c.mbc is Mbc2
                &&& 0x0F <= code <= 0x13 <==> c.mbc is Mbc3
                &&& 0x19 <= code <= 0x1E <==> c.mbc is Mbc5
                &&& (code == 0x00 || code == 0x08 || code == 0x09 || 0x0B <= code <= 0x0D) <==> c.mbc is NoMbc
            }),
    {
        let mbc_test: Mbc = match cart_type {
            CartridgeType::MBC1 | CartridgeType::MBC1RAM | CartridgeType::MBC1RAMBattery =>
                Mbc::Mbc1(Mbc1State::new(rom.as_slice(), ram.as_slice())),
            CartridgeType::MBC2 | CartridgeType::MBC2Battery => Mbc::Mbc2(Mbc2State::new(rom.as_slice())),
            CartridgeType::MBC3 | CartridgeType::MBC3RAM | CartridgeType::MBC3RAMBattery
            | CartridgeType::MBC3TimerBattery | CartridgeType::MBC3TimerRAMBattery =>
                Mbc::Mbc3(Mbc3State::new(rom.as_slice(), ram.as_slice())),
            CartridgeType::MBC5 | CartridgeType::MBC5RAM | CartridgeType::MBC5RAMBattery
            | CartridgeType::MBC5Rumble | CartridgeType::MBC5RumbleRAM | CartridgeType::MBC5RumbleRAMBattery =>
                Mbc::Mbc5(Mbc5::new(rom.as_slice(), ram.as_slice())),
            _ => Mbc::NoMbc(NoMbcState::new(rom.as_slice())),
        };
        Cartridge {
            title: String::new(),
            cartridge_type: CartridgeType::ROMOnly,
            valid_checksum: false,
            mbc: mbc_test,
        }
    }

    /// Checks the header checksum: 0 minus each byte of 0x134-0x14C minus one,
    /// compared with byte 0x14D on the low four bits. Stores and returns the result.
    pub fn checksum(&mut self) -> (r: bool)
        requires
            old(self).mbc.wf(),
            forall|a: u16| 0x134 <= a <= 0x14D ==> old(self).mbc.read_ok(a),
        ensures
            r == (header_sum(old(self).mbc, 0x14D) % 16 == old(self).mbc.read_spec(0x14D) % 16),
            final(self).valid_checksum == r,
            final(self).mbc == old(self).mbc,
            final(self).title == old(self).title,
            final(self).cartridge_type == old(self).cartridge_type,
    {
        let mut check_sum: i16 = 0;
        let mut addr: u16 = 0x134;
        while addr <= 0x14C
            invariant
                0x134 <= addr <= 0x14D,
                self.mbc.wf(),
                forall|a: u16| 0x134 <= a <= 0x14D ==> self.mbc.read_ok(a),
                check_sum as int == header_sum(self.mbc, addr as int),
                -6700 <= check_sum <= 0,
            decreases 0x14D - addr,
        {
            let byte: u8 = self.mbc.read(addr);
            assert(header_sum(self.mbc, addr + 1) == header_sum(self.mbc, addr as int) - byte - 1);
            assert(header_sum(self.mbc, addr as int) >= -(addr - 0x134) * 256) by {
                lemma_header_sum_bound(self.mbc, addr as int);
            }
            check_sum = check_sum - (byte as i16) - 1;
            addr = addr + 1;
        }
        let last: u8 = self.mbc.read(0x14D);
        let low_sum: i16 = check_sum % 16;
        let low_sum: i16 = if low_sum < 0 { low_sum + 16 } else { low_sum };
        self.valid_checksum = low_sum == (last % 16) as i16;
        self.valid_checksum
    }
}

/// The header sum loses at most 256 per byte.
pub proof fn lemma_header_sum_bound(mbc: Mbc, end: int)
    requires
        end >= 0x134,
    ensures
        header_sum(mbc, end) >= -(end - 0x134) * 256,
        header_sum(mbc, end) <= 0,
    decreases end - 0x134,
{
    if end > 0x134 {
        lemma_header_sum_bound(mbc, end - 1);
    }
}

} // verus!
