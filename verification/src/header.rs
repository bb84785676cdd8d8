use vstd::prelude::*;
use vstd::arithmetic::power2::{lemma2_to64, lemma_pow2_strictly_increases, pow2};
use vstd::bits::lemma_u32_shl_is_mul;

verus! {

/// The kinds of cartridge that header byte 0x147 names.
#[derive(Debug, Clone, Copy, PartialEq, Eq, Structural)]
pub enum CartridgeType {
    RomOnly,
    Mbc1,
    Mbc1WithRam,
    Mbc1WithRamAndBattery,
    Mbc2,
    Mbc2WithBattery,
    RomWithRam1,
    RomWithRamAndBattery1,
    Mmm01,
    Mmm01WithRam,
    Mmm01WithRamAndBattery,
    Mbc3WithTimerAndBattery,
    Mbc3WithTimerRamAndBattery2,
    Mbc3,
    Mbc3WithRam2,
    Mbc3WithRamAndBattery2,
    Mbc5,
    Mbc5WithRam,
    Mbc5WithRamAndBattery,
    Mbc5WithRumble,
    Mbc5WithRumbleAndRam,
    Mbc5WithRumbleRamAndBattery,
    Mbc6,
    Mbc7WithSensorRumbleRamAndBattery,
    PocketCamera,
    BandaiTama5,
    HuC3,
    HuC1WithRamAndBattery,
}

/// The header code of each kind of cartridge.
pub open spec fn type_code(t: CartridgeType) -> u8 {
    match t {
        CartridgeType::RomOnly => 0x00,
        CartridgeType::Mbc1 => 0x01,
        CartridgeType::Mbc1WithRam => 0x02,
        CartridgeType::Mbc1WithRamAndBattery => 0x03,
        CartridgeType::Mbc2 => 0x05,
        CartridgeType::Mbc2WithBattery => 0x06,
        CartridgeType::RomWithRam1 => 0x08,
        CartridgeType::RomWithRamAndBattery1 => 0x09,
        CartridgeType::Mmm01 => 0x0B,
        CartridgeType::Mmm01WithRam => 0x0C,
        CartridgeType::Mmm01WithRamAndBattery => 0x0D,
        CartridgeType::Mbc3WithTimerAndBattery => 0x0F,
        CartridgeType::Mbc3WithTimerRamAndBattery2 => 0x10,
        CartridgeType::Mbc3 => 0x11,
        CartridgeType::Mbc3WithRam2 => 0x12,
        CartridgeType::Mbc3WithRamAndBattery2 => 0x13,
        CartridgeType::Mbc5 => 0x19,
        CartridgeType::Mbc5WithRam => 0x1A,
        CartridgeType::Mbc5WithRamAndBattery => 0x1B,
        CartridgeType::Mbc5WithRumble => 0x1C,
        CartridgeType::Mbc5WithRumbleAndRam => 0x1D,
        CartridgeType::Mbc5WithRumbleRamAndBattery => 0x1E,
        CartridgeType::Mbc6 => 0x20,
        CartridgeType::Mbc7WithSensorRumbleRamAndBattery => 0x22,
        CartridgeType::PocketCamera => 0xFC,
        CartridgeType::BandaiTama5 => 0xFD,
        CartridgeType::HuC3 => 0xFE,
        CartridgeType::HuC1WithRamAndBattery => 0xFF,
    }
}

/// The kind of cartridge whose code is `value`, if some kind has it.
pub fn u8_to_cartridge_type(value: u8) -> (r: Option<CartridgeType>)
    ensures
        r matches Some(t) ==> type_code(t) == value,
        r is None ==> forall|t: CartridgeType| type_code(t) != value,
{
    match value {
        0x00 => Some(CartridgeType::RomOnly),
        0x01 => Some(CartridgeType::Mbc1),
        0x02 => Some(CartridgeType::Mbc1WithRam),
        0x03 => Some(CartridgeType::Mbc1WithRamAndBattery),
        0x05 => Some(CartridgeType::Mbc2),
        0x06 => Some(CartridgeType::Mbc2WithBattery),
        0x08 => Some(CartridgeType::RomWithRam1),
        0x09 => Some(CartridgeType::RomWithRamAndBattery1),
        0x0B => Some(CartridgeType::Mmm01),
        0x0C => Some(CartridgeType::Mmm01WithRam),
        0x0D => Some(CartridgeType::Mmm01WithRamAndBattery),
        0x0F => Some(CartridgeType::Mbc3WithTimerAndBattery),
        0x10 => Some(CartridgeType::Mbc3WithTimerRamAndBattery2),
        0x11 => Some(CartridgeType::Mbc3),
        0x12 => Some(CartridgeType::Mbc3WithRam2),
        0x13 => Some(CartridgeType::Mbc3WithRamAndBattery2),
        0x19 => Some(CartridgeType::Mbc5),
        0x1A => Some(CartridgeType::Mbc5WithRam),
        0x1B => Some(CartridgeType::Mbc5WithRamAndBattery),
        0x1C => Some(CartridgeType::Mbc5WithRumble),
        0x1D => Some(CartridgeType::Mbc5WithRumbleAndRam),
        0x1E => Some(CartridgeType::Mbc5WithRumbleRamAndBattery),
        0x20 => Some(CartridgeType::Mbc6),
        0x22 => Some(CartridgeType::Mbc7WithSensorRumbleRamAndBattery),
        0xFC => Some(CartridgeType::PocketCamera),
        0xFD => Some(CartridgeType::BandaiTama5),
        0xFE => Some(CartridgeType::HuC3),
        0xFF => Some(CartridgeType::HuC1WithRamAndBattery),
        _ => None,
    }
}

/// Every header code names at most one kind of cartridge.
pub proof fn lemma_type_code_injective(s: CartridgeType, t: CartridgeType)
    requires
        type_code(s) == type_code(t),
    ensures
        s == t,
{
}

/// `0 - (rom[0x134] + 1) - ... - (rom[end - 1] + 1)`: the header checksum
/// before it is taken modulo 256.
pub open spec fn header_running_sum(rom: Seq<u8>, end: int) -> int
    decreases end - 0x134,
{
    if end <= 0x134 {
        0
    } else {
        header_running_sum(rom, end - 1) - rom[end - 1] - 1
    }
}

/// The header checksum of a ROM: bytes 0x134..=0x14C, each plus one,
/// subtracted from zero modulo 256.
pub open spec fn header_checksum(rom: Seq<u8>) -> u8 {
    (header_running_sum(rom, 0x14D) % 256) as u8
}

/// The characters of the title bytes `rom[0x134..end]`, upper-cased, with
/// NUL bytes left out.
pub open spec fn title_chars(rom: Seq<u8>, end: int) -> Seq<char>
    decreases end - 0x134,
{
    if end <= 0x134 {
        Seq::empty()
    } else {
        let b = upper(rom[end - 1]);
        let rest = title_chars(rom, end - 1);
        if b == 0 { rest } else { rest.push(b as char) }
    }
}

/// A byte with an ASCII lower-case letter made upper-case.
pub open spec fn upper(b: u8) -> u8 {
    if 0x61 <= b <= 0x7A { (b - 32) as u8 } else { b }
}

/// Upper-cases an ASCII letter, leaving every other byte as it is.
fn ascii_upper(b: u8) -> (r: u8)
    ensures
        r == upper(b),
{
    if 0x61 <= b && b <= 0x7A { b - 32 } else { b }
}

/// Appends a character to a string by `String::push`, which vstd gives no
/// contract. Trusted, not proved: the string's characters afterwards are the
/// characters before followed by `c`, as the standard library documents.
#[verifier::external_body]
fn push_char(s: &mut String, c: char)
    ensures
        final(s)@ == old(s)@.push(c),
{
    s.push(c);
}

/// A cartridge: its header information, ROM and RAM.
pub struct Cartridge {
    pub cartridge_info: CartridgeInfo,
    pub rom: Vec<u8>,
    pub ram: Vec<u8>,
}

impl Cartridge {
    /// A cartridge with empty header information and no ROM or RAM.
    pub fn new() -> (c: Cartridge)
        ensures
            c.cartridge_info.title@ == Seq::<char>::empty(),
            c.cartridge_info.cartridge_type == CartridgeType::RomOnly,
            c.cartridge_info.rom_size == 0 && c.cartridge_info.ram_size == 0,
            c.cartridge_info.logo@ == Seq::new(48, |i: int| 0u8),
            c.rom@ == Seq::<u8>::empty() && c.ram@ == Seq::<u8>::empty(),
    {
        Cartridge { cartridge_info: CartridgeInfo::new(), rom: Vec::new(), ram: Vec::new() }
    }
}

/// What a cartridge header says: logo, title, kind, ROM size in KiB and RAM size code.
pub struct CartridgeInfo {
    pub logo: Vec<u8>,
    pub title: String,
    pub cartridge_type: CartridgeType,
    pub rom_size: u32,
    pub ram_size: u8,
}

impl CartridgeInfo {
    /// Header information before any header is read.
    pub fn new() -> (c: CartridgeInfo)
        ensures
            c.title@ == Seq::<char>::empty(),
            c.cartridge_type == CartridgeType::RomOnly,
            c.rom_size == 0 && c.ram_size == 0,
            c.logo@ == Seq::new(48, |i: int| 0u8),
    {
        let mut logo: Vec<u8> = Vec::new();
        while logo.len() < 48
            invariant
                logo.len() <= 48,
                forall|i: int| 0 <= i < logo.len() ==> logo@[i] == 0,
            decreases 48 - logo.len(),
        {
            logo.push(0);
        }
        assert(logo@ =~= Seq::new(48, |i: int| 0u8));
        CartridgeInfo {
            logo: logo,
            title: String::new(),
            cartridge_type: CartridgeType::RomOnly,
            rom_size: 0,
            ram_size: 0,
        }
    }

    /// The header checksum of `rom`: bytes 0x134..=0x14C, each plus one,
    /// subtracted from zero with wrapping.
    pub fn calc_header_checksum(&self, rom: Vec<u8>) -> (r: u8)
        requires
            rom.len() > 0x14C,
        ensures
            r == header_checksum(rom@),
    {
        let mut checksum: u8 = 0;
        let mut address: usize = 0x134;
        while address <= 0x14C
            invariant
                0x134 <= address <= 0x14D,
                rom.len() > 0x14C,
                checksum as int == header_running_sum(rom@, address as int) % 256,
            decreases 0x14D - address,
        {
            let byte: u8 = rom[address];
            assert(header_running_sum(rom@, address + 1) == header_running_sum(rom@, address as int) - byte - 1);
            checksum = checksum.wrapping_sub(byte).wrapping_sub(1);
            address = address + 1;
        }
        checksum
    }

    /// Reads the kind of cartridge from header byte 0x147.
    pub fn cartridge_type(&mut self, rom: Vec<u8>)
        requires
            rom.len() > 0x147,
            exists|t: CartridgeType| type_code(t) == rom[0x147],
        ensures
            type_code(final(self).cartridge_type) == rom[0x147],
            final(self).title == old(self).title && final(self).logo == old(self).logo,
            final(self).rom_size == old(self).rom_size && final(self).ram_size == old(self).ram_size,
    {
        let t: Option<CartridgeType> = u8_to_cartridge_type(rom[0x147]);
        match t {
            Some(kind) => {
                self.cartridge_type = kind;
            },
            None => {},
        }
    }

    /// Reads the ROM size from header byte 0x148: 32 KiB times 2 to its power.
    pub fn rom_size(&mut self, rom: Vec<u8>)
        requires
            rom.len() > 0x148,
            rom[0x148] < 27,
        ensures
            final(self).rom_size == 32 * pow2(rom[0x148] as nat),
            final(self).title == old(self).title && final(self).logo == old(self).logo,
            final(self).cartridge_type == old(self).cartridge_type && final(self).ram_size == old(self).ram_size,
    {
        let k: u8 = rom[0x148];
        proof {
            lemma_pow2_strictly_increases(k as nat, 27);
            lemma2_to64();
            lemma_u32_shl_is_mul(1, k as u32);
        }
        let shifted: u32 = 1u32 << (k as u32);
        self.rom_size = 32 * shifted;
    }

    /// Appends the title of header bytes 0x134..0x144, upper-cased and
    /// without NUL bytes, to the title held.
    pub fn title(&mut self, rom: Vec<u8>)
        requires
            rom.len() >= 0x144,
        ensures
            final(self).title@ == old(self).title@ + title_chars(rom@, 0x144),
            final(self).cartridge_type == old(self).cartridge_type && final(self).logo == old(self).logo,
            final(self).rom_size == old(self).rom_size && final(self).ram_size == old(self).ram_size,
    {
        let mut i: usize = 0;
        while i < 16
            invariant
                i <= 16,
                rom.len() >= 0x144,
                self.title@ == old(self).title@ + title_chars(rom@, 0x134 + i),
                self.cartridge_type == old(self).cartridge_type && self.logo == old(self).logo,
                self.rom_size == old(self).rom_size && self.ram_size == old(self).ram_size,
            decreases 16 - i,
        {
            let b: u8 = ascii_upper(rom[0x134 + i]);
            let ch: char = b as char;
            if ch != '\0' {
                push_char(&mut self.title, ch);
            }
            assert(self.title@ =~= old(self).title@ + title_chars(rom@, 0x134 + i + 1));
            i = i + 1;
        }
    }
}

} // verus!
