use rustboy::cartridge::cartridge_info::{ram_size, rom_size_as_str, u8_to_cart_type, CartridgeType};
use rustboy::cartridge::mbc1::{BankingMode, Mbc1State};
use rustboy::cartridge::mbc2::Mbc2State;
use rustboy::cartridge::mbc3::Mbc3State;
use rustboy::cartridge::mbc5::Mbc5;
use rustboy::cartridge::nombc::NoMbcState;
use rustboy::cartridge::{Cartridge, Mbc};
use rustboy::header;
use rustboy::header::CartridgeInfo;

/// Four 16 KiB banks, each marked with its number at offset 5.
fn banked_rom() -> Vec<u8> {
    let mut rom = vec![0u8; 0x10000];
    for bank in 0..4usize {
        rom[bank * 0x4000 + 5] = bank as u8;
    }
    rom
}

#[test]
fn no_mbc_reads_rom_and_ignores_writes() {
    let mut rom = vec![0u8; 0x8000];
    rom[0x100] = 0x42;
    let mut m = NoMbcState::new(&rom);
    assert_eq!(m.read(0x100), 0x42);
    assert_eq!(m.read(0xA000), 0xFF);
    m.write(0x100, 0x99);
    assert_eq!(m.read(0x100), 0x42);
}

#[test]
fn mbc1_rom_banking() {
    let rom = banked_rom();
    let ram = vec![0u8; 0x8000];
    let mut m = Mbc1State::new(&rom, &ram);
    assert_eq!(m.read(0x0005), 0);
    assert_eq!(m.read(0x4005), 1);
    m.write(0x2000, 2);
    assert_eq!(m.read(0x4005), 2);
    m.write(0x2000, 0);
    assert_eq!(m.rom_bank_number, 1);
    m.write(0x2000, 0x20);
    assert_eq!(m.rom_bank_number, 0x21);
    m.write(0x2000, 0x23);
    assert_eq!(m.rom_bank_number, 3);
    assert_eq!(m.read(0x4005), 3);
    assert_eq!(m.get_rom_address(0x4005, 2), 0x8005);
    assert_eq!(m.get_upper_rom_bank(), 3);
    assert_eq!(m.get_lower_rom_bank(), 0);
}

#[test]
fn mbc1_ram_banking() {
    let rom = banked_rom();
    let ram = vec![0u8; 0x8000];
    let mut m = Mbc1State::new(&rom, &ram);
    assert_eq!(m.read(0xA010), 0xFF);
    m.write(0xA010, 0x11);
    m.write(0x0000, 0x0A);
    assert!(m.ram_enabled);
    m.write(0xA010, 0x99);
    assert_eq!(m.ram[0x10], 0x99);
    assert_eq!(m.read(0xA010), 0x99);
    m.write(0x4000, 1);
    m.write(0xA010, 0x77);
    assert_eq!(m.ram[0x2010], 0x77);
    // in ROM banking mode the RAM bank register does not select RAM
    assert_eq!(m.read(0xA010), 0x99);
    m.write(0x6000, 1);
    assert!(m.banking_mode == BankingMode::Ram);
    assert_eq!(m.get_ram_bank(), 1);
    assert_eq!(m.get_ram_address(0xA010, 1), 0x2010);
    assert_eq!(m.read(0xA010), 0x77);
    m.write(0x2000, 3);
    assert_eq!(m.get_lower_rom_bank(), 32);
    assert_eq!(m.get_upper_rom_bank(), 35);
    assert_eq!(m.read(0x0005), 0);
    assert_eq!(m.read(0x4005), 3);
    m.write(0x0000, 0x00);
    assert_eq!(m.read(0xA010), 0xFF);
}

#[test]
fn mbc1_empty_sizes() {
    let m = Mbc1State::empty();
    assert_eq!(m.rom.len(), 0xFFFF);
    assert_eq!(m.ram.len(), 0x8000);
    assert_eq!(m.rom_bank_number, 1);
}

#[test]
fn mbc2_banking_and_nibble_ram() {
    let rom = banked_rom();
    let mut m = Mbc2State::new(&rom);
    assert_eq!(m.ram.len(), 512);
    assert_eq!(m.read(0x4005), 1);
    m.write(0x2100, 3);
    assert_eq!(m.read(0x4005), 3);
    m.write(0x2100, 0);
    assert_eq!(m.read(0x4005), 1);
    assert_eq!(m.read(0xA005), 0xFF);
    m.write(0x0000, 0x0A);
    m.write(0xA005, 0x3C);
    assert_eq!(m.ram[5], 0x0C);
    assert_eq!(m.read(0xA005), 0xFC);
    assert_eq!(m.read(0xA205), 0xFC);
    m.write(0x5000, 0x12);
    assert_eq!(m.read(0x4005), 1);
}

#[test]
fn mbc3_banking() {
    let rom = banked_rom();
    let ram = vec![0u8; 0x8000];
    let mut m = Mbc3State::new(&rom, &ram);
    m.write(0x2000, 3);
    assert_eq!(m.read(0x4005), 3);
    m.write(0x2000, 0);
    assert_eq!(m.read(0x4005), 1);
    assert_eq!(m.read(0xA001), 0xFF);
    m.write(0x0000, 0x1A);
    assert!(m.ram_enabled);
    m.write(0x4000, 2);
    m.write(0xA001, 0x55);
    assert_eq!(m.ram[0x4001], 0x55);
    assert_eq!(m.read(0xA001), 0x55);
    m.write(0x4000, 0x08);
    assert_eq!(m.ram_bank_number, 2);
    assert_eq!(m.read(0xA001), 0x55);
}

#[test]
fn mbc5_nine_bit_rom_bank() {
    let rom = banked_rom();
    let ram = vec![0u8; 0x8000];
    let mut m = Mbc5::new(&rom, &ram);
    assert_eq!(m.read(0x4005), 1);
    m.write(0x2000, 0x03);
    m.write(0x3000, 0x01);
    assert_eq!(m.rom_bank_number, 0x103);
    assert_eq!(m.read(0x4005), 3);
    m.write(0x0000, 0x0A);
    m.write(0x4000, 0x01);
    m.write(0xA002, 0x66);
    assert_eq!(m.ram[0x2002], 0x66);
    assert_eq!(m.read(0xA002), 0x66);
    m.write(0x0000, 0x00);
    assert_eq!(m.read(0xA002), 0xFF);
}

#[test]
fn cartridge_picks_controller() {
    let rom = banked_rom();
    let ram = vec![0u8; 0x2000];
    let c = Cartridge::new(&rom, &ram, &CartridgeType::MBC1RAM);
    assert!(matches!(c.mbc, Mbc::Mbc1(_)));
    let c = Cartridge::new(&rom, &ram, &CartridgeType::MBC2Battery);
    assert!(matches!(c.mbc, Mbc::Mbc2(_)));
    let c = Cartridge::new(&rom, &ram, &CartridgeType::MBC3TimerRAMBattery);
    assert!(matches!(c.mbc, Mbc::Mbc3(_)));
    let c = Cartridge::new(&rom, &ram, &CartridgeType::MBC5Rumble);
    assert!(matches!(c.mbc, Mbc::Mbc5(_)));
    let c = Cartridge::new(&rom, &ram, &CartridgeType::MMM01);
    assert!(matches!(c.mbc, Mbc::NoMbc(_)));
    assert!(c.cartridge_type == CartridgeType::ROMOnly);
    assert!(!c.valid_checksum);
    let e = Cartridge::empty();
    assert!(e.title.is_empty());
}

#[test]
fn cartridge_bus_reads_and_writes() {
    let rom = banked_rom();
    let ram = vec![0u8; 0x2000];
    let mut c = Cartridge::new(&rom, &ram, &CartridgeType::MBC1);
    assert!(c.mbc.can_read(0x4005));
    assert_eq!(c.mbc.read(0x4005), 1);
    c.mbc.write(0x2000, 2);
    assert_eq!(c.mbc.read(0x4005), 2);
}

#[test]
fn cartridge_header_checksum() {
    let mut rom = vec![0u8; 0x8000];
    rom[0x14D] = 0x07;
    let mut c = Cartridge::new(&rom, &vec![], &CartridgeType::ROMOnly);
    assert!(c.checksum());
    assert!(c.valid_checksum);
    rom[0x14D] = 0x17;
    let mut c = Cartridge::new(&rom, &vec![], &CartridgeType::ROMOnly);
    assert!(c.checksum());
    rom[0x14D] = 0x08;
    let mut c = Cartridge::new(&rom, &vec![], &CartridgeType::ROMOnly);
    assert!(!c.checksum());
    assert!(!c.valid_checksum);
}

#[test]
fn header_info_tables() {
    assert_eq!(ram_size(0), 0);
    assert_eq!(ram_size(1), 0);
    assert_eq!(ram_size(2), 0x2000);
    assert_eq!(ram_size(3), 0x8000);
    assert_eq!(ram_size(4), 0x20000);
    assert_eq!(ram_size(5), 0x10000);
    assert_eq!(rom_size_as_str(0), "32 KiB");
    assert_eq!(rom_size_as_str(5), "1 MiB");
    assert_eq!(rom_size_as_str(0x54), "1.5 MiB");
    assert!(u8_to_cart_type(0x13) == CartridgeType::MBC3RAMBattery);
    assert!(u8_to_cart_type(0x00) == CartridgeType::ROMOnly);
    assert!(u8_to_cart_type(0x1E) == CartridgeType::MBC5RumbleRAMBattery);
}

#[test]
fn draft_header_checksum_and_kind() {
    let mut rom = vec![0u8; 0x150];
    rom[0x134] = b'a';
    let info = CartridgeInfo::new();
    // 0 - (0x61 + 1) - 24 * 1, wrapped
    assert_eq!(info.calc_header_checksum(rom.clone()), 0u8.wrapping_sub(0x62).wrapping_sub(24));
    let zeros = vec![0u8; 0x150];
    assert_eq!(info.calc_header_checksum(zeros), 0xE7);
    let mut info = CartridgeInfo::new();
    rom[0x147] = 0x13;
    info.cartridge_type(rom.clone());
    assert!(info.cartridge_type == header::CartridgeType::Mbc3WithRamAndBattery2);
    rom[0x148] = 5;
    info.rom_size(rom.clone());
    assert_eq!(info.rom_size, 1024);
    assert_eq!(info.logo.len(), 48);
}

#[test]
fn draft_header_title_upper_cased() {
    let mut rom = vec![0u8; 0x150];
    for (i, b) in b"tetris".iter().enumerate() {
        rom[0x134 + i] = *b;
    }
    rom[0x13A] = b'-';
    rom[0x13B] = b'2';
    let mut info = CartridgeInfo::new();
    info.title(rom);
    assert_eq!(info.title, "TETRIS-2");
}

#[test]
fn draft_cartridge_type_codes() {
    assert!(header::u8_to_cartridge_type(0x00) == Some(header::CartridgeType::RomOnly));
    assert!(header::u8_to_cartridge_type(0x22) == Some(header::CartridgeType::Mbc7WithSensorRumbleRamAndBattery));
    assert!(header::u8_to_cartridge_type(0xFF) == Some(header::CartridgeType::HuC1WithRamAndBattery));
    assert!(header::u8_to_cartridge_type(0x04).is_none());
    assert!(header::u8_to_cartridge_type(0x21).is_none());
    let c = header::Cartridge::new();
    assert!(c.rom.is_empty());
}

#[test]
fn cart_type_codes_decode() {
    assert!(u8_to_cart_type(0x01) == CartridgeType::MBC1);
    assert!(u8_to_cart_type(0x06) == CartridgeType::MBC2Battery);
    assert!(u8_to_cart_type(0x13) == CartridgeType::MBC3RAMBattery);
    assert!(u8_to_cart_type(0x1B) == CartridgeType::MBC5RAMBattery);
}
