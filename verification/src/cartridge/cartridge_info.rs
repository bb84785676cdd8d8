use vstd::prelude::*;

verus! {

/// The human-readable ROM size a header byte 0x148 stands for.
pub fn rom_size_as_str(value: u8) -> (r: &'static str)
    requires
        value <= 0x08 || 0x52 <= value <= 0x54,
    ensures
        value == 0x00 ==> r@ == "32 KiB"@,
        value == 0x01 ==> r@ == "64 KiB"@,
        value == 0x02 ==> r@ == "128 KiB"@,
        value == 0x03 ==> r@ == "256 KiB"@,
        value == 0x04 ==> r@ == "512 KiB"@,
        value == 0x05 ==> r@ == "1 MiB"@,
        value == 0x06 ==> r@ == "2 MiB"@,
        value == 0x07 ==> r@ == "4 MiB"@,
        value == 0x08 ==> r@ == "8 MiB"@,
        value == 0x52 ==> r@ == "1.1 MiB"@,
        value == 0x53 ==> r@ == "1.2 MiB"@,
        value == 0x54 ==> r@ == "1.5 MiB"@,
{
    match value {
        0x00 => "32 KiB",
        0x01 => "64 KiB",
        0x02 => "128 KiB",
        0x03 => "256 KiB",
        0x04 => "512 KiB",
        0x05 => "1 MiB",
        0x06 => "2 MiB",
        0x07 => "4 MiB",
        0x08 => "8 MiB",
        0x52 => "1.1 MiB",
        0x53 => "1.2 MiB",
        _ => "1.5 MiB",
    }
}

/// The cartridge RAM size, in bytes, that a header byte 0x149 stands for.
pub open spec fn ram_size_spec(value: u8) -> usize {
    if value == 0x02 {
        0x2000
    } else if value == 0x03 {
        0x8000
    } else if value == 0x04 {
        0x20000
    } else if value == 0x05 {
        0x10000
    } else {
        0
    }
}

/// The cartridge RAM size, in bytes, for header byte 0x149.
pub fn ram_size(value: u8) -> (r: usize)
    requires
        value <= 0x05,
    ensures
        r == ram_size_spec(value),
{
    match value {
        0x00 => 0,
        0x01 => 0,
        0x02 => 0x2000,
        0x03 => 0x8000,
        0x04 => 0x20000,
        _ => 0x10000,
    }
}

/// The kinds of cartridge a header byte 0x147 names.
#[derive(Debug, Clone, Copy, PartialEq, Eq, Structural)]
pub enum CartridgeType {
    ROMOnly,
    MBC1,
    MBC1RAM,
    MBC1RAMBattery,
    MBC2,
    MBC2Battery,
    ROMRAM1,
    ROMRAMBattery1,
    MMM01,
    MMM01RAM,
    MMM01RAMBattery,
    MBC3TimerBattery,
    MBC3TimerRAMBattery,
    MBC3,
    MBC3RAM,
    MBC3RAMBattery,
    MBC5,
    MBC5RAM,
    MBC5RAMBattery,
    MBC5Rumble,
    MBC5RumbleRAM,
    MBC5RumbleRAMBattery,
}

/// The header byte 0x147 that names cartridge type `t`.
pub open spec fn cart_type_code(t: CartridgeType) -> u8 {
    match t {
        CartridgeType::ROMOnly => 0x00,
        CartridgeType::MBC1 => 0x01,
        CartridgeType::MBC1RAM => 0x02,
        CartridgeType::MBC1RAMBattery => 0x03,
        CartridgeType::MBC2 => 0x05,
        CartridgeType::MBC2Battery => 0x06,
        CartridgeType::ROMRAM1 => 0x08,
        CartridgeType::ROMRAMBattery1 => 0x09,
        CartridgeType::MMM01 => 0x0B,
        CartridgeType::MMM01RAM => 0x0C,
        CartridgeType::MMM01RAMBattery => 0x0D,
        CartridgeType::MBC3TimerBattery => 0x0F,
        CartridgeType::MBC3TimerRAMBattery => 0x10,
        CartridgeType::MBC3 => 0x11,
        CartridgeType::MBC3RAM => 0x12,
        CartridgeType::MBC3RAMBattery => 0x13,
        CartridgeType::MBC5 => 0x19,
        CartridgeType::MBC5RAM => 0x1A,
        CartridgeType::MBC5RAMBattery => 0x1B,
        CartridgeType::MBC5Rumble => 0x1C,
        CartridgeType::MBC5RumbleRAM => 0x1D,
        CartridgeType::MBC5RumbleRAMBattery => 0x1E,
    }
}

/// The header bytes for which a cartridge type is implemented.
pub open spec fn supported_cart_type(value: u8) -> bool {
    value <= 0x03 || value == 0x05 || value == 0x06 || 0x0F <= value <= 0x13 || 0x19 <= value <= 0x1E
}

/// The cartridge type that header byte 0x147 names.
pub open spec fn cart_type_spec(value: u8) -> CartridgeType {
    if value == 0x00 { CartridgeType::ROMOnly }
    else if value == 0x01 { CartridgeType::MBC1 }
    else if value == 0x02 { CartridgeType::MBC1RAM }
    else if value == 0x03 { CartridgeType::MBC1RAMBattery }
    else if value == 0x05 { CartridgeType::MBC2 }
    else if value == 0x06 { CartridgeType::MBC2Battery }
    else if value == 0x0F { CartridgeType::MBC3TimerBattery }
    else if value == 0x10 { CartridgeType::MBC3TimerRAMBattery }
    else if value == 0x11 { CartridgeType::MBC3 }
    else if value == 0x12 { CartridgeType::MBC3RAM }
    else if value == 0x13 { CartridgeType::MBC3RAMBattery }
    else if value == 0x19 { CartridgeType::MBC5 }
    else if value == 0x1A { CartridgeType::MBC5RAM }
    else if value == 0x1B { CartridgeType::MBC5RAMBattery }
    else if value == 0x1C { CartridgeType::MBC5Rumble }
    else if value == 0x1D { CartridgeType::MBC5RumbleRAM }
    else { CartridgeType::MBC5RumbleRAMBattery }
}

/// The cartridge type for header byte 0x147.
pub fn u8_to_cart_type(value: u8) -> (r: CartridgeType)
    requires
        supported_cart_type(value),
    ensures
        r == cart_type_spec(value),
{
    match value {
        0x00 => CartridgeType::ROMOnly,
        0x01 => CartridgeType::MBC1,
        0x02 => CartridgeType::MBC1RAM,
        0x03 => CartridgeType::MBC1RAMBattery,
        0x05 => CartridgeType::MBC2,
        0x06 => CartridgeType::MBC2Battery,
        0x0F => CartridgeType::MBC3TimerBattery,
        0x10 => CartridgeType::MBC3TimerRAMBattery,
        0x11 => CartridgeType::MBC3,
        0x12 => CartridgeType::MBC3RAM,
        0x13 => CartridgeType::MBC3RAMBattery,
        0x19 => CartridgeType::MBC5,
        0x1A => CartridgeType::MBC5RAM,
        0x1B => CartridgeType::MBC5RAMBattery,
        0x1C => CartridgeType::MBC5Rumble,
        0x1D => CartridgeType::MBC5RumbleRAM,
        _ => CartridgeType::MBC5RumbleRAMBattery,
    }
}

} // verus!
