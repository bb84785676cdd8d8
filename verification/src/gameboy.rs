use vstd::prelude::*;
use crate::cartridge::Cartridge;
use crate::cartridge::cartridge_info::{
    CartridgeType, cart_type_spec, ram_size, ram_size_spec, supported_cart_type, u8_to_cart_type,
};
use crate::cartridge::{Mbc, mbc_kind, header_sum};
use crate::constants::PC_AFTER_BOOT;
use crate::cpu::Cpu;
use crate::interconnect::Interconnect;

verus! {

/// The whole machine: CPU and bus.
pub struct GameBoy {
    pub cpu: Cpu,
    pub interconnect: Interconnect,
    pub booted: bool,
}

/// `n` zero bytes.
fn zeros(n: usize) -> (v: Vec<u8>)
    ensures
        v@ == Seq::new(n as nat, |i: int| 0u8),
{
    let mut v: Vec<u8> = Vec::new();
    while v.len() < n
        invariant
            v.len() <= n,
            forall|i: int| 0 <= i < v.len() ==> v@[i] == 0,
        decreases n - v.len(),
    {
        v.push(0);
    }
    assert(v@ =~= Seq::new(n as nat, |i: int| 0u8));
    v
}

impl GameBoy {
    /// A machine at power-on with an empty cartridge, not booted.
    pub fn new() -> (g: GameBoy)
        ensures
            g.interconnect.wf(),
            !g.booted,
            g.cpu.pc == 0 && g.cpu.sp == 0xFFFE && !g.cpu.ime && !g.cpu.halted,
            g.interconnect.boot_active && g.interconnect.ticks == 0,
    {
        GameBoy { cpu: Cpu::new(), interconnect: Interconnect::new(), booted: false }
    }

    /// Boots a game from its ROM image: the cartridge is built from the
    /// header's type (0x147) with zeroed RAM of the header's size (0x149),
    /// takes `title`, and its header checksum is checked (the result is
    /// returned). Skipping the boot ROM unmaps it and starts at 0x100;
    /// otherwise `boot_rom` is loaded and execution starts at 0.
    pub fn boot(&mut self, game_rom: &Vec<u8>, boot_rom: &Vec<u8>, title: String, skip_boot: bool) -> (valid: bool)
        requires
            old(self).interconnect.wf(),
            game_rom.len() > 0x149,
            supported_cart_type(game_rom[0x147]),
            mbc_kind(cart_type_spec(game_rom[0x147])) != 1 ==> game_rom.len() > 0x14D,
            game_rom[0x149] <= 5,
            !skip_boot ==> boot_rom.len() <= 0x100,
        ensures
            final(self).booted,
            final(self).interconnect.wf(),
            final(self).interconnect.cartridge.title == title,
            final(self).interconnect.cartridge.valid_checksum == valid,
            ({
                let mbc = final(self).interconnect.cartridge.mbc;
                valid == (header_sum(mbc, 0x14D) % 16 == mbc.read_spec(0x14D) % 16)
            }),
            ({
                let kind = mbc_kind(cart_type_spec(game_rom[0x147]));
                match final(self).interconnect.cartridge.mbc {
                    Mbc::NoMbc(m) => kind == 0 && m.rom@ == game_rom@,
                    Mbc::Mbc1(m) => kind == 1 && m.rom@ == game_rom@
                        && m.ram@ == Seq::new(ram_size_spec(game_rom[0x149]) as nat, |i: int| 0u8),
                    Mbc::Mbc2(m) => kind == 2 && m.rom@ == game_rom@,
                    Mbc::Mbc3(m) => kind == 3 && m.rom@ == game_rom@
                        && m.ram@ == Seq::new(ram_size_spec(game_rom[0x149]) as nat, |i: int| 0u8),
                    Mbc::Mbc5(m) => kind == 5 && m.rom@ == game_rom@
                        && m.ram@ == Seq::new(ram_size_spec(game_rom[0x149]) as nat, |i: int| 0u8),
                }
            }),
            skip_boot ==> final(self).cpu.pc == PC_AFTER_BOOT && !final(self).interconnect.boot_active,
            !skip_boot ==> final(self).cpu.pc == 0 && final(self).interconnect.boot_active == old(self).interconnect.boot_active
                && (forall|i: int| 0 <= i < boot_rom@.len() ==> final(self).interconnect.mmu.boot_mem()[i] == boot_rom@[i]),
    {
        self.booted = true;
        let cart_type_value: u8 = game_rom[0x147];
        let ram_s: u8 = game_rom[0x149];
        let ram: Vec<u8> = zeros(ram_size(ram_s));
        let cart_type: CartridgeType = u8_to_cart_type(cart_type_value);
        self.interconnect.cartridge = Cartridge::new(game_rom, &ram, &cart_type);
        self.interconnect.cartridge.title = title;
        let valid: bool = self.interconnect.cartridge.checksum();
        if skip_boot {
            self.interconnect.boot_active = false;
            self.cpu.pc = PC_AFTER_BOOT;
        } else {
            self.interconnect.load_game_rom(game_rom.as_slice());
            self.interconnect.load_boot_rom(boot_rom.as_slice());
            self.cpu.pc = 0x0000;
        }
        valid
    }
}

} // verus!
