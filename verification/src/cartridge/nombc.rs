use vstd::prelude::*;

verus! {

/// A cartridge without a bank controller: 32 KiB of ROM mapped as it is.
#[derive(Debug)]
pub struct NoMbcState {
    pub rom: Vec<u8>,
}

impl NoMbcState {
    pub fn new(rom: &[u8]) -> (m: NoMbcState)
        ensures
            m.rom@ == rom@,
    {
        NoMbcState { rom: crate::mmu::copy_bytes(rom) }
    }

    /// The reads that stay inside the ROM.
    pub open spec fn read_ok(&self, addr: u16) -> bool {
        addr < 0x8000 ==> addr < self.rom@.len()
    }

    /// ROM bytes below 0x8000; 0xFF above.
    pub fn read(&self, addr: u16) -> (r: u8)
        requires
            self.read_ok(addr),
        ensures
            addr < 0x8000 ==> r == self.rom@[addr as int],
            addr >= 0x8000 ==> r == 0xFF,
    {
        if addr < 0x8000 {
            self.rom[addr as usize]
        } else {
            0xFF
        }
    }

    /// Writes are ignored.
    pub fn write(&mut self, addr: u16, value: u8)
        ensures
            *final(self) == *old(self),
    {
    }
}

} // verus!
