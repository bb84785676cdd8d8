use vstd::prelude::*;

verus! {

/// A vector of `n` zero bytes.
pub fn zeroed(n: usize) -> (v: Vec<u8>)
    ensures
        v@ == Seq::new(n as nat, |i: int| 0u8),
{
    let mut v: Vec<u8> = Vec::new();
    let mut i: usize = 0;
    while i < n
        invariant
            i <= n,
            v@ == Seq::new(i as nat, |j: int| 0u8),
        decreases n - i,
    {
        v.push(0);
        i = i + 1;
    }
    v
}

/// A vector holding the bytes of `s`.
pub fn copy_bytes(s: &[u8]) -> (v: Vec<u8>)
    ensures
        v@ == s@,
{
    let mut v: Vec<u8> = Vec::new();
    let mut i: usize = 0;
    while i < s.len()
        invariant
            i <= s@.len(),
            v@ == s@.subrange(0, i as int),
        decreases s@.len() - i,
    {
        v.push(s[i]);
        i = i + 1;
        assert(v@ == s@.subrange(0, i as int));
    }
    assert(s@.subrange(0, s@.len() as int) == s@);
    v
}

/// The plain memories of the bus: boot ROM, a ROM bank, I/O registers,
/// high RAM, external RAM, work RAM and the interrupt enable register.
#[derive(Debug)]
pub struct Mmu {
    boot: Vec<u8>,
    rom_bank: Vec<u8>,
    io: Vec<u8>,
    high_ram: Vec<u8>,
    external_ram: Vec<u8>,
    work_ram: Vec<u8>,
    interrupt_enable: u8,
}

impl Mmu {
    pub closed spec fn boot_mem(&self) -> Seq<u8> { self.boot@ }
    pub closed spec fn rom_bank_mem(&self) -> Seq<u8> { self.rom_bank@ }
    pub closed spec fn io_mem(&self) -> Seq<u8> { self.io@ }
    pub closed spec fn high_ram_mem(&self) -> Seq<u8> { self.high_ram@ }
    pub closed spec fn external_ram_mem(&self) -> Seq<u8> { self.external_ram@ }
    pub closed spec fn work_ram_mem(&self) -> Seq<u8> { self.work_ram@ }
    pub closed spec fn ie(&self) -> u8 { self.interrupt_enable }

    /// Each memory has its size: 0x100, 0x8000, 0x80, 0x7F, 0x2000 and 0x2000 bytes.
    pub open spec fn wf(&self) -> bool {
        &&& self.boot_mem().len() == 0x100
        &&& self.rom_bank_mem().len() == 0x8000
        &&& self.io_mem().len() == 0x80
        &&& self.high_ram_mem().len() == 0x7F
        &&& self.external_ram_mem().len() == 0x2000
        &&& self.work_ram_mem().len() == 0x2000
    }

    /// Every memory filled with zeros.
    pub fn new() -> (m: Mmu)
        ensures
            m.wf(),
            forall|i: int| 0 <= i < 0x100 ==> m.boot_mem()[i] == 0,
            forall|i: int| 0 <= i < 0x8000 ==> m.rom_bank_mem()[i] == 0,
            forall|i: int| 0 <= i < 0x80 ==> m.io_mem()[i] == 0,
            forall|i: int| 0 <= i < 0x7F ==> m.high_ram_mem()[i] == 0,
            forall|i: int| 0 <= i < 0x2000 ==> m.external_ram_mem()[i] == 0,
            forall|i: int| 0 <= i < 0x2000 ==> m.work_ram_mem()[i] == 0,
            m.ie() == 0,
    {
        Mmu {
            boot: zeroed(0x100),
            rom_bank: zeroed(0x8000),
            io: zeroed(0x80),
            high_ram: zeroed(0x7F),
            external_ram: zeroed(0x2000),
            work_ram: zeroed(0x2000),
            interrupt_enable: 0,
        }
    }

    pub fn write_boot(&mut self, addr: u16, value: u8)
        requires
            old(self).wf(),
            addr < 0x100,
        ensures
            final(self).wf(),
            final(self).boot_mem() == old(self).boot_mem().update(addr as int, value),
            final(self).rom_bank_mem() == old(self).rom_bank_mem() && final(self).io_mem() == old(self).io_mem(),
            final(self).high_ram_mem() == old(self).high_ram_mem() && final(self).external_ram_mem() == old(self).external_ram_mem(),
            final(self).work_ram_mem() == old(self).work_ram_mem() && final(self).ie() == old(self).ie(),
    {
        self.boot.set(addr as usize, value);
    }

    pub fn write_rom_bank(&mut self, addr: u16, value: u8)
        requires
            old(self).wf(),
            addr < 0x8000,
        ensures
            final(self).wf(),
            final(self).rom_bank_mem() == old(self).rom_bank_mem().update(addr as int, value),
            final(self).boot_mem() == old(self).boot_mem() && final(self).io_mem() == old(self).io_mem(),
            final(self).high_ram_mem() == old(self).high_ram_mem() && final(self).external_ram_mem() == old(self).external_ram_mem(),
            final(self).work_ram_mem() == old(self).work_ram_mem() && final(self).ie() == old(self).ie(),
    {
        self.rom_bank.set(addr as usize, value);
    }

    pub fn write_io(&mut self, addr: u16, value: u8)
        requires
            old(self).wf(),
            addr < 0x80,
        ensures
            final(self).wf(),
            final(self).io_mem() == old(self).io_mem().update(addr as int, value),
            final(self).boot_mem() == old(self).boot_mem() && final(self).rom_bank_mem() == old(self).rom_bank_mem(),
            final(self).high_ram_mem() == old(self).high_ram_mem() && final(self).external_ram_mem() == old(self).external_ram_mem(),
            final(self).work_ram_mem() == old(self).work_ram_mem() && final(self).ie() == old(self).ie(),
    {
        self.io.set(addr as usize, value);
    }

    pub fn write_hram(&mut self, addr: u16, value: u8)
        requires
            old(self).wf(),
            addr < 0x7F,
        ensures
            final(self).wf(),
            final(self).high_ram_mem() == old(self).high_ram_mem().update(addr as int, value),
            final(self).boot_mem() == old(self).boot_mem() && final(self).rom_bank_mem() == old(self).rom_bank_mem(),
            final(self).io_mem() == old(self).io_mem() && final(self).external_ram_mem() == old(self).external_ram_mem(),
            final(self).work_ram_mem() == old(self).work_ram_mem() && final(self).ie() == old(self).ie(),
    {
        self.high_ram.set(addr as usize, value);
    }

    pub fn write_external_ram(&mut self, addr: u16, value: u8)
        requires
            old(self).wf(),
            addr < 0x2000,
        ensures
            final(self).wf(),
            final(self).external_ram_mem() == old(self).external_ram_mem().update(addr as int, value),
            final(self).boot_mem() == old(self).boot_mem() && final(self).rom_bank_mem() == old(self).rom_bank_mem(),
            final(self).io_mem() == old(self).io_mem() && final(self).high_ram_mem() == old(self).high_ram_mem(),
            final(self).work_ram_mem() == old(self).work_ram_mem() && final(self).ie() == old(self).ie(),
    {
        self.external_ram.set(addr as usize, value);
    }

    pub fn write_work_ram(&mut self, addr: u16, value: u8)
        requires
            old(self).wf(),
            addr < 0x2000,
        ensures
            final(self).wf(),
            final(self).work_ram_mem() == old(self).work_ram_mem().update(addr as int, value),
            final(self).boot_mem() == old(self).boot_mem() && final(self).rom_bank_mem() == old(self).rom_bank_mem(),
            final(self).io_mem() == old(self).io_mem() && final(self).high_ram_mem() == old(self).high_ram_mem(),
            final(self).external_ram_mem() == old(self).external_ram_mem() && final(self).ie() == old(self).ie(),
    {
        self.work_ram.set(addr as usize, value);
    }

    pub fn enable_interrupt(&mut self, value: u8)
        requires
            old(self).wf(),
        ensures
            final(self).wf(),
            final(self).ie() == value,
            final(self).boot_mem() == old(self).boot_mem() && final(self).rom_bank_mem() == old(self).rom_bank_mem(),
            final(self).io_mem() == old(self).io_mem() && final(self).high_ram_mem() == old(self).high_ram_mem(),
            final(self).external_ram_mem() == old(self).external_ram_mem() && final(self).work_ram_mem() == old(self).work_ram_mem(),
    {
        self.interrupt_enable = value;
    }

    pub fn read_boot(&self, addr: u16) -> (r: u8)
        requires
            self.wf(),
            addr < 0x100,
        ensures
            r == self.boot_mem()[addr as int],
    {
        self.boot[addr as usize]
    }

    pub fn read_rom_bank(&self, addr: u16) -> (r: u8)
        requires
            self.wf(),
            addr < 0x8000,
        ensures
            r == self.rom_bank_mem()[addr as int],
    {
        self.rom_bank[addr as usize]
    }

    pub fn read_io(&self, addr: u16) -> (r: u8)
        requires
            self.wf(),
            addr < 0x80,
        ensures
            r == self.io_mem()[addr as int],
    {
        self.io[addr as usize]
    }

    pub fn read_hram(&self, addr: u16) -> (r: u8)
        requires
            self.wf(),
            addr < 0x7F,
        ensures
            r == self.high_ram_mem()[addr as int],
    {
        self.high_ram[addr as usize]
    }

    pub fn read_external_ram(&self, addr: u16) -> (r: u8)
        requires
            self.wf(),
            addr < 0x2000,
        ensures
            r == self.external_ram_mem()[addr as int],
    {
        self.external_ram[addr as usize]
    }

    pub fn read_work_ram(&self, addr: u16) -> (r: u8)
        requires
            self.wf(),
            addr < 0x2000,
        ensures
            r == self.work_ram_mem()[addr as int],
    {
        self.work_ram[addr as usize]
    }

    pub fn read_interrupt_enable(&self) -> (r: u8)
        ensures
            r == self.ie(),
    {
        self.interrupt_enable
    }
}

} // verus!
