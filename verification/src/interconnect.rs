use vstd::prelude::*;
use crate::bits::{lemma_keeps_bits, lemma_or_regroup};
use crate::cartridge::{Cartridge, Mbc, mbc_written};
use crate::constants::{INTERRUPT_ENABLE, INTERRUPT_FLAG};
use crate::interrupts::{InterruptType, interrupt_bit, interrupt_from_index, interrupt_index};
use crate::joypad::{Joypad, Key};
use crate::mmu::Mmu;
use crate::ppu::{Dma, Ppu, lcd_written, line_mode_consistent, oam_byte, ppu_ticked, same_registers, shades_of};
use crate::serial::SerialOutput;
use crate::timer::{Clock, Timer, tima_after, tima_overflows, timer_written};

verus! {

/// The boot ROM overlay: 0x0000-0x00FF.
pub open spec fn in_boot(addr: u16) -> bool { addr <= 0x00FF }
/// Cartridge ROM: 0x0000-0x7FFF.
pub open spec fn in_rom_bank(addr: u16) -> bool { addr <= 0x7FFF }
/// Video RAM: 0x8000-0x9FFF.
pub open spec fn in_vram(addr: u16) -> bool { 0x8000 <= addr <= 0x9FFF }
/// Cartridge RAM: 0xA000-0xBFFF.
pub open spec fn in_external_ram(addr: u16) -> bool { 0xA000 <= addr <= 0xBFFF }
/// Work RAM: 0xC000-0xDFFF.
pub open spec fn in_work_ram(addr: u16) -> bool { 0xC000 <= addr <= 0xDFFF }
/// Object attribute memory: 0xFE00-0xFE9F.
pub open spec fn in_oam(addr: u16) -> bool { 0xFE00 <= addr <= 0xFE9F }
/// Timer registers: 0xFF04-0xFF07.
pub open spec fn in_timer(addr: u16) -> bool { 0xFF04 <= addr <= 0xFF07 }
/// LCD registers: 0xFF40-0xFF4B.
pub open spec fn in_lcd(addr: u16) -> bool { 0xFF40 <= addr <= 0xFF4B }
/// I/O registers: 0xFF00-0xFF7F.
pub open spec fn in_io(addr: u16) -> bool { 0xFF00 <= addr <= 0xFF7F }
/// High RAM: 0xFF80-0xFFFE.
pub open spec fn in_high_ram(addr: u16) -> bool { 0xFF80 <= addr <= 0xFFFE }

/// I/O addresses backed by plain memory (not the joypad, timer or LCD).
pub open spec fn in_plain_io(addr: u16) -> bool {
    in_io(addr) && addr != 0xFF00 && !in_timer(addr) && !in_lcd(addr)
}

/// Addresses that read back what was last written to them: work RAM, high
/// RAM, video RAM, plain I/O registers and the interrupt enable register.
pub open spec fn plain_ram(addr: u16) -> bool {
    in_work_ram(addr) || in_high_ram(addr) || in_vram(addr) || in_plain_io(addr) || addr == INTERRUPT_ENABLE
}

/// Addresses whose contents the passing of time leaves alone: work RAM,
/// high RAM, video RAM, IE and the plain I/O registers other than IF.
pub open spec fn kept_by_tick(addr: u16) -> bool {
    in_work_ram(addr) || in_high_ram(addr) || in_vram(addr) || addr == INTERRUPT_ENABLE
        || (in_plain_io(addr) && addr != INTERRUPT_FLAG)
}

/// The timer after `m` machine cycles: DIV counts the whole periods of its
/// clock, TIMA (when TAC bit 2 enables it) counts those of its clock,
/// reloading from TMA on overflow, and an overflow leaves the timer interrupt
/// requested; TMA, TAC and the counter stay.
#[verifier::opaque]
pub open spec fn timer_advanced(m0: Interconnect, m1: Interconnect, m: u32) -> bool {
    let t0 = m0.timer;
    let t1 = m1.timer;
    let dc = t0.div_clock.n + 4 * m;
    let tc = t0.tima_clock.n + 4 * m;
    &&& t1.tma == t0.tma && t1.tac == t0.tac && t1.counter == t0.counter
    &&& t1.div_clock == (Clock { n: (dc % t0.div_clock.period as int) as u32, ..t0.div_clock })
    &&& t1.div == ((t0.div + (dc / t0.div_clock.period as int) % 256) % 256) as u8
    &&& t0.tac & 4 != 0 ==> {
        &&& t1.tima_clock == (Clock { n: (tc % t0.tima_clock.period as int) as u32, ..t0.tima_clock })
        &&& t1.tima == tima_after(t0.tima, t0.tma, (tc / t0.tima_clock.period as int) as nat)
        &&& tima_overflows(t0.tima, t0.tma, (tc / t0.tima_clock.period as int) as nat)
            ==> requested(m1, InterruptType::Timer)
    }
    &&& t0.tac & 4 == 0 ==> t1.tima_clock == t0.tima_clock && t1.tima == t0.tima
}

/// The bus `m1` is `m0` after `m` machine cycles have passed: it stays well
/// formed, `ticks` is the T-cycles run, the boot overlay, write protection,
/// memories, cartridge, serial output and plain registers stay, IF only
/// gains bits, and the timer advanced as `timer_advanced` says.
#[verifier::opaque]
pub open spec fn ticked_by(m0: Interconnect, m1: Interconnect, m: u32) -> bool {
    &&& m1.wf()
    &&& m1.ticks == 4 * m
    &&& m1.boot_active == m0.boot_active && m1.write_enabled == m0.write_enabled
    &&& m1.mmu.work_ram_mem() == m0.mmu.work_ram_mem() && m1.mmu.high_ram_mem() == m0.mmu.high_ram_mem()
    &&& m1.mmu.boot_mem() == m0.mmu.boot_mem() && m1.mmu.ie() == m0.mmu.ie()
    &&& m1.ppu.vram@ == m0.ppu.vram@
    &&& m1.cartridge.mbc == m0.cartridge.mbc
    &&& m1.serial.bytes() == m0.serial.bytes()
    &&& forall|k: int| 0 <= k < 0x80 && k != 0x0F ==> m1.mmu.io_mem()[k] == m0.mmu.io_mem()[k]
    &&& m1.if_reg() & m0.if_reg() == m0.if_reg()
    &&& forall|b: u16| kept_by_tick(b) ==> #[trigger] m1.read_spec(b) == m0.read_spec(b)
    &&& timer_advanced(m0, m1, m)
    &&& line_mode_consistent(&m0.ppu) ==> line_mode_consistent(&m1.ppu)
    &&& exists|ps: Seq<Ppu>, is: Seq<Seq<InterruptType>>, ds: Seq<Interconnect>| #[trigger] dots_run(ps, is, ds, m0, m1, m)
}

/// One DMA step from bus `m0` to `m1`: only the PPU changes; an idle DMA
/// changes nothing; while the start delay runs it counts on (wrapping);
/// afterwards the byte at `value * 0x100 + byte` is copied to OAM byte
/// `byte`, which moves on, and the transfer ends after 0xA0 bytes.
pub open spec fn dma_stepped(m0: Interconnect, m1: Interconnect) -> bool {
    &&& (m1 == (Interconnect { ppu: m1.ppu, ..m0 }))
    &&& (m1.ppu.vram@ == m0.ppu.vram@)
    &&& (!m0.ppu.dma.active ==> m1.ppu == m0.ppu)
    &&& (m0.ppu.dma.active && m0.ppu.dma.start_delay > 0 ==> m1.ppu == (Ppu {
        dma: Dma { start_delay: m0.ppu.dma.start_delay.wrapping_add(1), ..m0.ppu.dma },
        ..m0.ppu
    }))
    &&& (m0.ppu.dma.active && m0.ppu.dma.start_delay == 0 ==> {
        let b = m0.ppu.dma.byte;
        &&& m1.ppu.dma == (Dma { byte: (b + 1) as u8, active: b + 1 < 0xA0, ..m0.ppu.dma })
        &&& m1.ppu == (Ppu { oam: m1.ppu.oam, dma: m1.ppu.dma, ..m0.ppu })
        &&& forall|o: int| 0 <= o < 0xA0 ==> #[trigger] oam_byte(m1.ppu.oam@, o) == if o == b {
                m0.read_spec((m0.ppu.dma.value * 256 + b) as u16)
            } else {
                oam_byte(m0.ppu.oam@, o)
            }
    })
}

/// The IF bits that the interrupts of `s` set.
pub open spec fn request_mask(s: Seq<InterruptType>) -> u8
    decreases s.len(),
{
    if s.len() == 0 {
        0
    } else {
        request_mask(s.drop_last()) | (1u8 << interrupt_bit(s.last()))
    }
}

/// The IF bits that the first `n` interrupt lists of `is` set.
pub open spec fn trace_mask(is: Seq<Seq<InterruptType>>, n: int) -> u8
    decreases n,
{
    if n <= 0 {
        0
    } else {
        trace_mask(is, n - 1) | request_mask(is[n - 1])
    }
}

/// The timer bit of IF (4) when TIMA overflows during `m` machine cycles
/// from bus `m0`, else 0.
pub open spec fn timer_mask(m0: Interconnect, m: u32) -> u8 {
    let t0 = m0.timer;
    let tc = t0.tima_clock.n + 4 * m;
    if t0.tac & 4 != 0 && tima_overflows(t0.tima, t0.tma, (tc / t0.tima_clock.period as int) as nat) {
        4
    } else {
        0
    }
}

/// Pushing a list onto `is` leaves the mask of its first `n` lists.
proof fn lemma_trace_mask_push(is: Seq<Seq<InterruptType>>, x: Seq<InterruptType>, n: int)
    requires
        0 <= n <= is.len(),
    ensures
        trace_mask(is.push(x), n) == trace_mask(is, n),
    decreases n,
{
    if n > 0 {
        lemma_trace_mask_push(is, x, n - 1);
        assert(is.push(x)[n - 1] == is[n - 1]);
    }
}

/// The PPU of bus `m1` after the `4 * m` dots of `m` machine cycles from
/// that of `m0`: the dots run through `ps` (each asking for the interrupts
/// in `is`, all of which are requested in IF), then the `m` DMA steps run
/// through `ds`, from the bus with the PPU the dots left to `m1`. IF ends as
/// it was with the bits of those requests and the timer's added.
#[verifier::opaque]
pub open spec fn dots_run(ps: Seq<Ppu>, is: Seq<Seq<InterruptType>>, ds: Seq<Interconnect>, m0: Interconnect, m1: Interconnect, m: u32) -> bool {
    let n = 4 * m;
    &&& ps.len() == n + 1 && is.len() == n
    &&& ps[0] == m0.ppu
    &&& forall|i: int| 0 <= i < n ==> #[trigger] ppu_ticked(ps[i], ps[i + 1], is[i])
    &&& m1.ppu == (Ppu { oam: m1.ppu.oam, dma: m1.ppu.dma, ..ps[n] })
    &&& forall|i: int, k: int| 0 <= i < n && 0 <= k < is[i].len() ==> requested(m1, #[trigger] is[i][k])
    &&& ds.len() == m + 1 && ds[0] == (Interconnect { ppu: ps[n], ..m1 }) && ds[m as int] == m1
    &&& forall|i: int| 0 <= i < m ==> #[trigger] dma_stepped(ds[i], ds[i + 1])
    &&& m1.if_reg() == (m0.if_reg() | trace_mask(is, n as int)) | timer_mask(m0, m)
}

/// `m1` is memory `m0` with one byte changed: `value` at offset `off` of
/// work RAM (region 0), the I/O registers (1) or high RAM (2), or IE taking
/// `value` (3); every other memory stays.
pub open spec fn mmu_written(m0: Mmu, m1: Mmu, region: int, off: int, value: u8) -> bool {
    &&& m1.boot_mem() == m0.boot_mem() && m1.rom_bank_mem() == m0.rom_bank_mem()
    &&& m1.external_ram_mem() == m0.external_ram_mem()
    &&& m1.work_ram_mem() == if region == 0 { m0.work_ram_mem().update(off, value) } else { m0.work_ram_mem() }
    &&& m1.io_mem() == if region == 1 { m0.io_mem().update(off, value) } else { m0.io_mem() }
    &&& m1.high_ram_mem() == if region == 2 { m0.high_ram_mem().update(off, value) } else { m0.high_ram_mem() }
    &&& m1.ie() == if region == 3 { value } else { m0.ie() }
}

/// The cartridge controller after `value` is written to `addr` through the
/// bus: writes to ROM or cartridge RAM go to the controller (dropped where
/// they would land outside its RAM); other addresses leave it as it is.
pub open spec fn cart_wrote(c0: Mbc, c1: Mbc, addr: u16, value: u8) -> bool {
    if (in_rom_bank(addr) || in_external_ram(addr)) && c0.write_ok(addr) {
        mbc_written(c0, c1, addr, value)
    } else {
        c1 == c0
    }
}

/// The LCD registers that only writes change (LCDC, SCY, SCX, LYC, WY, WX
/// and the palettes) after `value` is written to `addr`.
pub open spec fn lcd_regs_wrote(p0: Ppu, p1: Ppu, addr: u16, value: u8) -> bool {
    &&& p1.control == if addr == 0xFF40 { value } else { p0.control }
    &&& p1.scroll_y == if addr == 0xFF42 { value } else { p0.scroll_y }
    &&& p1.scroll_x == if addr == 0xFF43 { value } else { p0.scroll_x }
    &&& p1.lyc == if addr == 0xFF45 { value } else { p0.lyc }
    &&& p1.window_y == if addr == 0xFF4A { value } else { p0.window_y }
    &&& p1.window_x == if addr == 0xFF4B { value } else { p0.window_x }
    &&& if addr == 0xFF47 {
            p1.bg_palette_data == value && shades_of(p1.bg_palette@, value)
        } else {
            p1.bg_palette_data == p0.bg_palette_data && p1.bg_palette@ == p0.bg_palette@
        }
    &&& if addr == 0xFF48 {
            p1.sprite0_palette_data == value & 0xFC && shades_of(p1.sprite0_palette@, value & 0xFC)
        } else {
            p1.sprite0_palette_data == p0.sprite0_palette_data && p1.sprite0_palette@ == p0.sprite0_palette@
        }
    &&& if addr == 0xFF49 {
            p1.sprite1_palette_data == value & 0xFC && shades_of(p1.sprite1_palette@, value & 0xFC)
        } else {
            p1.sprite1_palette_data == p0.sprite1_palette_data && p1.sprite1_palette@ == p0.sprite1_palette@
        }
}

/// The state that only writes change, after `value` is written to `addr`:
/// the cartridge controller, the joypad selects, TMA and TAC, and the LCD
/// registers of `lcd_regs_wrote`.
pub open spec fn regs_wrote(ic0: Interconnect, ic1: Interconnect, addr: u16, value: u8) -> bool {
    &&& cart_wrote(ic0.cartridge.mbc, ic1.cartridge.mbc, addr, value)
    &&& ic1.joypad == if addr == 0xFF00 {
            Joypad {
                select_action: if (value / 16) % 2 == 1 { 0u8 } else { 1u8 },
                select_direction: if (value / 32) % 2 == 1 { 0u8 } else { 1u8 },
                ..ic0.joypad
            }
        } else {
            ic0.joypad
        }
    &&& ic1.timer.tma == if addr == 0xFF06 { value } else { ic0.timer.tma }
    &&& ic1.timer.tac == if addr == 0xFF07 { value } else { ic0.timer.tac }
    &&& lcd_regs_wrote(ic0.ppu, ic1.ppu, addr, value)
}

/// Time leaves alone what only writes change: the cartridge controller, the
/// joypad, TMA, TAC and the LCD registers.
pub open spec fn regs_kept(ic0: Interconnect, ic1: Interconnect) -> bool {
    &&& ic1.cartridge.mbc == ic0.cartridge.mbc
    &&& ic1.joypad == ic0.joypad
    &&& ic1.timer.tma == ic0.timer.tma && ic1.timer.tac == ic0.timer.tac
    &&& same_registers(&ic1.ppu, &ic0.ppu)
}

/// The bus `m1` is `m0` after a write of `value` to `addr`: the part that
/// owns the address changes as its own write does and every other part
/// stays. The cartridge takes writes to ROM and its RAM (dropped where they
/// would land outside it), OAM ignores writes while a DMA runs, the joypad
/// register takes only its two select bits, and unmapped addresses drop
/// the write.
#[verifier::opaque]
pub open spec fn bus_written(m0: Interconnect, m1: Interconnect, addr: u16, value: u8) -> bool {
    if in_rom_bank(addr) || in_external_ram(addr) {
        if m0.cartridge.mbc.write_ok(addr) {
            &&& m1 == (Interconnect { cartridge: Cartridge { mbc: m1.cartridge.mbc, ..m0.cartridge }, ..m0 })
            &&& mbc_written(m0.cartridge.mbc, m1.cartridge.mbc, addr, value)
        } else {
            m1 == m0
        }
    } else if in_vram(addr) {
        &&& m1 == (Interconnect { ppu: Ppu { vram: m1.ppu.vram, ..m0.ppu }, ..m0 })
        &&& m1.ppu.vram@ == m0.ppu.vram@.update(addr - 0x8000, value)
    } else if in_work_ram(addr) {
        m1 == (Interconnect { mmu: m1.mmu, ..m0 }) && mmu_written(m0.mmu, m1.mmu, 0, addr - 0xC000, value)
    } else if in_oam(addr) {
        &&& m1 == (Interconnect { ppu: Ppu { oam: m1.ppu.oam, ..m0.ppu }, ..m0 })
        &&& m1.ppu.oam@.len() == m0.ppu.oam@.len()
        &&& m0.ppu.dma.active ==> m1.ppu.oam@ == m0.ppu.oam@
        &&& !m0.ppu.dma.active ==> forall|o: int| 0 <= o < 0xA0 ==>
            #[trigger] oam_byte(m1.ppu.oam@, o) == if o == addr - 0xFE00 { value } else { oam_byte(m0.ppu.oam@, o) }
    } else if in_timer(addr) {
        m1 == (Interconnect { timer: m1.timer, ..m0 }) && timer_written(m0.timer, m1.timer, addr, value)
    } else if in_lcd(addr) {
        m1 == (Interconnect { ppu: m1.ppu, ..m0 }) && lcd_written(m0.ppu, m1.ppu, addr, value)
    } else if addr == 0xFF00 {
        m1 == (Interconnect {
            joypad: Joypad {
                select_action: if (value / 16) % 2 == 1 { 0u8 } else { 1u8 },
                select_direction: if (value / 32) % 2 == 1 { 0u8 } else { 1u8 },
                ..m0.joypad
            },
            ..m0
        })
    } else if in_io(addr) {
        m1 == (Interconnect { mmu: m1.mmu, ..m0 }) && mmu_written(m0.mmu, m1.mmu, 1, addr - 0xFF00, value)
    } else if in_high_ram(addr) {
        m1 == (Interconnect { mmu: m1.mmu, ..m0 }) && mmu_written(m0.mmu, m1.mmu, 2, addr - 0xFF80, value)
    } else if addr == INTERRUPT_ENABLE {
        m1 == (Interconnect { mmu: m1.mmu, ..m0 }) && mmu_written(m0.mmu, m1.mmu, 3, 0, value)
    } else {
        m1 == m0
    }
}

/// The memory bus: routes reads and writes to the cartridge, memories,
/// timer, PPU, joypad and serial port, and advances them in time.
pub struct Interconnect {
    pub cartridge: Cartridge,
    pub mmu: Mmu,
    pub timer: Timer,
    pub ppu: Ppu,
    pub serial: SerialOutput,
    pub joypad: Joypad,
    pub boot_active: bool,
    pub write_enabled: bool,
    pub ticks: u64,
}

impl Interconnect {
    /// Every part has its size and invariant; a running DMA is inside OAM.
    pub open spec fn wf(&self) -> bool {
        &&& self.mmu.wf()
        &&& self.ppu.wf()
        &&& self.timer.wf()
        &&& self.joypad.wf()
        &&& self.cartridge.mbc.wf()
        &&& self.ppu.dma.active ==> self.ppu.dma.byte < 0xA0
    }

    /// What a read of `addr` gives.
    pub open spec fn read_spec(&self, addr: u16) -> u8 {
        if self.boot_active && in_boot(addr) {
            self.mmu.boot_mem()[addr as int]
        } else if in_rom_bank(addr) || in_external_ram(addr) {
            if self.cartridge.mbc.read_ok(addr) { self.cartridge.mbc.read_spec(addr) } else { 0xFF }
        } else if in_vram(addr) {
            self.ppu.vram@[addr - 0x8000]
        } else if in_work_ram(addr) {
            self.mmu.work_ram_mem()[addr - 0xC000]
        } else if in_oam(addr) {
            if self.ppu.dma.active { 0xFF } else { oam_byte(self.ppu.oam@, addr - 0xFE00) }
        } else if in_timer(addr) {
            if addr == 0xFF04 {
                self.timer.div
            } else if addr == 0xFF05 {
                self.timer.tima
            } else if addr == 0xFF06 {
                self.timer.tma
            } else {
                self.timer.tac
            }
        } else if in_lcd(addr) {
            lcd_read_spec(&self.ppu, addr)
        } else if in_io(addr) {
            if addr == 0xFF00 {
                if self.joypad.select_direction == 0 {
                    self.joypad.directions
                } else if self.joypad.select_action == 0 {
                    self.joypad.buttons
                } else {
                    0xFF
                }
            } else {
                self.mmu.io_mem()[addr - 0xFF00]
            }
        } else if in_high_ram(addr) {
            self.mmu.high_ram_mem()[addr - 0xFF80]
        } else if addr == INTERRUPT_ENABLE {
            self.mmu.ie()
        } else {
            0
        }
    }

    /// The interrupt flag register IF.
    pub open spec fn if_reg(&self) -> u8 {
        self.mmu.io_mem()[0x0F]
    }

    /// A bus at power-on: an empty cartridge, the boot ROM mapped, nothing ticked.
    pub fn new() -> (ic: Interconnect)
        ensures
            ic.wf(),
            ic.boot_active && ic.write_enabled && ic.ticks == 0,
            ic.if_reg() == 0 && ic.mmu.ie() == 0,
    {
        Interconnect {
            cartridge: Cartridge::empty(),
            mmu: Mmu::new(),
            timer: Timer::new(),
            ppu: Ppu::new(),
            serial: SerialOutput::new(),
            joypad: Joypad::init(),
            boot_active: true,
            write_enabled: true,
            ticks: 0,
        }
    }

    /// Reads a byte from the bus. Cartridge reads outside what the cartridge
    /// holds give 0xFF; unmapped addresses give 0.
    pub fn read_mem(&self, addr: u16) -> (r: u8)
        requires
            self.wf(),
        ensures
            r == self.read_spec(addr),
    {
        if self.boot_active && addr <= 0x00FF {
            self.mmu.read_boot(addr)
        } else if addr <= 0x7FFF || (0xA000 <= addr && addr <= 0xBFFF) {
            if self.cartridge.mbc.can_read(addr) {
                self.cartridge.mbc.read(addr)
            } else {
                0xFF
            }
        } else if 0x8000 <= addr && addr <= 0x9FFF {
            self.ppu.read_vram(addr)
        } else if 0xC000 <= addr && addr <= 0xDFFF {
            self.mmu.read_work_ram(addr - 0xC000)
        } else if 0xFE00 <= addr && addr <= 0xFE9F {
            if self.ppu.dma_transferring() {
                0xFF
            } else {
                self.ppu.read_oam(addr)
            }
        } else if 0xFF04 <= addr && addr <= 0xFF07 {
            self.timer.timer_read(addr)
        } else if 0xFF40 <= addr && addr <= 0xFF4B {
            self.ppu.read_lcd(addr)
        } else if 0xFF00 <= addr && addr <= 0xFF7F {
            if addr == 0xFF00 {
                self.joypad.read()
            } else {
                self.mmu.read_io(addr - 0xFF00)
            }
        } else if 0xFF80 <= addr && addr <= 0xFFFE {
            self.mmu.read_hram(addr - 0xFF80)
        } else if addr == INTERRUPT_ENABLE {
            self.mmu.read_interrupt_enable()
        } else {
            0
        }
    }

    /// Writes a byte to the bus. Writes to work RAM, high RAM, video RAM,
    /// plain I/O registers and IE change exactly that address; cartridge
    /// writes that would land outside its RAM, OAM writes during DMA and
    /// writes to unmapped addresses are dropped.
    pub fn write_mem(&mut self, addr: u16, value: u8)
        requires
            old(self).wf(),
        ensures
            final(self).wf(),
            plain_ram(addr) ==> final(self).read_spec(addr) == value,
            plain_ram(addr) ==> forall|b: u16| b != addr ==> #[trigger] final(self).read_spec(b) == old(self).read_spec(b),
            plain_ram(addr) ==> final(self).ppu.oam@ == old(self).ppu.oam@ && final(self).ppu.dma == old(self).ppu.dma,
            forall|b: u16| kept_by_tick(b) && b != addr ==> #[trigger] final(self).read_spec(b) == old(self).read_spec(b),
            final(self).boot_active == old(self).boot_active && final(self).ticks == old(self).ticks,
            final(self).write_enabled == old(self).write_enabled,
            final(self).mmu.boot_mem() == old(self).mmu.boot_mem(),
            final(self).serial.bytes() == old(self).serial.bytes(),
            !in_work_ram(addr) ==> final(self).mmu.work_ram_mem() == old(self).mmu.work_ram_mem(),
            !in_high_ram(addr) ==> final(self).mmu.high_ram_mem() == old(self).mmu.high_ram_mem(),
            !in_vram(addr) ==> final(self).ppu.vram@ == old(self).ppu.vram@,
            !(in_io(addr) && addr != 0xFF00 && !in_timer(addr) && !in_lcd(addr)) ==> final(self).mmu.io_mem() == old(self).mmu.io_mem(),
            addr != INTERRUPT_ENABLE ==> final(self).mmu.ie() == old(self).mmu.ie(),
            in_oam(addr) ==> *final(self) == (Interconnect { ppu: Ppu { oam: final(self).ppu.oam, ..old(self).ppu }, ..*old(self) }),
            in_oam(addr) && old(self).ppu.dma.active ==> final(self).ppu.oam@ == old(self).ppu.oam@,
            in_oam(addr) && !old(self).ppu.dma.active ==> forall|o: int| 0 <= o < 0xA0 ==>
                #[trigger] oam_byte(final(self).ppu.oam@, o) == if o == addr - 0xFE00 { value } else { oam_byte(old(self).ppu.oam@, o) },
            in_oam(addr) ==> final(self).ppu.oam@.len() == old(self).ppu.oam@.len(),
            bus_written(*old(self), *final(self), addr, value),
            cart_wrote(old(self).cartridge.mbc, final(self).cartridge.mbc, addr, value),
            regs_wrote(*old(self), *final(self), addr, value),
            forall|m: Interconnect, evs: Seq<BusEvent>| ran(m, *old(self), evs)
                ==> #[trigger] ran(m, *final(self), evs.push(BusEvent::Write(addr, value))),
    {
        proof { reveal(bus_written); }
        if addr <= 0x7FFF || (0xA000 <= addr && addr <= 0xBFFF) {
            if self.cartridge.mbc.can_write(addr) {
                self.cartridge.mbc.write(addr, value);
            }
        } else if 0x8000 <= addr && addr <= 0x9FFF {
            self.ppu.write_vram(addr, value);
        } else if 0xC000 <= addr && addr <= 0xDFFF {
            self.mmu.write_work_ram(addr - 0xC000, value);
        } else if 0xFE00 <= addr && addr <= 0xFE9F {
            if !self.ppu.dma_transferring() {
                self.ppu.write_oam(addr, value);
            }
        } else if 0xFF04 <= addr && addr <= 0xFF07 {
            self.timer.timer_write(addr, value);
        } else if 0xFF40 <= addr && addr <= 0xFF4B {
            self.ppu.write_lcd(addr, value);
        } else if 0xFF00 <= addr && addr <= 0xFF7F {
            if addr == 0xFF00 {
                self.joypad.write(value);
            } else {
                self.mmu.write_io(addr - 0xFF00, value);
            }
        } else if 0xFF80 <= addr && addr <= 0xFFFE {
            self.mmu.write_hram(addr - 0xFF80, value);
        } else if addr == INTERRUPT_ENABLE {
            self.mmu.enable_interrupt(value);
        }
        proof {
            assert(bus_written(*old(self), *self, addr, value));
            assert forall|m: Interconnect, evs: Seq<BusEvent>| ran(m, *old(self), evs)
                implies #[trigger] ran(m, *self, evs.push(BusEvent::Write(addr, value))) by {
                lemma_ran_push(m, *old(self), *self, evs, BusEvent::Write(addr, value));
            }
        }
    }
}

/// What a read of an LCD register gives.
pub open spec fn lcd_read_spec(ppu: &Ppu, addr: u16) -> u8 {
    if addr == 0xFF40 {
        ppu.control
    } else if addr == 0xFF41 {
        ppu.stat
    } else if addr == 0xFF42 {
        ppu.scroll_y
    } else if addr == 0xFF43 {
        ppu.scroll_x
    } else if addr == 0xFF44 {
        ppu.ly
    } else if addr == 0xFF45 {
        ppu.lyc
    } else if addr == 0xFF46 {
        ppu.dma.value
    } else if addr == 0xFF47 {
        ppu.bg_palette_data
    } else if addr == 0xFF48 {
        ppu.sprite0_palette_data
    } else if addr == 0xFF49 {
        ppu.sprite1_palette_data
    } else if addr == 0xFF4A {
        ppu.window_y
    } else {
        ppu.window_x
    }
}

impl Interconnect {
    /// Presses a key and requests the joypad interrupt.
    pub fn key_down(&mut self, key: Key)
        requires
            old(self).wf(),
        ensures
            final(self).wf(),
            final(self).if_reg() == old(self).if_reg() | (1u8 << interrupt_bit(InterruptType::Joypad)),
    {
        self.joypad.key_down(key);
        request_interrupt(self, InterruptType::Joypad);
    }

    /// Releases a key and requests the joypad interrupt.
    pub fn key_up(&mut self, key: Key)
        requires
            old(self).wf(),
        ensures
            final(self).wf(),
            final(self).if_reg() == old(self).if_reg() | (1u8 << interrupt_bit(InterruptType::Joypad)),
    {
        self.joypad.key_up(key);
        request_interrupt(self, InterruptType::Joypad);
    }

    /// Copies 0xA0 bytes from page `value` into OAM through the bus: byte
    /// `i` of OAM becomes what the bus read at `value * 0x100 + i` before the
    /// copy. While a timed DMA runs, OAM ignores the writes.
    pub fn dma_transfer(&mut self, value: u8)
        requires
            old(self).wf(),
        ensures
            final(self).wf(),
            *final(self) == (Interconnect { ppu: Ppu { oam: final(self).ppu.oam, ..old(self).ppu }, ..*old(self) }),
            old(self).ppu.dma.active ==> final(self).ppu.oam@ == old(self).ppu.oam@,
            !old(self).ppu.dma.active ==> forall|o: int| 0 <= o < 0xA0 ==>
                #[trigger] oam_byte(final(self).ppu.oam@, o) == old(self).read_spec((value * 256 + o) as u16),
    {
        let addr: u16 = (value as u16) * 256;
        let mut i: u16 = 0;
        while i < 0xA0
            invariant
                self.wf(),
                addr == value * 256,
                i <= 0xA0,
                *self == (Interconnect { ppu: Ppu { oam: self.ppu.oam, ..old(self).ppu }, ..*old(self) }),
                old(self).ppu.dma.active ==> self.ppu.oam@ == old(self).ppu.oam@,
                !old(self).ppu.dma.active ==> forall|o: int| 0 <= o < i ==>
                    #[trigger] oam_byte(self.ppu.oam@, o) == old(self).read_spec((value * 256 + o) as u16),
                !old(self).ppu.dma.active ==> forall|o: int| i <= o < 0xA0 ==>
                    #[trigger] oam_byte(self.ppu.oam@, o) == oam_byte(old(self).ppu.oam@, o),
            decreases 0xA0 - i,
        {
            let src: u16 = addr + i;
            let b: u8 = self.read_mem(src);
            assert(b == old(self).read_spec(src)) by {
                if in_oam(src) {
                    assert(src - 0xFE00 == i);
                    if !old(self).ppu.dma.active {
                        assert(oam_byte(self.ppu.oam@, i as int) == oam_byte(old(self).ppu.oam@, i as int));
                    }
                }
            }
            self.write_mem(0xFE00 + i, b);
            i = i + 1;
        }
    }

    /// The ROM the cartridge is built from is handed to `Cartridge::new`;
    /// loading it through the bus leaves the bus as it is.
    pub fn load_game_rom(&mut self, rom: &[u8])
        ensures
            *final(self) == *old(self),
    {
    }

    /// Copies `rom` into the boot ROM overlay.
    pub fn load_boot_rom(&mut self, rom: &[u8])
        requires
            old(self).wf(),
            rom@.len() <= 0x100,
        ensures
            final(self).wf(),
            *final(self) == (Interconnect { mmu: final(self).mmu, ..*old(self) }),
            forall|i: int| 0 <= i < rom@.len() ==> final(self).mmu.boot_mem()[i] == rom@[i],
            forall|i: int| rom@.len() <= i < 0x100 ==> final(self).mmu.boot_mem()[i] == old(self).mmu.boot_mem()[i],
    {
        let mut i: usize = 0;
        while i < rom.len()
            invariant
                self.wf(),
                *self == (Interconnect { mmu: self.mmu, ..*old(self) }),
                i <= rom@.len() <= 0x100,
                forall|k: int| 0 <= k < i ==> self.mmu.boot_mem()[k] == rom@[k],
                forall|k: int| i <= k < 0x100 ==> self.mmu.boot_mem()[k] == old(self).mmu.boot_mem()[k],
            decreases rom@.len() - i,
        {
            self.mmu.write_boot(i as u16, rom[i]);
            i = i + 1;
        }
    }

    /// Advances every part by `m_cycles` machine cycles: four PPU dots per
    /// cycle (requesting the interrupts the PPU asks for), the divider and
    /// the timer (TIMA reloads from TMA and requests the timer interrupt on
    /// overflow), then one DMA step per cycle. `ticks` becomes the T-cycles run.
    pub fn emu_tick(&mut self, m_cycles: u32)
        requires
            old(self).wf(),
            m_cycles <= 0x1000,
        ensures
            final(self).wf(),
            final(self).ticks == 4 * m_cycles,
            final(self).boot_active == old(self).boot_active,
            final(self).write_enabled == old(self).write_enabled,
            final(self).mmu.work_ram_mem() == old(self).mmu.work_ram_mem(),
            final(self).mmu.high_ram_mem() == old(self).mmu.high_ram_mem(),
            final(self).mmu.boot_mem() == old(self).mmu.boot_mem(),
            final(self).mmu.ie() == old(self).mmu.ie(),
            final(self).ppu.vram@ == old(self).ppu.vram@,
            final(self).cartridge.mbc == old(self).cartridge.mbc,
            final(self).serial.bytes() == old(self).serial.bytes(),
            forall|k: int| 0 <= k < 0x80 && k != 0x0F ==> final(self).mmu.io_mem()[k] == old(self).mmu.io_mem()[k],
            final(self).if_reg() & old(self).if_reg() == old(self).if_reg(),
            forall|b: u16| kept_by_tick(b) ==> #[trigger] final(self).read_spec(b) == old(self).read_spec(b),
            timer_advanced(*old(self), *final(self), m_cycles),
            ticked_by(*old(self), *final(self), m_cycles),
            line_mode_consistent(&old(self).ppu) ==> line_mode_consistent(&final(self).ppu),
            exists|ps: Seq<Ppu>, is: Seq<Seq<InterruptType>>, ds: Seq<Interconnect>|
                #[trigger] dots_run(ps, is, ds, *old(self), *final(self), m_cycles),
            regs_kept(*old(self), *final(self)),
            forall|m: Interconnect, evs: Seq<BusEvent>| ran(m, *old(self), evs)
                ==> #[trigger] ran(m, *final(self), evs.push(BusEvent::Tick(m_cycles))),
    {
        let t_cycles: u32 = m_cycles * 4;
        let ghost mut ps: Seq<Ppu> = seq![self.ppu];
        let ghost mut is: Seq<Seq<InterruptType>> = Seq::empty();
        proof {
            lemma_keeps_bits(old(self).if_reg(), old(self).if_reg(), old(self).if_reg());
            lemma_or_regroup(old(self).if_reg(), 0, 0);
        }
        let mut c: u32 = 0;
        while c < t_cycles
            invariant
                self.wf(),
                self.joypad == old(self).joypad,
                same_registers(&self.ppu, &old(self).ppu),
                line_mode_consistent(&old(self).ppu) ==> line_mode_consistent(&self.ppu),
                c <= t_cycles,
                self.boot_active == old(self).boot_active,
                self.write_enabled == old(self).write_enabled,
                self.ticks == old(self).ticks,
                self.mmu.work_ram_mem() == old(self).mmu.work_ram_mem(),
                self.mmu.high_ram_mem() == old(self).mmu.high_ram_mem(),
                self.mmu.boot_mem() == old(self).mmu.boot_mem(),
                self.mmu.ie() == old(self).mmu.ie(),
                self.ppu.vram@ == old(self).ppu.vram@,
                self.cartridge.mbc == old(self).cartridge.mbc,
                self.serial.bytes() == old(self).serial.bytes(),
                self.timer == old(self).timer,
                forall|k: int| 0 <= k < 0x80 && k != 0x0F ==> self.mmu.io_mem()[k] == old(self).mmu.io_mem()[k],
                self.if_reg() & old(self).if_reg() == old(self).if_reg(),
                ps.len() == c + 1 && is.len() == c,
                ps[0] == old(self).ppu && ps[c as int] == self.ppu,
                forall|i: int| 0 <= i < c ==> #[trigger] ppu_ticked(ps[i], ps[i + 1], is[i]),
                forall|i: int, k: int| 0 <= i < c && 0 <= k < is[i].len() ==> requested(*self, #[trigger] is[i][k]),
                self.if_reg() == old(self).if_reg() | trace_mask(is, c as int),
            decreases t_cycles - c,
        {
            let interrupts: Vec<InterruptType> = self.ppu.tick();
            proof {
                lemma_trace_mask_push(is, interrupts@, c as int);
                ps = ps.push(self.ppu);
                is = is.push(interrupts@);
                lemma_or_regroup(self.if_reg(), 0, 0);
                assert(interrupts@.take(0).len() == 0);
            }
            let mut j: usize = 0;
            while j < interrupts.len()
                invariant
                    self.wf(),
                    self.joypad == old(self).joypad,
                    same_registers(&self.ppu, &old(self).ppu),
                    line_mode_consistent(&old(self).ppu) ==> line_mode_consistent(&self.ppu),
                    self.boot_active == old(self).boot_active,
                    self.write_enabled == old(self).write_enabled,
                    self.ticks == old(self).ticks,
                    self.mmu.work_ram_mem() == old(self).mmu.work_ram_mem(),
                    self.mmu.high_ram_mem() == old(self).mmu.high_ram_mem(),
                    self.mmu.boot_mem() == old(self).mmu.boot_mem(),
                    self.mmu.ie() == old(self).mmu.ie(),
                    self.ppu.vram@ == old(self).ppu.vram@,
                    self.cartridge.mbc == old(self).cartridge.mbc,
                    self.serial.bytes() == old(self).serial.bytes(),
                    self.timer == old(self).timer,
                    forall|k: int| 0 <= k < 0x80 && k != 0x0F ==> self.mmu.io_mem()[k] == old(self).mmu.io_mem()[k],
                    self.if_reg() & old(self).if_reg() == old(self).if_reg(),
                    c < t_cycles,
                    ps.len() == c + 2 && is.len() == c + 1,
                    ps[0] == old(self).ppu && ps[c + 1] == self.ppu,
                    is[c as int] == interrupts@,
                    forall|i: int| 0 <= i <= c ==> #[trigger] ppu_ticked(ps[i], ps[i + 1], is[i]),
                    forall|i: int, k: int| 0 <= i < c && 0 <= k < is[i].len() ==> requested(*self, #[trigger] is[i][k]),
                    forall|k: int| 0 <= k < j ==> requested(*self, #[trigger] interrupts@[k]),
                    j <= interrupts@.len(),
                    self.if_reg() == (old(self).if_reg() | trace_mask(is, c as int)) | request_mask(interrupts@.take(j as int)),
                decreases interrupts@.len() - j,
            {
                let ghost prev = self.if_reg();
                let ghost before = *self;
                request_interrupt(self, interrupts[j]);
                proof {
                    let a = old(self).if_reg() | trace_mask(is, c as int);
                    let mk = request_mask(interrupts@.take(j as int));
                    lemma_or_regroup(a, mk, 1u8 << interrupt_bit(interrupts@[j as int]));
                    assert(interrupts@.take(j as int + 1).drop_last() =~= interrupts@.take(j as int));
                    lemma_keeps_bits(old(self).if_reg(), prev, self.if_reg());
                    assert forall|i: int, k: int| 0 <= i < c && 0 <= k < is[i].len() implies requested(*self, #[trigger] is[i][k]) by {
                        lemma_keeps_bits(1u8 << interrupt_bit(is[i][k]), prev, self.if_reg());
                    }
                    assert forall|k: int| 0 <= k < j + 1 implies requested(*self, #[trigger] interrupts@[k]) by {
                        if k < j {
                            lemma_keeps_bits(1u8 << interrupt_bit(interrupts@[k]), prev, self.if_reg());
                        }
                    }
                }
                j = j + 1;
            }
            proof {
                assert(interrupts@.take(interrupts@.len() as int) =~= interrupts@);
                lemma_or_regroup(old(self).if_reg(), trace_mask(is, c as int), request_mask(interrupts@));
                assert(trace_mask(is, c + 1) == trace_mask(is, c as int) | request_mask(is[c as int]));
                assert forall|i: int, k: int| 0 <= i < c + 1 && 0 <= k < is[i].len() implies requested(*self, #[trigger] is[i][k]) by {
                    if i == c {
                        assert(is[i][k] == interrupts@[k]);
                    }
                }
            }
            c = c + 1;
        }

        self.ticks = t_cycles as u64;

        let div_value: u8 = (self.timer.div_clock.next(t_cycles) % 256) as u8;
        let new_div: u8 = self.timer.div().wrapping_add(div_value);
        self.timer.set_div(new_div);

        let ghost t_mid = self.timer;
        let ghost if_mid = self.if_reg();
        proof { lemma_or_regroup(if_mid, 0, 0); }
        let timer_enabled: bool = (self.timer.tac() & 0x04) != 0x00;
        if timer_enabled {
            let n: u32 = self.timer.tima_clock.next(t_cycles);
            let ghost t_clk = self.timer;
            let mut k: u32 = 0;
            while k < n
                invariant
                    self.wf(),
                    self.joypad == old(self).joypad,
                    same_registers(&self.ppu, &old(self).ppu),
                    line_mode_consistent(&old(self).ppu) ==> line_mode_consistent(&self.ppu),
                    self.boot_active == old(self).boot_active,
                    self.write_enabled == old(self).write_enabled,
                    self.ticks == 4 * m_cycles,
                    self.mmu.work_ram_mem() == old(self).mmu.work_ram_mem(),
                    self.mmu.high_ram_mem() == old(self).mmu.high_ram_mem(),
                    self.mmu.boot_mem() == old(self).mmu.boot_mem(),
                    self.mmu.ie() == old(self).mmu.ie(),
                    self.ppu.vram@ == old(self).ppu.vram@,
                    self.cartridge.mbc == old(self).cartridge.mbc,
                    self.serial.bytes() == old(self).serial.bytes(),
                    forall|i: int| 0 <= i < 0x80 && i != 0x0F ==> self.mmu.io_mem()[i] == old(self).mmu.io_mem()[i],
                    self.if_reg() & old(self).if_reg() == old(self).if_reg(),
                    k <= n,
                    self.timer.tma == t_mid.tma && self.timer.tac == t_mid.tac && self.timer.counter == t_mid.counter,
                    self.timer.div == t_mid.div && self.timer.div_clock == t_mid.div_clock,
                    self.timer.tima_clock == t_clk.tima_clock,
                    t_clk.tima == t_mid.tima && t_clk.tma == t_mid.tma,
                    self.timer.tima == tima_after(t_mid.tima, t_mid.tma, k as nat),
                    tima_overflows(t_mid.tima, t_mid.tma, k as nat) ==> requested(*self, InterruptType::Timer),
                    if_mid == old(self).if_reg() | trace_mask(is, t_cycles as int),
                    self.if_reg() == if_mid | (if tima_overflows(t_mid.tima, t_mid.tma, k as nat) { 4u8 } else { 0u8 }),
                    ps.len() == t_cycles + 1 && is.len() == t_cycles,
                    ps[0] == old(self).ppu && ps[t_cycles as int] == self.ppu,
                    forall|i: int| 0 <= i < t_cycles ==> #[trigger] ppu_ticked(ps[i], ps[i + 1], is[i]),
                    forall|i: int, kk: int| 0 <= i < t_cycles && 0 <= kk < is[i].len() ==> requested(*self, #[trigger] is[i][kk]),
                decreases n - k,
            {
                let tima_value: u8 = self.timer.tima().wrapping_add(1);
                self.timer.set_tima(tima_value);
                let ghost before_req = *self;
                if self.timer.tima() == 0x00 {
                    let tma: u8 = self.timer.tma();
                    self.timer.set_tima(tma);
                    let ghost prev = self.if_reg();
                    request_interrupt(self, InterruptType::Timer);
                    proof {
                        let x: u8 = if tima_overflows(t_mid.tima, t_mid.tma, k as nat) { 4u8 } else { 0u8 };
                        lemma_or_regroup(if_mid, x, 4);
                        lemma_or_regroup(4, 0, 0);
                        assert(tima_overflows(t_mid.tima, t_mid.tma, (k + 1) as nat));
                        lemma_keeps_bits(old(self).if_reg(), prev, self.if_reg());
                        assert forall|i: int, kk: int| 0 <= i < t_cycles && 0 <= kk < is[i].len() implies requested(*self, #[trigger] is[i][kk]) by {
                            lemma_keeps_bits(1u8 << interrupt_bit(is[i][kk]), prev, self.if_reg());
                        }
                    }
                } else {
                    proof {
                        if tima_overflows(t_mid.tima, t_mid.tma, k as nat) {
                            assert(requested(before_req, InterruptType::Timer));
                        }
                    }
                }
                k = k + 1;
            }
        }
        proof {
            lemma_or_regroup(old(self).if_reg() | trace_mask(is, t_cycles as int), 0, 0);
            assert(self.if_reg() == (old(self).if_reg() | trace_mask(is, t_cycles as int)) | timer_mask(*old(self), m_cycles));
        }
        let ghost t_end = self.timer;
        let ghost if_end = self.if_reg();
        let ghost m_t = *self;
        let ghost mut ds: Seq<Interconnect> = seq![*self];

        let mut d: u32 = 0;
        while d < m_cycles
            invariant
                self.wf(),
                self.joypad == old(self).joypad,
                same_registers(&self.ppu, &old(self).ppu),
                ps.len() == t_cycles + 1 && is.len() == t_cycles,
                ps[0] == old(self).ppu,
                self.ppu == (Ppu { oam: self.ppu.oam, dma: self.ppu.dma, ..ps[t_cycles as int] }),
                forall|i: int| 0 <= i < t_cycles ==> #[trigger] ppu_ticked(ps[i], ps[i + 1], is[i]),
                forall|i: int, kk: int| 0 <= i < t_cycles && 0 <= kk < is[i].len() ==> requested(*self, #[trigger] is[i][kk]),
                line_mode_consistent(&old(self).ppu) ==> line_mode_consistent(&self.ppu),
                self.timer == t_end,
                self.if_reg() == if_end,
                self.boot_active == old(self).boot_active,
                self.write_enabled == old(self).write_enabled,
                self.ticks == 4 * m_cycles,
                self.mmu.work_ram_mem() == old(self).mmu.work_ram_mem(),
                self.mmu.high_ram_mem() == old(self).mmu.high_ram_mem(),
                self.mmu.boot_mem() == old(self).mmu.boot_mem(),
                self.mmu.ie() == old(self).mmu.ie(),
                self.ppu.vram@ == old(self).ppu.vram@,
                self.cartridge.mbc == old(self).cartridge.mbc,
                self.serial.bytes() == old(self).serial.bytes(),
                forall|i: int| 0 <= i < 0x80 && i != 0x0F ==> self.mmu.io_mem()[i] == old(self).mmu.io_mem()[i],
                self.if_reg() & old(self).if_reg() == old(self).if_reg(),
                d <= m_cycles,
                ds.len() == d + 1 && ds[0] == m_t && ds[d as int] == *self,
                forall|i: int| 0 <= i < d ==> #[trigger] dma_stepped(ds[i], ds[i + 1]),
                *self == (Interconnect { ppu: self.ppu, ..m_t }),
                m_t.ppu == ps[t_cycles as int],
            decreases m_cycles - d,
        {
            self.dma_tick();
            proof { ds = ds.push(*self); }
            d = d + 1;
        }
        proof {
            reveal(timer_advanced);
            reveal(ticked_by);
            assert(m_t == (Interconnect { ppu: ps[t_cycles as int], ..*self }));
            reveal(dots_run);
            assert(dots_run(ps, is, ds, *old(self), *self, m_cycles));
            assert(ticked_by(*old(self), *self, m_cycles));
            assert forall|m: Interconnect, evs: Seq<BusEvent>| ran(m, *old(self), evs)
                implies #[trigger] ran(m, *self, evs.push(BusEvent::Tick(m_cycles))) by {
                lemma_ran_push(m, *old(self), *self, evs, BusEvent::Tick(m_cycles));
            }
        }
    }

    /// One DMA step: while the start delay runs it counts on; afterwards one
    /// byte moves from page `dma.value` to OAM, and the transfer ends after 0xA0.
    pub fn dma_tick(&mut self)
        requires
            old(self).wf(),
        ensures
            final(self).wf(),
            dma_stepped(*old(self), *final(self)),
    {
        if !self.ppu.dma_active() {
            return;
        }
        if self.ppu.dma_start_delay() > 0 {
            let delay_value: u8 = self.ppu.dma_start_delay().wrapping_add(1);
            self.ppu.set_dma_start_delay(delay_value);
            return;
        }
        let addr: u16 = (self.ppu.dma_value() as u16) * 0x100 + (self.ppu.dma_byte() as u16);
        let byte: u8 = self.read_mem(addr);
        let target: u16 = self.ppu.dma_byte() as u16;
        self.ppu.write_oam(target, byte);
        let byte_value: u8 = self.ppu.dma_byte().wrapping_add(1);
        self.ppu.set_dma_byte(byte_value);
        let still: bool = self.ppu.dma_byte() < 0xA0;
        self.ppu.set_dma_active(still);
    }
}

/// Colour number of pixel (`x`, `y`) of tile `tile_num` of the tile data at
/// 0x8000, as the bus reads it: row `y` is the byte at 0x8000 + 16 * tile +
/// 2 * y (bit 0 of the colour) and the byte after it (bit 1); column 0 is
/// bit 7.
pub open spec fn tile_pixel(m: &Interconnect, tile_num: u16, y: int, x: int) -> u8 {
    let addr = 0x8000 + 16 * tile_num + 2 * y;
    let plane0 = m.read_spec(addr as u16);
    let plane1 = m.read_spec((addr + 1) as u16);
    let bit = (7 - x) as u8;
    (((plane0 >> bit) & 1u8) + 2 * ((plane1 >> bit) & 1u8)) as u8
}

impl Interconnect {
    /// The 64 colour numbers of tile `tile_num` (0-383) of the tile data,
    /// row by row, leftmost pixel first, read through the bus.
    pub fn tile_colors(&self, tile_num: u16) -> (r: Vec<u8>)
        requires
            self.wf(),
            tile_num < 384,
        ensures
            r@.len() == 64,
            forall|y: int, x: int| 0 <= y < 8 && 0 <= x < 8 ==> #[trigger] r@[8 * y + x] == tile_pixel(self, tile_num, y, x),
    {
        let mut r: Vec<u8> = Vec::new();
        let mut y: u16 = 0;
        while y < 8
            invariant
                self.wf(),
                tile_num < 384,
                y <= 8,
                r@.len() == 8 * y,
                forall|yy: int, x: int| 0 <= yy < y && 0 <= x < 8 ==> #[trigger] r@[8 * yy + x] == tile_pixel(self, tile_num, yy, x),
            decreases 8 - y,
        {
            let addr: u16 = 0x8000 + tile_num * 16 + 2 * y;
            let plane0: u8 = self.read_mem(addr);
            let plane1: u8 = self.read_mem(addr + 1);
            let mut x: u16 = 0;
            while x < 8
                invariant
                    self.wf(),
                    tile_num < 384,
                    y < 8,
                    x <= 8,
                    addr == 0x8000 + 16 * tile_num + 2 * y,
                    plane0 == self.read_spec(addr),
                    plane1 == self.read_spec((addr + 1) as u16),
                    r@.len() == 8 * y + x,
                    forall|yy: int, xx: int| 0 <= yy < y && 0 <= xx < 8 ==> #[trigger] r@[8 * yy + xx] == tile_pixel(self, tile_num, yy, xx),
                    forall|xx: int| 0 <= xx < x ==> #[trigger] r@[8 * y + xx] == tile_pixel(self, tile_num, y as int, xx),
                decreases 8 - x,
            {
                let bit: u8 = (7 - x) as u8;
                let c: u8 = Ppu::pixel_value(plane0, plane1, bit);
                assert(c == tile_pixel(self, tile_num, y as int, x as int));
                r.push(c);
                x = x + 1;
            }
            y = y + 1;
        }
        r
    }
}

/// IE has bit `index` set.
pub fn is_interrupt_enabled(interconnect: &mut Interconnect, index: u8) -> (r: bool)
    requires
        old(interconnect).wf(),
        index < 8,
    ensures
        *final(interconnect) == *old(interconnect),
        r == ((old(interconnect).mmu.ie() >> index) & 1 == 1),
{
    let interrupt_enable: u8 = interconnect.read_mem(INTERRUPT_ENABLE);
    proof { assert(index < 8 ==> ((interrupt_enable & (1u8 << index)) > 0) == ((interrupt_enable >> index) & 1 == 1)) by (bit_vector); }
    (interrupt_enable & (1u8 << index)) > 0
}

/// IF has bit `index` set.
pub fn is_interrupt_requested(interconnect: &mut Interconnect, index: u8) -> (r: bool)
    requires
        old(interconnect).wf(),
        index < 8,
    ensures
        *final(interconnect) == *old(interconnect),
        r == ((old(interconnect).if_reg() >> index) & 1 == 1),
{
    let interrupt_flag: u8 = interconnect.read_mem(INTERRUPT_FLAG);
    proof { assert(index < 8 ==> ((interrupt_flag & (1u8 << index)) > 0) == ((interrupt_flag >> index) & 1 == 1)) by (bit_vector); }
    (interrupt_flag & (1u8 << index)) > 0
}

/// Sets the interrupt's bit in IF.
pub fn request_interrupt(interconnect: &mut Interconnect, interrupt: InterruptType)
    requires
        old(interconnect).wf(),
    ensures
        final(interconnect).wf(),
        final(interconnect).if_reg() == old(interconnect).if_reg() | (1u8 << interrupt_bit(interrupt)),
        forall|b: u16| b != INTERRUPT_FLAG ==> #[trigger] final(interconnect).read_spec(b) == old(interconnect).read_spec(b),
        *final(interconnect) == (Interconnect { mmu: final(interconnect).mmu, ..*old(interconnect) }),
        final(interconnect).mmu.work_ram_mem() == old(interconnect).mmu.work_ram_mem(),
        final(interconnect).mmu.high_ram_mem() == old(interconnect).mmu.high_ram_mem(),
        final(interconnect).mmu.boot_mem() == old(interconnect).mmu.boot_mem(),
        final(interconnect).mmu.ie() == old(interconnect).mmu.ie(),
        forall|k: int| 0 <= k < 0x80 && k != 0x0F ==> final(interconnect).mmu.io_mem()[k] == old(interconnect).mmu.io_mem()[k],
        final(interconnect).if_reg() & old(interconnect).if_reg() == old(interconnect).if_reg(),
        requested(*final(interconnect), interrupt),
{
    let interrupt_request: u8 = interconnect.read_mem(INTERRUPT_FLAG);
    let nth_bit: u8 = interrupt_index(interrupt);
    let v: u8 = interrupt_request | (1u8 << nth_bit);
    proof {
        assert((interrupt_request | (1u8 << nth_bit)) & interrupt_request == interrupt_request
            && (interrupt_request | (1u8 << nth_bit)) & (1u8 << nth_bit) == (1u8 << nth_bit)) by (bit_vector);
    }
    interconnect.mmu.write_io(0x0F, v);
}

/// One step of the bus as the CPU drives it: `Tick(m)` lets `m` machine
/// cycles pass (as `emu_tick(m)` does), `Write(addr, value)` is a write of
/// `value` at `addr`.
pub enum BusEvent {
    Tick(u32),
    Write(u16, u8),
}

/// Bus `m1` is bus `m0` after the single step `e`.
pub open spec fn event_done(m0: Interconnect, m1: Interconnect, e: BusEvent) -> bool {
    match e {
        BusEvent::Tick(m) => ticked_by(m0, m1, m),
        BusEvent::Write(addr, value) => bus_written(m0, m1, addr, value),
    }
}

/// The buses `ms` go from `m0` to `m1`, each after the next step of `evs`.
pub open spec fn ran_through(ms: Seq<Interconnect>, m0: Interconnect, m1: Interconnect, evs: Seq<BusEvent>) -> bool {
    &&& ms.len() == evs.len() + 1 && ms[0] == m0 && ms[evs.len() as int] == m1
    &&& forall|i: int| 0 <= i < evs.len() ==> #[trigger] event_done(ms[i], ms[i + 1], evs[i])
}

/// Bus `m1` is bus `m0` after exactly the steps `evs`, in order.
#[verifier::opaque]
pub open spec fn ran(m0: Interconnect, m1: Interconnect, evs: Seq<BusEvent>) -> bool {
    exists|ms: Seq<Interconnect>| #[trigger] ran_through(ms, m0, m1, evs)
}

/// No steps leave the bus as it is.
pub broadcast proof fn lemma_ran_nil(m: Interconnect)
    ensures
        #[trigger] ran(m, m, Seq::<BusEvent>::empty()),
{
    reveal(ran);
    assert(ran_through(seq![m], m, m, Seq::<BusEvent>::empty()));
}

/// Steps `evs` followed by step `e` are the steps `evs.push(e)`.
pub proof fn lemma_ran_push(m0: Interconnect, m1: Interconnect, m2: Interconnect, evs: Seq<BusEvent>, e: BusEvent)
    requires
        ran(m0, m1, evs),
        event_done(m1, m2, e),
    ensures
        ran(m0, m2, evs.push(e)),
{
    reveal(ran);
    let ms = choose|ms: Seq<Interconnect>| #[trigger] ran_through(ms, m0, m1, evs);
    let ms2 = ms.push(m2);
    let evs2 = evs.push(e);
    assert forall|i: int| 0 <= i < evs2.len() implies #[trigger] event_done(ms2[i], ms2[i + 1], evs2[i]) by {
        if i < evs.len() {
            assert(ms2[i] == ms[i] && ms2[i + 1] == ms[i + 1] && evs2[i] == evs[i]);
        }
    }
    assert(ran_through(ms2, m0, m2, evs2));
}

/// Bus `m1` is bus `m0` after step `e1`: a run that reaches `m0` reaches
/// `m1` with `e1` appended.
pub open spec fn then1(m0: Interconnect, m1: Interconnect, e1: BusEvent) -> bool {
    forall|m: Interconnect, pre: Seq<BusEvent>| ran(m, m0, pre) ==> #[trigger] ran(m, m1, pre.push(e1))
}

/// Bus `m1` is bus `m0` after steps `e1`, `e2`.
pub open spec fn then2(m0: Interconnect, m1: Interconnect, e1: BusEvent, e2: BusEvent) -> bool {
    forall|m: Interconnect, pre: Seq<BusEvent>| ran(m, m0, pre) ==> #[trigger] ran(m, m1, pre.push(e1).push(e2))
}

/// Bus `m1` is bus `m0` after steps `e1`, `e2`, `e3`.
pub open spec fn then3(m0: Interconnect, m1: Interconnect, e1: BusEvent, e2: BusEvent, e3: BusEvent) -> bool {
    forall|m: Interconnect, pre: Seq<BusEvent>| ran(m, m0, pre)
        ==> #[trigger] ran(m, m1, pre.push(e1).push(e2).push(e3))
}

/// IF has the bit of interrupt `i` set.
pub open spec fn requested(m: Interconnect, i: InterruptType) -> bool {
    m.if_reg() & (1u8 << interrupt_bit(i)) == (1u8 << interrupt_bit(i))
}

/// Interrupt `i` is both enabled in IE and requested in IF.
pub open spec fn pending(m: Interconnect, i: u8) -> bool {
    (m.mmu.ie() >> i) & 1 == 1 && (m.if_reg() >> i) & 1 == 1
}

/// The pending interrupt of highest priority.
pub open spec fn first_pending(m: Interconnect) -> Option<InterruptType> {
    if pending(m, 0) {
        Some(InterruptType::VBlank)
    } else if pending(m, 1) {
        Some(InterruptType::LcdStat)
    } else if pending(m, 2) {
        Some(InterruptType::Timer)
    } else if pending(m, 3) {
        Some(InterruptType::Serial)
    } else if pending(m, 4) {
        Some(InterruptType::Joypad)
    } else {
        None
    }
}

/// The pending interrupt of highest priority, looking at the interrupts in
/// priority order.
pub fn get_interrupt(interconnect: &mut Interconnect) -> (r: Option<InterruptType>)
    requires
        old(interconnect).wf(),
    ensures
        *final(interconnect) == *old(interconnect),
        r == first_pending(*old(interconnect)),
{
    let mut i: u8 = 0;
    while i < 5
        invariant
            i <= 5,
            interconnect.wf(),
            *interconnect == *old(interconnect),
            forall|j: u8| j < i ==> !#[trigger] pending(*interconnect, j),
        decreases 5 - i,
    {
        if is_interrupt_enabled(interconnect, i) && is_interrupt_requested(interconnect, i) {
            return Some(interrupt_from_index(i));
        }
        i = i + 1;
    }
    None
}

} // verus!
