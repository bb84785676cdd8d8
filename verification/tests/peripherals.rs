use rustboy::interconnect::{get_interrupt, is_interrupt_enabled, is_interrupt_requested, request_interrupt, Interconnect};
use rustboy::interrupts::{handler_address, interrupt_from_index, interrupt_index, InterruptType};
use rustboy::joypad::{key_to_u8, Joypad, Key};
use rustboy::mmu::Mmu;
use rustboy::serial::SerialOutput;
use rustboy::timer::{Clock, Timer};

#[test]
fn clock_counts_whole_periods() {
    let mut c = Clock::power_up(256);
    assert_eq!(c.next(300), 1);
    assert_eq!(c.n, 44);
    assert_eq!(c.next(212), 1);
    assert_eq!(c.n, 0);
    assert_eq!(c.next(100), 0);
    assert_eq!(c.n, 100);
}

#[test]
fn timer_registers() {
    let mut t = Timer::new();
    t.timer_write(0xFF06, 0x42);
    assert_eq!(t.timer_read(0xFF06), 0x42);
    t.timer_write(0xFF05, 0x10);
    assert_eq!(t.timer_read(0xFF05), 0x10);
    t.timer_write(0xFF07, 0x05);
    assert_eq!(t.timer_read(0xFF07), 0x05);
    assert_eq!(t.tima_clock.period, 16);
    assert_eq!(t.tima(), 0x42);
    t.set_tima(0x11);
    t.timer_write(0xFF07, 0x01);
    assert_eq!(t.tima(), 0x11);
    t.set_div(9);
    t.timer_write(0xFF04, 0x77);
    assert_eq!(t.div(), 0);
    assert_eq!(t.tima(), 0);
    assert_eq!(t.div_clock.n, 0);
}

#[test]
fn timer_clock_select_periods() {
    let mut t = Timer::new();
    t.timer_write(0xFF07, 0x06);
    assert_eq!(t.tima_clock().period, 64);
    t.timer_write(0xFF07, 0x07);
    assert_eq!(t.tima_clock().period, 256);
    t.timer_write(0xFF07, 0x04);
    assert_eq!(t.tima_clock().period, 1024);
    assert_eq!(t.div_clock().period, 256);
}

#[test]
fn joypad_selects_and_keys() {
    let mut pad = Joypad::init();
    assert_eq!(pad.read(), 0xFF);
    pad.write(0x20);
    assert_eq!(pad.select_direction, 0);
    assert_eq!(pad.select_action, 1);
    assert_eq!(pad.read(), 0x0F);
    pad.key_down(Key::Right);
    assert_eq!(pad.read(), 0x0E);
    pad.key_down(Key::Down);
    assert_eq!(pad.read(), 0x06);
    pad.key_up(Key::Right);
    assert_eq!(pad.read(), 0x07);
    pad.write(0x10);
    assert_eq!(pad.read(), 0x0F);
    pad.key_down(Key::Start);
    assert_eq!(pad.read(), 0x07);
    assert_eq!(key_to_u8(&Key::Select), 0b0100);
    assert_eq!(key_to_u8(&Key::B), 0b0010);
}

#[test]
fn interrupt_numbers() {
    assert_eq!(interrupt_index(InterruptType::VBlank), 0);
    assert_eq!(interrupt_index(InterruptType::Joypad), 4);
    assert!(interrupt_from_index(2) == InterruptType::Timer);
    for i in 0..5u8 {
        assert_eq!(interrupt_index(interrupt_from_index(i)), i);
    }
    assert_eq!(handler_address(InterruptType::VBlank), 0x40);
    assert_eq!(handler_address(InterruptType::LcdStat), 0x48);
    assert_eq!(handler_address(InterruptType::Timer), 0x50);
    assert_eq!(handler_address(InterruptType::Serial), 0x58);
}

#[test]
fn serial_buffer() {
    let mut s = SerialOutput::new();
    s.write_byte(b'o');
    s.write_byte(b'k');
    assert_eq!(s.read_bytes(), b"ok".to_vec());
    assert_eq!(s.output(), b"ok".to_vec());
    assert!(s.read_bytes().is_empty());
}

#[test]
fn mmu_regions() {
    let mut m = Mmu::new();
    m.write_work_ram(0x1FFF, 0xAB);
    assert_eq!(m.read_work_ram(0x1FFF), 0xAB);
    m.write_hram(0x7E, 0xCD);
    assert_eq!(m.read_hram(0x7E), 0xCD);
    m.write_io(0x0F, 0x1F);
    assert_eq!(m.read_io(0x0F), 0x1F);
    m.write_boot(0xFF, 0x50);
    assert_eq!(m.read_boot(0xFF), 0x50);
    m.write_rom_bank(0x7FFF, 0x11);
    assert_eq!(m.read_rom_bank(0x7FFF), 0x11);
    m.write_external_ram(0x10, 0x22);
    assert_eq!(m.read_external_ram(0x10), 0x22);
    m.enable_interrupt(0x05);
    assert_eq!(m.read_interrupt_enable(), 0x05);
}

#[test]
fn bus_memory_map_round_trips() {
    let mut ic = Interconnect::new();
    ic.write_mem(0xC123, 0x11);
    assert_eq!(ic.read_mem(0xC123), 0x11);
    ic.write_mem(0xFF90, 0x22);
    assert_eq!(ic.read_mem(0xFF90), 0x22);
    ic.write_mem(0x8010, 0x33);
    assert_eq!(ic.read_mem(0x8010), 0x33);
    ic.write_mem(0xFFFF, 0x1F);
    assert_eq!(ic.read_mem(0xFFFF), 0x1F);
    ic.write_mem(0xFF06, 0x44);
    assert_eq!(ic.read_mem(0xFF06), 0x44);
    ic.write_mem(0xFF42, 0x55);
    assert_eq!(ic.read_mem(0xFF42), 0x55);
    ic.write_mem(0xFE01, 0x66);
    assert_eq!(ic.read_mem(0xFE01), 0x66);
    // the empty cartridge holds nothing
    assert_eq!(ic.read_mem(0x4000), 0xFF);
    // echo RAM is not mapped
    assert_eq!(ic.read_mem(0xE000), 0);
}

#[test]
fn bus_joypad_register() {
    let mut ic = Interconnect::new();
    ic.write_mem(0xFF00, 0x20);
    ic.key_down(Key::Left);
    assert_eq!(ic.read_mem(0xFF00), 0x0D);
    assert_eq!(ic.read_mem(0xFF0F) & 0x10, 0x10);
    ic.key_up(Key::Left);
    assert_eq!(ic.read_mem(0xFF00), 0x0F);
}

#[test]
fn bus_interrupt_helpers() {
    let mut ic = Interconnect::new();
    assert!(get_interrupt(&mut ic).is_none());
    request_interrupt(&mut ic, InterruptType::Timer);
    request_interrupt(&mut ic, InterruptType::Serial);
    assert!(is_interrupt_requested(&mut ic, 2));
    assert!(!is_interrupt_enabled(&mut ic, 2));
    assert!(get_interrupt(&mut ic).is_none());
    ic.write_mem(0xFFFF, 0x0C);
    assert!(is_interrupt_enabled(&mut ic, 3));
    assert!(get_interrupt(&mut ic) == Some(InterruptType::Timer));
}

#[test]
fn bus_timer_overflow_requests_interrupt() {
    let mut ic = Interconnect::new();
    ic.write_mem(0xFF06, 0xAB);
    ic.write_mem(0xFF07, 0x05);
    ic.write_mem(0xFF05, 0xFF);
    ic.emu_tick(4);
    assert_eq!(ic.ticks, 16);
    assert_eq!(ic.read_mem(0xFF05), 0xAB);
    assert_eq!(ic.read_mem(0xFF0F) & 0x04, 0x04);
}

#[test]
fn bus_timer_overflow_adds_only_the_timer_bit() {
    let mut ic = Interconnect::new();
    ic.write_mem(0xFF07, 0x05);
    ic.write_mem(0xFF05, 0xFF);
    let before = ic.read_mem(0xFF0F);
    ic.emu_tick(4);
    assert_eq!(ic.read_mem(0xFF0F), before | 0x04);
}

#[test]
fn bus_quiet_tick_leaves_interrupt_flags() {
    let mut ic = Interconnect::new();
    let before = ic.read_mem(0xFF0F);
    ic.emu_tick(4);
    assert_eq!(ic.read_mem(0xFF0F), before);
}

#[test]
fn bus_divider_advances() {
    let mut ic = Interconnect::new();
    ic.emu_tick(64);
    assert_eq!(ic.read_mem(0xFF04), 1);
    assert_eq!(ic.ticks, 256);
}

#[test]
fn bus_dma_copies_work_ram_to_oam() {
    let mut ic = Interconnect::new();
    for i in 0..0xA0u16 {
        ic.write_mem(0xC000 + i, (i as u8) ^ 0x5A);
    }
    ic.dma_transfer(0xC0);
    for i in 0..0xA0u16 {
        assert_eq!(ic.read_mem(0xFE00 + i), (i as u8) ^ 0x5A);
    }
}

#[test]
fn boot_rom_overlay() {
    let mut ic = Interconnect::new();
    let boot = vec![0x31, 0xFE, 0xFF];
    ic.load_boot_rom(&boot);
    assert_eq!(ic.read_mem(0x0001), 0xFE);
    ic.boot_active = false;
    assert_eq!(ic.read_mem(0x0001), 0xFF);
}

#[test]
fn timed_dma_copies_after_its_start_delay() {
    let mut ic = Interconnect::new();
    for i in 0..0xA0u16 {
        ic.write_mem(0xC000 + i, (i as u8).wrapping_mul(3));
    }
    ic.write_mem(0xFF46, 0xC0);
    assert!(ic.ppu.dma_transferring());
    // while the transfer runs, OAM reads as 0xFF and ignores writes
    assert_eq!(ic.read_mem(0xFE00), 0xFF);
    ic.emu_tick(254);
    assert!(ic.ppu.dma_transferring());
    assert_eq!(ic.ppu.dma_start_delay(), 0);
    ic.emu_tick(160);
    assert!(!ic.ppu.dma_transferring());
    for i in 0..0xA0u16 {
        assert_eq!(ic.read_mem(0xFE00 + i), (i as u8).wrapping_mul(3));
    }
}

#[test]
fn tile_colors_read_through_the_bus() {
    let mut ic = Interconnect::new();
    // tile 2, row 1: plane 0 = 0b1010_0000, plane 1 = 0b1100_0000
    ic.write_mem(0x8000 + 2 * 16 + 2, 0xA0);
    ic.write_mem(0x8000 + 2 * 16 + 3, 0xC0);
    let colors = ic.tile_colors(2);
    assert_eq!(colors.len(), 64);
    assert_eq!(&colors[8..16], &[3, 2, 1, 0, 0, 0, 0, 0]);
    assert!(colors[0..8].iter().all(|c| *c == 0));
    assert!(ic.tile_colors(0).iter().all(|c| *c == 0));
}
