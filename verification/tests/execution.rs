use rustboy::cpu::Cpu;
use rustboy::gameboy::GameBoy;
use rustboy::instructions;
use rustboy::interconnect::{get_interrupt, request_interrupt, Interconnect};
use rustboy::interrupts::InterruptType;

/// A bus whose boot ROM holds `program` at address 0.
fn bus_with_program(program: &[u8]) -> Interconnect {
    let mut ic = Interconnect::new();
    ic.load_boot_rom(program);
    ic
}

#[test]
fn execute_ld_bc_u16() {
    let mut cpu = Cpu::new();
    let mut ic = bus_with_program(&[0x01, 0xFA, 0xDC]);
    cpu.execute_instruction(&mut ic);
    assert_eq!(cpu.registers.bc(), 0xDCFA);
    assert_eq!(cpu.pc, 3);
    assert_eq!(cpu.opcode, 0x01);
    assert_eq!(ic.ticks, 12);
}

#[test]
fn cpu_ld_bc_u16() {
    // The program sits at address 0, which the bus reads from the boot ROM.
    let mut cpu = Cpu::cleared();
    let mut mmu = bus_with_program(&[0x01, 0xFA, 0xDC]);
    cpu.pc = 0;

    cpu.execute_instruction(&mut mmu);

    assert_eq!(cpu.registers.bc(), 0xDCFA);
}

#[test]
fn tests_ld_bc_u16() {
    // The program sits at address 0, which the bus reads from the boot ROM.
    let mut cpu = Cpu::cleared();
    let mut mmu = bus_with_program(&[0x01, 0xFA, 0xDC]);
    cpu.pc = 0;

    cpu.execute_instruction(&mut mmu);

    assert_eq!(cpu.registers.bc(), 0xDCFA);
}

#[test]
fn new_cpu_holds_post_boot_registers() {
    let cpu = Cpu::new();
    assert_eq!(cpu.registers.a, 0x01);
    assert_eq!(cpu.registers.bc(), 0x0013);
    assert_eq!(cpu.registers.de(), 0x00D8);
    assert_eq!(cpu.registers.hl(), 0x014D);
    assert_eq!(cpu.registers.f.data, 0x00);
    assert_eq!(cpu.sp, 0xFFFE);
    assert_eq!(cpu.pc, 0);
}

#[test]
fn add_sp_keeps_post_boot_registers() {
    let mut cpu = Cpu::new();
    cpu.pc = 0xC000;
    cpu.sp = 0x00FF;
    cpu.registers.f.data = 0x00;
    let mut ic = Interconnect::new();
    ic.write_mem(0xC000, 0xE8);
    ic.write_mem(0xC001, 0x01);
    cpu.execute_instruction(&mut ic);
    assert_eq!(cpu.sp, 0x0100);
    assert_eq!(cpu.registers.f.data, 0x30);
    assert_eq!(cpu.pc, 0xC002);
    assert_eq!(cpu.registers.a, 0x01);
    assert_eq!(cpu.registers.hl(), 0x014D);
}

#[test]
fn execute_alu_and_loads() {
    // LD A,0x3C; LD B,A; ADD A,B; CP 0x78; XOR A
    let mut cpu = Cpu::new();
    let mut ic = bus_with_program(&[0x3E, 0x3C, 0x47, 0x80, 0xFE, 0x78, 0xAF]);
    cpu.execute_instruction(&mut ic);
    assert_eq!(cpu.registers.a, 0x3C);
    cpu.execute_instruction(&mut ic);
    assert_eq!(cpu.registers.b, 0x3C);
    cpu.execute_instruction(&mut ic);
    assert_eq!(cpu.registers.a, 0x78);
    assert_eq!(cpu.registers.f.data, 0x20);
    cpu.execute_instruction(&mut ic);
    assert_eq!(cpu.registers.a, 0x78);
    assert_eq!(cpu.registers.f.data, 0xC0);
    cpu.execute_instruction(&mut ic);
    assert_eq!(cpu.registers.a, 0);
    assert_eq!(cpu.registers.f.data, 0x80);
    assert_eq!(cpu.pc, 7);
}

#[test]
fn execute_store_and_load_work_ram() {
    // LD HL,0xC000; LD (HL+),A with A = 0x5A; LD A,(HL-) reads 0xC001 (0)
    let mut cpu = Cpu::new();
    let mut ic = bus_with_program(&[0x21, 0x00, 0xC0, 0x3E, 0x5A, 0x22, 0x2B, 0x7E]);
    for _ in 0..5 {
        cpu.execute_instruction(&mut ic);
    }
    assert_eq!(ic.read_mem(0xC000), 0x5A);
    assert_eq!(cpu.registers.hl(), 0xC000);
    assert_eq!(cpu.registers.a, 0x5A);
}

#[test]
fn execute_cb_prefixed() {
    // LD C,0x80; RL C (CB 11); BIT 7,C (CB 79); SET 0,C (CB C1)
    let mut cpu = Cpu::new();
    let mut ic = bus_with_program(&[0x0E, 0x80, 0xCB, 0x11, 0xCB, 0x79, 0xCB, 0xC1]);
    cpu.execute_instruction(&mut ic);
    cpu.execute_instruction(&mut ic);
    assert_eq!(cpu.registers.c, 0x00);
    assert_eq!(cpu.registers.f.data, 0x90);
    assert_eq!(ic.ticks, 4);
    cpu.execute_instruction(&mut ic);
    assert_eq!(cpu.registers.f.zero_flag(), 1);
    assert_eq!(cpu.registers.f.half_carry_flag(), 1);
    cpu.execute_instruction(&mut ic);
    assert_eq!(cpu.registers.c, 0x01);
    assert_eq!(cpu.pc, 8);
}

#[test]
fn execute_invalid_opcode_changes_nothing() {
    let mut cpu = Cpu::new();
    let mut ic = bus_with_program(&[0xD3]);
    cpu.execute_instruction(&mut ic);
    assert_eq!(cpu.pc, 0);
    assert_eq!(cpu.opcode, 0xD3);
    assert_eq!(ic.ticks, 0);
}

#[test]
fn execute_call_then_ret() {
    // LD SP,0xDFF0; CALL 0x0010; ... at 0x10: RET
    let mut program = vec![0x31, 0xF0, 0xDF, 0xCD, 0x10, 0x00];
    program.resize(0x10, 0x00);
    program.push(0xC9);
    let mut cpu = Cpu::new();
    let mut ic = bus_with_program(&program);
    cpu.execute_instruction(&mut ic);
    cpu.execute_instruction(&mut ic);
    assert_eq!(cpu.pc, 0x10);
    assert_eq!(cpu.sp, 0xDFEE);
    assert_eq!(ic.read_mem(0xDFEE), 0x06);
    assert_eq!(ic.read_mem(0xDFEF), 0x00);
    assert_eq!(ic.ticks, 24);
    cpu.execute_instruction(&mut ic);
    assert_eq!(cpu.pc, 0x06);
    assert_eq!(cpu.sp, 0xDFF0);
}

#[test]
fn execute_push_then_pop() {
    // LD SP,0xDFF0; LD BC,0x1234; PUSH BC; POP DE
    let mut cpu = Cpu::new();
    let mut ic = bus_with_program(&[0x31, 0xF0, 0xDF, 0x01, 0x34, 0x12, 0xC5, 0xD1]);
    for _ in 0..4 {
        cpu.execute_instruction(&mut ic);
    }
    assert_eq!(cpu.registers.de(), 0x1234);
    assert_eq!(cpu.sp, 0xDFF0);
}

#[test]
fn execute_add_sp_signed() {
    // LD SP,0xC000; ADD SP,-1; LD HL,SP+2
    let mut cpu = Cpu::new();
    let mut ic = bus_with_program(&[0x31, 0x00, 0xC0, 0xE8, 0xFF, 0xF8, 0x02]);
    cpu.execute_instruction(&mut ic);
    cpu.execute_instruction(&mut ic);
    assert_eq!(cpu.sp, 0xBFFF);
    assert_eq!(cpu.registers.f.data, 0x00);
    cpu.execute_instruction(&mut ic);
    assert_eq!(cpu.registers.hl(), 0xC001);
    assert_eq!(cpu.registers.f.data, 0x30);
}

#[test]
fn execute_jr_backwards() {
    // NOP; JR -3 lands on 0
    let mut cpu = Cpu::new();
    let mut ic = bus_with_program(&[0x00, 0x18, 0xFD]);
    cpu.execute_instruction(&mut ic);
    cpu.execute_instruction(&mut ic);
    assert_eq!(cpu.pc, 0);
}

#[test]
fn interrupt_is_served() {
    // EI; NOP; then the VBlank interrupt is taken before the next opcode.
    let mut cpu = Cpu::new();
    cpu.sp = 0xDFF0;
    let mut ic = bus_with_program(&[0xFB, 0x00, 0x00]);
    ic.write_mem(0xFFFF, 0x01);
    cpu.execute_instruction(&mut ic);
    assert!(cpu.ime_to_be_enabled);
    request_interrupt(&mut ic, InterruptType::VBlank);
    assert_eq!(get_interrupt(&mut ic), Some(InterruptType::VBlank));
    cpu.handle_interrupt(&mut ic);
    // IME not yet on: nothing served
    assert_eq!(cpu.pc, 1);
    cpu.execute_instruction(&mut ic);
    assert!(!cpu.ime);
    assert_eq!(cpu.sp, 0xDFEE);
    assert_eq!(ic.read_mem(0xDFEE), 0x01);
    assert_eq!(ic.read_mem(0xFF0F) & 0x01, 0);
    assert_eq!(cpu.pc, 0x41);
}

#[test]
fn halted_cpu_wakes_on_request() {
    let mut cpu = Cpu::new();
    cpu.halted = true;
    let mut ic = Interconnect::new();
    ic.write_mem(0xFFFF, 0x04);
    request_interrupt(&mut ic, InterruptType::Timer);
    cpu.handle_interrupt(&mut ic);
    assert!(!cpu.halted);
    assert_eq!(cpu.pc, 0);
}

#[test]
fn run_collects_serial_output() {
    // LD A,'A'; LDH (0x01),A; LD A,0x81; LDH (0x02),A; JR -2
    let mut cpu = Cpu::new();
    let mut ic = bus_with_program(&[0x3E, 0x41, 0xE0, 0x01, 0x3E, 0x81, 0xE0, 0x02, 0x18, 0xFE]);
    cpu.run(&mut ic);
    assert_eq!(ic.serial.output(), vec![0x41]);
    assert_eq!(ic.read_mem(0xFF02), 0);
}

#[test]
fn run_unmaps_boot_rom_at_0x100() {
    let mut program = vec![0x00; 0x100];
    program[0xFE] = 0x00;
    let mut cpu = Cpu::new();
    let mut ic = bus_with_program(&program);
    let mut gb_rom = vec![0x00u8; 0x8000];
    gb_rom[0x100] = 0x18;
    gb_rom[0x101] = 0xFE;
    ic.cartridge = rustboy::cartridge::Cartridge::new(&gb_rom, &Vec::new(), &rustboy::cartridge::cartridge_info::CartridgeType::ROMOnly);
    cpu.run(&mut ic);
    assert!(!ic.boot_active);
    assert!(!ic.write_enabled);
}

#[test]
fn fetch_and_immediate_word() {
    let mut cpu = Cpu::new();
    let ic = bus_with_program(&[0xC3, 0x34, 0x12]);
    cpu.fetch_opcode(&ic);
    assert_eq!(cpu.opcode, 0xC3);
    assert_eq!(cpu.get_u16(&ic), 0x1234);
}

#[test]
fn boot_skipping_boot_rom() {
    let mut rom = vec![0u8; 0x8000];
    rom[0x147] = 0x00;
    rom[0x149] = 0x00;
    let mut gb = GameBoy::new();
    let valid = gb.boot(&rom, &Vec::new(), String::from("game"), true);
    assert!(gb.booted);
    assert_eq!(gb.cpu.pc, 0x100);
    assert!(!gb.interconnect.boot_active);
    assert_eq!(gb.interconnect.cartridge.title, "game");
    // 0 - 25 = -25; the low nibble of -25 is 7, byte 0x14D is 0
    assert!(!valid);
}

#[test]
fn boot_with_boot_rom() {
    let mut rom = vec![0u8; 0x8000];
    rom[0x147] = 0x01;
    rom[0x149] = 0x02;
    rom[0x14D] = 0xE4;
    let mut gb = GameBoy::new();
    let valid = gb.boot(&rom, &vec![0x31, 0xFE, 0xFF], String::from("mbc1"), false);
    assert!(valid);
    assert_eq!(gb.cpu.pc, 0);
    assert_eq!(gb.interconnect.read_mem(0), 0x31);
    gb.cpu.execute_instruction(&mut gb.interconnect);
    assert_eq!(gb.cpu.sp, 0xFFFE);
}

#[test]
fn pop_returns_what_push_stored() {
    let mut ic = Interconnect::new();
    let mut sp: u16 = 0xD000;
    instructions::push_rr(&mut ic, 0xAB, 0xCD, &mut sp);
    assert_eq!(sp, 0xCFFE);
    let (mut hi, mut lo) = (0u8, 0u8);
    instructions::pop_rr(&ic, &mut hi, &mut lo, &mut sp);
    assert_eq!((hi, lo, sp), (0xAB, 0xCD, 0xD000));
}

#[test]
fn cpu_store_switches_rom_bank() {
    // four 16 KiB banks, each marked with its number at offset 5
    let mut rom = vec![0u8; 0x10000];
    for bank in 0..4usize {
        rom[bank * 0x4000 + 5] = bank as u8;
    }
    rom[0x147] = 0x01;
    rom[0x149] = 0x00;
    // LD A,(0x4005); LD A,2; LD (0x2000),A; LD A,(0x4005)
    let program = [0xFA, 0x05, 0x40, 0x3E, 0x02, 0xEA, 0x00, 0x20, 0xFA, 0x05, 0x40];
    rom[0x100..0x100 + program.len()].copy_from_slice(&program);
    let mut gb = GameBoy::new();
    gb.boot(&rom, &Vec::new(), String::from("banks"), true);
    gb.cpu.execute_instruction(&mut gb.interconnect);
    assert_eq!(gb.cpu.registers.a, 1);
    gb.cpu.execute_instruction(&mut gb.interconnect);
    gb.cpu.execute_instruction(&mut gb.interconnect);
    gb.cpu.execute_instruction(&mut gb.interconnect);
    assert_eq!(gb.cpu.registers.a, 2);
    assert_eq!(gb.cpu.pc, 0x100 + program.len() as u16);
}

#[test]
fn run_takes_a_frame_of_cycles() {
    let mut rom = vec![0u8; 0x8000];
    // JR -2: an endless loop of 12-cycle instructions
    rom[0x100] = 0x18;
    rom[0x101] = 0xFE;
    let mut gb = GameBoy::new();
    gb.boot(&rom, &Vec::new(), String::from("loop"), true);
    gb.cpu.run(&mut gb.interconnect);
    assert_eq!(gb.cpu.pc, 0x100);
    assert_eq!(gb.cpu.last_cycle, 12);
}

#[test]
fn boot_short_mbc1_rom() {
    let mut rom = vec![0u8; 0x14A];
    rom[0x147] = 0x01;
    rom[0x149] = 0x00;
    let mut gb = GameBoy::new();
    gb.boot(&rom, &Vec::new(), String::from("short"), true);
    assert!(gb.booted);
    assert_eq!(gb.cpu.pc, 0x100);
}

#[test]
fn joypad_interrupt_jumps_to_0x60() {
    let mut cpu = Cpu::new();
    let mut ic = Interconnect::new();
    cpu.pc = 0xC000;
    cpu.sp = 0xD000;
    cpu.ime = true;
    ic.write_mem(0xFFFF, 0x10);
    ic.write_mem(0xFF0F, 0x10);
    cpu.handle_interrupt(&mut ic);
    assert_eq!(cpu.pc, 0x60);
    assert_eq!(ic.read_mem(0xFF0F) & 0x10, 0);
    assert_eq!(ic.read_mem(0xCFFF), 0xC0);
    assert_eq!(ic.read_mem(0xCFFE), 0x00);
}

#[test]
fn nops_advance_the_divider() {
    // 64 NOPs take 64 machine cycles (256 T-cycles): one DIV period.
    let mut cpu = Cpu::new();
    let mut ic = bus_with_program(&[0x00; 64]);
    for _ in 0..63 {
        cpu.execute_instruction(&mut ic);
    }
    assert_eq!(ic.read_mem(0xFF04), 0);
    cpu.execute_instruction(&mut ic);
    assert_eq!(ic.read_mem(0xFF04), 1);
    assert_eq!(cpu.pc, 64);
}
