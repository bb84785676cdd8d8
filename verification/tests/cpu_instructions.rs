use rustboy::cpu::{Cpu, RegisterPair};
use rustboy::instructions;
use rustboy::interconnect::Interconnect;

#[test]
fn tests_internal() {
    assert_eq!(4, 4);
}

#[test]
fn tests_inc_b() {
    let mut cpu = Cpu::cleared();

    cpu.registers.b = 0x01;

    instructions::inc_8bit(&mut cpu.registers.f, &mut cpu.registers.b);

    //Check resulting register value and flags
    let check = vec![cpu.registers.b, cpu.registers.f.data];

    assert_eq!(check, [0x02, 0x00]);
}

#[test]
fn tests_inc_c() {
    let mut cpu = Cpu::cleared();

    cpu.registers.c = 0x01;

    instructions::inc_8bit(&mut cpu.registers.f, &mut cpu.registers.c);

    //Check resulting register value and flags
    let check = vec![cpu.registers.c, cpu.registers.f.data];

    assert_eq!(check, [0x02, 0x00]);
}

#[test]
fn tests_inc_d() {
    let mut cpu = Cpu::cleared();

    cpu.registers.d = 0x05;
    instructions::inc_8bit(&mut cpu.registers.f, &mut cpu.registers.d);

    //Check resulting register value and flags
    let check = vec![cpu.registers.d, cpu.registers.f.data];

    assert_eq!(check, [0x06, 0x00]);
}

#[test]
fn tests_inc_e() {
    let mut cpu = Cpu::cleared();

    cpu.registers.e = 0x05;
    instructions::inc_8bit(&mut cpu.registers.f, &mut cpu.registers.e);

    //Check resulting register value and flags
    let check = vec![cpu.registers.e, cpu.registers.f.data];

    assert_eq!(check, [0x06, 0x00]);
}

#[test]
fn tests_inc_h() {
    let mut cpu = Cpu::cleared();

    cpu.registers.h = 0x05;
    instructions::inc_8bit(&mut cpu.registers.f, &mut cpu.registers.h);

    //Check resulting register value and flags
    let check = vec![cpu.registers.h, cpu.registers.f.data];

    assert_eq!(check, [0x06, 0x00]);
}

#[test]
fn tests_inc_l() {
    let mut cpu = Cpu::cleared();

    cpu.registers.l = 0x05;
    instructions::inc_8bit(&mut cpu.registers.f, &mut cpu.registers.l);

    //Check resulting register value and flags
    let check = vec![cpu.registers.l, cpu.registers.f.data];

    assert_eq!(cpu.registers.l, 0x06);
}

#[test]
fn tests_inc_8bit_overflow() {
    let mut cpu = Cpu::cleared();

    cpu.registers.b = 0xFF;
    instructions::inc_8bit(&mut cpu.registers.f, &mut cpu.registers.b);

    //Check resulting register value and flags
    let check = vec![cpu.registers.b, cpu.registers.f.data];

    assert_eq!(check, [0x00, 0xA0]);
}

#[test]
fn tests_dec_b() {
    let mut cpu = Cpu::cleared();

    cpu.registers.b = 0x02;
    instructions::dec_8bit(&mut cpu.registers.f, &mut cpu.registers.b);

    //Check resulting register value and flags
    let check = vec![cpu.registers.b, cpu.registers.f.data];

    assert_eq!(check, [0x01, 0x40]);
}

#[test]
fn tests_dec_c() {
    let mut cpu = Cpu::cleared();

    cpu.registers.c = 0x05;

    instructions::dec_8bit(&mut cpu.registers.f, &mut cpu.registers.c);

    //Check resulting register value and flags
    let check = vec![cpu.registers.c, cpu.registers.f.data];

    //0x04 0x40
    assert_eq!(check, [0x04, 0x40]);
}

#[test]
fn tests_dec_d() {
    let mut cpu = Cpu::cleared();

    cpu.registers.d = 0x03;
    instructions::dec_8bit(&mut cpu.registers.f, &mut cpu.registers.d);

    //Check resulting register value and flags
    let check = vec![cpu.registers.d, cpu.registers.f.data];

    assert_eq!(check, [0x02, 0x40]);
}

#[test]
fn tests_dec_e() {
    let mut cpu = Cpu::cleared();

    cpu.registers.e = 0x01;
    instructions::dec_8bit(&mut cpu.registers.f, &mut cpu.registers.e);

    //Check resulting register value and flags
    let check = vec![cpu.registers.e, cpu.registers.f.data];

    assert_eq!(check, [0x00, 0xC0]);
}

#[test]
fn tests_dec_h() {
    let mut cpu = Cpu::cleared();

    cpu.registers.h = 0x00;
    instructions::dec_8bit(&mut cpu.registers.f, &mut cpu.registers.h);

    //Check resulting register value and flags
    let check = vec![cpu.registers.h, cpu.registers.f.data];

    assert_eq!(check, [0xFF, 0x60]);
}

#[test]
fn tests_dec_l() {
    let mut cpu = Cpu::cleared();

    cpu.registers.l = 0x05;
    instructions::dec_8bit(&mut cpu.registers.f, &mut cpu.registers.l);

    //Check resulting register value and flags
    let check = vec![cpu.registers.l, cpu.registers.f.data];

    assert_eq!(check, [0x04, 0x40]);
}

#[test]
fn add_r() {
    let mut cpu = Cpu::cleared();

    cpu.registers.a = 0xFF;
    cpu.registers.b = 0x05;
    let b = cpu.registers.b;

    instructions::add_a_r(&mut cpu, b);

    //Check resulting register value and flags
    let check = vec![cpu.registers.a, cpu.registers.f.data];

    assert_eq!(check, [0x04, 0x30]);
}

#[test]
fn add_r_overflow() {
    let mut cpu = Cpu::cleared();

    cpu.registers.a = 0xFF;
    cpu.registers.b = 0x80;

    let b: u8 = cpu.registers.b;

    instructions::add_a_r(&mut cpu, b);

    //Check resulting register value and flags
    let check = vec![cpu.registers.a, cpu.registers.f.data];

    assert_eq!(check, [127, 0x10]);
}

#[test]
fn adc_r() {
    let mut cpu = Cpu::cleared();

    cpu.registers.a = 0x02;
    cpu.registers.b = 0x25;
    cpu.registers.f.set_carry_flag();

    let b: u8 = cpu.registers.b;

    instructions::adc_a_r(&mut cpu, b);

    //Check resulting register value and flags
    let check = vec![cpu.registers.a, cpu.registers.f.data];

    assert_eq!(check, [0x28, 0x00]);
}

#[test]
fn sub_r() {
    let mut cpu = Cpu::cleared();

    cpu.registers.a = 0x05;
    cpu.registers.b = 0x03;

    let b: u8 = cpu.registers.b;

    instructions::sub_a_r(&mut cpu, b);

    //Check resulting register value and flags
    let check = vec![cpu.registers.a, cpu.registers.f.data];

    assert_eq!(check, [0x02, 0x40]);
}

#[test]
fn sbc_r() {
    let mut cpu = Cpu::cleared();

    cpu.registers.a = 0x08;
    cpu.registers.b = 0x02;
    cpu.registers.f.set_carry_flag();

    let b: u8 = cpu.registers.b;

    instructions::sbc_a_r(&mut cpu, b);

    //Check resulting register value and flags
    let check = vec![cpu.registers.a, cpu.registers.f.data];

    assert_eq!(check, [0x05, 0x40]);
}

#[test]
fn sub_r_borrow() {
    let mut cpu = Cpu::cleared();

    cpu.registers.a = 0x07;
    cpu.registers.b = 0x10;

    let b: u8 = cpu.registers.b;

    instructions::sub_a_r(&mut cpu, b);

    //Check resulting register value and flags
    let check = vec![cpu.registers.a, cpu.registers.f.data];

    assert_eq!(check, [0xF7, 0x50])
}

#[test]
fn sbc_r_borrow_set() {
    let mut cpu = Cpu::cleared();

    cpu.registers.a = 0x08;
    cpu.registers.b = 0x03;
    cpu.registers.f.set_carry_flag();

    let b: u8 = cpu.registers.b;

    instructions::sbc_a_r(&mut cpu, b);

    //Check resulting register value and flags
    let check = vec![cpu.registers.a, cpu.registers.f.data];

    assert_eq!(check, [0x04, 0x40]);
}

#[test]
fn inc_bc() {
    let mut cpu = Cpu::cleared();
    cpu.registers.set_bc(0x00FF);
    instructions::inc_16bit(&mut cpu, RegisterPair::BC);
    assert_eq!(cpu.registers.bc(), 256);
}

#[test]
fn inc_de() {
    let mut cpu = Cpu::cleared();
    cpu.registers.set_de(0xFFFF);
    instructions::inc_16bit(&mut cpu, RegisterPair::DE);
    assert_eq!(cpu.registers.de(), 0);
}

#[test]
fn inc_hl() {
    let mut cpu = Cpu::cleared();
    cpu.registers.set_hl(0x0008);
    instructions::inc_16bit(&mut cpu, RegisterPair::HL);
    assert_eq!(cpu.registers.hl(), 0x09);
}

#[test]
fn add_bc_hl() {
    let mut cpu = Cpu::cleared();

    cpu.registers.set_hl(0xF0);

    cpu.registers.set_bc(0xFF);

    instructions::add_rr_hl(&mut cpu, RegisterPair::BC);

    assert_eq!(cpu.registers.hl(), 0x01EF);
}

#[test]
fn add_de_hl() {
    let mut cpu = Cpu::cleared();

    cpu.registers.set_hl(0x0002);
    cpu.registers.set_de(0x0005);

    instructions::add_rr_hl(&mut cpu, RegisterPair::DE);
    assert_eq!(cpu.registers.hl(), 0x0007);
}

#[test]
fn add_hl_hl() {
    let mut cpu = Cpu::cleared();

    cpu.registers.set_hl(0xFF);

    instructions::add_rr_hl(&mut cpu, RegisterPair::HL);
    assert_eq!(cpu.registers.hl(), 0x01FE);
}

#[test]
fn tests_half_carry() {
    let mut cpu = Cpu::cleared();
    cpu.registers.b = 0x09;

    let operand: u8 = 0x0A;

    cpu.registers
        .f
        .update_half_carry_flag_sum_8bit(cpu.registers.b, operand);

    assert_eq!(cpu.registers.f.half_carry_flag(), 1);
}

#[test]
fn tests_carry() {
    let mut cpu = Cpu::cleared();

    cpu.registers.set_bc(0xFFFF);
    cpu.registers.set_hl(0x0001);

    cpu.registers
        .f
        .update_carry_flag_sum_16bit(cpu.registers.bc(), cpu.registers.hl());

    //assert_eq!(cpu.f.carry_flag, 1);
    assert_eq!(cpu.registers.bc(), 0xFFFF);
    assert_eq!(cpu.registers.hl(), 0x0001);
}

#[test]
fn load_8bit_test() {
    let mut cpu = Cpu::cleared();

    cpu.registers.c = 5;
    instructions::ld_8bit(&mut (cpu.registers.b), cpu.registers.c);
}

#[test]
fn jp_test() {
    let mut cpu: Cpu = Cpu::cleared();

    let nn: u16 = 0xFF00;

    instructions::jp(&mut cpu, nn);

    assert_eq!(cpu.pc, nn);
}

#[test]
fn jp_z_test() {
    let mut cpu: Cpu = Cpu::cleared();

    let mut interconnect = Interconnect::new();

    let nn: u16 = 0xFF00;

    cpu.registers.f.set_zero_flag();

    instructions::jp_z(&mut cpu, &mut interconnect, nn);

    assert_eq!(cpu.pc, nn);
}

#[test]
fn jp_nz_test() {
    let mut cpu: Cpu = Cpu::cleared();

    let mut interconnect = Interconnect::new();

    let nn: u16 = 0xFF00;

    cpu.registers.f.clear_zero_flag();

    instructions::jp_nz(&mut cpu, &mut interconnect, nn);

    assert_eq!(cpu.pc, nn);
}

#[test]
fn jp_c_test() {
    let mut cpu: Cpu = Cpu::cleared();

    let mut interconnect = Interconnect::new();

    let nn: u16 = 0xFF00;

    cpu.registers.f.set_carry_flag();

    instructions::jp_c(&mut cpu, &mut interconnect, nn);

    assert_eq!(cpu.pc, nn);
}

#[test]
fn jp_nc_test() {
    let mut cpu: Cpu = Cpu::cleared();

    let mut interconnect = Interconnect::new();

    let nn: u16 = 0xFF00;

    cpu.registers.f.clear_carry_flag();

    instructions::jp_nc(&mut cpu, &mut interconnect, nn);

    assert_eq!(cpu.pc, nn);
}

#[test]
fn jp_hl_test() {
    let mut cpu: Cpu = Cpu::cleared();

    cpu.registers.set_hl(0xAB00);

    let nn: u16 = cpu.registers.hl();

    instructions::jp(&mut cpu, nn);

    assert_eq!(cpu.pc, cpu.registers.hl());
}

#[test]
fn set_flags() {
    let mut cpu = Cpu::cleared();

    cpu.registers.f.set_zero_flag();
    cpu.registers.f.set_sub_flag();
    cpu.registers.f.set_half_carry_flag();
    cpu.registers.f.set_carry_flag();

    assert_eq!(cpu.registers.f.data, 0b11110000);
}

#[test]
fn clear_flags() {
    let mut cpu = Cpu::cleared();

    cpu.registers.f.set_zero_flag();
    cpu.registers.f.set_sub_flag();
    cpu.registers.f.set_half_carry_flag();
    cpu.registers.f.set_carry_flag();

    cpu.registers.f.clear_zero_flag();
    cpu.registers.f.clear_sub_flag();
    cpu.registers.f.clear_half_carry_flag();
    cpu.registers.f.clear_carry_flag();

    assert_eq!(cpu.registers.f.data, 0b00000000);
}

#[test]
fn rlca_test() {
    let mut cpu = Cpu::cleared();

    cpu.registers.a = 0x88;

    instructions::rlca(&mut cpu);

    assert_eq!(cpu.registers.a, 0x11);
}

#[test]
fn rla_test() {
    let mut cpu = Cpu::cleared();

    cpu.registers.f.set_carry_flag();
    cpu.registers.a = 0x76;
    instructions::rla(&mut cpu);

    assert_eq!(cpu.registers.a, 0b11101101);
}

#[test]
fn rlc_r_test() {
    let mut cpu = Cpu::cleared();

    //136
    cpu.registers.b = 0x88;

    instructions::rlc(&mut cpu.registers.f, &mut cpu.registers.b);

    assert_eq!(cpu.registers.f.carry_flag(), 1);
    assert_eq!(cpu.registers.b, 0x11);
}

#[test]
fn rrca_test() {
    let mut cpu = Cpu::cleared();

    cpu.registers.a = 0x11;

    instructions::rrca(&mut cpu);

    assert_eq!(cpu.registers.a, 0b10001000);
}

#[test]
fn rra_test() {
    let mut cpu = Cpu::cleared();

    cpu.registers.a = 0xE1;

    cpu.registers.f.set_carry_flag();

    instructions::rra(&mut cpu);

    assert_eq!(cpu.registers.a, 0xF0);
    assert_eq!(cpu.registers.f.carry_flag(), 0x01);
}

#[test]
fn rrc_test() {
    let mut cpu = Cpu::cleared();

    cpu.registers.b = 0x31;

    instructions::rrc(&mut cpu.registers.f, &mut cpu.registers.b);

    assert_eq!(cpu.registers.b, 0x98);
}

#[test]
fn rl_test() {
    let mut cpu = Cpu::cleared();

    cpu.registers.d = 0x8F;

    instructions::rl(&mut cpu.registers.f, &mut cpu.registers.d);

    let check = vec![cpu.registers.d, cpu.registers.f.carry_flag()];

    assert_eq!(check, [0x1E, 0x01]);
}

#[test]
fn rr_test() {
    let mut cpu = Cpu::cleared();

    cpu.registers.b = 0xDD;

    instructions::rr(&mut cpu.registers.f, &mut cpu.registers.b);

    let check = vec![cpu.registers.b, cpu.registers.f.carry_flag()];

    assert_eq!(check, [0x6E, 0x01]);
}

#[test]
fn sla_test() {
    let mut cpu = Cpu::cleared();

    cpu.registers.l = 0xB1;
    instructions::sla(&mut cpu.registers.f, &mut cpu.registers.l);

    let check = vec![cpu.registers.l, cpu.registers.f.carry_flag()];

    assert_eq!(check, [0x62, 0x01]);
}

#[test]
fn sra_test() {
    let mut cpu = Cpu::cleared();

    cpu.registers.b = 0xB8;
    instructions::sra(&mut cpu.registers.f, &mut cpu.registers.b);

    let check = vec![cpu.registers.b, cpu.registers.f.carry_flag()];

    assert_eq!(check, [0xDC, 0x00]);
}

#[test]
fn swap_test() {
    let mut cpu = Cpu::cleared();

    cpu.registers.b = 0xBC;

    instructions::swap(&mut cpu.registers.f, &mut cpu.registers.b);

    assert_eq!(cpu.registers.b, 0xCB);
}

#[test]
fn srl_test() {
    let mut cpu = Cpu::cleared();

    cpu.registers.b = 0x8F;

    instructions::srl(&mut cpu.registers.f, &mut cpu.registers.b);

    let check = vec![cpu.registers.b, cpu.registers.f.carry_flag()];

    assert_eq!(check, [0x47, 0x01]);
}

#[test]
fn bit_n_r_test() {
    let mut cpu = Cpu::cleared();

    cpu.registers.b = 0;

    instructions::bit_n_r(&mut cpu.registers.f, &mut cpu.registers.b, 2);

    let check = vec![cpu.registers.b, cpu.registers.f.zero_flag()];

    assert_eq!(check, [0x00, 0x01]);
}

#[test]
fn res_n_r_test() {
    let mut cpu = Cpu::cleared();

    cpu.registers.b = 0x69;

    instructions::res_n_r(&mut cpu.registers.b, 6);

    assert_eq!(cpu.registers.b, 0x29)
}

#[test]
fn set_n_r_test() {
    let mut cpu = Cpu::cleared();

    cpu.registers.b = 0x69;

    instructions::set_n_r(&mut cpu.registers.b, 7);

    assert_eq!(cpu.registers.b, 0xE9);
}

#[test]
fn ld_a_from_io_test() {
    let mut cpu = Cpu::cleared();
    let mut mmu = Interconnect::new();

    let offset: u8 = 0x02;
    let value = 0xAB;
    mmu.write_mem(0xFF00 + (offset as u16), value);

    instructions::ld_a_from_io(&mut cpu, &mmu, offset);

    assert_eq!(cpu.registers.a, mmu.read_mem(0xFF02));
}

#[test]
fn ld_io_from_a_test() {
    let mut cpu = Cpu::cleared();
    let mut mmu = Interconnect::new();

    let offset = 0x02;

    cpu.registers.a = 0x81;

    instructions::ld_io_from_a(&cpu, &mut mmu, offset);

    assert_eq!(cpu.registers.a, mmu.read_mem(0xFF02));
}

/*************************************************************************
 * Tests with memory operands
 *
 * The bus maps 0x0000-0x7FFF to cartridge ROM, which takes no writes, so
 * the memory these tests use lies in work RAM: address `a` becomes
 * `wram(a)`, the address with the same offset in 0xC000-0xDFFF.
 *************************************************************************/

fn wram(addr: u16) -> u16 {
    0xC000 | (addr & 0x1FFF)
}

#[test]
fn and_a_hl_test() {
    let mut cpu = Cpu::cleared();

    let mut mmu = Interconnect::new();

    cpu.registers.a = 0xFF;

    let addr = wram(cpu.registers.hl());

    mmu.write_mem(addr, 0xA0);

    instructions::and_a_r(&mut cpu, mmu.read_mem(addr));

    assert_eq!(cpu.registers.a, 0xA0);
}

#[test]
fn pop_rr_test() {
    let mut cpu = Cpu::cleared();
    let mut mmu = Interconnect::new();

    cpu.sp = wram(0x1000);

    mmu.write_mem(cpu.sp, 0x55);
    mmu.write_mem(cpu.sp + 1, 0x33);

    instructions::pop_rr(&mmu, &mut cpu.registers.b, &mut cpu.registers.c, &mut cpu.sp);

    assert_eq!(cpu.registers.bc(), 0x3355);
}

#[test]
fn push_rr_test() {
    let mut cpu = Cpu::cleared();
    let mut mmu = Interconnect::new();

    cpu.registers.b = 0x22;
    cpu.registers.c = 0x33;

    cpu.sp = wram(0x1007);

    instructions::push_rr(&mut mmu, cpu.registers.b, cpu.registers.c, &mut cpu.sp);

    let check: Vec<u16> = vec![0x0022, 0x0033, wram(0x1005)];

    assert_eq!(
        check,
        [mmu.read_mem(wram(0x1006)) as u16, mmu.read_mem(wram(0x1005)) as u16, cpu.sp]
    );
}

#[test]
fn push_af_test() {
    let mut cpu = Cpu::cleared();
    let mut mmu = Interconnect::new();

    cpu.registers.a = 0x22;
    cpu.registers.f.data = 0x33;

    cpu.sp = wram(0x1007);

    instructions::push_rr(&mut mmu, cpu.registers.a, cpu.registers.f.data, &mut cpu.sp);

    let check: Vec<u16> = vec![0x0022, 0x0033, wram(0x1005)];

    assert_eq!(
        check,
        [mmu.read_mem(wram(0x1006)) as u16, mmu.read_mem(wram(0x1005)) as u16, cpu.sp]
    );
}

#[test]
fn ret_test() {
    let mut cpu = Cpu::cleared();
    let mut mmu = Interconnect::new();

    cpu.pc = 0x3535;
    cpu.sp = wram(0x2000);
    mmu.write_mem(cpu.sp, 0xB5);
    mmu.write_mem(cpu.sp + 1, 0x18);

    instructions::ret(&mut cpu, &mmu);

    let check: Vec<u16> = vec![wram(0x2002), 0x18B5];

    assert_eq!(check, [cpu.sp, cpu.pc]);
}

#[test]
fn ret_z_test() {
    let mut cpu = Cpu::cleared();
    let mut mmu = Interconnect::new();

    cpu.registers.f.set_zero_flag();

    cpu.pc = 0x3535;
    cpu.sp = wram(0x2000);
    mmu.write_mem(cpu.sp, 0xB5);
    mmu.write_mem(cpu.sp + 1, 0x18);

    instructions::ret_z(&mut cpu, &mut mmu);

    let check: Vec<u16> = vec![wram(0x2002), 0x18B5];

    assert_eq!(check, [cpu.sp, cpu.pc]);
}

#[test]
fn ret_nz_test() {
    let mut cpu = Cpu::cleared();
    let mut mmu = Interconnect::new();

    cpu.registers.f.clear_zero_flag();

    cpu.pc = 0x3535;
    cpu.sp = wram(0x2000);
    mmu.write_mem(cpu.sp, 0xB5);
    mmu.write_mem(cpu.sp + 1, 0x18);

    instructions::ret_nz(&mut cpu, &mut mmu);

    let check: Vec<u16> = vec![wram(0x2002), 0x18B5];

    assert_eq!(check, [cpu.sp, cpu.pc]);
}

#[test]
fn rlc_hl_test() {
    let mut cpu = Cpu::cleared();
    let mut mmu = Interconnect::new();

    let addr = wram(0xFFF);

    mmu.write_mem(addr, 0x88);

    instructions::rlc_hl(&mut cpu.registers.f, &mut mmu, addr);

    let check = vec![mmu.read_mem(addr), 1];
    assert_eq!(check, [0x11, 1]);
}

#[test]
fn rrc_hl_test() {
    let mut cpu = Cpu::cleared();

    let mut mmu = Interconnect::new();

    let addr: u16 = wram(0xFFF);
    let value: u8 = 0x31;
    mmu.write_mem(addr, value);

    instructions::rrc_hl(&mut cpu.registers.f, &mut mmu, addr);

    assert_eq!(mmu.read_mem(addr), 0x98);
}

#[test]
fn rl_hl_test() {
    let mut cpu = Cpu::cleared();
    let mut mmu = Interconnect::new();

    let addr = wram(0xFFF);
    let value = 0x8F;

    mmu.write_mem(addr, value);

    instructions::rl_hl(&mut cpu.registers.f, &mut mmu, addr);

    let check = vec![mmu.read_mem(addr), cpu.registers.f.carry_flag()];

    assert_eq!(check, [0x1E, 0x01]);
}

#[test]
fn rr_hl_test() {
    let mut cpu = Cpu::cleared();
    let mut mmu = Interconnect::new();

    let addr = wram(0xFFF);
    let value = 0xDD;

    mmu.write_mem(addr, value);

    instructions::rr_hl(&mut cpu.registers.f, &mut mmu, addr);

    let check = vec![mmu.read_mem(addr), cpu.registers.f.carry_flag()];

    assert_eq!(check, [0x6E, 0x01]);
}

#[test]
fn sla_hl_test() {
    let mut cpu = Cpu::cleared();
    let mut mmu = Interconnect::new();

    let addr = wram(0xFFF);
    let value = 0xB1;
    mmu.write_mem(addr, value);

    instructions::sla_hl(&mut cpu.registers.f, &mut mmu, addr);

    let check = vec![mmu.read_mem(addr), cpu.registers.f.carry_flag()];

    assert_eq!(check, [0x62, 0x01]);
}

#[test]
fn sra_hl_test() {
    let mut cpu = Cpu::cleared();
    let mut mmu = Interconnect::new();

    let addr = wram(0xFFF);
    let value = 0xB8;
    mmu.write_mem(addr, value);

    instructions::sra_hl(&mut cpu.registers.f, &mut mmu, addr);

    let check = vec![mmu.read_mem(addr), cpu.registers.f.carry_flag()];
    assert_eq!(check, [0xDC, 0x00]);
}

#[test]
fn swap_hl_test() {
    let mut cpu = Cpu::cleared();
    let mut mmu = Interconnect::new();

    let addr = wram(0xFF);
    let value = 0xBC;

    mmu.write_mem(addr, value);

    instructions::swap_hl(&mut cpu.registers.f, &mut mmu, addr);

    assert_eq!(mmu.read_mem(addr), 0xCB);
}

#[test]
fn srl_hl_test() {
    let mut cpu = Cpu::cleared();
    let mut mmu = Interconnect::new();

    let addr = wram(0xFFF);
    let value = 0x8F;

    mmu.write_mem(addr, value);

    instructions::srl_hl(&mut cpu.registers.f, &mut mmu, addr);

    let check = vec![mmu.read_mem(addr), cpu.registers.f.carry_flag()];

    assert_eq!(check, [0x47, 0x01]);
}

#[test]
fn bit_n_hl_test() {
    let mut cpu = Cpu::cleared();
    let mut mmu = Interconnect::new();

    let addr = wram(0xFFF);

    mmu.write_mem(addr, 0);

    instructions::bit_n_hl(&mut cpu.registers.f, &mut mmu, addr, 2);

    let check = vec![mmu.read_mem(addr), cpu.registers.f.zero_flag()];

    assert_eq!(check, [0x00, 0x01]);
}

#[test]
fn res_n_hl_test() {
    let mut mmu = Interconnect::new();

    let addr: u16 = wram(0xFFF);

    mmu.write_mem(addr, 0x69);

    instructions::res_n_hl(&mut mmu, addr, 6);

    assert_eq!(mmu.read_mem(addr), 0x29);
}

#[test]
fn set_n_hl_test() {
    let mut mmu = Interconnect::new();

    let addr: u16 = wram(0xFFF);

    mmu.write_mem(addr, 0x69);

    instructions::set_n_hl(&mut mmu, addr, 7);

    assert_eq!(mmu.read_mem(addr), 0xE9);
}
