use rustboy::cpu::Cpu;

#[test]
fn chip_internal() {
    assert_eq!(4, 4);
}

#[test]
fn inc() {
    let mut cpu = Cpu::cleared();

    cpu.inc_8bit_register('A');
    assert_eq!(cpu.registers.a, 1);

    cpu.inc_8bit_register('B');
    assert_eq!(cpu.registers.b, 1);

    cpu.inc_8bit_register('C');
    assert_eq!(cpu.registers.c, 1);

    cpu.inc_8bit_register('D');
    assert_eq!(cpu.registers.d, 1);

    cpu.inc_8bit_register('E');
    assert_eq!(cpu.registers.e, 1);

    cpu.inc_8bit_register('H');
    assert_eq!(cpu.registers.h, 1);

    cpu.inc_8bit_register('L');
    assert_eq!(cpu.registers.l, 1);
}

#[test]
fn chip_half_carry() {
    let mut cpu = Cpu::cleared();
    cpu.registers.b = 0x09;

    let operand: u8 = 0x0A;

    let b = cpu.registers.b;
    cpu.update_half_carry_flag_sum_8bit(b, operand);

    cpu.inc_8bit_register('B');

    assert_eq!(cpu.registers.f.half_carry_flag(), 1);
}

#[test]
fn cpu_internal() {
    assert_eq!(4, 4);
}

#[test]
fn cpu_inc_b() {
    let mut cpu = Cpu::cleared();

    cpu.registers.b = 0x01;

    cpu.inc_8bit('B');

    assert_eq!(cpu.registers.b, 0x02);
}

#[test]
fn cpu_inc_c() {
    let mut cpu = Cpu::cleared();

    cpu.registers.c = 0x01;

    cpu.inc_8bit('C');

    assert_eq!(cpu.registers.c, 0x02);
}

#[test]
fn cpu_inc_d() {
    let mut cpu = Cpu::cleared();

    cpu.registers.d = 0x05;
    cpu.inc_8bit('D');

    assert_eq!(cpu.registers.d, 0x06);
}

#[test]
fn cpu_inc_e() {
    let mut cpu = Cpu::cleared();

    cpu.registers.e = 0x05;
    cpu.inc_8bit('E');

    assert_eq!(cpu.registers.e, 0x06);
}

#[test]
fn cpu_inc_h() {
    let mut cpu = Cpu::cleared();

    cpu.registers.h = 0x05;
    cpu.inc_8bit('H');

    assert_eq!(cpu.registers.h, 0x06);
}

#[test]
fn cpu_inc_l() {
    let mut cpu = Cpu::cleared();

    cpu.registers.l = 0x05;
    cpu.inc_8bit('L');

    assert_eq!(cpu.registers.l, 0x06);
}

#[test]
fn cpu_dec_b() {
    let mut cpu = Cpu::cleared();

    cpu.registers.b = 0x02;
    cpu.dec_8bit('B');

    assert_eq!(cpu.registers.b, 0x01);
}

#[test]
fn cpu_dec_c() {
    let mut cpu = Cpu::cleared();

    cpu.registers.c = 0x05;
    cpu.dec_8bit('C');

    assert_eq!(cpu.registers.c, 0x04);
}

#[test]
fn cpu_dec_d() {
    let mut cpu = Cpu::cleared();

    cpu.registers.d = 0x03;
    cpu.dec_8bit('D');

    assert_eq!(cpu.registers.d, 0x02);
}

#[test]
fn cpu_dec_e() {
    let mut cpu = Cpu::cleared();

    cpu.registers.e = 0x01;
    cpu.dec_8bit('E');

    assert_eq!(cpu.registers.e, 0x00);
    assert_eq!(cpu.registers.f.zero_flag(), 1);
}

#[test]
fn cpu_dec_h() {
    let mut cpu = Cpu::cleared();

    cpu.registers.h = 0x00;
    cpu.dec_8bit('H');

    assert_eq!(cpu.registers.h, 0xFF);
}

#[test]
fn cpu_dec_l() {
    let mut cpu = Cpu::cleared();

    cpu.registers.l = 0x05;
    cpu.dec_8bit('L');

    assert_eq!(cpu.registers.l, 0x04);
}

#[test]
fn cpu_inc_8bit_overflow() {
    let mut cpu = Cpu::cleared();

    cpu.registers.b = 0xFF;
    cpu.inc_8bit('B');

    assert_eq!(cpu.registers.l, 0x00);
    assert_eq!(cpu.registers.f.zero_flag(), 0x01);
    assert_eq!(cpu.registers.f.sub_flag(), 0x00);
    assert_eq!(cpu.registers.f.half_carry_flag(), 0x01);
}

#[test]
fn cpu_half_carry() {
    let mut cpu = Cpu::cleared();
    cpu.registers.b = 0x09;

    let operand: u8 = 0x0A;

    let b = cpu.registers.b;
    cpu.update_half_carry_flag_sum_8bit(b, operand);

    assert_eq!(cpu.registers.f.half_carry_flag(), 1);
}

#[test]
fn cpu_carry() {
    let mut cpu = Cpu::cleared();

    cpu.registers.set_bc(0xFFFF);
    cpu.registers.set_hl(0x0001);

    let bc = cpu.registers.bc();
    let hl = cpu.registers.hl();
    cpu.update_carry_flag_16bit(bc, hl);

    assert_eq!(cpu.registers.bc(), 0xFFFF);
    assert_eq!(cpu.registers.hl(), 0x0001);
}

#[test]
fn carry_set_on_sixteen_bit_overflow() {
    let mut cpu = Cpu::cleared();
    cpu.update_carry_flag_16bit(0xFFFF, 0x0001);
    assert_eq!(cpu.registers.f.carry_flag(), 1);
    cpu.update_carry_flag_16bit(0x0FFF, 0x0001);
    assert_eq!(cpu.registers.f.carry_flag(), 0);
    cpu.update_carry_flag(0xF0, 0x10);
    assert_eq!(cpu.registers.f.carry_flag(), 1);
}

#[test]
fn unknown_register_name_changes_nothing() {
    let mut cpu = Cpu::cleared();
    cpu.registers.f.data = 0x50;
    cpu.inc_8bit('X');
    cpu.dec_8bit('F');
    cpu.inc_8bit_register('Z');
    assert_eq!(cpu.registers.a, 0);
    assert_eq!(cpu.registers.f.data, 0x50);
}

#[test]
fn sub_flag_and_half_carry_updates() {
    let mut cpu = Cpu::cleared();
    cpu.update_sub_flag();
    assert_eq!(cpu.registers.f.sub_flag(), 1);
    cpu.update_half_carry_flag_sum_16bit(0x0FFF, 0x0001);
    assert_eq!(cpu.registers.f.half_carry_flag(), 1);
    cpu.update_half_carry_flag_sub_16bit(0x0100, 0x0200);
    assert_eq!(cpu.registers.f.half_carry_flag(), 1);
    cpu.update_half_carry_flag_sub_8bit(0x18, 0x02);
    assert_eq!(cpu.registers.f.half_carry_flag(), 0);
    cpu.update_zero_flag(0);
    assert_eq!(cpu.registers.f.zero_flag(), 1);
    assert_eq!(cpu.registers.f.data, 0xC0);
}
