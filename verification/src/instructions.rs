use vstd::prelude::*;
use crate::bits::{group_bits, lemma_shift_facts};
use crate::cpu::{Cpu, RegisterPair, Registers};
use crate::flags::{Flags, b2u, cf, group_flags, hf, nf, with_flags, zf};
use crate::interconnect::{
    BusEvent, Interconnect, kept_by_tick, lemma_ran_nil, plain_ram, ran, regs_kept, regs_wrote, then1, then2,
    then3,
};

verus! {

broadcast use {group_bits, group_flags, lemma_ran_nil};

/************************************************************************
 * What each operation computes
 ************************************************************************/

/// Rotate left, bit 7 into bit 0.
pub open spec fn rlc_value(v: u8) -> u8 {
    ((v as int * 2) % 256 + v / 128) as u8
}

/// Rotate right, bit 0 into bit 7.
pub open spec fn rrc_value(v: u8) -> u8 {
    (v / 2 + (v % 2) * 128) as u8
}

/// Rotate left through the carry `c`.
pub open spec fn rl_value(v: u8, c: bool) -> u8 {
    ((v as int * 2) % 256 + b2u(c)) as u8
}

/// Rotate right through the carry `c`.
pub open spec fn rr_value(v: u8, c: bool) -> u8 {
    (v / 2 + b2u(c) * 128) as u8
}

/// Arithmetic shift left.
pub open spec fn sla_value(v: u8) -> u8 {
    ((v as int * 2) % 256) as u8
}

/// Arithmetic shift right: bit 7 is kept.
pub open spec fn sra_value(v: u8) -> u8 {
    (v / 2 + (v / 128) * 128) as u8
}

/// Logical shift right: bit 7 becomes 0.
pub open spec fn srl_value(v: u8) -> u8 {
    (v / 2) as u8
}

/// Upper and lower nibbles exchanged.
pub open spec fn swap_value(v: u8) -> u8 {
    ((v % 16) * 16 + v / 16) as u8
}

/// `a + b` modulo 256.
pub open spec fn add8(a: int, b: int) -> u8 {
    ((a + b) % 256) as u8
}

/// `a - b` modulo 256.
pub open spec fn sub8(a: int, b: int) -> u8 {
    ((a - b) % 256) as u8
}

/// `a + b` modulo 65536.
pub open spec fn add16(a: int, b: int) -> u16 {
    ((a + b) % 65536) as u16
}

/// `a - b` modulo 65536.
pub open spec fn sub16(a: int, b: int) -> u16 {
    ((a - b) % 65536) as u16
}

/// The signed value of a byte taken as two's complement.
pub open spec fn signed8(v: u8) -> int {
    if v < 128 { v as int } else { v as int - 256 }
}

/// Every register of the CPU but A and F is unchanged, as are SP, PC and the
/// interrupt state.
pub open spec fn only_a_f_changed(c1: Cpu, c2: Cpu) -> bool {
    &&& c1.registers.b == c2.registers.b && c1.registers.c == c2.registers.c
    &&& c1.registers.d == c2.registers.d && c1.registers.e == c2.registers.e
    &&& c1.registers.h == c2.registers.h && c1.registers.l == c2.registers.l
    &&& c1.sp == c2.sp && c1.pc == c2.pc && c1.ime == c2.ime
    &&& c1.ime_to_be_enabled == c2.ime_to_be_enabled && c1.halted == c2.halted
    &&& c1.opcode == c2.opcode && c1.last_cycle == c2.last_cycle
}

/// The CPU is unchanged but for its eight-bit registers and SP.
pub open spec fn only_regs_sp_changed(c1: Cpu, c2: Cpu) -> bool {
    &&& c1.pc == c2.pc && c1.ime == c2.ime
    &&& c1.ime_to_be_enabled == c2.ime_to_be_enabled && c1.halted == c2.halted
    &&& c1.opcode == c2.opcode && c1.last_cycle == c2.last_cycle
}

/// The value of a register pair in a CPU.
pub open spec fn pair_value(cpu: Cpu, rp: RegisterPair) -> u16 {
    match rp {
        RegisterPair::BC => (cpu.registers.b * 256 + cpu.registers.c) as u16,
        RegisterPair::DE => (cpu.registers.d * 256 + cpu.registers.e) as u16,
        RegisterPair::HL => (cpu.registers.h * 256 + cpu.registers.l) as u16,
        RegisterPair::AF => (cpu.registers.a * 256 + cpu.registers.f.data) as u16,
        RegisterPair::SP => cpu.sp,
    }
}

/// The register pairs that do not overlap `rp` keep their values.
pub open spec fn other_pairs_unchanged(c1: Cpu, c2: Cpu, rp: RegisterPair) -> bool {
    &&& (rp != RegisterPair::BC ==> c1.registers.b == c2.registers.b && c1.registers.c == c2.registers.c)
    &&& (rp != RegisterPair::DE ==> c1.registers.d == c2.registers.d && c1.registers.e == c2.registers.e)
    &&& (rp != RegisterPair::HL ==> c1.registers.h == c2.registers.h && c1.registers.l == c2.registers.l)
    &&& c1.registers.a == c2.registers.a
    &&& (rp != RegisterPair::SP ==> c1.sp == c2.sp)
}

/************************************************************************
 * 8-bit arithmetic
 ************************************************************************/

/// Increments an 8-bit register.
///
/// Flags:  Z N H C
///         Z 0 H -
pub fn inc_8bit(flags: &mut Flags, register: &mut u8)
    ensures
        *final(register) == add8(*old(register) as int, 1),
        final(flags).data == with_flags(old(flags).data, *final(register) == 0, false,
            *old(register) % 16 + 1 > 15, cf(old(flags).data)),
{
    let mut value: u8 = *register;
    flags.update_half_carry_flag_sum_8bit(value, 1);
    value = value.wrapping_add(1);
    flags.update_zero_flag(value);
    flags.clear_sub_flag();
    *register = value;
}

/// Decrements an 8-bit register.
///
/// Flags:  Z N H C
///         Z 1 H -
pub fn dec_8bit(flags: &mut Flags, register: &mut u8)
    ensures
        *final(register) == sub8(*old(register) as int, 1),
        final(flags).data == with_flags(old(flags).data, *final(register) == 0, true,
            *old(register) % 16 < 1, cf(old(flags).data)),
{
    let mut value: u8 = *register;
    flags.update_half_carry_flag_sub_8bit(value, 1);
    value = value.wrapping_sub(1);
    flags.update_zero_flag(value);
    flags.set_sub_flag();
    *register = value;
}

/// A = A + operand.
///
/// Flags:  Z N H C
///         Z 0 H C
pub fn add_a_r(cpu: &mut Cpu, operand: u8)
    ensures
        final(cpu).registers.a == add8(old(cpu).registers.a as int, operand as int),
        final(cpu).registers.f.data == with_flags(old(cpu).registers.f.data,
            final(cpu).registers.a == 0, false,
            old(cpu).registers.a % 16 + operand % 16 > 15,
            old(cpu).registers.a + operand > 255),
        only_a_f_changed(*old(cpu), *final(cpu)),
{
    let mut a: u8 = cpu.registers.a;
    cpu.registers.f.update_half_carry_flag_sum_8bit(a, operand);
    cpu.registers.f.update_carry_flag_sum_8bit(a, operand);
    a = a.wrapping_add(operand);
    cpu.registers.f.clear_sub_flag();
    cpu.registers.f.update_zero_flag(a);
    cpu.registers.a = a;
}

/// A = A + operand + carry.
///
/// Flags:  Z N H C
///         Z 0 H C
pub fn adc_a_r(cpu: &mut Cpu, operand: u8)
    ensures
        final(cpu).registers.a == add8(old(cpu).registers.a + operand, b2u(cf(old(cpu).registers.f.data)) as int),
        final(cpu).registers.f.data == with_flags(old(cpu).registers.f.data,
            final(cpu).registers.a == 0, false,
            old(cpu).registers.a % 16 + operand % 16 + b2u(cf(old(cpu).registers.f.data)) > 15,
            old(cpu).registers.a + operand + b2u(cf(old(cpu).registers.f.data)) > 255),
        only_a_f_changed(*old(cpu), *final(cpu)),
{
    let accumulator: u8 = cpu.registers.a;
    let carry: u8 = cpu.registers.f.carry_flag();
    let result: u16 = (accumulator as u16) + (operand as u16) + (carry as u16);
    let half_carry: bool = ((accumulator & 0x0F) + (operand & 0x0F) + carry) > 0x0F;

    cpu.registers.f.clear_sub_flag();
    if half_carry {
        cpu.registers.f.set_half_carry_flag();
    } else {
        cpu.registers.f.clear_half_carry_flag();
    }
    if result > 0xFF {
        cpu.registers.f.set_carry_flag();
    } else {
        cpu.registers.f.clear_carry_flag();
    }
    let res8: u8 = (result % 256) as u8;
    cpu.registers.f.update_zero_flag(res8);
    cpu.registers.a = res8;
}

/// A = A - operand.
///
/// Flags:  Z N H C
///         Z 1 H C
pub fn sub_a_r(cpu: &mut Cpu, operand: u8)
    ensures
        final(cpu).registers.a == sub8(old(cpu).registers.a as int, operand as int),
        final(cpu).registers.f.data == with_flags(old(cpu).registers.f.data,
            final(cpu).registers.a == 0, true,
            old(cpu).registers.a % 16 < operand % 16,
            old(cpu).registers.a < operand),
        only_a_f_changed(*old(cpu), *final(cpu)),
{
    let mut accumulator: u8 = cpu.registers.a;
    cpu.registers.f.update_half_carry_flag_sub_8bit(accumulator, operand);
    cpu.registers.f.update_carry_flag_sub_8bit(accumulator, operand);
    accumulator = accumulator.wrapping_sub(operand);
    cpu.registers.f.set_sub_flag();
    cpu.registers.f.update_zero_flag(accumulator);
    cpu.registers.a = accumulator;
}

/// A = A - operand - carry.
///
/// Flags:  Z N H C
///         Z 1 H C
pub fn sbc_a_r(cpu: &mut Cpu, operand: u8)
    ensures
        final(cpu).registers.a == sub8(old(cpu).registers.a - operand, b2u(cf(old(cpu).registers.f.data)) as int),
        final(cpu).registers.f.data == with_flags(old(cpu).registers.f.data,
            final(cpu).registers.a == 0, true,
            old(cpu).registers.a % 16 - operand % 16 - b2u(cf(old(cpu).registers.f.data)) < 0,
            old(cpu).registers.a - operand - b2u(cf(old(cpu).registers.f.data)) < 0),
        only_a_f_changed(*old(cpu), *final(cpu)),
{
    let accumulator: i16 = cpu.registers.a as i16;
    let b: i16 = operand as i16;
    let carry: i16 = cpu.registers.f.carry_flag() as i16;
    let result: i16 = accumulator - b - carry;
    let half_carry: bool = ((accumulator % 16) - (b % 16) - carry) < 0;

    cpu.registers.f.set_sub_flag();
    if half_carry {
        cpu.registers.f.set_half_carry_flag();
    } else {
        cpu.registers.f.clear_half_carry_flag();
    }
    if result < 0 {
        cpu.registers.f.set_carry_flag();
    } else {
        cpu.registers.f.clear_carry_flag();
    }
    let res8: u8 = if result < 0 { (result + 256) as u8 } else { result as u8 };
    cpu.registers.f.update_zero_flag(res8);
    cpu.registers.a = res8;
}

/// A = A & operand.
///
/// Flags:  Z N H C
///         Z 0 1 0
pub fn and_a_r(cpu: &mut Cpu, operand: u8)
    ensures
        final(cpu).registers.a == old(cpu).registers.a & operand,
        final(cpu).registers.f.data == with_flags(old(cpu).registers.f.data,
            final(cpu).registers.a == 0, false, true, false),
        only_a_f_changed(*old(cpu), *final(cpu)),
{
    let mut accumulator: u8 = cpu.registers.a;
    accumulator = accumulator & operand;
    cpu.registers.f.update_zero_flag(accumulator);
    cpu.registers.f.clear_sub_flag();
    cpu.registers.f.set_half_carry_flag();
    cpu.registers.f.clear_carry_flag();
    cpu.registers.a = accumulator;
}

/// A = A ^ operand.
///
/// Flags:  Z N H C
///         Z 0 0 0
pub fn xor_a_r(cpu: &mut Cpu, operand: u8)
    ensures
        final(cpu).registers.a == old(cpu).registers.a ^ operand,
        final(cpu).registers.f.data == with_flags(old(cpu).registers.f.data,
            final(cpu).registers.a == 0, false, false, false),
        only_a_f_changed(*old(cpu), *final(cpu)),
{
    let mut accumulator: u8 = cpu.registers.a;
    accumulator = accumulator ^ operand;
    cpu.registers.f.update_zero_flag(accumulator);
    cpu.registers.f.clear_sub_flag();
    cpu.registers.f.clear_half_carry_flag();
    cpu.registers.f.clear_carry_flag();
    cpu.registers.a = accumulator;
}

/// A = A | operand.
///
/// Flags:  Z N H C
///         Z 0 0 0
pub fn or_a_r(cpu: &mut Cpu, operand: u8)
    ensures
        final(cpu).registers.a == old(cpu).registers.a | operand,
        final(cpu).registers.f.data == with_flags(old(cpu).registers.f.data,
            final(cpu).registers.a == 0, false, false, false),
        only_a_f_changed(*old(cpu), *final(cpu)),
{
    let mut accumulator: u8 = cpu.registers.a;
    accumulator = accumulator | operand;
    cpu.registers.f.update_zero_flag(accumulator);
    cpu.registers.f.clear_sub_flag();
    cpu.registers.f.clear_half_carry_flag();
    cpu.registers.f.clear_carry_flag();
    cpu.registers.a = accumulator;
}

/// Compares A with operand: the flags of A - operand, A unchanged.
///
/// Flags:  Z N H C
///         Z 1 H C
pub fn cp_a_r(cpu: &mut Cpu, operand: u8)
    ensures
        final(cpu).registers.a == old(cpu).registers.a,
        final(cpu).registers.f.data == with_flags(old(cpu).registers.f.data,
            old(cpu).registers.a == operand, true,
            old(cpu).registers.a % 16 < operand % 16,
            old(cpu).registers.a < operand),
        only_a_f_changed(*old(cpu), *final(cpu)),
{
    let accumulator: u8 = cpu.registers.a;
    let res: u8 = accumulator.wrapping_sub(operand);
    cpu.registers.f.update_zero_flag(res);
    cpu.registers.f.set_sub_flag();
    cpu.registers.f.update_half_carry_flag_sub_8bit(accumulator, operand);
    cpu.registers.f.update_carry_flag_sub_8bit(accumulator, operand);
}

/// Adjusts A after a binary addition or subtraction so that it holds the
/// binary coded decimal result.
///
/// Flags:  Z N H C
///         Z - 0 C
pub fn daa(cpu: &mut Cpu)
    ensures
        ({
            let a = old(cpu).registers.a;
            let f = old(cpu).registers.f.data;
            if !nf(f) {
                let hi = cf(f) || a > 0x99;
                let a1 = if hi { add8(a as int, 0x60) } else { a };
                let lo = hf(f) || a1 % 16 > 9;
                let a2 = if lo { add8(a1 as int, 0x06) } else { a1 };
                &&& final(cpu).registers.a == a2
                &&& final(cpu).registers.f.data == with_flags(f, a2 == 0, false, false, cf(f) || hi)
            } else {
                let a1 = if cf(f) { sub8(a as int, 0x60) } else { a };
                let a2 = if hf(f) { sub8(a1 as int, 0x06) } else { a1 };
                &&& final(cpu).registers.a == a2
                &&& final(cpu).registers.f.data == with_flags(f, a2 == 0, true, false, cf(f))
            }
        }),
        only_a_f_changed(*old(cpu), *final(cpu)),
{
    let a: u8 = cpu.registers.a;
    let ghost f: u8 = cpu.registers.f.data;
    let subtract: bool = cpu.registers.f.sub_flag() == 1;
    let carry: bool = cpu.registers.f.carry_flag() == 1;
    let half: bool = cpu.registers.f.half_carry_flag() == 1;
    let (result, carry_out) = decimal_adjust(a, subtract, carry, half);
    if carry_out {
        cpu.registers.f.set_carry_flag();
    }
    let ghost f1: u8 = cpu.registers.f.data;
    assert(nf(f1) == nf(f) && f1 & 0x0F == f & 0x0F);
    cpu.registers.f.clear_half_carry_flag();
    cpu.registers.f.update_zero_flag(result);
    cpu.registers.a = result;
    proof {
        let g = with_flags(f1, zf(f1), nf(f1), false, cf(f1));
        crate::flags::lemma_with_flags_low(f1, f, result == 0, nf(f), false, carry_out);
        assert(cpu.registers.f.data == with_flags(g, result == 0, nf(g), hf(g), cf(g)));
        assert(cpu.registers.f.data == with_flags(f, result == 0, nf(f), false, carry_out));
    }
}

/// The decimal adjustment of `a` given the N, C and H flags: the adjusted
/// value and whether the carry comes out set.
fn decimal_adjust(a: u8, subtract: bool, carry: bool, half: bool) -> (r: (u8, bool))
    ensures
        !subtract ==> {
            let hi = carry || a > 0x99;
            let a1 = if hi { add8(a as int, 0x60) } else { a };
            let lo = half || a1 % 16 > 9;
            r == (if lo { add8(a1 as int, 0x06) } else { a1 }, hi)
        },
        subtract ==> {
            let a1 = if carry { sub8(a as int, 0x60) } else { a };
            r == (if half { sub8(a1 as int, 0x06) } else { a1 }, carry)
        },
{
    let mut result: u8 = a;
    let mut carry_out: bool = carry;
    if !subtract {
        if carry || a > 0x99 {
            result = result.wrapping_add(0x60);
            carry_out = true;
        }
        assert((result & 0x0F) == result % 16);
        if half || (result & 0x0F) > 0x09 {
            result = result.wrapping_add(0x6);
        }
    } else {
        if carry {
            result = result.wrapping_sub(0x60);
        }
        if half {
            result = result.wrapping_sub(0x6);
        }
    }
    (result, carry_out)
}

/************************************************************************
 * Rotates and shifts
 ************************************************************************/

/// Rotates A left; bit 7 goes to the carry and to bit 0.
///
/// Flags:  Z N H C
///         0 0 0 C
pub fn rlca(cpu: &mut Cpu)
    ensures
        final(cpu).registers.a == rlc_value(old(cpu).registers.a),
        final(cpu).registers.f.data == with_flags(old(cpu).registers.f.data, false, false, false,
            old(cpu).registers.a >= 128),
        only_a_f_changed(*old(cpu), *final(cpu)),
{
    let v: u8 = cpu.registers.a;
    proof { lemma_shift_facts(v, 0); }
    let old_msb: u8 = (v & 0x80) >> 7;
    cpu.registers.a = (v << 1) | (1u8 & old_msb);
    if old_msb == 0 {
        cpu.registers.f.clear_carry_flag();
    } else {
        cpu.registers.f.set_carry_flag();
    }
    cpu.registers.f.clear_zero_flag();
    cpu.registers.f.clear_sub_flag();
    cpu.registers.f.clear_half_carry_flag();
}

/// Rotates A right; bit 0 goes to the carry and to bit 7.
///
/// Flags:  Z N H C
///         0 0 0 C
pub fn rrca(cpu: &mut Cpu)
    ensures
        final(cpu).registers.a == rrc_value(old(cpu).registers.a),
        final(cpu).registers.f.data == with_flags(old(cpu).registers.f.data, false, false, false,
            old(cpu).registers.a % 2 == 1),
        only_a_f_changed(*old(cpu), *final(cpu)),
{
    let v: u8 = cpu.registers.a;
    proof { lemma_shift_facts(v, 0); }
    let old_lsb: u8 = v & 0x01;
    cpu.registers.a = (v >> 1) | (0x80u8 & (old_lsb << 7));
    if old_lsb == 0 {
        cpu.registers.f.clear_carry_flag();
    } else {
        cpu.registers.f.set_carry_flag();
    }
    cpu.registers.f.clear_zero_flag();
    cpu.registers.f.clear_sub_flag();
    cpu.registers.f.clear_half_carry_flag();
}

/// Rotates A left through the carry.
///
/// Flags:  Z N H C
///         0 0 0 C
pub fn rla(cpu: &mut Cpu)
    ensures
        final(cpu).registers.a == rl_value(old(cpu).registers.a, cf(old(cpu).registers.f.data)),
        final(cpu).registers.f.data == with_flags(old(cpu).registers.f.data, false, false, false,
            old(cpu).registers.a >= 128),
        only_a_f_changed(*old(cpu), *final(cpu)),
{
    let v: u8 = cpu.registers.a;
    let carry: u8 = cpu.registers.f.carry_flag();
    proof { lemma_shift_facts(v, carry); }
    let old_msb: u8 = v & 0x80;
    cpu.registers.a = (v << 1) | (1u8 & carry);
    if old_msb == 0 {
        cpu.registers.f.clear_carry_flag();
    } else {
        cpu.registers.f.set_carry_flag();
    }
    cpu.registers.f.clear_zero_flag();
    cpu.registers.f.clear_sub_flag();
    cpu.registers.f.clear_half_carry_flag();
}

/// Rotates A right through the carry.
///
/// Flags:  Z N H C
///         0 0 0 C
pub fn rra(cpu: &mut Cpu)
    ensures
        final(cpu).registers.a == rr_value(old(cpu).registers.a, cf(old(cpu).registers.f.data)),
        final(cpu).registers.f.data == with_flags(old(cpu).registers.f.data, false, false, false,
            old(cpu).registers.a % 2 == 1),
        only_a_f_changed(*old(cpu), *final(cpu)),
{
    let v: u8 = cpu.registers.a;
    let carry: u8 = cpu.registers.f.carry_flag();
    proof { lemma_shift_facts(v, carry); }
    let old_lsb: u8 = v & 0x01;
    cpu.registers.a = (v >> 1) | (0x80u8 & (carry << 7));
    if old_lsb == 0 {
        cpu.registers.f.clear_carry_flag();
    } else {
        cpu.registers.f.set_carry_flag();
    }
    cpu.registers.f.clear_zero_flag();
    cpu.registers.f.clear_sub_flag();
    cpu.registers.f.clear_half_carry_flag();
}

/// Rotates a register left; bit 7 goes to the carry and to bit 0.
///
/// Flags:  Z N H C
///         Z 0 0 C
pub fn rlc(f: &mut Flags, r: &mut u8)
    ensures
        *final(r) == rlc_value(*old(r)),
        final(f).data == with_flags(old(f).data, *final(r) == 0, false, false, *old(r) >= 128),
{
    let v: u8 = *r;
    proof { lemma_shift_facts(v, 0); }
    let old_msb: u8 = (v & 0x80) >> 7;
    let value: u8 = (v << 1) | (1u8 & old_msb);
    if old_msb == 0 {
        f.clear_carry_flag();
    } else {
        f.set_carry_flag();
    }
    f.update_zero_flag(value);
    f.clear_sub_flag();
    f.clear_half_carry_flag();
    *r = value;
}

/// Rotates a register right; bit 0 goes to the carry and to bit 7.
///
/// Flags:  Z N H C
///         Z 0 0 C
pub fn rrc(f: &mut Flags, r: &mut u8)
    ensures
        *final(r) == rrc_value(*old(r)),
        final(f).data == with_flags(old(f).data, *final(r) == 0, false, false, *old(r) % 2 == 1),
{
    let v: u8 = *r;
    proof { lemma_shift_facts(v, 0); }
    let old_lsb: u8 = v & 0x01;
    let value: u8 = (v >> 1) | (0x80u8 & (old_lsb << 7));
    if old_lsb == 0 {
        f.clear_carry_flag();
    } else {
        f.set_carry_flag();
    }
    f.update_zero_flag(value);
    f.clear_sub_flag();
    f.clear_half_carry_flag();
    *r = value;
}

/// Rotates a register left through the carry.
///
/// Flags:  Z N H C
///         Z 0 0 C
pub fn rl(f: &mut Flags, r: &mut u8)
    ensures
        *final(r) == rl_value(*old(r), cf(old(f).data)),
        final(f).data == with_flags(old(f).data, *final(r) == 0, false, false, *old(r) >= 128),
{
    let v: u8 = *r;
    let carry: u8 = f.carry_flag();
    proof { lemma_shift_facts(v, carry); }
    let old_msb: u8 = (v & 0x80) >> 7;
    let value: u8 = (v << 1) | (1u8 & carry);
    if old_msb == 0 {
        f.clear_carry_flag();
    } else {
        f.set_carry_flag();
    }
    f.update_zero_flag(value);
    f.clear_sub_flag();
    f.clear_half_carry_flag();
    *r = value;
}

/// Rotates a register right through the carry.
///
/// Flags:  Z N H C
///         Z 0 0 C
pub fn rr(f: &mut Flags, r: &mut u8)
    ensures
        *final(r) == rr_value(*old(r), cf(old(f).data)),
        final(f).data == with_flags(old(f).data, *final(r) == 0, false, false, *old(r) % 2 == 1),
{
    let v: u8 = *r;
    let carry: u8 = f.carry_flag();
    proof { lemma_shift_facts(v, carry); }
    let old_lsb: u8 = v & 0x01;
    let value: u8 = (v >> 1) | (0x80u8 & (carry << 7));
    if old_lsb == 0 {
        f.clear_carry_flag();
    } else {
        f.set_carry_flag();
    }
    f.update_zero_flag(value);
    f.clear_sub_flag();
    f.clear_half_carry_flag();
    *r = value;
}

/// Shifts a register left; bit 7 goes to the carry, bit 0 becomes 0.
///
/// Flags:  Z N H C
///         Z 0 0 C
pub fn sla(f: &mut Flags, r: &mut u8)
    ensures
        *final(r) == sla_value(*old(r)),
        final(f).data == with_flags(old(f).data, *final(r) == 0, false, false, *old(r) >= 128),
{
    let v: u8 = *r;
    proof { lemma_shift_facts(v, 0); }
    let old_msb: u8 = (v & 0x80) >> 7;
    let value: u8 = v << 1;
    if old_msb == 0 {
        f.clear_carry_flag();
    } else {
        f.set_carry_flag();
    }
    f.update_zero_flag(value);
    f.clear_sub_flag();
    f.clear_half_carry_flag();
    *r = value;
}

/// Shifts a register right keeping bit 7; bit 0 goes to the carry.
///
/// Flags:  Z N H C
///         Z 0 0 C
pub fn sra(f: &mut Flags, r: &mut u8)
    ensures
        *final(r) == sra_value(*old(r)),
        final(f).data == with_flags(old(f).data, *final(r) == 0, false, false, *old(r) % 2 == 1),
{
    let v: u8 = *r;
    proof { lemma_shift_facts(v, 0); }
    let old_msb: u8 = v & 0x80;
    let old_lsb: u8 = v & 0x01;
    let value: u8 = (v >> 1) | (0x80u8 & old_msb);
    if old_lsb == 0 {
        f.clear_carry_flag();
    } else {
        f.set_carry_flag();
    }
    f.update_zero_flag(value);
    f.clear_sub_flag();
    f.clear_half_carry_flag();
    *r = value;
}

/// Exchanges the upper and lower nibbles of a register.
///
/// Flags:  Z N H C
///         Z 0 0 0
pub fn swap(f: &mut Flags, r: &mut u8)
    ensures
        *final(r) == swap_value(*old(r)),
        final(f).data == with_flags(old(f).data, *final(r) == 0, false, false, false),
{
    let v: u8 = *r;
    proof { lemma_shift_facts(v, 0); }
    let lower_nibble: u8 = v & 0x0F;
    let upper_nibble: u8 = v & 0xF0;
    let value: u8 = (((lower_nibble as u16) << 4) | ((upper_nibble as u16) >> 4)) as u8;
    f.update_zero_flag(value);
    f.clear_carry_flag();
    f.clear_sub_flag();
    f.clear_half_carry_flag();
    *r = value;
}

/// Shifts a register right; bit 0 goes to the carry, bit 7 becomes 0.
///
/// Flags:  Z N H C
///         Z 0 0 C
pub fn srl(f: &mut Flags, r: &mut u8)
    ensures
        *final(r) == srl_value(*old(r)),
        final(f).data == with_flags(old(f).data, *final(r) == 0, false, false, *old(r) % 2 == 1),
{
    let v: u8 = *r;
    proof { lemma_shift_facts(v, 0); }
    let old_lsb: u8 = v & 0x01;
    let value: u8 = (v >> 1) & 0x7F;
    if old_lsb == 0 {
        f.clear_carry_flag();
    } else {
        f.set_carry_flag();
    }
    f.update_zero_flag(value);
    f.clear_sub_flag();
    f.clear_half_carry_flag();
    *r = value;
}

/************************************************************************
 * 16-bit arithmetic
 ************************************************************************/

/// Increments a register pair (AF is left as it is).
///
/// Flags: None
pub fn inc_16bit(cpu: &mut Cpu, register_pair: RegisterPair)
    ensures
        register_pair != RegisterPair::AF ==> pair_value(*final(cpu), register_pair)
            == add16(pair_value(*old(cpu), register_pair) as int, 1),
        register_pair == RegisterPair::AF ==> *final(cpu) == *old(cpu),
        other_pairs_unchanged(*old(cpu), *final(cpu), register_pair),
        final(cpu).registers.f == old(cpu).registers.f,
        final(cpu).pc == old(cpu).pc,
        only_regs_sp_changed(*old(cpu), *final(cpu)),
{
    match register_pair {
        RegisterPair::BC => {
            let v: u16 = cpu.registers.bc();
            cpu.registers.set_bc(v.wrapping_add(1));
        },
        RegisterPair::DE => {
            let v: u16 = cpu.registers.de();
            cpu.registers.set_de(v.wrapping_add(1));
        },
        RegisterPair::HL => {
            let v: u16 = cpu.registers.hl();
            cpu.registers.set_hl(v.wrapping_add(1));
        },
        RegisterPair::SP => {
            cpu.sp = cpu.sp.wrapping_add(1);
        },
        RegisterPair::AF => {},
    }
}

/// Decrements a register pair (AF is left as it is).
///
/// Flags: None
pub fn dec_16bit(cpu: &mut Cpu, register_pair: RegisterPair)
    ensures
        register_pair != RegisterPair::AF ==> pair_value(*final(cpu), register_pair)
            == sub16(pair_value(*old(cpu), register_pair) as int, 1),
        register_pair == RegisterPair::AF ==> *final(cpu) == *old(cpu),
        other_pairs_unchanged(*old(cpu), *final(cpu), register_pair),
        final(cpu).registers.f == old(cpu).registers.f,
        final(cpu).pc == old(cpu).pc,
        only_regs_sp_changed(*old(cpu), *final(cpu)),
{
    match register_pair {
        RegisterPair::BC => {
            let v: u16 = cpu.registers.bc();
            cpu.registers.set_bc(v.wrapping_sub(1));
        },
        RegisterPair::DE => {
            let v: u16 = cpu.registers.de();
            cpu.registers.set_de(v.wrapping_sub(1));
        },
        RegisterPair::HL => {
            let v: u16 = cpu.registers.hl();
            cpu.registers.set_hl(v.wrapping_sub(1));
        },
        RegisterPair::SP => {
            cpu.sp = cpu.sp.wrapping_sub(1);
        },
        RegisterPair::AF => {},
    }
}

/// HL = HL + register pair (AF leaves everything as it is).
///
/// Flags:  Z N H C
///         - 0 H C
pub fn add_rr_hl(cpu: &mut Cpu, register_pair: RegisterPair)
    ensures
        register_pair != RegisterPair::AF ==> {
            let hl = pair_value(*old(cpu), RegisterPair::HL);
            let rr = pair_value(*old(cpu), register_pair);
            &&& pair_value(*final(cpu), RegisterPair::HL) == add16(hl as int, rr as int)
            &&& final(cpu).registers.f.data == with_flags(old(cpu).registers.f.data,
                zf(old(cpu).registers.f.data), false, hl % 4096 + rr % 4096 > 4095, hl + rr > 65535)
        },
        register_pair == RegisterPair::AF ==> *final(cpu) == *old(cpu),
        other_pairs_unchanged(*old(cpu), *final(cpu), RegisterPair::HL),
        final(cpu).pc == old(cpu).pc,
        only_regs_sp_changed(*old(cpu), *final(cpu)),
{
    let b: u16 = match register_pair {
        RegisterPair::BC => cpu.registers.bc(),
        RegisterPair::DE => cpu.registers.de(),
        RegisterPair::HL => cpu.registers.hl(),
        RegisterPair::SP => cpu.sp,
        RegisterPair::AF => { return; },
    };
    let a: u16 = cpu.registers.hl();
    let result: u32 = (a as u32) + (b as u32);
    cpu.registers.f.clear_sub_flag();
    cpu.registers.f.update_half_carry_flag_sum_16bit(a as u32, b as u32);
    cpu.registers.f.update_carry_flag_sum_16bit(a, b);
    cpu.registers.set_hl((result % 65536) as u16);
}

/************************************************************************
 * Jumps
 ************************************************************************/

/// Relative jump: PC = PC + 2 + the signed offset `dd`.
///
/// Flags: None
pub fn jr(cpu: &mut Cpu, dd: u8)
    ensures
        final(cpu).pc == add16(old(cpu).pc + 2, signed8(dd)),
        final(cpu).registers == old(cpu).registers,
        final(cpu).sp == old(cpu).sp,
        final(cpu).ime == old(cpu).ime && final(cpu).halted == old(cpu).halted,
        final(cpu).ime_to_be_enabled == old(cpu).ime_to_be_enabled,
        final(cpu).opcode == old(cpu).opcode && final(cpu).last_cycle == old(cpu).last_cycle,
{
    let offset: u16 = if dd < 128 { dd as u16 } else { 0xFF00u16 | (dd as u16) };
    proof {
        if dd >= 128 {
            assert(0xFF00u16 | (dd as u16) == 0xFF00 + dd) by (bit_vector)
                requires dd >= 128u8;
        }
    }
    cpu.pc = cpu.pc.wrapping_add(offset).wrapping_add(2);
}

/// Jumps to `nn`.
///
/// Flags: None
pub fn jp(cpu: &mut Cpu, nn: u16)
    ensures
        final(cpu).pc == nn,
        final(cpu).registers == old(cpu).registers,
        final(cpu).sp == old(cpu).sp,
        final(cpu).ime == old(cpu).ime && final(cpu).halted == old(cpu).halted,
        final(cpu).ime_to_be_enabled == old(cpu).ime_to_be_enabled,
        final(cpu).opcode == old(cpu).opcode && final(cpu).last_cycle == old(cpu).last_cycle,
{
    cpu.pc = nn;
}

/************************************************************************
 * 8-bit loads
 ************************************************************************/

/// Loads `data` into a register.
///
/// Flags: None
pub fn ld_8bit(r: &mut u8, data: u8)
    ensures
        *final(r) == data,
{
    *r = data;
}

/************************************************************************
 * Single-bit operations
 ************************************************************************/

/// Tests bit `n` of a register: the zero flag is set when the bit is 0.
///
/// Flags:  Z N H C
///         Z 0 1 -
pub fn bit_n_r(f: &mut Flags, r: &mut u8, n: u8)
    requires
        n < 8,
    ensures
        *final(r) == *old(r),
        final(f).data == with_flags(old(f).data, (*old(r) >> n) & 1 == 0, false, true, cf(old(f).data)),
{
    let value: u8 = *r;
    let nth_bit: u8 = (value >> n) & 0x01;
    if nth_bit == 0 {
        f.set_zero_flag();
    } else {
        f.clear_zero_flag();
    }
    f.clear_sub_flag();
    f.set_half_carry_flag();
}

/// Sets bit `n` of a register.
///
/// Flags: None
pub fn set_n_r(r: &mut u8, n: u8)
    requires
        n < 8,
    ensures
        *final(r) == *old(r) | (1u8 << n),
{
    *r = *r | (1u8 << n);
}

/// Clears bit `n` of a register.
///
/// Flags: None
pub fn res_n_r(r: &mut u8, n: u8)
    requires
        n < 8,
    ensures
        *final(r) == *old(r) & !(1u8 << n),
{
    *r = *r & !(1u8 << n);
}

/************************************************************************
 * Interrupt enable
 ************************************************************************/

/// EI: the master enable turns on before the next instruction.
pub fn ei(cpu: &mut Cpu)
    ensures
        final(cpu).ime_to_be_enabled,
        final(cpu).ime == old(cpu).ime,
        final(cpu).registers == old(cpu).registers && final(cpu).pc == old(cpu).pc,
        final(cpu).sp == old(cpu).sp && final(cpu).halted == old(cpu).halted,
        final(cpu).opcode == old(cpu).opcode && final(cpu).last_cycle == old(cpu).last_cycle,
{
    cpu.ime_to_be_enabled = true;
}

/// DI: the master enable turns off.
pub fn di(cpu: &mut Cpu)
    ensures
        !final(cpu).ime,
        final(cpu).ime_to_be_enabled == old(cpu).ime_to_be_enabled,
        final(cpu).registers == old(cpu).registers && final(cpu).pc == old(cpu).pc,
        final(cpu).sp == old(cpu).sp && final(cpu).halted == old(cpu).halted,
        final(cpu).opcode == old(cpu).opcode && final(cpu).last_cycle == old(cpu).last_cycle,
{
    cpu.ime = false;
}

/************************************************************************
 * Instructions that go through the bus
 ************************************************************************/

/// The bus after writing `value` to `addr` (time passing around the write):
/// `addr` holds `value` if it is memory that time leaves alone, every other
/// such address keeps what it held, and so do the boot ROM mapping and the
/// serial output.
pub open spec fn wrote(ic0: Interconnect, ic1: Interconnect, addr: u16, value: u8) -> bool {
    &&& ic1.boot_active == ic0.boot_active && ic1.serial.bytes() == ic0.serial.bytes()
    &&& regs_wrote(ic0, ic1, addr, value)
    &&& kept_by_tick(addr) ==> ic1.read_spec(addr) == value
    &&& forall|b: u16| kept_by_tick(b) && b != addr ==> #[trigger] ic1.read_spec(b) == ic0.read_spec(b)
}

/// The bus after time passing only: every address that time leaves alone
/// keeps what it held, as do the boot ROM mapping and the serial output.
pub open spec fn only_ticked(ic0: Interconnect, ic1: Interconnect) -> bool {
    &&& ic1.boot_active == ic0.boot_active && ic1.serial.bytes() == ic0.serial.bytes()
    &&& regs_kept(ic0, ic1)
    &&& forall|b: u16| kept_by_tick(b) ==> #[trigger] ic1.read_spec(b) == ic0.read_spec(b)
}

/// The CPU is unchanged but for its program counter.
pub open spec fn only_pc_changed(c1: Cpu, c2: Cpu) -> bool {
    &&& c1.registers == c2.registers && c1.sp == c2.sp && c1.ime == c2.ime
    &&& c1.ime_to_be_enabled == c2.ime_to_be_enabled && c1.halted == c2.halted
    &&& c1.opcode == c2.opcode && c1.last_cycle == c2.last_cycle
}

/// The CPU is unchanged but for its program counter and stack pointer.
pub open spec fn only_pc_sp_changed(c1: Cpu, c2: Cpu) -> bool {
    &&& c1.registers == c2.registers && c1.ime == c2.ime
    &&& c1.ime_to_be_enabled == c2.ime_to_be_enabled && c1.halted == c2.halted
    &&& c1.opcode == c2.opcode && c1.last_cycle == c2.last_cycle
}

/// Writes `value` at `addr` and lets one machine cycle pass.
fn write_and_tick(interconnect: &mut Interconnect, addr: u16, value: u8)
    requires
        old(interconnect).wf(),
    ensures
        final(interconnect).wf(),
        wrote(*old(interconnect), *final(interconnect), addr, value),
        final(interconnect).boot_active == old(interconnect).boot_active,
        then2(*old(interconnect), *final(interconnect), BusEvent::Write(addr, value), BusEvent::Tick(1)),
{
    interconnect.write_mem(addr, value);
    interconnect.emu_tick(1);
}

/// Increments mem[HL].
///
/// Flags:  Z N H C
///         Z 0 H -
pub fn inc_mem(cpu: &mut Cpu, interconnect: &mut Interconnect)
    requires
        old(interconnect).wf(),
    ensures
        final(interconnect).wf(),
        ({
            let hl = pair_value(*old(cpu), RegisterPair::HL);
            let v = old(interconnect).read_spec(hl);
            &&& wrote(*old(interconnect), *final(interconnect), hl, add8(v as int, 1))
            &&& then3(*old(interconnect), *final(interconnect), BusEvent::Tick(1), BusEvent::Write(hl, add8(v as int, 1)), BusEvent::Tick(1))
            &&& final(cpu).registers.f.data == with_flags(old(cpu).registers.f.data, add8(v as int, 1) == 0,
                false, v % 16 + 1 > 15, cf(old(cpu).registers.f.data))
        }),
        only_a_f_changed(*old(cpu), *final(cpu)),
        final(cpu).registers.a == old(cpu).registers.a,
{
    let hl: u16 = cpu.registers.hl();
    let mut value: u8 = interconnect.read_mem(hl);
    interconnect.emu_tick(1);
    cpu.registers.f.update_half_carry_flag_sum_8bit(value, 1);
    value = value.wrapping_add(1);
    write_and_tick(interconnect, hl, value);
    cpu.registers.f.update_zero_flag(value);
    cpu.registers.f.clear_sub_flag();
}

/// Decrements mem[HL].
///
/// Flags:  Z N H C
///         Z 1 H -
pub fn dec_mem(cpu: &mut Cpu, interconnect: &mut Interconnect)
    requires
        old(interconnect).wf(),
    ensures
        final(interconnect).wf(),
        ({
            let hl = pair_value(*old(cpu), RegisterPair::HL);
            let v = old(interconnect).read_spec(hl);
            &&& wrote(*old(interconnect), *final(interconnect), hl, sub8(v as int, 1))
            &&& then3(*old(interconnect), *final(interconnect), BusEvent::Tick(1), BusEvent::Write(hl, sub8(v as int, 1)), BusEvent::Tick(1))
            &&& final(cpu).registers.f.data == with_flags(old(cpu).registers.f.data, sub8(v as int, 1) == 0,
                true, v % 16 < 1, cf(old(cpu).registers.f.data))
        }),
        only_a_f_changed(*old(cpu), *final(cpu)),
        final(cpu).registers.a == old(cpu).registers.a,
{
    let hl: u16 = cpu.registers.hl();
    let mut value: u8 = interconnect.read_mem(hl);
    interconnect.emu_tick(1);
    cpu.registers.f.update_half_carry_flag_sub_8bit(value, 1);
    value = value.wrapping_sub(1);
    write_and_tick(interconnect, hl, value);
    cpu.registers.f.update_zero_flag(value);
    cpu.registers.f.set_sub_flag();
}

/// Rotates mem[addr] left; bit 7 goes to the carry and to bit 0.
///
/// Flags:  Z N H C
///         Z 0 0 C
pub fn rlc_hl(f: &mut Flags, interconnect: &mut Interconnect, addr: u16)
    requires
        old(interconnect).wf(),
    ensures
        final(interconnect).wf(),
        wrote(*old(interconnect), *final(interconnect), addr, rlc_value(old(interconnect).read_spec(addr))),
        then3(*old(interconnect), *final(interconnect), BusEvent::Tick(1), BusEvent::Write(addr, rlc_value(old(interconnect).read_spec(addr))), BusEvent::Tick(1)),
        final(f).data == with_flags(old(f).data, rlc_value(old(interconnect).read_spec(addr)) == 0, false,
            false, old(interconnect).read_spec(addr) >= 128),
{
    let mut value: u8 = interconnect.read_mem(addr);
    interconnect.emu_tick(1);
    rlc(f, &mut value);
    write_and_tick(interconnect, addr, value);
}

/// Rotates mem[addr] right; bit 0 goes to the carry and to bit 7.
///
/// Flags:  Z N H C
///         Z 0 0 C
pub fn rrc_hl(f: &mut Flags, interconnect: &mut Interconnect, addr: u16)
    requires
        old(interconnect).wf(),
    ensures
        final(interconnect).wf(),
        wrote(*old(interconnect), *final(interconnect), addr, rrc_value(old(interconnect).read_spec(addr))),
        then3(*old(interconnect), *final(interconnect), BusEvent::Tick(1), BusEvent::Write(addr, rrc_value(old(interconnect).read_spec(addr))), BusEvent::Tick(1)),
        final(f).data == with_flags(old(f).data, rrc_value(old(interconnect).read_spec(addr)) == 0, false,
            false, old(interconnect).read_spec(addr) % 2 == 1),
{
    let mut value: u8 = interconnect.read_mem(addr);
    interconnect.emu_tick(1);
    rrc(f, &mut value);
    write_and_tick(interconnect, addr, value);
}

/// Rotates mem[addr] left through the carry.
///
/// Flags:  Z N H C
///         Z 0 0 C
pub fn rl_hl(f: &mut Flags, interconnect: &mut Interconnect, addr: u16)
    requires
        old(interconnect).wf(),
    ensures
        final(interconnect).wf(),
        wrote(*old(interconnect), *final(interconnect), addr, rl_value(old(interconnect).read_spec(addr), cf(old(f).data))),
        then3(*old(interconnect), *final(interconnect), BusEvent::Tick(1), BusEvent::Write(addr, rl_value(old(interconnect).read_spec(addr), cf(old(f).data))), BusEvent::Tick(1)),
        final(f).data == with_flags(old(f).data, rl_value(old(interconnect).read_spec(addr), cf(old(f).data)) == 0,
            false, false, old(interconnect).read_spec(addr) >= 128),
{
    let mut value: u8 = interconnect.read_mem(addr);
    interconnect.emu_tick(1);
    rl(f, &mut value);
    write_and_tick(interconnect, addr, value);
}

/// Rotates mem[addr] right through the carry.
///
/// Flags:  Z N H C
///         Z 0 0 C
pub fn rr_hl(f: &mut Flags, interconnect: &mut Interconnect, addr: u16)
    requires
        old(interconnect).wf(),
    ensures
        final(interconnect).wf(),
        wrote(*old(interconnect), *final(interconnect), addr, rr_value(old(interconnect).read_spec(addr), cf(old(f).data))),
        then3(*old(interconnect), *final(interconnect), BusEvent::Tick(1), BusEvent::Write(addr, rr_value(old(interconnect).read_spec(addr), cf(old(f).data))), BusEvent::Tick(1)),
        final(f).data == with_flags(old(f).data, rr_value(old(interconnect).read_spec(addr), cf(old(f).data)) == 0,
            false, false, old(interconnect).read_spec(addr) % 2 == 1),
{
    let mut value: u8 = interconnect.read_mem(addr);
    interconnect.emu_tick(1);
    rr(f, &mut value);
    write_and_tick(interconnect, addr, value);
}

/// Shifts mem[addr] left; bit 7 goes to the carry.
///
/// Flags:  Z N H C
///         Z 0 0 C
pub fn sla_hl(f: &mut Flags, interconnect: &mut Interconnect, addr: u16)
    requires
        old(interconnect).wf(),
    ensures
        final(interconnect).wf(),
        wrote(*old(interconnect), *final(interconnect), addr, sla_value(old(interconnect).read_spec(addr))),
        then3(*old(interconnect), *final(interconnect), BusEvent::Tick(1), BusEvent::Write(addr, sla_value(old(interconnect).read_spec(addr))), BusEvent::Tick(1)),
        final(f).data == with_flags(old(f).data, sla_value(old(interconnect).read_spec(addr)) == 0, false,
            false, old(interconnect).read_spec(addr) >= 128),
{
    let mut value: u8 = interconnect.read_mem(addr);
    interconnect.emu_tick(1);
    sla(f, &mut value);
    write_and_tick(interconnect, addr, value);
}

/// Shifts mem[addr] right keeping bit 7; bit 0 goes to the carry.
///
/// Flags:  Z N H C
///         Z 0 0 C
pub fn sra_hl(f: &mut Flags, interconnect: &mut Interconnect, addr: u16)
    requires
        old(interconnect).wf(),
    ensures
        final(interconnect).wf(),
        wrote(*old(interconnect), *final(interconnect), addr, sra_value(old(interconnect).read_spec(addr))),
        then3(*old(interconnect), *final(interconnect), BusEvent::Tick(1), BusEvent::Write(addr, sra_value(old(interconnect).read_spec(addr))), BusEvent::Tick(1)),
        final(f).data == with_flags(old(f).data, sra_value(old(interconnect).read_spec(addr)) == 0, false,
            false, old(interconnect).read_spec(addr) % 2 == 1),
{
    let mut value: u8 = interconnect.read_mem(addr);
    interconnect.emu_tick(1);
    sra(f, &mut value);
    write_and_tick(interconnect, addr, value);
}

/// Exchanges the nibbles of mem[addr].
///
/// Flags:  Z N H C
///         Z 0 0 0
pub fn swap_hl(f: &mut Flags, interconnect: &mut Interconnect, addr: u16)
    requires
        old(interconnect).wf(),
    ensures
        final(interconnect).wf(),
        wrote(*old(interconnect), *final(interconnect), addr, swap_value(old(interconnect).read_spec(addr))),
        then3(*old(interconnect), *final(interconnect), BusEvent::Tick(1), BusEvent::Write(addr, swap_value(old(interconnect).read_spec(addr))), BusEvent::Tick(1)),
        final(f).data == with_flags(old(f).data, swap_value(old(interconnect).read_spec(addr)) == 0, false,
            false, false),
{
    let mut value: u8 = interconnect.read_mem(addr);
    interconnect.emu_tick(1);
    swap(f, &mut value);
    write_and_tick(interconnect, addr, value);
}

/// Shifts mem[addr] right; bit 0 goes to the carry, bit 7 becomes 0.
///
/// Flags:  Z N H C
///         Z 0 0 C
pub fn srl_hl(f: &mut Flags, interconnect: &mut Interconnect, addr: u16)
    requires
        old(interconnect).wf(),
    ensures
        final(interconnect).wf(),
        wrote(*old(interconnect), *final(interconnect), addr, srl_value(old(interconnect).read_spec(addr))),
        then3(*old(interconnect), *final(interconnect), BusEvent::Tick(1), BusEvent::Write(addr, srl_value(old(interconnect).read_spec(addr))), BusEvent::Tick(1)),
        final(f).data == with_flags(old(f).data, srl_value(old(interconnect).read_spec(addr)) == 0, false,
            false, old(interconnect).read_spec(addr) % 2 == 1),
{
    let mut value: u8 = interconnect.read_mem(addr);
    interconnect.emu_tick(1);
    srl(f, &mut value);
    write_and_tick(interconnect, addr, value);
}

/// Tests bit `n` of mem[addr].
///
/// Flags:  Z N H C
///         Z 0 1 -
pub fn bit_n_hl(f: &mut Flags, interconnect: &mut Interconnect, addr: u16, n: u8)
    requires
        old(interconnect).wf(),
        n < 8,
    ensures
        *final(interconnect) == *old(interconnect),
        final(f).data == with_flags(old(f).data, (old(interconnect).read_spec(addr) >> n) & 1 == 0,
            false, true, cf(old(f).data)),
{
    let mut value: u8 = interconnect.read_mem(addr);
    bit_n_r(f, &mut value, n);
}

/// Sets bit `n` of mem[addr].
///
/// Flags: None
pub fn set_n_hl(interconnect: &mut Interconnect, addr: u16, n: u8)
    requires
        old(interconnect).wf(),
        n < 8,
    ensures
        final(interconnect).wf(),
        wrote(*old(interconnect), *final(interconnect), addr, old(interconnect).read_spec(addr) | (1u8 << n)),
        then3(*old(interconnect), *final(interconnect), BusEvent::Tick(1), BusEvent::Write(addr, old(interconnect).read_spec(addr) | (1u8 << n)), BusEvent::Tick(1)),
{
    let mut value: u8 = interconnect.read_mem(addr);
    interconnect.emu_tick(1);
    set_n_r(&mut value, n);
    write_and_tick(interconnect, addr, value);
}

/// Clears bit `n` of mem[addr].
///
/// Flags: None
pub fn res_n_hl(interconnect: &mut Interconnect, addr: u16, n: u8)
    requires
        old(interconnect).wf(),
        n < 8,
    ensures
        final(interconnect).wf(),
        wrote(*old(interconnect), *final(interconnect), addr, old(interconnect).read_spec(addr) & !(1u8 << n)),
        then3(*old(interconnect), *final(interconnect), BusEvent::Tick(1), BusEvent::Write(addr, old(interconnect).read_spec(addr) & !(1u8 << n)), BusEvent::Tick(1)),
{
    let mut value: u8 = interconnect.read_mem(addr);
    interconnect.emu_tick(1);
    res_n_r(&mut value, n);
    write_and_tick(interconnect, addr, value);
}

/// Jumps relative by `dd` when `cond`, else steps over the two-byte
/// instruction; three or two machine cycles pass.
fn jr_if(cpu: &mut Cpu, interconnect: &mut Interconnect, dd: u8, cond: bool)
    requires
        old(interconnect).wf(),
    ensures
        final(interconnect).wf(),
        only_ticked(*old(interconnect), *final(interconnect)),
        cond ==> final(cpu).pc == add16(old(cpu).pc + 2, signed8(dd)) && final(interconnect).ticks == 12,
        !cond ==> final(cpu).pc == add16(old(cpu).pc as int, 2) && final(interconnect).ticks == 8,
        only_pc_changed(*old(cpu), *final(cpu)),
        cond ==> then1(*old(interconnect), *final(interconnect), BusEvent::Tick(3)),
        !(cond) ==> then1(*old(interconnect), *final(interconnect), BusEvent::Tick(2)),
{
    if cond {
        jr(cpu, dd);
        interconnect.emu_tick(3);
    } else {
        cpu.pc = cpu.pc.wrapping_add(2);
        interconnect.emu_tick(2);
    }
}

/// Relative jump when the zero flag is set.
///
/// Flags: None
pub fn jr_z(cpu: &mut Cpu, interconnect: &mut Interconnect, dd: u8)
    requires
        old(interconnect).wf(),
    ensures
        zf(old(cpu).registers.f.data) ==> final(interconnect).ticks == 12,
        !zf(old(cpu).registers.f.data) ==> final(interconnect).ticks == 8,
        final(interconnect).wf(),
        only_ticked(*old(interconnect), *final(interconnect)),
        zf(old(cpu).registers.f.data) ==> final(cpu).pc == add16(old(cpu).pc + 2, signed8(dd)),
        !zf(old(cpu).registers.f.data) ==> final(cpu).pc == add16(old(cpu).pc as int, 2),
        only_pc_changed(*old(cpu), *final(cpu)),
        zf(old(cpu).registers.f.data) ==> then1(*old(interconnect), *final(interconnect), BusEvent::Tick(3)),
        !(zf(old(cpu).registers.f.data)) ==> then1(*old(interconnect), *final(interconnect), BusEvent::Tick(2)),
{
    let cond: bool = cpu.registers.f.zero_flag() == 1;
    jr_if(cpu, interconnect, dd, cond);
}

/// Relative jump when the zero flag is clear.
///
/// Flags: None
pub fn jr_nz(cpu: &mut Cpu, interconnect: &mut Interconnect, dd: u8)
    requires
        old(interconnect).wf(),
    ensures
        !zf(old(cpu).registers.f.data) ==> final(interconnect).ticks == 12,
        zf(old(cpu).registers.f.data) ==> final(interconnect).ticks == 8,
        final(interconnect).wf(),
        only_ticked(*old(interconnect), *final(interconnect)),
        !zf(old(cpu).registers.f.data) ==> final(cpu).pc == add16(old(cpu).pc + 2, signed8(dd)),
        zf(old(cpu).registers.f.data) ==> final(cpu).pc == add16(old(cpu).pc as int, 2),
        only_pc_changed(*old(cpu), *final(cpu)),
        !zf(old(cpu).registers.f.data) ==> then1(*old(interconnect), *final(interconnect), BusEvent::Tick(3)),
        !(!zf(old(cpu).registers.f.data)) ==> then1(*old(interconnect), *final(interconnect), BusEvent::Tick(2)),
{
    let cond: bool = cpu.registers.f.zero_flag() == 0;
    jr_if(cpu, interconnect, dd, cond);
}

/// Relative jump when the carry flag is set.
///
/// Flags: None
pub fn jr_c(cpu: &mut Cpu, interconnect: &mut Interconnect, dd: u8)
    requires
        old(interconnect).wf(),
    ensures
        cf(old(cpu).registers.f.data) ==> final(interconnect).ticks == 12,
        !cf(old(cpu).registers.f.data) ==> final(interconnect).ticks == 8,
        final(interconnect).wf(),
        only_ticked(*old(interconnect), *final(interconnect)),
        cf(old(cpu).registers.f.data) ==> final(cpu).pc == add16(old(cpu).pc + 2, signed8(dd)),
        !cf(old(cpu).registers.f.data) ==> final(cpu).pc == add16(old(cpu).pc as int, 2),
        only_pc_changed(*old(cpu), *final(cpu)),
        cf(old(cpu).registers.f.data) ==> then1(*old(interconnect), *final(interconnect), BusEvent::Tick(3)),
        !(cf(old(cpu).registers.f.data)) ==> then1(*old(interconnect), *final(interconnect), BusEvent::Tick(2)),
{
    let cond: bool = cpu.registers.f.carry_flag() == 1;
    jr_if(cpu, interconnect, dd, cond);
}

/// Relative jump when the carry flag is clear.
///
/// Flags: None
pub fn jr_nc(cpu: &mut Cpu, interconnect: &mut Interconnect, dd: u8)
    requires
        old(interconnect).wf(),
    ensures
        !cf(old(cpu).registers.f.data) ==> final(interconnect).ticks == 12,
        cf(old(cpu).registers.f.data) ==> final(interconnect).ticks == 8,
        final(interconnect).wf(),
        only_ticked(*old(interconnect), *final(interconnect)),
        !cf(old(cpu).registers.f.data) ==> final(cpu).pc == add16(old(cpu).pc + 2, signed8(dd)),
        cf(old(cpu).registers.f.data) ==> final(cpu).pc == add16(old(cpu).pc as int, 2),
        only_pc_changed(*old(cpu), *final(cpu)),
        !cf(old(cpu).registers.f.data) ==> then1(*old(interconnect), *final(interconnect), BusEvent::Tick(3)),
        !(!cf(old(cpu).registers.f.data)) ==> then1(*old(interconnect), *final(interconnect), BusEvent::Tick(2)),
{
    let cond: bool = cpu.registers.f.carry_flag() == 0;
    jr_if(cpu, interconnect, dd, cond);
}

/// Jumps to `nn` when `cond`, else steps over the three-byte instruction.
fn jp_if(cpu: &mut Cpu, interconnect: &mut Interconnect, nn: u16, cond: bool)
    requires
        old(interconnect).wf(),
    ensures
        cond ==> final(interconnect).ticks == 16,
        !cond ==> final(interconnect).ticks == 12,
        final(interconnect).wf(),
        only_ticked(*old(interconnect), *final(interconnect)),
        cond ==> final(cpu).pc == nn,
        !cond ==> final(cpu).pc == add16(old(cpu).pc as int, 3),
        only_pc_changed(*old(cpu), *final(cpu)),
        cond ==> then1(*old(interconnect), *final(interconnect), BusEvent::Tick(4)),
        !(cond) ==> then1(*old(interconnect), *final(interconnect), BusEvent::Tick(3)),
{
    if cond {
        jp(cpu, nn);
        interconnect.emu_tick(4);
    } else {
        cpu.pc = cpu.pc.wrapping_add(3);
        interconnect.emu_tick(3);
    }
}

/// Jumps to `nn` when the zero flag is set.
///
/// Flags: None
pub fn jp_z(cpu: &mut Cpu, interconnect: &mut Interconnect, nn: u16)
    requires
        old(interconnect).wf(),
    ensures
        zf(old(cpu).registers.f.data) ==> final(interconnect).ticks == 16,
        !zf(old(cpu).registers.f.data) ==> final(interconnect).ticks == 12,
        final(interconnect).wf(),
        only_ticked(*old(interconnect), *final(interconnect)),
        zf(old(cpu).registers.f.data) ==> final(cpu).pc == nn,
        !zf(old(cpu).registers.f.data) ==> final(cpu).pc == add16(old(cpu).pc as int, 3),
        only_pc_changed(*old(cpu), *final(cpu)),
        zf(old(cpu).registers.f.data) ==> then1(*old(interconnect), *final(interconnect), BusEvent::Tick(4)),
        !(zf(old(cpu).registers.f.data)) ==> then1(*old(interconnect), *final(interconnect), BusEvent::Tick(3)),
{
    let cond: bool = cpu.registers.f.zero_flag() == 1;
    jp_if(cpu, interconnect, nn, cond);
}

/// Jumps to `nn` when the zero flag is clear.
///
/// Flags: None
pub fn jp_nz(cpu: &mut Cpu, interconnect: &mut Interconnect, nn: u16)
    requires
        old(interconnect).wf(),
    ensures
        !zf(old(cpu).registers.f.data) ==> final(interconnect).ticks == 16,
        zf(old(cpu).registers.f.data) ==> final(interconnect).ticks == 12,
        final(interconnect).wf(),
        only_ticked(*old(interconnect), *final(interconnect)),
        !zf(old(cpu).registers.f.data) ==> final(cpu).pc == nn,
        zf(old(cpu).registers.f.data) ==> final(cpu).pc == add16(old(cpu).pc as int, 3),
        only_pc_changed(*old(cpu), *final(cpu)),
        !zf(old(cpu).registers.f.data) ==> then1(*old(interconnect), *final(interconnect), BusEvent::Tick(4)),
        !(!zf(old(cpu).registers.f.data)) ==> then1(*old(interconnect), *final(interconnect), BusEvent::Tick(3)),
{
    let cond: bool = cpu.registers.f.zero_flag() == 0;
    jp_if(cpu, interconnect, nn, cond);
}

/// Jumps to `nn` when the carry flag is set.
///
/// Flags: None
pub fn jp_c(cpu: &mut Cpu, interconnect: &mut Interconnect, nn: u16)
    requires
        old(interconnect).wf(),
    ensures
        cf(old(cpu).registers.f.data) ==> final(interconnect).ticks == 16,
        !cf(old(cpu).registers.f.data) ==> final(interconnect).ticks == 12,
        final(interconnect).wf(),
        only_ticked(*old(interconnect), *final(interconnect)),
        cf(old(cpu).registers.f.data) ==> final(cpu).pc == nn,
        !cf(old(cpu).registers.f.data) ==> final(cpu).pc == add16(old(cpu).pc as int, 3),
        only_pc_changed(*old(cpu), *final(cpu)),
        cf(old(cpu).registers.f.data) ==> then1(*old(interconnect), *final(interconnect), BusEvent::Tick(4)),
        !(cf(old(cpu).registers.f.data)) ==> then1(*old(interconnect), *final(interconnect), BusEvent::Tick(3)),
{
    let cond: bool = cpu.registers.f.carry_flag() == 1;
    jp_if(cpu, interconnect, nn, cond);
}

/// Jumps to `nn` when the carry flag is clear.
///
/// Flags: None
pub fn jp_nc(cpu: &mut Cpu, interconnect: &mut Interconnect, nn: u16)
    requires
        old(interconnect).wf(),
    ensures
        !cf(old(cpu).registers.f.data) ==> final(interconnect).ticks == 16,
        cf(old(cpu).registers.f.data) ==> final(interconnect).ticks == 12,
        final(interconnect).wf(),
        only_ticked(*old(interconnect), *final(interconnect)),
        !cf(old(cpu).registers.f.data) ==> final(cpu).pc == nn,
        cf(old(cpu).registers.f.data) ==> final(cpu).pc == add16(old(cpu).pc as int, 3),
        only_pc_changed(*old(cpu), *final(cpu)),
        !cf(old(cpu).registers.f.data) ==> then1(*old(interconnect), *final(interconnect), BusEvent::Tick(4)),
        !(!cf(old(cpu).registers.f.data)) ==> then1(*old(interconnect), *final(interconnect), BusEvent::Tick(3)),
{
    let cond: bool = cpu.registers.f.carry_flag() == 0;
    jp_if(cpu, interconnect, nn, cond);
}

/// The stack after pushing `hi:lo` below `sp`: the new stack pointer is
/// `sp - 2`, `lo` is at it and `hi` above it (where those addresses hold
/// what is written), and the rest of the memory time leaves alone is kept.
pub open spec fn pushed(ic0: Interconnect, ic1: Interconnect, sp: u16, hi: u8, lo: u8) -> bool {
    let s = sub16(sp as int, 2);
    let s1 = add16(s as int, 1);
    &&& ic1.boot_active == ic0.boot_active && ic1.serial.bytes() == ic0.serial.bytes()
    &&& exists|mid: Interconnect| #[trigger] regs_wrote(ic0, mid, s, lo) && regs_wrote(mid, ic1, s1, hi)
    &&& kept_by_tick(s) ==> ic1.read_spec(s) == lo
    &&& kept_by_tick(s1) ==> ic1.read_spec(s1) == hi
    &&& forall|b: u16| kept_by_tick(b) && b != s && b != s1 ==> #[trigger] ic1.read_spec(b) == ic0.read_spec(b)
}

/// Pushes `upper:lower` on the stack at `sp`.
///
/// Flags: None
#[verifier::spinoff_prover]
pub fn push_rr(interconnect: &mut Interconnect, upper: u8, lower: u8, sp: &mut u16)
    requires
        old(interconnect).wf(),
    ensures
        final(interconnect).wf(),
        *final(sp) == sub16(*old(sp) as int, 2),
        pushed(*old(interconnect), *final(interconnect), *old(sp), upper, lower),
        final(interconnect).boot_active == old(interconnect).boot_active,
        final(interconnect).ticks == old(interconnect).ticks,
        then2(*old(interconnect), *final(interconnect), BusEvent::Write(sub16(*old(sp) as int, 2), lower), BusEvent::Write(add16(sub16(*old(sp) as int, 2) as int, 1), upper)),
{
    let stack_pointer: u16 = sp.wrapping_sub(2);
    interconnect.write_mem(stack_pointer, lower);
    let ghost mid = *interconnect;
    interconnect.write_mem(stack_pointer.wrapping_add(1), upper);
    *sp = stack_pointer;
    assert(regs_wrote(*old(interconnect), mid, stack_pointer, lower)
        && regs_wrote(mid, *interconnect, add16(stack_pointer as int, 1), upper));
}

/// Pops two bytes from the stack at `sp` into `upper:lower`.
///
/// Flags: None
pub fn pop_rr(interconnect: &Interconnect, upper: &mut u8, lower: &mut u8, sp: &mut u16)
    requires
        interconnect.wf(),
    ensures
        *final(lower) == interconnect.read_spec(*old(sp)),
        *final(upper) == interconnect.read_spec(add16(*old(sp) as int, 1)),
        *final(sp) == add16(*old(sp) as int, 2),
{
    let stack_pointer: u16 = *sp;
    let lower_byte: u8 = interconnect.read_mem(stack_pointer);
    let upper_byte: u8 = interconnect.read_mem(stack_pointer.wrapping_add(1));
    *lower = lower_byte;
    *upper = upper_byte;
    *sp = stack_pointer.wrapping_add(2);
}

/// Calls `nn`: pushes the address after the three-byte instruction and jumps.
///
/// Flags: None
#[verifier::spinoff_prover]
pub fn call(cpu: &mut Cpu, interconnect: &mut Interconnect, nn: u16)
    requires
        old(interconnect).wf(),
    ensures
        final(interconnect).wf(),
        ({
            let ret = add16(old(cpu).pc as int, 3);
            pushed(*old(interconnect), *final(interconnect), old(cpu).sp, (ret / 256) as u8, (ret % 256) as u8)
        }),
        final(cpu).sp == sub16(old(cpu).sp as int, 2),
        final(cpu).pc == nn,
        only_pc_sp_changed(*old(cpu), *final(cpu)),
        final(interconnect).boot_active == old(interconnect).boot_active,
        final(interconnect).ticks == old(interconnect).ticks,
        then2(*old(interconnect), *final(interconnect), BusEvent::Write(sub16(old(cpu).sp as int, 2), (add16(old(cpu).pc as int, 3) % 256) as u8), BusEvent::Write(add16(sub16(old(cpu).sp as int, 2) as int, 1), (add16(old(cpu).pc as int, 3) / 256) as u8)),
{
    cpu.pc = cpu.pc.wrapping_add(3);
    let p: u16 = cpu.pc;
    proof {
        assert(((p & 0xFF00u16) >> 8u16) as u8 == (p >> 8u16) as u8) by (bit_vector);
    }
    push_rr(interconnect, ((p & 0xFF00) >> 8) as u8, (p & 0x00FF) as u8, &mut cpu.sp);
    cpu.pc = nn;
}

/// Calls `nn` when `cond` (six machine cycles), else steps over (three).
fn call_if(cpu: &mut Cpu, interconnect: &mut Interconnect, nn: u16, cond: bool)
    requires
        old(interconnect).wf(),
    ensures
        cond ==> final(interconnect).ticks == 24,
        !cond ==> final(interconnect).ticks == 12,
        final(interconnect).wf(),
        cond ==> {
            let ret = add16(old(cpu).pc as int, 3);
            &&& pushed(*old(interconnect), *final(interconnect), old(cpu).sp, (ret / 256) as u8, (ret % 256) as u8)
            &&& final(cpu).sp == sub16(old(cpu).sp as int, 2)
            &&& final(cpu).pc == nn
        },
        !cond ==> only_ticked(*old(interconnect), *final(interconnect))
            && final(cpu).pc == add16(old(cpu).pc as int, 3) && final(cpu).sp == old(cpu).sp,
        only_pc_sp_changed(*old(cpu), *final(cpu)),
        cond ==> then3(*old(interconnect), *final(interconnect), BusEvent::Write(sub16(old(cpu).sp as int, 2), (add16(old(cpu).pc as int, 3) % 256) as u8), BusEvent::Write(add16(sub16(old(cpu).sp as int, 2) as int, 1), (add16(old(cpu).pc as int, 3) / 256) as u8), BusEvent::Tick(6)),
        !cond ==> then1(*old(interconnect), *final(interconnect), BusEvent::Tick(3)),
{
    if cond {
        call(cpu, interconnect, nn);
        interconnect.emu_tick(6);
    } else {
        cpu.pc = cpu.pc.wrapping_add(3);
        interconnect.emu_tick(3);
    }
}

/// Calls `nn` when the zero flag is set.
///
/// Flags: None
pub fn call_z(cpu: &mut Cpu, interconnect: &mut Interconnect, nn: u16)
    requires
        old(interconnect).wf(),
    ensures
        zf(old(cpu).registers.f.data) ==> final(interconnect).ticks == 24,
        !zf(old(cpu).registers.f.data) ==> final(interconnect).ticks == 12,
        final(interconnect).wf(),
        zf(old(cpu).registers.f.data) ==> final(cpu).pc == nn && final(cpu).sp == sub16(old(cpu).sp as int, 2)
            && pushed(*old(interconnect), *final(interconnect), old(cpu).sp,
                (add16(old(cpu).pc as int, 3) / 256) as u8, (add16(old(cpu).pc as int, 3) % 256) as u8),
        !zf(old(cpu).registers.f.data) ==> final(cpu).pc == add16(old(cpu).pc as int, 3)
            && final(cpu).sp == old(cpu).sp && only_ticked(*old(interconnect), *final(interconnect)),
        only_pc_sp_changed(*old(cpu), *final(cpu)),
        zf(old(cpu).registers.f.data) ==> then3(*old(interconnect), *final(interconnect), BusEvent::Write(sub16(old(cpu).sp as int, 2), (add16(old(cpu).pc as int, 3) % 256) as u8), BusEvent::Write(add16(sub16(old(cpu).sp as int, 2) as int, 1), (add16(old(cpu).pc as int, 3) / 256) as u8), BusEvent::Tick(6)),
        !(zf(old(cpu).registers.f.data)) ==> then1(*old(interconnect), *final(interconnect), BusEvent::Tick(3)),
{
    let cond: bool = cpu.registers.f.zero_flag() == 1;
    call_if(cpu, interconnect, nn, cond);
}

/// Calls `nn` when the zero flag is clear.
///
/// Flags: None
pub fn call_nz(cpu: &mut Cpu, interconnect: &mut Interconnect, nn: u16)
    requires
        old(interconnect).wf(),
    ensures
        !zf(old(cpu).registers.f.data) ==> final(interconnect).ticks == 24,
        zf(old(cpu).registers.f.data) ==> final(interconnect).ticks == 12,
        final(interconnect).wf(),
        !zf(old(cpu).registers.f.data) ==> final(cpu).pc == nn && final(cpu).sp == sub16(old(cpu).sp as int, 2)
            && pushed(*old(interconnect), *final(interconnect), old(cpu).sp,
                (add16(old(cpu).pc as int, 3) / 256) as u8, (add16(old(cpu).pc as int, 3) % 256) as u8),
        zf(old(cpu).registers.f.data) ==> final(cpu).pc == add16(old(cpu).pc as int, 3)
            && final(cpu).sp == old(cpu).sp && only_ticked(*old(interconnect), *final(interconnect)),
        only_pc_sp_changed(*old(cpu), *final(cpu)),
        !zf(old(cpu).registers.f.data) ==> then3(*old(interconnect), *final(interconnect), BusEvent::Write(sub16(old(cpu).sp as int, 2), (add16(old(cpu).pc as int, 3) % 256) as u8), BusEvent::Write(add16(sub16(old(cpu).sp as int, 2) as int, 1), (add16(old(cpu).pc as int, 3) / 256) as u8), BusEvent::Tick(6)),
        !(!zf(old(cpu).registers.f.data)) ==> then1(*old(interconnect), *final(interconnect), BusEvent::Tick(3)),
{
    let cond: bool = cpu.registers.f.zero_flag() == 0;
    call_if(cpu, interconnect, nn, cond);
}

/// Calls `nn` when the carry flag is set.
///
/// Flags: None
pub fn call_c(cpu: &mut Cpu, interconnect: &mut Interconnect, nn: u16)
    requires
        old(interconnect).wf(),
    ensures
        cf(old(cpu).registers.f.data) ==> final(interconnect).ticks == 24,
        !cf(old(cpu).registers.f.data) ==> final(interconnect).ticks == 12,
        final(interconnect).wf(),
        cf(old(cpu).registers.f.data) ==> final(cpu).pc == nn && final(cpu).sp == sub16(old(cpu).sp as int, 2)
            && pushed(*old(interconnect), *final(interconnect), old(cpu).sp,
                (add16(old(cpu).pc as int, 3) / 256) as u8, (add16(old(cpu).pc as int, 3) % 256) as u8),
        !cf(old(cpu).registers.f.data) ==> final(cpu).pc == add16(old(cpu).pc as int, 3)
            && final(cpu).sp == old(cpu).sp && only_ticked(*old(interconnect), *final(interconnect)),
        only_pc_sp_changed(*old(cpu), *final(cpu)),
        cf(old(cpu).registers.f.data) ==> then3(*old(interconnect), *final(interconnect), BusEvent::Write(sub16(old(cpu).sp as int, 2), (add16(old(cpu).pc as int, 3) % 256) as u8), BusEvent::Write(add16(sub16(old(cpu).sp as int, 2) as int, 1), (add16(old(cpu).pc as int, 3) / 256) as u8), BusEvent::Tick(6)),
        !(cf(old(cpu).registers.f.data)) ==> then1(*old(interconnect), *final(interconnect), BusEvent::Tick(3)),
{
    let cond: bool = cpu.registers.f.carry_flag() == 1;
    call_if(cpu, interconnect, nn, cond);
}

/// Calls `nn` when the carry flag is clear.
///
/// Flags: None
pub fn call_nc(cpu: &mut Cpu, interconnect: &mut Interconnect, nn: u16)
    requires
        old(interconnect).wf(),
    ensures
        !cf(old(cpu).registers.f.data) ==> final(interconnect).ticks == 24,
        cf(old(cpu).registers.f.data) ==> final(interconnect).ticks == 12,
        final(interconnect).wf(),
        !cf(old(cpu).registers.f.data) ==> final(cpu).pc == nn && final(cpu).sp == sub16(old(cpu).sp as int, 2)
            && pushed(*old(interconnect), *final(interconnect), old(cpu).sp,
                (add16(old(cpu).pc as int, 3) / 256) as u8, (add16(old(cpu).pc as int, 3) % 256) as u8),
        cf(old(cpu).registers.f.data) ==> final(cpu).pc == add16(old(cpu).pc as int, 3)
            && final(cpu).sp == old(cpu).sp && only_ticked(*old(interconnect), *final(interconnect)),
        only_pc_sp_changed(*old(cpu), *final(cpu)),
        !cf(old(cpu).registers.f.data) ==> then3(*old(interconnect), *final(interconnect), BusEvent::Write(sub16(old(cpu).sp as int, 2), (add16(old(cpu).pc as int, 3) % 256) as u8), BusEvent::Write(add16(sub16(old(cpu).sp as int, 2) as int, 1), (add16(old(cpu).pc as int, 3) / 256) as u8), BusEvent::Tick(6)),
        !(!cf(old(cpu).registers.f.data)) ==> then1(*old(interconnect), *final(interconnect), BusEvent::Tick(3)),
{
    let cond: bool = cpu.registers.f.carry_flag() == 0;
    call_if(cpu, interconnect, nn, cond);
}

/// Restart: pushes the address after the one-byte instruction and jumps to `n`.
///
/// Flags: None
#[verifier::spinoff_prover]
pub fn rst(cpu: &mut Cpu, interconnect: &mut Interconnect, n: u8)
    requires
        old(interconnect).wf(),
    ensures
        final(interconnect).wf(),
        ({
            let ret = add16(old(cpu).pc as int, 1);
            pushed(*old(interconnect), *final(interconnect), old(cpu).sp, (ret / 256) as u8, (ret % 256) as u8)
        }),
        final(cpu).sp == sub16(old(cpu).sp as int, 2),
        final(cpu).pc == n,
        only_pc_sp_changed(*old(cpu), *final(cpu)),
        final(interconnect).boot_active == old(interconnect).boot_active,
        final(interconnect).ticks == old(interconnect).ticks,
        then2(*old(interconnect), *final(interconnect), BusEvent::Write(sub16(old(cpu).sp as int, 2), (add16(old(cpu).pc as int, 1) % 256) as u8), BusEvent::Write(add16(sub16(old(cpu).sp as int, 2) as int, 1), (add16(old(cpu).pc as int, 1) / 256) as u8)),
{
    cpu.pc = cpu.pc.wrapping_add(1);
    let p: u16 = cpu.pc;
    proof {
        assert(((p & 0xFF00u16) >> 8u16) as u8 == (p >> 8u16) as u8) by (bit_vector);
    }
    push_rr(interconnect, ((p & 0xFF00) >> 8) as u8, (p & 0x00FF) as u8, &mut cpu.sp);
    cpu.pc = n as u16;
}

/// Returns: PC is popped from the stack.
///
/// Flags: None
pub fn ret(cpu: &mut Cpu, interconnect: &Interconnect)
    requires
        interconnect.wf(),
    ensures
        final(cpu).pc == interconnect.read_spec(add16(old(cpu).sp as int, 1)) * 256
            + interconnect.read_spec(old(cpu).sp),
        final(cpu).sp == add16(old(cpu).sp as int, 2),
        only_pc_sp_changed(*old(cpu), *final(cpu)),
{
    let sp: u16 = cpu.sp;
    let hi: u8 = interconnect.read_mem(sp.wrapping_add(1));
    let lo: u8 = interconnect.read_mem(sp);
    let pc: u16 = ((hi as u16) << 8) | (lo as u16);
    cpu.pc = pc;
    cpu.sp = sp.wrapping_add(2);
}

/// Returns when `cond` (five machine cycles), else steps over (two).
fn ret_if(cpu: &mut Cpu, interconnect: &mut Interconnect, cond: bool)
    requires
        old(interconnect).wf(),
    ensures
        cond ==> final(interconnect).ticks == 20,
        !cond ==> final(interconnect).ticks == 8,
        final(interconnect).wf(),
        only_ticked(*old(interconnect), *final(interconnect)),
        cond ==> final(cpu).pc == old(interconnect).read_spec(add16(old(cpu).sp as int, 1)) * 256
            + old(interconnect).read_spec(old(cpu).sp) && final(cpu).sp == add16(old(cpu).sp as int, 2),
        !cond ==> final(cpu).pc == add16(old(cpu).pc as int, 1) && final(cpu).sp == old(cpu).sp,
        only_pc_sp_changed(*old(cpu), *final(cpu)),
        cond ==> then1(*old(interconnect), *final(interconnect), BusEvent::Tick(5)),
        !(cond) ==> then1(*old(interconnect), *final(interconnect), BusEvent::Tick(2)),
{
    if cond {
        ret(cpu, interconnect);
        interconnect.emu_tick(5);
    } else {
        cpu.pc = cpu.pc.wrapping_add(1);
        interconnect.emu_tick(2);
    }
}

/// Returns when the zero flag is set.
///
/// Flags: None
pub fn ret_z(cpu: &mut Cpu, interconnect: &mut Interconnect)
    requires
        old(interconnect).wf(),
    ensures
        zf(old(cpu).registers.f.data) ==> final(interconnect).ticks == 20,
        !zf(old(cpu).registers.f.data) ==> final(interconnect).ticks == 8,
        final(interconnect).wf(),
        only_ticked(*old(interconnect), *final(interconnect)),
        zf(old(cpu).registers.f.data) ==> final(cpu).pc == old(interconnect).read_spec(add16(old(cpu).sp as int, 1)) * 256
            + old(interconnect).read_spec(old(cpu).sp) && final(cpu).sp == add16(old(cpu).sp as int, 2),
        !zf(old(cpu).registers.f.data) ==> final(cpu).pc == add16(old(cpu).pc as int, 1) && final(cpu).sp == old(cpu).sp,
        only_pc_sp_changed(*old(cpu), *final(cpu)),
        zf(old(cpu).registers.f.data) ==> then1(*old(interconnect), *final(interconnect), BusEvent::Tick(5)),
        !(zf(old(cpu).registers.f.data)) ==> then1(*old(interconnect), *final(interconnect), BusEvent::Tick(2)),
{
    let cond: bool = cpu.registers.f.zero_flag() == 1;
    ret_if(cpu, interconnect, cond);
}

/// Returns when the zero flag is clear.
///
/// Flags: None
pub fn ret_nz(cpu: &mut Cpu, interconnect: &mut Interconnect)
    requires
        old(interconnect).wf(),
    ensures
        !zf(old(cpu).registers.f.data) ==> final(interconnect).ticks == 20,
        zf(old(cpu).registers.f.data) ==> final(interconnect).ticks == 8,
        final(interconnect).wf(),
        only_ticked(*old(interconnect), *final(interconnect)),
        !zf(old(cpu).registers.f.data) ==> final(cpu).pc == old(interconnect).read_spec(add16(old(cpu).sp as int, 1)) * 256
            + old(interconnect).read_spec(old(cpu).sp) && final(cpu).sp == add16(old(cpu).sp as int, 2),
        zf(old(cpu).registers.f.data) ==> final(cpu).pc == add16(old(cpu).pc as int, 1) && final(cpu).sp == old(cpu).sp,
        only_pc_sp_changed(*old(cpu), *final(cpu)),
        !zf(old(cpu).registers.f.data) ==> then1(*old(interconnect), *final(interconnect), BusEvent::Tick(5)),
        !(!zf(old(cpu).registers.f.data)) ==> then1(*old(interconnect), *final(interconnect), BusEvent::Tick(2)),
{
    let cond: bool = cpu.registers.f.zero_flag() == 0;
    ret_if(cpu, interconnect, cond);
}

/// Returns when the carry flag is set.
///
/// Flags: None
pub fn ret_c(cpu: &mut Cpu, interconnect: &mut Interconnect)
    requires
        old(interconnect).wf(),
    ensures
        cf(old(cpu).registers.f.data) ==> final(interconnect).ticks == 20,
        !cf(old(cpu).registers.f.data) ==> final(interconnect).ticks == 8,
        final(interconnect).wf(),
        only_ticked(*old(interconnect), *final(interconnect)),
        cf(old(cpu).registers.f.data) ==> final(cpu).pc == old(interconnect).read_spec(add16(old(cpu).sp as int, 1)) * 256
            + old(interconnect).read_spec(old(cpu).sp) && final(cpu).sp == add16(old(cpu).sp as int, 2),
        !cf(old(cpu).registers.f.data) ==> final(cpu).pc == add16(old(cpu).pc as int, 1) && final(cpu).sp == old(cpu).sp,
        only_pc_sp_changed(*old(cpu), *final(cpu)),
        cf(old(cpu).registers.f.data) ==> then1(*old(interconnect), *final(interconnect), BusEvent::Tick(5)),
        !(cf(old(cpu).registers.f.data)) ==> then1(*old(interconnect), *final(interconnect), BusEvent::Tick(2)),
{
    let cond: bool = cpu.registers.f.carry_flag() == 1;
    ret_if(cpu, interconnect, cond);
}

/// Returns when the carry flag is clear.
///
/// Flags: None
pub fn ret_nc(cpu: &mut Cpu, interconnect: &mut Interconnect)
    requires
        old(interconnect).wf(),
    ensures
        !cf(old(cpu).registers.f.data) ==> final(interconnect).ticks == 20,
        cf(old(cpu).registers.f.data) ==> final(interconnect).ticks == 8,
        final(interconnect).wf(),
        only_ticked(*old(interconnect), *final(interconnect)),
        !cf(old(cpu).registers.f.data) ==> final(cpu).pc == old(interconnect).read_spec(add16(old(cpu).sp as int, 1)) * 256
            + old(interconnect).read_spec(old(cpu).sp) && final(cpu).sp == add16(old(cpu).sp as int, 2),
        cf(old(cpu).registers.f.data) ==> final(cpu).pc == add16(old(cpu).pc as int, 1) && final(cpu).sp == old(cpu).sp,
        only_pc_sp_changed(*old(cpu), *final(cpu)),
        !cf(old(cpu).registers.f.data) ==> then1(*old(interconnect), *final(interconnect), BusEvent::Tick(5)),
        !(!cf(old(cpu).registers.f.data)) ==> then1(*old(interconnect), *final(interconnect), BusEvent::Tick(2)),
{
    let cond: bool = cpu.registers.f.carry_flag() == 0;
    ret_if(cpu, interconnect, cond);
}

/// A = mem[0xFF00 + n].
///
/// Flags: None
pub fn ld_a_from_io(cpu: &mut Cpu, interconnect: &Interconnect, n: u8)
    requires
        interconnect.wf(),
    ensures
        final(cpu).registers.a == interconnect.read_spec((0xFF00 + n) as u16),
        final(cpu).registers.f == old(cpu).registers.f,
        only_a_f_changed(*old(cpu), *final(cpu)),
{
    let addr: u16 = 0xFF00 + (n as u16);
    cpu.registers.a = interconnect.read_mem(addr);
}

/// mem[0xFF00 + n] = A.
///
/// Flags: None
pub fn ld_io_from_a(cpu: &Cpu, interconnect: &mut Interconnect, n: u8)
    requires
        old(interconnect).wf(),
    ensures
        final(interconnect).wf(),
        wrote(*old(interconnect), *final(interconnect), (0xFF00 + n) as u16, cpu.registers.a),
        final(interconnect).boot_active == old(interconnect).boot_active,
        final(interconnect).ticks == old(interconnect).ticks,
        then1(*old(interconnect), *final(interconnect), BusEvent::Write((0xFF00 + n) as u16, cpu.registers.a)),
{
    let addr: u16 = 0xFF00 + (n as u16);
    interconnect.write_mem(addr, cpu.registers.a);
}

/// A = mem[0xFF00 + C].
///
/// Flags: None
pub fn ld_a_from_io_c(cpu: &mut Cpu, interconnect: &Interconnect)
    requires
        interconnect.wf(),
    ensures
        final(cpu).registers.a == interconnect.read_spec((0xFF00 + old(cpu).registers.c) as u16),
        final(cpu).registers.f == old(cpu).registers.f,
        only_a_f_changed(*old(cpu), *final(cpu)),
{
    let addr: u16 = 0xFF00 + (cpu.registers.c as u16);
    cpu.registers.a = interconnect.read_mem(addr);
}

/// mem[0xFF00 + C] = A.
///
/// Flags: None
pub fn ld_io_c_from_a(cpu: &Cpu, interconnect: &mut Interconnect)
    requires
        old(interconnect).wf(),
    ensures
        final(interconnect).wf(),
        wrote(*old(interconnect), *final(interconnect), (0xFF00 + cpu.registers.c) as u16, cpu.registers.a),
        final(interconnect).boot_active == old(interconnect).boot_active,
        final(interconnect).ticks == old(interconnect).ticks,
        then1(*old(interconnect), *final(interconnect), BusEvent::Write((0xFF00 + cpu.registers.c) as u16, cpu.registers.a)),
{
    let addr: u16 = 0xFF00 + (cpu.registers.c as u16);
    interconnect.write_mem(addr, cpu.registers.a);
}

} // verus!
