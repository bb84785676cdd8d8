use vstd::prelude::*;
use crate::cpu::{Cpu, RegisterPair, Registers};
use crate::flags::{Flags, b2u, cf, hf, nf, with_flags, zf};
use crate::instructions::{
    add16, add8, only_ticked, pair_value, pushed, rl_value, rlc_value, rr_value, rrc_value,
    signed8, sla_value, sra_value, srl_value, sub16, sub8, swap_value, wrote,
};
use crate::interconnect::{BusEvent, Interconnect, first_pending, kept_by_tick, ran};
use crate::interconnect::BusEvent::{Tick, Write};
use crate::interrupts::{InterruptType, interrupt_bit};

verus! {

/************************************************************************
 * The state of the CPU, piece by piece
 ************************************************************************/

/// The byte after the opcode.
pub open spec fn imm8(c: Cpu, m: Interconnect) -> u8 {
    m.read_spec(add16(c.pc as int, 1))
}

/// The little-endian word after the opcode.
pub open spec fn imm16(c: Cpu, m: Interconnect) -> u16 {
    (m.read_spec(add16(c.pc as int, 2)) * 256 + m.read_spec(add16(c.pc as int, 1))) as u16
}

/// The eight-bit register that an instruction names by `r`: B, C, D, E, H, L,
/// (6 names memory at HL), A.
pub open spec fn reg8(c: Cpu, r: u8) -> u8 {
    if r == 0 {
        c.registers.b
    } else if r == 1 {
        c.registers.c
    } else if r == 2 {
        c.registers.d
    } else if r == 3 {
        c.registers.e
    } else if r == 4 {
        c.registers.h
    } else if r == 5 {
        c.registers.l
    } else {
        c.registers.a
    }
}

/// The CPU with register `r` (numbered as in `reg8`) set to `v`.
pub open spec fn with_reg8(c: Cpu, r: u8, v: u8) -> Cpu {
    let g = c.registers;
    let g2 = if r == 0 {
        Registers { b: v, ..g }
    } else if r == 1 {
        Registers { c: v, ..g }
    } else if r == 2 {
        Registers { d: v, ..g }
    } else if r == 3 {
        Registers { e: v, ..g }
    } else if r == 4 {
        Registers { h: v, ..g }
    } else if r == 5 {
        Registers { l: v, ..g }
    } else {
        Registers { a: v, ..g }
    };
    Cpu { registers: g2, ..c }
}

/// The register pair that an instruction names by `p`: BC, DE, HL, SP.
pub open spec fn pair_of(p: u8) -> RegisterPair {
    if p == 0 {
        RegisterPair::BC
    } else if p == 1 {
        RegisterPair::DE
    } else if p == 2 {
        RegisterPair::HL
    } else {
        RegisterPair::SP
    }
}

/// The value of the register pair numbered `p`.
pub open spec fn pair16(c: Cpu, p: u8) -> u16 {
    pair_value(c, pair_of(p))
}

/// The CPU with the register pair numbered `p` set to `v`.
pub open spec fn with_pair(c: Cpu, p: u8, v: u16) -> Cpu {
    let hi = (v / 256) as u8;
    let lo = (v % 256) as u8;
    let g = c.registers;
    if p == 0 {
        Cpu { registers: Registers { b: hi, c: lo, ..g }, ..c }
    } else if p == 1 {
        Cpu { registers: Registers { d: hi, e: lo, ..g }, ..c }
    } else if p == 2 {
        Cpu { registers: Registers { h: hi, l: lo, ..g }, ..c }
    } else {
        Cpu { sp: v, ..c }
    }
}

/// The CPU with the flag byte `f`.
pub open spec fn with_f(c: Cpu, f: u8) -> Cpu {
    Cpu { registers: Registers { f: Flags { data: f }, ..c.registers }, ..c }
}

/// The CPU with A set to `a` and the flag byte to `f`.
pub open spec fn with_af(c: Cpu, a: u8, f: u8) -> Cpu {
    Cpu { registers: Registers { a: a, f: Flags { data: f }, ..c.registers }, ..c }
}

/// The CPU with its program counter moved on by `n` bytes.
pub open spec fn adv(c: Cpu, n: int) -> Cpu {
    Cpu { pc: add16(c.pc as int, n), ..c }
}

/// The CPU with program counter `pc`.
pub open spec fn with_pc(c: Cpu, pc: u16) -> Cpu {
    Cpu { pc: pc, ..c }
}

/// The CPU with program counter `pc` and stack pointer `sp`.
pub open spec fn with_pc_sp(c: Cpu, pc: u16, sp: u16) -> Cpu {
    Cpu { pc: pc, sp: sp, ..c }
}

/// Condition `cc` of a conditional jump, call or return: NZ, Z, NC, C.
pub open spec fn cond_holds(f: u8, cc: u8) -> bool {
    if cc == 0 {
        !zf(f)
    } else if cc == 1 {
        zf(f)
    } else if cc == 2 {
        !cf(f)
    } else {
        cf(f)
    }
}

/// The word on top of the stack.
pub open spec fn top_word(m: Interconnect, sp: u16) -> u16 {
    (m.read_spec(add16(sp as int, 1)) * 256 + m.read_spec(sp)) as u16
}

/// `lo` at `addr` and `hi` at `addr + 1` were stored, the rest of the memory
/// that time leaves alone is kept.
pub open spec fn stored16(m0: Interconnect, m1: Interconnect, addr: u16, lo: u8, hi: u8) -> bool {
    pushed(m0, m1, add16(addr as int, 2), hi, lo)
}

/// A byte read from `addr` after some time passed: where time leaves the
/// address alone it is what `m` held there.
pub open spec fn kept_read(m: Interconnect, addr: u16, v: u8) -> bool {
    kept_by_tick(addr) ==> v == m.read_spec(addr)
}

/************************************************************************
 * What the arithmetic and logic instructions compute
 ************************************************************************/

/// A after ALU operation `y` (ADD ADC SUB SBC AND XOR OR CP) with operand `v`.
pub open spec fn alu_a(y: u8, a: u8, f: u8, v: u8) -> u8 {
    let c = b2u(cf(f));
    if y == 0 {
        add8(a as int, v as int)
    } else if y == 1 {
        add8(a + v, c as int)
    } else if y == 2 {
        sub8(a as int, v as int)
    } else if y == 3 {
        sub8(a - v, c as int)
    } else if y == 4 {
        a & v
    } else if y == 5 {
        a ^ v
    } else if y == 6 {
        a | v
    } else {
        a
    }
}

/// The flag byte after ALU operation `y` with operand `v`.
pub open spec fn alu_f(y: u8, a: u8, f: u8, v: u8) -> u8 {
    let c = b2u(cf(f));
    let r = alu_a(y, a, f, v);
    if y == 0 {
        with_flags(f, r == 0, false, a % 16 + v % 16 > 15, a + v > 255)
    } else if y == 1 {
        with_flags(f, r == 0, false, a % 16 + v % 16 + c > 15, a + v + c > 255)
    } else if y == 2 {
        with_flags(f, r == 0, true, a % 16 < v % 16, a < v)
    } else if y == 3 {
        with_flags(f, r == 0, true, a % 16 - v % 16 - c < 0, a - v - c < 0)
    } else if y == 4 {
        with_flags(f, r == 0, false, true, false)
    } else if y == 5 || y == 6 {
        with_flags(f, r == 0, false, false, false)
    } else {
        with_flags(f, a == v, true, a % 16 < v % 16, a < v)
    }
}

/// A value after rotate or shift `y` (RLC RRC RL RR SLA SRA SWAP SRL).
pub open spec fn rot_value(y: u8, v: u8, f: u8) -> u8 {
    if y == 0 {
        rlc_value(v)
    } else if y == 1 {
        rrc_value(v)
    } else if y == 2 {
        rl_value(v, cf(f))
    } else if y == 3 {
        rr_value(v, cf(f))
    } else if y == 4 {
        sla_value(v)
    } else if y == 5 {
        sra_value(v)
    } else if y == 6 {
        swap_value(v)
    } else {
        srl_value(v)
    }
}

/// The flag byte after rotate or shift `y` of `v`.
pub open spec fn rot_f(y: u8, v: u8, f: u8) -> u8 {
    let carry = if y == 6 {
        false
    } else if y == 0 || y == 2 || y == 4 {
        v >= 128
    } else {
        v % 2 == 1
    };
    with_flags(f, rot_value(y, v, f) == 0, false, false, carry)
}

/// The flag byte after testing bit `n` of `v`.
pub open spec fn bit_f(f: u8, v: u8, n: u8) -> u8 {
    with_flags(f, (v >> n) & 1 == 0, false, true, cf(f))
}

/// A after DAA.
pub open spec fn daa_a(a: u8, f: u8) -> u8 {
    if !nf(f) {
        let hi = cf(f) || a > 0x99;
        let a1 = if hi { add8(a as int, 0x60) } else { a };
        let lo = hf(f) || a1 % 16 > 9;
        if lo { add8(a1 as int, 0x06) } else { a1 }
    } else {
        let a1 = if cf(f) { sub8(a as int, 0x60) } else { a };
        if hf(f) { sub8(a1 as int, 0x06) } else { a1 }
    }
}

/// The flag byte after DAA.
pub open spec fn daa_f(a: u8, f: u8) -> u8 {
    let r = daa_a(a, f);
    if !nf(f) {
        with_flags(f, r == 0, false, false, cf(f) || a > 0x99)
    } else {
        with_flags(f, r == 0, true, false, cf(f))
    }
}

/// A after accumulator operation `y` (RLCA RRCA RLA RRA DAA CPL SCF CCF).
pub open spec fn acc_a(y: u8, a: u8, f: u8) -> u8 {
    if y == 0 {
        rlc_value(a)
    } else if y == 1 {
        rrc_value(a)
    } else if y == 2 {
        rl_value(a, cf(f))
    } else if y == 3 {
        rr_value(a, cf(f))
    } else if y == 4 {
        daa_a(a, f)
    } else if y == 5 {
        a ^ 0xFF
    } else {
        a
    }
}

/// The flag byte after accumulator operation `y`.
pub open spec fn acc_f(y: u8, a: u8, f: u8) -> u8 {
    if y == 0 || y == 2 {
        with_flags(f, false, false, false, a >= 128)
    } else if y == 1 || y == 3 {
        with_flags(f, false, false, false, a % 2 == 1)
    } else if y == 4 {
        daa_f(a, f)
    } else if y == 5 {
        with_flags(f, zf(f), true, true, cf(f))
    } else if y == 6 {
        with_flags(f, zf(f), false, false, true)
    } else {
        with_flags(f, zf(f), false, false, !cf(f))
    }
}

/// The flag byte after SP plus a signed byte gave `r`.
pub open spec fn sp_add_f(sp: u16, r: u16, f: u8) -> u8 {
    with_flags(f, false, false, r % 16 < sp % 16, r % 256 < sp % 256)
}

/************************************************************************
 * One instruction
 ************************************************************************/

/// One instruction of the block 0x40..=0x7F: `LD r, r'` and HALT.
pub open spec fn ld_step(c0: Cpu, m0: Interconnect, c1: Cpu, m1: Interconnect) -> bool {
    let y = (c0.opcode / 8) % 8;
    let z = c0.opcode % 8;
    let hl = pair16(c0, 2);
    if y == 6 && z == 6 {
        &&& c1 == Cpu { halted: true, ..adv(c0, 1) }
        &&& only_ticked(m0, m1) && m1.ticks == 4 && ran(m0, m1, Seq::empty().push(Tick(1)))
    } else if y == 6 {
        &&& c1 == adv(c0, 1)
        &&& wrote(m0, m1, hl, reg8(c0, z)) && m1.ticks == 8 && ran(m0, m1, Seq::empty().push(Write(hl, reg8(c0, z))).push(Tick(2)))
    } else if z == 6 {
        &&& c1 == adv(with_reg8(c0, y, m0.read_spec(hl)), 1)
        &&& only_ticked(m0, m1) && m1.ticks == 8 && ran(m0, m1, Seq::empty().push(Tick(2)))
    } else {
        &&& c1 == adv(with_reg8(c0, y, reg8(c0, z)), 1)
        &&& only_ticked(m0, m1) && m1.ticks == 4 && ran(m0, m1, Seq::empty().push(Tick(1)))
    }
}

/// One instruction of the block 0x80..=0xBF: ALU operation with a register
/// or with memory at HL.
pub open spec fn alu_step(c0: Cpu, m0: Interconnect, c1: Cpu, m1: Interconnect) -> bool {
    let y = (c0.opcode / 8) % 8;
    let z = c0.opcode % 8;
    let a = c0.registers.a;
    let f = c0.registers.f.data;
    let v = if z == 6 { m0.read_spec(pair16(c0, 2)) } else { reg8(c0, z) };
    &&& c1 == adv(with_af(c0, alu_a(y, a, f, v), alu_f(y, a, f, v)), 1)
    &&& only_ticked(m0, m1)
    &&& m1.ticks == if z == 6 { 8u64 } else { 4u64 }
    &&& if z == 6 { ran(m0, m1, Seq::empty().push(Tick(2))) } else { ran(m0, m1, Seq::empty().push(Tick(1))) }
}

/// A CB-prefixed instruction on memory at HL, which it reads as `v` after the
/// prefix's machine cycle.
pub open spec fn cb_mem_done(c0: Cpu, m0: Interconnect, c1: Cpu, m1: Interconnect, cb: u8, v: u8) -> bool {
    let x = cb / 64;
    let y = (cb / 8) % 8;
    let f = c0.registers.f.data;
    let hl = pair16(c0, 2);
    &&& kept_read(m0, hl, v)
    &&& if x == 0 {
        c1 == adv(with_f(c0, rot_f(y, v, f)), 2) && wrote(m0, m1, hl, rot_value(y, v, f))
            && ran(m0, m1, Seq::empty().push(Tick(1)).push(Tick(1)).push(Write(hl, rot_value(y, v, f))).push(Tick(1)).push(Tick(1)))
    } else if x == 1 {
        c1 == adv(with_f(c0, bit_f(f, v, y)), 2) && only_ticked(m0, m1) && ran(m0, m1, Seq::empty().push(Tick(1)).push(Tick(2)))
    } else if x == 2 {
        c1 == adv(c0, 2) && wrote(m0, m1, hl, v & !(1u8 << y))
            && ran(m0, m1, Seq::empty().push(Tick(1)).push(Tick(1)).push(Write(hl, v & !(1u8 << y))).push(Tick(1)).push(Tick(1)))
    } else {
        c1 == adv(c0, 2) && wrote(m0, m1, hl, v | (1u8 << y))
            && ran(m0, m1, Seq::empty().push(Tick(1)).push(Tick(1)).push(Write(hl, v | (1u8 << y))).push(Tick(1)).push(Tick(1)))
    }
}

/// The CB-prefixed instruction `cb`: rotates and shifts (x = 0), BIT (1),
/// RES (2) and SET (3) on register or memory `z`.
pub open spec fn cb_step(c0: Cpu, m0: Interconnect, c1: Cpu, m1: Interconnect, cb: u8) -> bool {
    let x = cb / 64;
    let y = (cb / 8) % 8;
    let z = cb % 8;
    let f = c0.registers.f.data;
    if z == 6 {
        &&& exists|v: u8| #[trigger] cb_mem_done(c0, m0, c1, m1, cb, v)
        &&& m1.ticks == if x == 1 { 8u64 } else { 4u64 }
    } else {
        let v = reg8(c0, z);
        &&& only_ticked(m0, m1) && m1.ticks == 4 && ran(m0, m1, Seq::empty().push(Tick(1)).push(Tick(1)))
        &&& if x == 0 {
            c1 == adv(with_f(with_reg8(c0, z, rot_value(y, v, f)), rot_f(y, v, f)), 2)
        } else if x == 1 {
            c1 == adv(with_f(c0, bit_f(f, v, y)), 2)
        } else if x == 2 {
            c1 == adv(with_reg8(c0, z, v & !(1u8 << y)), 2)
        } else {
            c1 == adv(with_reg8(c0, z, v | (1u8 << y)), 2)
        }
    }
}

/// A byte loaded into A from `addr` after some time passed, PC moved on by `n`.
pub open spec fn loaded_a_done(c0: Cpu, m0: Interconnect, c1: Cpu, addr: u16, n: int, v: u8) -> bool {
    kept_read(m0, addr, v) && c1 == adv(with_reg8(c0, 7, v), n)
}

/// Column 0 of the block 0x00..=0x3F: NOP, LD (u16),SP, STOP, JR, JR cc.
pub open spec fn low_z0(c0: Cpu, m0: Interconnect, c1: Cpu, m1: Interconnect) -> bool {
    let y = (c0.opcode / 8) % 8;
    let f = c0.registers.f.data;
    let n8 = imm8(c0, m0);
    if y == 0 || y == 2 {
        c1 == adv(c0, 1) && only_ticked(m0, m1) && m1.ticks == 4
            && ran(m0, m1, Seq::empty().push(Tick(1)))
    } else if y == 1 {
        &&& c1 == adv(c0, 3)
        &&& stored16(m0, m1, imm16(c0, m0), (c0.sp % 256) as u8, (c0.sp / 256) as u8) && m1.ticks == 20
        &&& ran(m0, m1, Seq::empty().push(Write(imm16(c0, m0), (c0.sp % 256) as u8)).push(Write(add16(imm16(c0, m0) as int, 1), (c0.sp / 256) as u8)).push(Tick(5)))
    } else if y == 3 {
        c1 == with_pc(c0, add16(c0.pc + 2, signed8(n8))) && only_ticked(m0, m1) && m1.ticks == 12
            && ran(m0, m1, Seq::empty().push(Tick(3)))
    } else {
        let taken = cond_holds(f, (y - 4) as u8);
        &&& c1 == with_pc(c0, if taken { add16(c0.pc + 2, signed8(n8)) } else { add16(c0.pc as int, 2) })
        &&& only_ticked(m0, m1)
        &&& m1.ticks == if taken { 12u64 } else { 8u64 }
        &&& if taken { ran(m0, m1, Seq::empty().push(Tick(3))) } else { ran(m0, m1, Seq::empty().push(Tick(2))) }
    }
}

/// Column 1 of the block 0x00..=0x3F: LD rr,u16 and ADD HL,rr.
pub open spec fn low_z1(c0: Cpu, m0: Interconnect, c1: Cpu, m1: Interconnect) -> bool {
    let y = (c0.opcode / 8) % 8;
    let p = y / 2;
    let f = c0.registers.f.data;
    let hl = pair16(c0, 2);
    if y % 2 == 0 {
        c1 == adv(with_pair(c0, p, imm16(c0, m0)), 3) && only_ticked(m0, m1) && m1.ticks == 12
            && ran(m0, m1, Seq::empty().push(Tick(3)))
    } else {
        let rr = pair16(c0, p);
        &&& c1 == adv(with_f(with_pair(c0, 2, add16(hl as int, rr as int)),
            with_flags(f, zf(f), false, hl % 4096 + rr % 4096 > 4095, hl + rr > 65535)), 1)
        &&& only_ticked(m0, m1) && m1.ticks == 8 && ran(m0, m1, Seq::empty().push(Tick(2)))
    }
}

/// Column 2 of the block 0x00..=0x3F: loads between A and memory at BC, DE,
/// HL (then incremented) and HL (then decremented).
pub open spec fn low_z2(c0: Cpu, m0: Interconnect, c1: Cpu, m1: Interconnect) -> bool {
    let y = (c0.opcode / 8) % 8;
    let p = y / 2;
    let hl = pair16(c0, 2);
    let addr = if p == 0 { pair16(c0, 0) } else if p == 1 { pair16(c0, 1) } else { hl };
    let c_hl = if p == 2 {
        with_pair(c0, 2, add16(hl as int, 1))
    } else if p == 3 {
        with_pair(c0, 2, sub16(hl as int, 1))
    } else {
        c0
    };
    if y % 2 == 0 {
        c1 == adv(c_hl, 1) && wrote(m0, m1, addr, c0.registers.a) && m1.ticks == 8
            && ran(m0, m1, Seq::empty().push(Write(addr, c0.registers.a)).push(Tick(2)))
    } else {
        c1 == adv(with_reg8(c_hl, 7, m0.read_spec(addr)), 1) && only_ticked(m0, m1) && m1.ticks == 8
            && ran(m0, m1, Seq::empty().push(Tick(2)))
    }
}

/// Column 3 of the block 0x00..=0x3F: INC rr and DEC rr.
pub open spec fn low_z3(c0: Cpu, m0: Interconnect, c1: Cpu, m1: Interconnect) -> bool {
    let y = (c0.opcode / 8) % 8;
    let p = y / 2;
    let v = if y % 2 == 0 { add16(pair16(c0, p) as int, 1) } else { sub16(pair16(c0, p) as int, 1) };
    c1 == adv(with_pair(c0, p, v), 1) && only_ticked(m0, m1) && m1.ticks == 8 && ran(m0, m1, Seq::empty().push(Tick(2)))
}

/// Columns 4 and 5 of the block 0x00..=0x3F: INC and DEC of a register or
/// of memory at HL.
pub open spec fn low_z45(c0: Cpu, m0: Interconnect, c1: Cpu, m1: Interconnect) -> bool {
    let y = (c0.opcode / 8) % 8;
    let z = c0.opcode % 8;
    let f = c0.registers.f.data;
    let hl = pair16(c0, 2);
    let v = if y == 6 { m0.read_spec(hl) } else { reg8(c0, y) };
    let r = if z == 4 { add8(v as int, 1) } else { sub8(v as int, 1) };
    let f2 = with_flags(f, r == 0, z == 5, if z == 4 { v % 16 + 1 > 15 } else { v % 16 < 1 }, cf(f));
    if y == 6 {
        c1 == adv(with_f(c0, f2), 1) && wrote(m0, m1, hl, r) && m1.ticks == 4
            && ran(m0, m1, Seq::empty().push(Tick(1)).push(Write(hl, r)).push(Tick(1)).push(Tick(1)))
    } else {
        c1 == adv(with_f(with_reg8(c0, y, r), f2), 1) && only_ticked(m0, m1) && m1.ticks == 4
            && ran(m0, m1, Seq::empty().push(Tick(1)))
    }
}

/// Column 6 of the block 0x00..=0x3F: LD r,u8 and LD (HL),u8.
pub open spec fn low_z6(c0: Cpu, m0: Interconnect, c1: Cpu, m1: Interconnect) -> bool {
    let y = (c0.opcode / 8) % 8;
    let n8 = imm8(c0, m0);
    if y == 6 {
        c1 == adv(c0, 2) && wrote(m0, m1, pair16(c0, 2), n8) && m1.ticks == 8
            && ran(m0, m1, Seq::empty().push(Tick(1)).push(Write(pair16(c0, 2), n8)).push(Tick(2)))
    } else {
        c1 == adv(with_reg8(c0, y, n8), 2) && only_ticked(m0, m1) && m1.ticks == 8 && ran(m0, m1, Seq::empty().push(Tick(2)))
    }
}

/// Column 7 of the block 0x00..=0x3F: RLCA RRCA RLA RRA DAA CPL SCF CCF.
pub open spec fn low_z7(c0: Cpu, m0: Interconnect, c1: Cpu, m1: Interconnect) -> bool {
    let y = (c0.opcode / 8) % 8;
    let a = c0.registers.a;
    let f = c0.registers.f.data;
    c1 == adv(with_af(c0, acc_a(y, a, f), acc_f(y, a, f)), 1) && only_ticked(m0, m1) && m1.ticks == 4
        && ran(m0, m1, Seq::empty().push(Tick(1)))
}

/// One instruction of the block 0x00..=0x3F.
pub open spec fn low_step(c0: Cpu, m0: Interconnect, c1: Cpu, m1: Interconnect) -> bool {
    let z = c0.opcode % 8;
    if z == 0 {
        low_z0(c0, m0, c1, m1)
    } else if z == 1 {
        low_z1(c0, m0, c1, m1)
    } else if z == 2 {
        low_z2(c0, m0, c1, m1)
    } else if z == 3 {
        low_z3(c0, m0, c1, m1)
    } else if z == 4 || z == 5 {
        low_z45(c0, m0, c1, m1)
    } else if z == 6 {
        low_z6(c0, m0, c1, m1)
    } else {
        low_z7(c0, m0, c1, m1)
    }
}

/// Column 0 of the block 0xC0..=0xFF: RET cc, LDH (u8),A, ADD SP,i8,
/// LDH A,(u8) and LD HL,SP+i8.
pub open spec fn high_z0(c0: Cpu, m0: Interconnect, c1: Cpu, m1: Interconnect) -> bool {
    let y = (c0.opcode / 8) % 8;
    let f = c0.registers.f.data;
    let sp = c0.sp;
    let n8 = imm8(c0, m0);
    if y < 4 {
        let taken = cond_holds(f, y);
        &&& c1 == if taken { with_pc_sp(c0, top_word(m0, sp), add16(sp as int, 2)) } else { adv(c0, 1) }
        &&& only_ticked(m0, m1)
        &&& m1.ticks == if taken { 20u64 } else { 8u64 }
        &&& if taken { ran(m0, m1, Seq::empty().push(Tick(5))) } else { ran(m0, m1, Seq::empty().push(Tick(2))) }
    } else if y == 4 {
        c1 == adv(c0, 2) && wrote(m0, m1, (0xFF00 + n8) as u16, c0.registers.a) && m1.ticks == 8
            && ran(m0, m1, Seq::empty().push(Tick(1)).push(Write((0xFF00 + n8) as u16, c0.registers.a)).push(Tick(2)))
    } else if y == 6 {
        &&& exists|v: u8| #[trigger] loaded_a_done(c0, m0, c1, (0xFF00 + n8) as u16, 2, v)
        &&& only_ticked(m0, m1) && m1.ticks == 8 && ran(m0, m1, Seq::empty().push(Tick(1)).push(Tick(2)))
    } else {
        let r = add16(sp as int, signed8(n8));
        let c2 = if y == 5 { Cpu { sp: r, ..c0 } } else { with_pair(c0, 2, r) };
        &&& c1 == adv(with_f(c2, sp_add_f(sp, r, f)), 2)
        &&& only_ticked(m0, m1)
        &&& m1.ticks == if y == 5 { 16u64 } else { 12u64 }
        &&& if y == 5 { ran(m0, m1, Seq::empty().push(Tick(4))) } else { ran(m0, m1, Seq::empty().push(Tick(3))) }
    }
}

/// Column 1 of the block 0xC0..=0xFF: POP rr, RET, RETI, JP HL, LD SP,HL.
pub open spec fn high_z1(c0: Cpu, m0: Interconnect, c1: Cpu, m1: Interconnect) -> bool {
    let y = (c0.opcode / 8) % 8;
    let p = y / 2;
    let sp = c0.sp;
    let hl = pair16(c0, 2);
    let w = top_word(m0, sp);
    if y % 2 == 0 {
        let c2 = if p == 3 { with_af(c0, (w / 256) as u8, ((w % 256) as u8) & 0xF0) } else { with_pair(c0, p, w) };
        c1 == adv(Cpu { sp: add16(sp as int, 2), ..c2 }, 1) && only_ticked(m0, m1) && m1.ticks == 12
            && ran(m0, m1, Seq::empty().push(Tick(3)))
    } else if p == 0 || p == 1 {
        let c2 = with_pc_sp(c0, w, add16(sp as int, 2));
        &&& c1 == if p == 0 { c2 } else { Cpu { ime_to_be_enabled: true, ..c2 } }
        &&& only_ticked(m0, m1) && m1.ticks == 16 && ran(m0, m1, Seq::empty().push(Tick(4)))
    } else if p == 2 {
        c1 == with_pc(c0, hl) && only_ticked(m0, m1) && m1.ticks == 4 && ran(m0, m1, Seq::empty().push(Tick(1)))
    } else {
        c1 == adv(Cpu { sp: hl, ..c0 }, 1) && only_ticked(m0, m1) && m1.ticks == 8 && ran(m0, m1, Seq::empty().push(Tick(2)))
    }
}

/// Column 2 of the block 0xC0..=0xFF: JP cc,u16, LD (C),A, LD (u16),A,
/// LD A,(C) and LD A,(u16).
pub open spec fn high_z2(c0: Cpu, m0: Interconnect, c1: Cpu, m1: Interconnect) -> bool {
    let y = (c0.opcode / 8) % 8;
    let a = c0.registers.a;
    let io_c = (0xFF00 + c0.registers.c) as u16;
    let n16 = imm16(c0, m0);
    if y < 4 {
        let taken = cond_holds(c0.registers.f.data, y);
        &&& c1 == with_pc(c0, if taken { n16 } else { add16(c0.pc as int, 3) })
        &&& only_ticked(m0, m1)
        &&& m1.ticks == if taken { 16u64 } else { 12u64 }
        &&& if taken { ran(m0, m1, Seq::empty().push(Tick(4))) } else { ran(m0, m1, Seq::empty().push(Tick(3))) }
    } else if y == 4 {
        c1 == adv(c0, 1) && wrote(m0, m1, io_c, a) && m1.ticks == 8 && ran(m0, m1, Seq::empty().push(Write(io_c, a)).push(Tick(2)))
    } else if y == 5 {
        c1 == adv(c0, 3) && wrote(m0, m1, n16, a) && m1.ticks == 8 && ran(m0, m1, Seq::empty().push(Tick(2)).push(Write(n16, a)).push(Tick(2)))
    } else if y == 6 {
        c1 == adv(with_reg8(c0, 7, m0.read_spec(io_c)), 1) && only_ticked(m0, m1) && m1.ticks == 8
            && ran(m0, m1, Seq::empty().push(Tick(2)))
    } else {
        &&& exists|v: u8| #[trigger] loaded_a_done(c0, m0, c1, n16, 3, v)
        &&& only_ticked(m0, m1) && m1.ticks == 4 && ran(m0, m1, Seq::empty().push(Tick(2)).push(Tick(1)).push(Tick(1)))
    }
}

/// Column 3 of the block 0xC0..=0xFF: JP u16, the CB prefix, DI and EI; the
/// other opcodes of the column are not instructions and change nothing.
pub open spec fn high_z3(c0: Cpu, m0: Interconnect, c1: Cpu, m1: Interconnect) -> bool {
    let y = (c0.opcode / 8) % 8;
    if y == 0 {
        c1 == with_pc(c0, imm16(c0, m0)) && only_ticked(m0, m1) && m1.ticks == 16 && ran(m0, m1, Seq::empty().push(Tick(4)))
    } else if y == 1 {
        cb_step(c0, m0, c1, m1, imm8(c0, m0))
    } else if y == 6 {
        c1 == adv(Cpu { ime: false, ..c0 }, 1) && only_ticked(m0, m1) && m1.ticks == 4 && ran(m0, m1, Seq::empty().push(Tick(1)))
    } else if y == 7 {
        c1 == adv(Cpu { ime_to_be_enabled: true, ..c0 }, 1) && only_ticked(m0, m1) && m1.ticks == 4
            && ran(m0, m1, Seq::empty().push(Tick(1)))
    } else {
        c1 == c0 && m1 == m0
    }
}

/// The steps of pushing `hi:lo` below `sp` and then letting `m` machine
/// cycles pass: the low byte goes to SP - 2, then the high byte to SP - 1.
pub open spec fn push_run(m0: Interconnect, m1: Interconnect, sp: u16, hi: u8, lo: u8, m: u32) -> bool {
    let s = sub16(sp as int, 2);
    ran(m0, m1, Seq::empty().push(Write(s, lo)).push(Write(add16(s as int, 1), hi)).push(Tick(m)))
}

/// Calls `n16` from the instruction of `len` bytes at PC.
pub open spec fn called(c0: Cpu, m0: Interconnect, c1: Cpu, m1: Interconnect, target: u16, len: int) -> bool {
    let ret = add16(c0.pc as int, len);
    &&& c1 == with_pc_sp(c0, target, sub16(c0.sp as int, 2))
    &&& pushed(m0, m1, c0.sp, (ret / 256) as u8, (ret % 256) as u8)
}

/// Columns 4 and 5 of the block 0xC0..=0xFF: CALL cc,u16, PUSH rr and
/// CALL u16; the other opcodes of the columns are not instructions.
pub open spec fn high_z45(c0: Cpu, m0: Interconnect, c1: Cpu, m1: Interconnect) -> bool {
    let y = (c0.opcode / 8) % 8;
    let z = c0.opcode % 8;
    let p = y / 2;
    let a = c0.registers.a;
    let f = c0.registers.f.data;
    let n16 = imm16(c0, m0);
    if z == 5 && y % 2 == 0 {
        let w = if p == 3 { (a * 256 + f) as u16 } else { pair16(c0, p) };
        &&& c1 == adv(Cpu { sp: sub16(c0.sp as int, 2), ..c0 }, 1)
        &&& pushed(m0, m1, c0.sp, (w / 256) as u8, (w % 256) as u8) && m1.ticks == 16
        &&& push_run(m0, m1, c0.sp, (w / 256) as u8, (w % 256) as u8, 4)
    } else if z == 5 && y == 1 {
        let ret = add16(c0.pc as int, 3);
        called(c0, m0, c1, m1, n16, 3) && m1.ticks == 24
            && push_run(m0, m1, c0.sp, (ret / 256) as u8, (ret % 256) as u8, 6)
    } else if z == 4 && y < 4 {
        let ret = add16(c0.pc as int, 3);
        if cond_holds(f, y) {
            called(c0, m0, c1, m1, n16, 3) && m1.ticks == 24
                && push_run(m0, m1, c0.sp, (ret / 256) as u8, (ret % 256) as u8, 6)
        } else {
            c1 == adv(c0, 3) && only_ticked(m0, m1) && m1.ticks == 12 && ran(m0, m1, Seq::empty().push(Tick(3)))
        }
    } else {
        c1 == c0 && m1 == m0
    }
}

/// Column 6 of the block 0xC0..=0xFF: ALU operations with an immediate byte.
pub open spec fn high_z6(c0: Cpu, m0: Interconnect, c1: Cpu, m1: Interconnect) -> bool {
    let y = (c0.opcode / 8) % 8;
    let a = c0.registers.a;
    let f = c0.registers.f.data;
    let n8 = imm8(c0, m0);
    c1 == adv(with_af(c0, alu_a(y, a, f, n8), alu_f(y, a, f, n8)), 2) && only_ticked(m0, m1) && m1.ticks == 8
        && ran(m0, m1, Seq::empty().push(Tick(2)))
}

/// Column 7 of the block 0xC0..=0xFF: RST.
pub open spec fn high_z7(c0: Cpu, m0: Interconnect, c1: Cpu, m1: Interconnect) -> bool {
    let y = (c0.opcode / 8) % 8;
    let ret = add16(c0.pc as int, 1);
    called(c0, m0, c1, m1, (y * 8) as u16, 1) && m1.ticks == 16
        && push_run(m0, m1, c0.sp, (ret / 256) as u8, (ret % 256) as u8, 4)
}

/// One instruction of the block 0xC0..=0xFF.
pub open spec fn high_step(c0: Cpu, m0: Interconnect, c1: Cpu, m1: Interconnect) -> bool {
    let z = c0.opcode % 8;
    if z == 0 {
        high_z0(c0, m0, c1, m1)
    } else if z == 1 {
        high_z1(c0, m0, c1, m1)
    } else if z == 2 {
        high_z2(c0, m0, c1, m1)
    } else if z == 3 {
        high_z3(c0, m0, c1, m1)
    } else if z == 4 || z == 5 {
        high_z45(c0, m0, c1, m1)
    } else if z == 6 {
        high_z6(c0, m0, c1, m1)
    } else {
        high_z7(c0, m0, c1, m1)
    }
}

/// One instruction: the CPU `c0`, whose opcode was fetched from the bus `m0`,
/// executes it; `c1` and `m1` are the CPU and bus afterwards.
#[verifier::opaque]
pub open spec fn step(c0: Cpu, m0: Interconnect, c1: Cpu, m1: Interconnect) -> bool {
    let x = c0.opcode / 64;
    &&& m1.wf()
    &&& if x == 0 {
        low_step(c0, m0, c1, m1)
    } else if x == 1 {
        ld_step(c0, m0, c1, m1)
    } else if x == 2 {
        alu_step(c0, m0, c1, m1)
    } else {
        high_step(c0, m0, c1, m1)
    }
}

/************************************************************************
 * Interrupts
 ************************************************************************/

/// The address of the routine that serves an interrupt.
pub open spec fn handler_of(i: InterruptType) -> u16 {
    match i {
        InterruptType::VBlank => 0x40,
        InterruptType::LcdStat => 0x48,
        InterruptType::Timer => 0x50,
        InterruptType::Serial => 0x58,
        InterruptType::Joypad => 0x60,
    }
}

/// Interrupt handling before an instruction. With IME clear and the CPU not
/// halted nothing happens; a pending interrupt wakes a halted CPU; with IME
/// set it is served: IME clears, PC is pushed (low byte at SP - 2, then high
/// byte at SP - 1), the interrupt's bit of IF is cleared (IF as the pushes left
/// it), PC jumps to the handler, and four machine cycles pass.
pub open spec fn serviced(c0: Cpu, m0: Interconnect, c1: Cpu, m1: Interconnect) -> bool {
    let fp = first_pending(m0);
    if (c0.ime || c0.halted) && fp is Some {
        if !c0.ime {
            c1 == Cpu { halted: false, ..c0 } && m1 == m0
        } else {
            let i = fp->0;
            let s = sub16(c0.sp as int, 2);
            &&& c1 == Cpu {
                halted: false,
                ime: false,
                ime_to_be_enabled: false,
                pc: handler_of(i),
                sp: sub16(c0.sp as int, 2),
                ..c0
            }
            &&& m1.wf()
            &&& pushed(m0, m1, c0.sp, (c0.pc / 256) as u8, (c0.pc % 256) as u8)
            &&& m1.ticks == 16
            &&& exists|mp: Interconnect| #[trigger] ran(m0, mp,
                Seq::empty().push(Write(s, (c0.pc % 256) as u8)).push(Write(add16(s as int, 1), (c0.pc / 256) as u8)))
                && ran(mp, m1, Seq::empty().push(Write(0xFF0F, mp.read_spec(0xFF0F) & !(1u8 << interrupt_bit(i))))
                    .push(Tick(4)))
        }
    } else {
        c1 == c0 && m1 == m0
    }
}

/// The CPU once a pending EI has taken effect.
pub open spec fn ei_applied(c: Cpu) -> Cpu {
    if c.ime_to_be_enabled { Cpu { ime: true, ime_to_be_enabled: false, ..c } } else { c }
}

/// The CPU with the opcode at PC fetched and the cycles of the last tick noted.
pub open spec fn fetched(c: Cpu, m: Interconnect) -> Cpu {
    Cpu { opcode: m.read_spec(c.pc), last_cycle: m.ticks, ..c }
}

/// Interrupt handling (from `c0`, `m0`, with a pending EI applied) leads to
/// `c_mid`, `m_mid`, and the instruction fetched there leads to `c1`, `m1`.
pub open spec fn instruction_done(c0: Cpu, m0: Interconnect, c_mid: Cpu, m_mid: Interconnect, c1: Cpu, m1: Interconnect) -> bool {
    serviced(ei_applied(c0), m0, c_mid, m_mid) && step(fetched(c_mid, m_mid), m_mid, c1, m1)
}

} // verus!
