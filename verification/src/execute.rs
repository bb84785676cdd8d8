use vstd::prelude::*;
use crate::bits::{group_bits, lemma_flip_bit, lemma_opcode_fields, lemma_u16_low_bits};
use crate::cpu::{Cpu, RegisterPair};
use crate::flags::{Flags, b2u, cf, group_flags, lemma_flag_bit_ops};
use crate::instructions::{
    adc_a_r, add16, add8, add_a_r, add_rr_hl, and_a_r, bit_n_hl, bit_n_r, call, call_c, call_nc,
    call_nz, call_z, cp_a_r, daa, dec_16bit, dec_8bit, dec_mem, di, ei, inc_16bit, inc_8bit,
    inc_mem, jp, jp_c, jp_nc, jp_nz, jp_z, jr, jr_c, jr_nc, jr_nz, jr_z, ld_8bit, ld_a_from_io,
    ld_a_from_io_c, ld_io_c_from_a, ld_io_from_a, only_ticked, or_a_r, pop_rr, push_rr, pushed,
    res_n_hl, res_n_r, ret, ret_c, ret_nc, ret_nz, ret_z, rl, rl_hl, rla, rlc, rlc_hl, rlca, rr,
    rr_hl, rra, rrc, rrc_hl, rrca, rst, sbc_a_r, set_n_hl, set_n_r, signed8, sla, sla_hl, sra,
    sra_hl, srl, srl_hl, sub16, sub_a_r, swap, swap_hl, wrote, xor_a_r,
};
use crate::constants::{INTERRUPT_FLAG, MAX_CYCLES_PER_FRAME, SERIAL_TRANSFER_CONTROL, SERIAL_TRASFER_DATA};
use crate::interconnect::{
    BusEvent, Interconnect, get_interrupt, kept_by_tick, lemma_ran_nil, ran, then3, ticked_by,
};
use crate::interrupts::{InterruptType, handler_address, interrupt_index};
use crate::step::{
    adv, alu_a, alu_f, alu_step, bit_f, cb_mem_done, cb_step, high_step, imm16, imm8, ld_step,
    loaded_a_done, low_z0, low_z1, low_z2, low_z3, low_z45, low_z6, low_z7, high_z0, high_z1,
    high_z2, high_z3, high_z45, high_z6, high_z7, low_step, pair16, reg8, rot_f, rot_value,
    sp_add_f, step, with_af, with_f, with_reg8, serviced, instruction_done,
};

verus! {

broadcast use {group_bits, group_flags, lemma_ran_nil};

/// A write followed by time passing is that write.
pub proof fn lemma_wrote_ticked(m0: Interconnect, m1: Interconnect, m2: Interconnect, addr: u16, v: u8)
    requires
        wrote(m0, m1, addr, v),
        only_ticked(m1, m2),
    ensures
        wrote(m0, m2, addr, v),
{
}

/// Time passing followed by a write is that write.
pub proof fn lemma_ticked_wrote(m0: Interconnect, m1: Interconnect, m2: Interconnect, addr: u16, v: u8)
    requires
        only_ticked(m0, m1),
        wrote(m1, m2, addr, v),
    ensures
        wrote(m0, m2, addr, v),
{
}

/// A push followed by time passing is that push.
pub proof fn lemma_pushed_ticked(m0: Interconnect, m1: Interconnect, m2: Interconnect, sp: u16, hi: u8, lo: u8)
    requires
        pushed(m0, m1, sp, hi, lo),
        only_ticked(m1, m2),
    ensures
        pushed(m0, m2, sp, hi, lo),
{
}

/// Applies rotate or shift `y` to `v`.
fn cb_rotate(f: &mut Flags, v: &mut u8, y: u8)
    requires
        y < 8,
    ensures
        *final(v) == rot_value(y, *old(v), old(f).data),
        final(f).data == rot_f(y, *old(v), old(f).data),
{
    if y == 0 {
        rlc(f, v);
    } else if y == 1 {
        rrc(f, v);
    } else if y == 2 {
        rl(f, v);
    } else if y == 3 {
        rr(f, v);
    } else if y == 4 {
        sla(f, v);
    } else if y == 5 {
        sra(f, v);
    } else if y == 6 {
        swap(f, v);
    } else {
        srl(f, v);
    }
}

/// Applies rotate or shift `y` to memory at `addr`.
fn cb_rotate_mem(f: &mut Flags, interconnect: &mut Interconnect, addr: u16, y: u8)
    requires
        old(interconnect).wf(),
        y < 8,
    ensures
        final(interconnect).wf(),
        wrote(*old(interconnect), *final(interconnect), addr,
            rot_value(y, old(interconnect).read_spec(addr), old(f).data)),
        then3(*old(interconnect), *final(interconnect), BusEvent::Tick(1),
            BusEvent::Write(addr, rot_value(y, old(interconnect).read_spec(addr), old(f).data)), BusEvent::Tick(1)),
        final(f).data == rot_f(y, old(interconnect).read_spec(addr), old(f).data),
{
    if y == 0 {
        rlc_hl(f, interconnect, addr);
    } else if y == 1 {
        rrc_hl(f, interconnect, addr);
    } else if y == 2 {
        rl_hl(f, interconnect, addr);
    } else if y == 3 {
        rr_hl(f, interconnect, addr);
    } else if y == 4 {
        sla_hl(f, interconnect, addr);
    } else if y == 5 {
        sra_hl(f, interconnect, addr);
    } else if y == 6 {
        swap_hl(f, interconnect, addr);
    } else {
        srl_hl(f, interconnect, addr);
    }
}

impl Cpu {
    /// Reads the opcode at PC.
    pub fn fetch_opcode(&mut self, interconnect: &Interconnect)
        requires
            interconnect.wf(),
        ensures
            *final(self) == (Cpu { opcode: interconnect.read_spec(old(self).pc), ..*old(self) }),
    {
        self.opcode = interconnect.read_mem(self.pc);
    }

    /// The little-endian word after the opcode.
    pub fn get_u16(&mut self, interconnect: &Interconnect) -> (r: u16)
        requires
            interconnect.wf(),
        ensures
            r == imm16(*old(self), *interconnect),
            *final(self) == *old(self),
    {
        let hi: u8 = interconnect.read_mem(self.pc.wrapping_add(2));
        let lo: u8 = interconnect.read_mem(self.pc.wrapping_add(1));
        ((hi as u16) << 8) | (lo as u16)
    }

    /// The eight-bit register numbered `r` (B C D E H L - A).
    pub(crate) fn read_reg(&self, r: u8) -> (v: u8)
        requires
            r < 8,
            r != 6,
        ensures
            v == reg8(*self, r),
    {
        if r == 0 {
            self.registers.b
        } else if r == 1 {
            self.registers.c
        } else if r == 2 {
            self.registers.d
        } else if r == 3 {
            self.registers.e
        } else if r == 4 {
            self.registers.h
        } else if r == 5 {
            self.registers.l
        } else {
            self.registers.a
        }
    }

    /// Stores `v` in the eight-bit register numbered `r`.
    pub(crate) fn write_reg(&mut self, r: u8, v: u8)
        requires
            r < 8,
            r != 6,
        ensures
            *final(self) == with_reg8(*old(self), r, v),
    {
        if r == 0 {
            self.registers.b = v;
        } else if r == 1 {
            self.registers.c = v;
        } else if r == 2 {
            self.registers.d = v;
        } else if r == 3 {
            self.registers.e = v;
        } else if r == 4 {
            self.registers.h = v;
        } else if r == 5 {
            self.registers.l = v;
        } else {
            self.registers.a = v;
        }
    }

    /// SP plus the signed byte `n`; the flags are set from the low nibble and
    /// low byte of the sum (zero and subtract cleared).
    fn sp_plus_offset(&mut self, n: u8) -> (r: u16)
        ensures
            r == add16(old(self).sp as int, signed8(n)),
            *final(self) == with_f(*old(self), sp_add_f(old(self).sp, r, old(self).registers.f.data)),
    {
        let offset: u16 = if n < 128 { n as u16 } else { 0xFF00u16 | (n as u16) };
        proof {
            if n >= 128 {
                assert(0xFF00u16 | (n as u16) == 0xFF00 + n) by (bit_vector)
                    requires n >= 128u8;
            }
        }
        let result: u16 = self.sp.wrapping_add(offset);
        proof {
            lemma_u16_low_bits(result);
            lemma_u16_low_bits(self.sp);
        }
        let half_carry: bool = (result & 0x0F) < (self.sp & 0x0F);
        let carry: bool = (result & 0xFF) < (self.sp & 0xFF);
        self.registers.f.clear_sub_flag();
        self.registers.f.clear_zero_flag();
        if half_carry {
            self.registers.f.set_half_carry_flag();
        } else {
            self.registers.f.clear_half_carry_flag();
        }
        if carry {
            self.registers.f.set_carry_flag();
        } else {
            self.registers.f.clear_carry_flag();
        }
        result
    }

    /// A CB-prefixed instruction: the byte after the prefix is decoded into
    /// an operation `x` (rotate/shift, BIT, RES, SET), a selector `y` (the
    /// rotate or the bit) and an operand `z` (a register or memory at HL).
    fn execute_cb(&mut self, interconnect: &mut Interconnect)
        requires
            old(interconnect).wf(),
        ensures
            final(interconnect).wf(),
            cb_step(*old(self), *old(interconnect), *final(self), *final(interconnect),
                imm8(*old(self), *old(interconnect))),
    {
        let ghost m0 = *interconnect;
        let addr: u16 = self.pc.wrapping_add(1);
        let op: u8 = interconnect.read_mem(addr);
        interconnect.emu_tick(1);
        let ghost m1 = *interconnect;
        let x: u8 = op >> 6;
        let y: u8 = (op >> 3) & 7;
        let z: u8 = op & 7;
        proof {
            lemma_opcode_fields(op);
        }
        if z == 6 {
            let hl: u16 = self.registers.hl();
            let ghost v = m1.read_spec(hl);
            if x == 0 {
                cb_rotate_mem(&mut self.registers.f, interconnect, hl, y);
            } else if x == 1 {
                bit_n_hl(&mut self.registers.f, interconnect, hl, y);
            } else if x == 2 {
                res_n_hl(interconnect, hl, y);
            } else {
                set_n_hl(interconnect, hl, y);
            }
            self.pc = self.pc.wrapping_add(2);
            let ghost m2 = *interconnect;
            if x == 1 {
                interconnect.emu_tick(2);
            } else {
                interconnect.emu_tick(1);
            }
            proof {
                if x != 1 {
                    lemma_ticked_wrote(m0, m1, m2, hl, if x == 0 { rot_value(y, v, old(self).registers.f.data) }
                        else if x == 2 { v & !(1u8 << y) } else { v | (1u8 << y) });
                    lemma_wrote_ticked(m0, m2, *interconnect, hl, if x == 0 { rot_value(y, v, old(self).registers.f.data) }
                        else if x == 2 { v & !(1u8 << y) } else { v | (1u8 << y) });
                }
                assert(cb_mem_done(*old(self), m0, *self, *interconnect, op, v));
            }
        } else {
            let mut v: u8 = self.read_reg(z);
            if x == 0 {
                cb_rotate(&mut self.registers.f, &mut v, y);
                self.write_reg(z, v);
            } else if x == 1 {
                bit_n_r(&mut self.registers.f, &mut v, y);
            } else if x == 2 {
                res_n_r(&mut v, y);
                self.write_reg(z, v);
            } else {
                set_n_r(&mut v, y);
                self.write_reg(z, v);
            }
            self.pc = self.pc.wrapping_add(2);
            interconnect.emu_tick(1);
        }
    }

    /// ALU operation `y` (ADD ADC SUB SBC AND XOR OR CP) on A with operand `v`.
    fn alu_op(&mut self, y: u8, v: u8)
        requires
            y < 8,
        ensures
            *final(self) == with_af(*old(self), alu_a(y, old(self).registers.a, old(self).registers.f.data, v),
                alu_f(y, old(self).registers.a, old(self).registers.f.data, v)),
    {
        if y == 0 {
            add_a_r(self, v);
        } else if y == 1 {
            adc_a_r(self, v);
        } else if y == 2 {
            sub_a_r(self, v);
        } else if y == 3 {
            sbc_a_r(self, v);
        } else if y == 4 {
            and_a_r(self, v);
        } else if y == 5 {
            xor_a_r(self, v);
        } else if y == 6 {
            or_a_r(self, v);
        } else {
            cp_a_r(self, v);
        }
    }

    /// 0x40..=0x7F: `LD r, r'` between registers and memory at HL, and HALT.
    fn execute_ld(&mut self, interconnect: &mut Interconnect)
        requires
            old(interconnect).wf(),
            0x40 <= old(self).opcode < 0x80,
        ensures
            final(interconnect).wf(),
            ld_step(*old(self), *old(interconnect), *final(self), *final(interconnect)),
    {
        let op: u8 = self.opcode;
        let y: u8 = (op >> 3) & 7;
        let z: u8 = op & 7;
        proof {
            lemma_opcode_fields(op);
        }
        if y == 6 && z == 6 {
            self.halted = true;
            self.pc = self.pc.wrapping_add(1);
            interconnect.emu_tick(1);
        } else if y == 6 {
            let v: u8 = self.read_reg(z);
            let addr: u16 = self.registers.hl();
            interconnect.write_mem(addr, v);
            self.pc = self.pc.wrapping_add(1);
            let ghost m1 = *interconnect;
            interconnect.emu_tick(2);
            proof { lemma_wrote_ticked(*old(interconnect), m1, *interconnect, addr, v); }
        } else if z == 6 {
            let addr: u16 = self.registers.hl();
            let v: u8 = interconnect.read_mem(addr);
            self.write_reg(y, v);
            self.pc = self.pc.wrapping_add(1);
            interconnect.emu_tick(2);
        } else {
            if y != z {
                let v: u8 = self.read_reg(z);
                self.write_reg(y, v);
            }
            self.pc = self.pc.wrapping_add(1);
            interconnect.emu_tick(1);
        }
    }

    /// 0x80..=0xBF: ALU operation on A with a register or memory at HL.
    fn execute_alu(&mut self, interconnect: &mut Interconnect)
        requires
            old(interconnect).wf(),
            0x80 <= old(self).opcode < 0xC0,
        ensures
            final(interconnect).wf(),
            alu_step(*old(self), *old(interconnect), *final(self), *final(interconnect)),
    {
        let op: u8 = self.opcode;
        let y: u8 = (op >> 3) & 7;
        let z: u8 = op & 7;
        proof {
            lemma_opcode_fields(op);
        }
        if z == 6 {
            let addr: u16 = self.registers.hl();
            let v: u8 = interconnect.read_mem(addr);
            self.alu_op(y, v);
            self.pc = self.pc.wrapping_add(1);
            interconnect.emu_tick(2);
        } else {
            let v: u8 = self.read_reg(z);
            self.alu_op(y, v);
            self.pc = self.pc.wrapping_add(1);
            interconnect.emu_tick(1);
        }
    }

    /// NOP, LD (u16),SP, STOP, JR and JR cc.
    #[verifier::rlimit(100)]
    #[verifier::spinoff_prover]
    fn execute_low_z0(&mut self, interconnect: &mut Interconnect)
        requires
            old(interconnect).wf(),
            0x00 <= old(self).opcode <= 0x3F,
            old(self).opcode % 8 == 0,
        ensures
            final(interconnect).wf(),
            low_z0(*old(self), *old(interconnect), *final(self), *final(interconnect)),
    {
        match self.opcode {
            0x00 => {
                self.pc = self.pc.wrapping_add(1);
                interconnect.emu_tick(1);
            }
            0x08 => {
                let addr: u16 = self.get_u16(interconnect);
                let lower_sp: u8 = (self.sp & 0x00FF) as u8;
                let upper_sp: u8 = (self.sp >> 8u16) as u8;
                interconnect.write_mem(addr, lower_sp);
                interconnect.write_mem(addr.wrapping_add(1), upper_sp);
                let ghost m2 = *interconnect;
                self.pc = self.pc.wrapping_add(3);
                interconnect.emu_tick(5);
                proof {
                    let top = add16(addr as int, 2);
                    assert(sub16(top as int, 2) == addr);
                    assert(pushed(*old(interconnect), m2, top, upper_sp, lower_sp));
                    lemma_pushed_ticked(*old(interconnect), m2, *interconnect, top, upper_sp, lower_sp);
                }
            }
            0x10 => {
                self.pc = self.pc.wrapping_add(1);
                interconnect.emu_tick(1);
            }
            0x18 => {
                let value: u8 = interconnect.read_mem(self.pc.wrapping_add(1));
                jr(self, value);
                interconnect.emu_tick(3);
            }
            0x20 => {
                let value: u8 = interconnect.read_mem(self.pc.wrapping_add(1));
                jr_nz(self, interconnect, value);
            }
            0x28 => {
                let value: u8 = interconnect.read_mem(self.pc.wrapping_add(1));
                jr_z(self, interconnect, value);
            }
            0x30 => {
                let value: u8 = interconnect.read_mem(self.pc.wrapping_add(1));
                jr_nc(self, interconnect, value);
            }
            0x38 => {
                let value: u8 = interconnect.read_mem(self.pc.wrapping_add(1));
                jr_c(self, interconnect, value);
            }
            _ => {}
        }
    }

    /// LD rr,u16 and ADD HL,rr.
    #[verifier::rlimit(100)]
    #[verifier::spinoff_prover]
    fn execute_low_z1(&mut self, interconnect: &mut Interconnect)
        requires
            old(interconnect).wf(),
            0x00 <= old(self).opcode <= 0x3F,
            old(self).opcode % 8 == 1,
        ensures
            final(interconnect).wf(),
            low_z1(*old(self), *old(interconnect), *final(self), *final(interconnect)),
    {
        match self.opcode {
            0x01 => {
                let data: u16 = self.get_u16(interconnect);
                self.registers.set_bc(data);
                self.pc = self.pc.wrapping_add(3);
                interconnect.emu_tick(3);
            }
            0x09 => {
                add_rr_hl(self, RegisterPair::BC);
                self.pc = self.pc.wrapping_add(1);
                interconnect.emu_tick(2);
            }
            0x11 => {
                let value: u16 = self.get_u16(interconnect);
                self.registers.set_de(value);
                self.pc = self.pc.wrapping_add(3);
                interconnect.emu_tick(3);
            }
            0x19 => {
                add_rr_hl(self, RegisterPair::DE);
                self.pc = self.pc.wrapping_add(1);
                interconnect.emu_tick(2);
            }
            0x21 => {
                let value: u16 = self.get_u16(interconnect);
                self.registers.set_hl(value);
                self.pc = self.pc.wrapping_add(3);
                interconnect.emu_tick(3);
            }
            0x29 => {
                add_rr_hl(self, RegisterPair::HL);
                self.pc = self.pc.wrapping_add(1);
                interconnect.emu_tick(2);
            }
            0x31 => {
                let value: u16 = self.get_u16(interconnect);
                self.sp = value;
                self.pc = self.pc.wrapping_add(3);
                interconnect.emu_tick(3);
            }
            0x39 => {
                add_rr_hl(self, RegisterPair::SP);
                self.pc = self.pc.wrapping_add(1);
                interconnect.emu_tick(2);
            }
            _ => {}
        }
    }

    /// Loads between A and memory at BC, DE, HL+ and HL-.
    #[verifier::rlimit(100)]
    #[verifier::spinoff_prover]
    fn execute_low_z2(&mut self, interconnect: &mut Interconnect)
        requires
            old(interconnect).wf(),
            0x00 <= old(self).opcode <= 0x3F,
            old(self).opcode % 8 == 2,
        ensures
            final(interconnect).wf(),
            low_z2(*old(self), *old(interconnect), *final(self), *final(interconnect)),
    {
        match self.opcode {
            0x02 => {
                let addr: u16 = self.registers.bc();
                interconnect.write_mem(addr, self.registers.a);
                self.pc = self.pc.wrapping_add(1);
                interconnect.emu_tick(2);
            }
            0x0A => {
                let addr: u16 = self.registers.bc();
                self.registers.a = interconnect.read_mem(addr);
                self.pc = self.pc.wrapping_add(1);
                interconnect.emu_tick(2);
            }
            0x12 => {
                let addr: u16 = self.registers.de();
                interconnect.write_mem(addr, self.registers.a);
                self.pc = self.pc.wrapping_add(1);
                interconnect.emu_tick(2);
            }
            0x1A => {
                let addr: u16 = self.registers.de();
                self.registers.a = interconnect.read_mem(addr);
                self.pc = self.pc.wrapping_add(1);
                interconnect.emu_tick(2);
            }
            0x22 => {
                let addr: u16 = self.registers.hl();
                interconnect.write_mem(addr, self.registers.a);
                let v: u16 = self.registers.hl().wrapping_add(1);
                self.registers.set_hl(v);
                self.pc = self.pc.wrapping_add(1);
                interconnect.emu_tick(2);
            }
            0x2A => {
                let addr: u16 = self.registers.hl();
                self.registers.a = interconnect.read_mem(addr);
                let v: u16 = self.registers.hl().wrapping_add(1);
                self.registers.set_hl(v);
                self.pc = self.pc.wrapping_add(1);
                interconnect.emu_tick(2);
            }
            0x32 => {
                let addr: u16 = self.registers.hl();
                interconnect.write_mem(addr, self.registers.a);
                let v: u16 = self.registers.hl().wrapping_sub(1);
                self.registers.set_hl(v);
                self.pc = self.pc.wrapping_add(1);
                interconnect.emu_tick(2);
            }
            0x3A => {
                let addr: u16 = self.registers.hl();
                let value: u8 = interconnect.read_mem(addr);
                self.registers.a = value;
                let v: u16 = self.registers.hl().wrapping_sub(1);
                self.registers.set_hl(v);
                self.pc = self.pc.wrapping_add(1);
                interconnect.emu_tick(2);
            }
            _ => {}
        }
    }

    /// INC rr and DEC rr.
    #[verifier::rlimit(100)]
    #[verifier::spinoff_prover]
    fn execute_low_z3(&mut self, interconnect: &mut Interconnect)
        requires
            old(interconnect).wf(),
            0x00 <= old(self).opcode <= 0x3F,
            old(self).opcode % 8 == 3,
        ensures
            final(interconnect).wf(),
            low_z3(*old(self), *old(interconnect), *final(self), *final(interconnect)),
    {
        match self.opcode {
            0x03 => {
                let v: u16 = self.registers.bc().wrapping_add(1);
                self.registers.set_bc(v);
                self.pc = self.pc.wrapping_add(1);
                interconnect.emu_tick(2);
            }
            0x0B => {
                let v: u16 = self.registers.bc().wrapping_sub(1);
                self.registers.set_bc(v);
                self.pc = self.pc.wrapping_add(1);
                interconnect.emu_tick(2);
            }
            0x13 => {
                let v: u16 = self.registers.de().wrapping_add(1);
                self.registers.set_de(v);
                self.pc = self.pc.wrapping_add(1);
                interconnect.emu_tick(2);
            }
            0x1B => {
                dec_16bit(self, RegisterPair::DE);
                self.pc = self.pc.wrapping_add(1);
                interconnect.emu_tick(2);
            }
            0x23 => {
                inc_16bit(self, RegisterPair::HL);
                self.pc = self.pc.wrapping_add(1);
                interconnect.emu_tick(2);
            }
            0x2B => {
                dec_16bit(self, RegisterPair::HL);
                self.pc = self.pc.wrapping_add(1);
                interconnect.emu_tick(2);
            }
            0x33 => {
                inc_16bit(self, RegisterPair::SP);
                self.pc = self.pc.wrapping_add(1);
                interconnect.emu_tick(2);
            }
            0x3B => {
                dec_16bit(self, RegisterPair::SP);
                self.pc = self.pc.wrapping_add(1);
                interconnect.emu_tick(2);
            }
            _ => {}
        }
    }

    /// INC r and INC (HL).
    #[verifier::spinoff_prover]
    fn execute_low_z4(&mut self, interconnect: &mut Interconnect)
        requires
            old(interconnect).wf(),
            0x00 <= old(self).opcode <= 0x3F,
            old(self).opcode % 8 == 4,
        ensures
            final(interconnect).wf(),
            low_z45(*old(self), *old(interconnect), *final(self), *final(interconnect)),
    {
        match self.opcode {
            0x04 => {
                inc_8bit(&mut self.registers.f, &mut self.registers.b);
                self.pc = self.pc.wrapping_add(1);
                interconnect.emu_tick(1);
            }
            0x0C => {
                inc_8bit(&mut self.registers.f, &mut self.registers.c);
                self.pc = self.pc.wrapping_add(1);
                interconnect.emu_tick(1);
            }
            0x14 => {
                inc_8bit(&mut self.registers.f, &mut self.registers.d);
                self.pc = self.pc.wrapping_add(1);
                interconnect.emu_tick(1);
            }
            0x1C => {
                inc_8bit(&mut self.registers.f, &mut self.registers.e);
                self.pc = self.pc.wrapping_add(1);
                interconnect.emu_tick(1);
            }
            0x24 => {
                inc_8bit(&mut self.registers.f, &mut self.registers.h);
                self.pc = self.pc.wrapping_add(1);
                interconnect.emu_tick(1);
            }
            0x2C => {
                inc_8bit(&mut self.registers.f, &mut self.registers.l);
                self.pc = self.pc.wrapping_add(1);
                interconnect.emu_tick(1);
            }
            0x34 => {
                inc_mem(self, interconnect);
                self.pc = self.pc.wrapping_add(1);
                interconnect.emu_tick(1);
            }
            0x3C => {
                inc_8bit(&mut self.registers.f, &mut self.registers.a);
                self.pc = self.pc.wrapping_add(1);
                interconnect.emu_tick(1);
            }
            _ => {}
        }
    }

    /// DEC r and DEC (HL).
    #[verifier::spinoff_prover]
    fn execute_low_z5(&mut self, interconnect: &mut Interconnect)
        requires
            old(interconnect).wf(),
            0x00 <= old(self).opcode <= 0x3F,
            old(self).opcode % 8 == 5,
        ensures
            final(interconnect).wf(),
            low_z45(*old(self), *old(interconnect), *final(self), *final(interconnect)),
    {
        match self.opcode {
            0x05 => {
                dec_8bit(&mut self.registers.f, &mut self.registers.b);
                self.pc = self.pc.wrapping_add(1);
                interconnect.emu_tick(1);
            }
            0x0D => {
                dec_8bit(&mut self.registers.f, &mut self.registers.c);
                self.pc = self.pc.wrapping_add(1);
                interconnect.emu_tick(1);
            }
            0x15 => {
                dec_8bit(&mut self.registers.f, &mut self.registers.d);
                self.pc = self.pc.wrapping_add(1);
                interconnect.emu_tick(1);
            }
            0x1D => {
                dec_8bit(&mut self.registers.f, &mut self.registers.e);
                self.pc = self.pc.wrapping_add(1);
                interconnect.emu_tick(1);
            }
            0x25 => {
                dec_8bit(&mut self.registers.f, &mut self.registers.h);
                self.pc = self.pc.wrapping_add(1);
                interconnect.emu_tick(1);
            }
            0x2D => {
                dec_8bit(&mut self.registers.f, &mut self.registers.l);
                self.pc = self.pc.wrapping_add(1);
                interconnect.emu_tick(1);
            }
            0x35 => {
                dec_mem(self, interconnect);
                self.pc = self.pc.wrapping_add(1);
                interconnect.emu_tick(1);
            }
            0x3D => {
                dec_8bit(&mut self.registers.f, &mut self.registers.a);
                self.pc = self.pc.wrapping_add(1);
                interconnect.emu_tick(1);
            }
            _ => {}
        }
    }

    /// LD r,u8 and LD (HL),u8.
    #[verifier::spinoff_prover]
    fn execute_low_z6(&mut self, interconnect: &mut Interconnect)
        requires
            old(interconnect).wf(),
            0x00 <= old(self).opcode <= 0x3F,
            old(self).opcode % 8 == 6,
        ensures
            final(interconnect).wf(),
            low_z6(*old(self), *old(interconnect), *final(self), *final(interconnect)),
    {
        match self.opcode {
            0x06 => {
                self.registers.b = interconnect.read_mem(self.pc.wrapping_add(1));
                self.pc = self.pc.wrapping_add(2);
                interconnect.emu_tick(2);
            }
            0x0E => {
                let value: u8 = interconnect.read_mem(self.pc.wrapping_add(1));
                self.registers.c = value;
                self.pc = self.pc.wrapping_add(2);
                interconnect.emu_tick(2);
            }
            0x16 => {
                let value: u8 = interconnect.read_mem(self.pc.wrapping_add(1));
                self.registers.d = value;
                self.pc = self.pc.wrapping_add(2);
                interconnect.emu_tick(2);
            }
            0x1E => {
                let value: u8 = interconnect.read_mem(self.pc.wrapping_add(1));
                self.registers.e = value;
                self.pc = self.pc.wrapping_add(2);
                interconnect.emu_tick(2);
            }
            0x26 => {
                let value: u8 = interconnect.read_mem(self.pc.wrapping_add(1));
                self.registers.h = value;
                self.pc = self.pc.wrapping_add(2);
                interconnect.emu_tick(2);
            }
            0x2E => {
                let value: u8 = interconnect.read_mem(self.pc.wrapping_add(1));
                self.registers.l = value;
                self.pc = self.pc.wrapping_add(2);
                interconnect.emu_tick(2);
            }
            0x36 => {
                let value: u8 = interconnect.read_mem(self.pc.wrapping_add(1));
                interconnect.emu_tick(1);
                let addr: u16 = self.registers.hl();
                interconnect.write_mem(addr, value);
                interconnect.emu_tick(2);
                self.pc = self.pc.wrapping_add(2);
            }
            0x3E => {
                let value: u8 = interconnect.read_mem(self.pc.wrapping_add(1));
                self.registers.a = value;
                self.pc = self.pc.wrapping_add(2);
                interconnect.emu_tick(2);
            }
            _ => {}
        }
    }

    /// RLCA, RRCA, RLA, RRA, DAA, CPL, SCF and CCF.
    #[verifier::spinoff_prover]
    fn execute_low_z7(&mut self, interconnect: &mut Interconnect)
        requires
            old(interconnect).wf(),
            0x00 <= old(self).opcode <= 0x3F,
            old(self).opcode % 8 == 7,
        ensures
            final(interconnect).wf(),
            low_z7(*old(self), *old(interconnect), *final(self), *final(interconnect)),
    {
        match self.opcode {
            0x07 => {
                rlca(self);
                self.pc = self.pc.wrapping_add(1);
                interconnect.emu_tick(1);
            }
            0x0F => {
                rrca(self);
                self.pc = self.pc.wrapping_add(1);
                interconnect.emu_tick(1);
            }
            0x17 => {
                rla(self);
                self.pc = self.pc.wrapping_add(1);
                interconnect.emu_tick(1);
            }
            0x1F => {
                rra(self);
                self.pc = self.pc.wrapping_add(1);
                interconnect.emu_tick(1);
            }
            0x27 => {
                daa(self);
                self.pc = self.pc.wrapping_add(1);
                interconnect.emu_tick(1);
            }
            0x2F => {
                self.registers.a = self.registers.a ^ 0xFF;
                self.registers.f.set_sub_flag();
                self.registers.f.set_half_carry_flag();
                self.pc = self.pc.wrapping_add(1);
                interconnect.emu_tick(1);
            }
            0x37 => {
                self.registers.f.set_carry_flag();
                self.registers.f.clear_sub_flag();
                self.registers.f.clear_half_carry_flag();
                self.pc = self.pc.wrapping_add(1);
                interconnect.emu_tick(1);
            }
            0x3F => {
                let carry: u8 = self.registers.f.carry_flag() ^ 1;
                proof { lemma_flip_bit(b2u(cf(self.registers.f.data))); }
                if carry == 1 {
                    self.registers.f.set_carry_flag();
                } else {
                    self.registers.f.clear_carry_flag();
                }
                self.registers.f.clear_half_carry_flag();
                self.registers.f.clear_sub_flag();
                self.pc = self.pc.wrapping_add(1);
                interconnect.emu_tick(1);
            }
            _ => {}
        }
    }

    /// RET cc, LDH (u8),A, ADD SP,i8, LDH A,(u8) and LD HL,SP+i8.
    #[verifier::spinoff_prover]
    fn execute_high_z0(&mut self, interconnect: &mut Interconnect)
        requires
            old(interconnect).wf(),
            0xC0 <= old(self).opcode <= 0xFF,
            old(self).opcode % 8 == 0,
        ensures
            final(interconnect).wf(),
            high_z0(*old(self), *old(interconnect), *final(self), *final(interconnect)),
    {
        match self.opcode {
            0xC0 => {
                ret_nz(self, interconnect);
            }
            0xC8 => {
                ret_z(self, interconnect);
            }
            0xD0 => {
                ret_nc(self, interconnect);
            }
            0xD8 => {
                ret_c(self, interconnect);
            }
            0xE0 => {
                let value: u8 = interconnect.read_mem(self.pc.wrapping_add(1));
                interconnect.emu_tick(1);
                ld_io_from_a(self, interconnect, value);
                self.pc = self.pc.wrapping_add(2);
                interconnect.emu_tick(2);
            }
            0xE8 => {
                let n: u8 = interconnect.read_mem(self.pc.wrapping_add(1));
                let result: u16 = self.sp_plus_offset(n);
                self.sp = result;
                self.pc = self.pc.wrapping_add(2);
                interconnect.emu_tick(4);
            }
            0xF0 => {
                let value: u8 = interconnect.read_mem(self.pc.wrapping_add(1));
                interconnect.emu_tick(1);
                let ghost m1 = *interconnect;
                ld_a_from_io(self, interconnect, value);
                self.pc = self.pc.wrapping_add(2);
                interconnect.emu_tick(2);
                proof {
                    let addr = (0xFF00 + value) as u16;
                    assert(loaded_a_done(*old(self), *old(interconnect), *self, addr, 2, m1.read_spec(addr)));
                }
            }
            0xF8 => {
                let n: u8 = interconnect.read_mem(self.pc.wrapping_add(1));
                let result: u16 = self.sp_plus_offset(n);
                self.registers.set_hl(result);
                self.pc = self.pc.wrapping_add(2);
                interconnect.emu_tick(3);
            }
            _ => {}
        }
    }

    /// POP rr, RET, RETI, JP HL and LD SP,HL.
    #[verifier::spinoff_prover]
    fn execute_high_z1(&mut self, interconnect: &mut Interconnect)
        requires
            old(interconnect).wf(),
            0xC0 <= old(self).opcode <= 0xFF,
            old(self).opcode % 8 == 1,
        ensures
            final(interconnect).wf(),
            high_z1(*old(self), *old(interconnect), *final(self), *final(interconnect)),
    {
        match self.opcode {
            0xC1 => {
                pop_rr(interconnect, &mut self.registers.b, &mut self.registers.c, &mut self.sp);
                self.pc = self.pc.wrapping_add(1);
                interconnect.emu_tick(3);
            }
            0xC9 => {
                ret(self, interconnect);
                interconnect.emu_tick(4);
            }
            0xD1 => {
                pop_rr(interconnect, &mut self.registers.d, &mut self.registers.e, &mut self.sp);
                self.pc = self.pc.wrapping_add(1);
                interconnect.emu_tick(3);
            }
            0xD9 => {
                ret(self, interconnect);
                ei(self);
                interconnect.emu_tick(4);
            }
            0xE1 => {
                pop_rr(interconnect, &mut self.registers.h, &mut self.registers.l, &mut self.sp);
                self.pc = self.pc.wrapping_add(1);
                interconnect.emu_tick(3);
            }
            0xE9 => {
                let hl: u16 = self.registers.hl();
                jp(self, hl);
                interconnect.emu_tick(1);
            }
            0xF1 => {
                pop_rr(interconnect, &mut self.registers.a, &mut self.registers.f.data, &mut self.sp);
                self.registers.f.data = self.registers.f.data & 0xF0;
                self.pc = self.pc.wrapping_add(1);
                interconnect.emu_tick(3);
            }
            0xF9 => {
                self.sp = self.registers.hl();
                self.pc = self.pc.wrapping_add(1);
                interconnect.emu_tick(2);
            }
            _ => {}
        }
    }

    /// JP cc,u16, LD (C),A, LD (u16),A, LD A,(C) and LD A,(u16).
    #[verifier::spinoff_prover]
    fn execute_high_z2(&mut self, interconnect: &mut Interconnect)
        requires
            old(interconnect).wf(),
            0xC0 <= old(self).opcode <= 0xFF,
            old(self).opcode % 8 == 2,
        ensures
            final(interconnect).wf(),
            high_z2(*old(self), *old(interconnect), *final(self), *final(interconnect)),
    {
        match self.opcode {
            0xC2 => {
                let value: u16 = self.get_u16(interconnect);
                jp_nz(self, interconnect, value);
            }
            0xCA => {
                let value: u16 = self.get_u16(interconnect);
                jp_z(self, interconnect, value);
            }
            0xD2 => {
                let value: u16 = self.get_u16(interconnect);
                jp_nc(self, interconnect, value);
            }
            0xDA => {
                let value: u16 = self.get_u16(interconnect);
                jp_c(self, interconnect, value);
            }
            0xE2 => {
                ld_io_c_from_a(self, interconnect);
                self.pc = self.pc.wrapping_add(1);
                interconnect.emu_tick(2);
            }
            0xEA => {
                let value: u16 = self.get_u16(interconnect);
                interconnect.emu_tick(2);
                interconnect.write_mem(value, self.registers.a);
                interconnect.emu_tick(2);
                self.pc = self.pc.wrapping_add(3);
            }
            0xF2 => {
                ld_a_from_io_c(self, interconnect);
                self.pc = self.pc.wrapping_add(1);
                interconnect.emu_tick(2);
            }
            0xFA => {
                let addr: u16 = self.get_u16(interconnect);
                interconnect.emu_tick(2);
                let value: u8 = interconnect.read_mem(addr);
                interconnect.emu_tick(1);
                ld_8bit(&mut self.registers.a, value);
                self.pc = self.pc.wrapping_add(3);
                interconnect.emu_tick(1);
                proof { assert(loaded_a_done(*old(self), *old(interconnect), *self, addr, 3, value)); }
            }
            _ => {}
        }
    }

    /// JP u16, the CB prefix, DI and EI; the rest are not instructions.
    #[verifier::spinoff_prover]
    fn execute_high_z3(&mut self, interconnect: &mut Interconnect)
        requires
            old(interconnect).wf(),
            0xC0 <= old(self).opcode <= 0xFF,
            old(self).opcode % 8 == 3,
        ensures
            final(interconnect).wf(),
            high_z3(*old(self), *old(interconnect), *final(self), *final(interconnect)),
    {
        match self.opcode {
            0xC3 => {
                let value: u16 = self.get_u16(interconnect);
                jp(self, value);
                interconnect.emu_tick(4);
            }
            0xCB => {
                self.execute_cb(interconnect);
            }
            0xD3 => {}
            0xDB => {}
            0xE3 => {}
            0xEB => {}
            0xF3 => {
                di(self);
                self.pc = self.pc.wrapping_add(1);
                interconnect.emu_tick(1);
            }
            0xFB => {
                ei(self);
                self.pc = self.pc.wrapping_add(1);
                interconnect.emu_tick(1);
            }
            _ => {}
        }
    }

    /// CALL cc,u16; the rest are not instructions.
    #[verifier::spinoff_prover]
    fn execute_high_z4(&mut self, interconnect: &mut Interconnect)
        requires
            old(interconnect).wf(),
            0xC0 <= old(self).opcode <= 0xFF,
            old(self).opcode % 8 == 4,
        ensures
            final(interconnect).wf(),
            high_z45(*old(self), *old(interconnect), *final(self), *final(interconnect)),
    {
        match self.opcode {
            0xC4 => {
                let value: u16 = self.get_u16(interconnect);
                call_nz(self, interconnect, value);
            }
            0xCC => {
                let value: u16 = self.get_u16(interconnect);
                call_z(self, interconnect, value);
            }
            0xD4 => {
                let value: u16 = self.get_u16(interconnect);
                call_nc(self, interconnect, value);
            }
            0xDC => {
                let value: u16 = self.get_u16(interconnect);
                call_c(self, interconnect, value);
            }
            0xE4 => {}
            0xEC => {}
            0xF4 => {}
            0xFC => {}
            _ => {}
        }
    }

    /// PUSH rr and CALL u16; the rest are not instructions.
    #[verifier::spinoff_prover]
    fn execute_high_z5(&mut self, interconnect: &mut Interconnect)
        requires
            old(interconnect).wf(),
            0xC0 <= old(self).opcode <= 0xFF,
            old(self).opcode % 8 == 5,
        ensures
            final(interconnect).wf(),
            high_z45(*old(self), *old(interconnect), *final(self), *final(interconnect)),
    {
        match self.opcode {
            0xC5 => {
                push_rr(interconnect, self.registers.b, self.registers.c, &mut self.sp);
                self.pc = self.pc.wrapping_add(1);
                interconnect.emu_tick(4);
            }
            0xCD => {
                let value: u16 = self.get_u16(interconnect);
                call(self, interconnect, value);
                interconnect.emu_tick(6);
            }
            0xD5 => {
                push_rr(interconnect, self.registers.d, self.registers.e, &mut self.sp);
                self.pc = self.pc.wrapping_add(1);
                interconnect.emu_tick(4);
            }
            0xDD => {}
            0xE5 => {
                push_rr(interconnect, self.registers.h, self.registers.l, &mut self.sp);
                self.pc = self.pc.wrapping_add(1);
                interconnect.emu_tick(4);
            }
            0xED => {}
            0xF5 => {
                push_rr(interconnect, self.registers.a, self.registers.f.data, &mut self.sp);
                self.pc = self.pc.wrapping_add(1);
                interconnect.emu_tick(4);
            }
            0xFD => {}
            _ => {}
        }
    }

    /// ALU operations with an immediate byte.
    #[verifier::spinoff_prover]
    fn execute_high_z6(&mut self, interconnect: &mut Interconnect)
        requires
            old(interconnect).wf(),
            0xC0 <= old(self).opcode <= 0xFF,
            old(self).opcode % 8 == 6,
        ensures
            final(interconnect).wf(),
            high_z6(*old(self), *old(interconnect), *final(self), *final(interconnect)),
    {
        let op: u8 = self.opcode;
        let y: u8 = (op >> 3) & 7;
        proof { lemma_opcode_fields(op); }
        let value: u8 = interconnect.read_mem(self.pc.wrapping_add(1));
        self.alu_op(y, value);
        self.pc = self.pc.wrapping_add(2);
        interconnect.emu_tick(2);
    }

    /// RST.
    #[verifier::spinoff_prover]
    fn execute_high_z7(&mut self, interconnect: &mut Interconnect)
        requires
            old(interconnect).wf(),
            0xC0 <= old(self).opcode <= 0xFF,
            old(self).opcode % 8 == 7,
        ensures
            final(interconnect).wf(),
            high_z7(*old(self), *old(interconnect), *final(self), *final(interconnect)),
    {
        match self.opcode {
            0xC7 => {
                rst(self, interconnect, 0x00);
                interconnect.emu_tick(4);
            }
            0xCF => {
                rst(self, interconnect, 0x08);
                interconnect.emu_tick(4);
            }
            0xD7 => {
                rst(self, interconnect, 0x10);
                interconnect.emu_tick(4);
            }
            0xDF => {
                rst(self, interconnect, 0x18);
                interconnect.emu_tick(4);
            }
            0xE7 => {
                rst(self, interconnect, 0x20);
                interconnect.emu_tick(4);
            }
            0xEF => {
                rst(self, interconnect, 0x28);
                interconnect.emu_tick(4);
            }
            0xF7 => {
                rst(self, interconnect, 0x30);
                interconnect.emu_tick(4);
            }
            0xFF => {
                rst(self, interconnect, 0x38);
                interconnect.emu_tick(4);
            }
            _ => {}
        }
    }

    /// Executes the opcode fetched into `self.opcode`.
    fn execute_opcode(&mut self, interconnect: &mut Interconnect)
        requires
            old(interconnect).wf(),
        ensures
            step(*old(self), *old(interconnect), *final(self), *final(interconnect)),
    {
        proof { reveal(step); }
        let op: u8 = self.opcode;
        let z: u8 = op & 7;
        proof { lemma_opcode_fields(op); }
        if op < 0x40 {
            if z == 0 {
                self.execute_low_z0(interconnect);
            } else if z == 1 {
                self.execute_low_z1(interconnect);
            } else if z == 2 {
                self.execute_low_z2(interconnect);
            } else if z == 3 {
                self.execute_low_z3(interconnect);
            } else if z == 4 {
                self.execute_low_z4(interconnect);
            } else if z == 5 {
                self.execute_low_z5(interconnect);
            } else if z == 6 {
                self.execute_low_z6(interconnect);
            } else {
                self.execute_low_z7(interconnect);
            }
        } else if op < 0x80 {
            self.execute_ld(interconnect);
        } else if op < 0xC0 {
            self.execute_alu(interconnect);
        } else {
            if z == 0 {
                self.execute_high_z0(interconnect);
            } else if z == 1 {
                self.execute_high_z1(interconnect);
            } else if z == 2 {
                self.execute_high_z2(interconnect);
            } else if z == 3 {
                self.execute_high_z3(interconnect);
            } else if z == 4 {
                self.execute_high_z4(interconnect);
            } else if z == 5 {
                self.execute_high_z5(interconnect);
            } else if z == 6 {
                self.execute_high_z6(interconnect);
            } else {
                self.execute_high_z7(interconnect);
            }
        }
    }

    /// Serves the pending interrupt of highest priority, if interrupts are
    /// enabled or the CPU is halted: a halted CPU wakes up; with IME set, IME
    /// is cleared, PC is pushed, PC jumps to the handler, the interrupt's IF
    /// bit is cleared and four machine cycles pass.
    pub fn handle_interrupt(&mut self, interconnect: &mut Interconnect)
        requires
            old(interconnect).wf(),
        ensures
            final(interconnect).wf(),
            serviced(*old(self), *old(interconnect), *final(self), *final(interconnect)),
    {
        let interrupts_enabled: bool = self.ime || self.halted;
        if interrupts_enabled {
            let triggered: Option<InterruptType> = get_interrupt(interconnect);
            if let Some(triggered_interrupt) = triggered {
                self.halted = false;
                if !self.ime {
                    return;
                }
                self.ime = false;
                let n: u8 = interrupt_index(triggered_interrupt);
                let lower_pc: u8 = (self.pc & 0x00FF) as u8;
                let upper_pc: u8 = (self.pc >> 8u16) as u8;
                let ghost sp0 = self.sp;
                push_rr(interconnect, upper_pc, lower_pc, &mut self.sp);
                let ghost m1 = *interconnect;
                self.pc = handler_address(triggered_interrupt);
                let mut interrupt_flags: u8 = interconnect.read_mem(INTERRUPT_FLAG);
                interrupt_flags = interrupt_flags & !(1u8 << n);
                interconnect.write_mem(INTERRUPT_FLAG, interrupt_flags);
                let ghost m2 = *interconnect;
                self.ime_to_be_enabled = false;
                interconnect.emu_tick(4);
                proof {
                    assert(only_ticked(m1, m2));
                    lemma_pushed_ticked(*old(interconnect), m1, m2, sp0, upper_pc, lower_pc);
                    lemma_pushed_ticked(*old(interconnect), m2, *interconnect, sp0, upper_pc, lower_pc);
                    assert(lower_pc == (old(self).pc % 256) as u8 && upper_pc == (old(self).pc / 256) as u8);
                    let s = sub16(sp0 as int, 2);
                    assert(ran(*old(interconnect), m1, Seq::empty().push(BusEvent::Write(s, lower_pc))
                        .push(BusEvent::Write(add16(s as int, 1), upper_pc))));
                    assert(ran(m1, *interconnect, Seq::empty().push(BusEvent::Write(0xFF0F, interrupt_flags))
                        .push(BusEvent::Tick(4))));
                }
            }
        }
    }

    /// Executes one instruction: a pending EI takes effect, a pending
    /// interrupt is handled, the ticks of the last tick are noted in
    /// `last_cycle`, and the opcode at PC is fetched and executed.
    pub fn execute_instruction(&mut self, interconnect: &mut Interconnect)
        requires
            old(interconnect).wf(),
        ensures
            final(interconnect).wf(),
            exists|c_mid: Cpu, m_mid: Interconnect| #[trigger] instruction_done(*old(self), *old(interconnect),
                c_mid, m_mid, *final(self), *final(interconnect)),
            final(interconnect).boot_active == old(interconnect).boot_active,
            final(interconnect).serial.bytes() == old(interconnect).serial.bytes(),
    {
        if self.ime_to_be_enabled {
            self.ime = true;
            self.ime_to_be_enabled = false;
        }
        self.handle_interrupt(interconnect);
        let ghost c_mid = *self;
        let ghost m_mid = *interconnect;
        self.last_cycle = interconnect.ticks;
        self.fetch_opcode(interconnect);
        self.execute_opcode(interconnect);
        proof {
            reveal(step);
            assert(instruction_done(*old(self), *old(interconnect), c_mid, m_mid, *self, *interconnect));
        }
    }

}

/// The bus at the start of a turn of the frame loop: once PC has reached
/// 0x100 the boot ROM is unmapped and write protection ends.
pub open spec fn boot_checked(c: Cpu, m: Interconnect) -> Interconnect {
    if c.pc == 0x100 { Interconnect { write_enabled: false, boot_active: false, ..m } } else { m }
}

/// After an instruction: when SC (0xFF02) reads 0x81, the byte in SB (0xFF01)
/// goes to the serial output and SC is cleared, every other address reading
/// as before; otherwise the bus stays as it is.
pub open spec fn serial_checked(m2: Interconnect, m3: Interconnect) -> bool {
    if m2.read_spec(0xFF02) == 0x81 {
        &&& m3.wf()
        &&& m3.serial.bytes() == m2.serial.bytes().push(m2.read_spec(0xFF01))
        &&& m3.read_spec(0xFF02) == 0
        &&& forall|b: u16| b != 0xFF02 ==> #[trigger] m3.read_spec(b) == m2.read_spec(b)
        &&& m3.boot_active == m2.boot_active && m3.write_enabled == m2.write_enabled
        &&& m3.ticks == m2.ticks
    } else {
        m3 == m2
    }
}

/// One turn of the frame loop from `c0`, `m0` to `c1`, `m1`: after the boot
/// ROM check, a running CPU executes one instruction (serving an interrupt
/// first) and a serial transfer is taken; a halted CPU lets one machine
/// cycle pass and wakes when IF is not zero.
pub open spec fn run_turn(c0: Cpu, m0: Interconnect, c1: Cpu, m1: Interconnect) -> bool {
    let mb = boot_checked(c0, m0);
    if !c0.halted {
        exists|c_mid: Cpu, m_mid: Interconnect, m2: Interconnect|
            #[trigger] instruction_done(c0, mb, c_mid, m_mid, c1, m2) && serial_checked(m2, m1)
    } else {
        &&& ticked_by(mb, m1, 1)
        &&& c1 == if m1.if_reg() != 0 { Cpu { halted: false, ..c0 } } else { c0 }
    }
}

/// The cycles the frame loop counted before turn `k`: the `last_cycle` of
/// the CPU at the start of each earlier turn.
pub open spec fn cycles_before(cs: Seq<Cpu>, k: int) -> int
    decreases k,
{
    if k <= 0 { 0 } else { cycles_before(cs, k - 1) + cs[k - 1].last_cycle }
}

/// The cycles counted before turn `k` depend only on the states before it.
proof fn lemma_cycles_prefix(cs: Seq<Cpu>, k: int)
    requires
        0 <= k < cs.len(),
    ensures
        cycles_before(cs, k) == cycles_before(cs.drop_last(), k),
    decreases k,
{
    if k > 0 {
        lemma_cycles_prefix(cs, k - 1);
    }
}

/// The states `cs`, `ms` of a frame from (`c0`, `m0`) to (`c1`, `m1`): each
/// next state is one turn on, a turn is taken while fewer than
/// MAX_CYCLES_PER_FRAME cycles were counted and fewer than that many turns
/// taken, and the frame ends when either runs out.
pub open spec fn frame_trace(cs: Seq<Cpu>, ms: Seq<Interconnect>, c0: Cpu, m0: Interconnect, c1: Cpu, m1: Interconnect) -> bool {
    let n = cs.len() - 1;
    &&& cs.len() == ms.len() && 1 <= cs.len() <= MAX_CYCLES_PER_FRAME + 1
    &&& cs[0] == c0 && ms[0] == m0 && cs[n] == c1 && ms[n] == m1
    &&& forall|i: int| 0 <= i < n ==> #[trigger] run_turn(cs[i], ms[i], cs[i + 1], ms[i + 1])
    &&& forall|k: int| 0 <= k < n ==> #[trigger] cycles_before(cs, k) < MAX_CYCLES_PER_FRAME
    &&& cycles_before(cs, n) >= MAX_CYCLES_PER_FRAME || n == MAX_CYCLES_PER_FRAME
}

impl Cpu {
    /// Runs one frame. Until the cycles counted reach MAX_CYCLES_PER_FRAME
    /// (each turn adds the cycles of the last tick), the CPU executes an
    /// instruction, or, while halted, the bus ticks one machine cycle and an
    /// interrupt request wakes the CPU. When PC reaches 0x100 the boot ROM is
    /// unmapped and write protection ends. A serial transfer started with
    /// control 0x81 hands its data byte to the serial output and the control
    /// register is cleared. A frame takes at most MAX_CYCLES_PER_FRAME turns,
    /// so a CPU that lets no time pass still returns.
    pub fn run(&mut self, interconnect: &mut Interconnect)
        requires
            old(interconnect).wf(),
        ensures
            final(interconnect).wf(),
            !old(interconnect).boot_active ==> !final(interconnect).boot_active,
            old(interconnect).serial.bytes().is_prefix_of(final(interconnect).serial.bytes()),
            exists|cs: Seq<Cpu>, ms: Seq<Interconnect>|
                #[trigger] frame_trace(cs, ms, *old(self), *old(interconnect), *final(self), *final(interconnect)),
    {
        let mut cycles_this_update: u64 = 0;
        let mut turns: usize = 0;
        let ghost mut cs: Seq<Cpu> = seq![*self];
        let ghost mut ms: Seq<Interconnect> = seq![*interconnect];
        while cycles_this_update < MAX_CYCLES_PER_FRAME as u64 && turns < MAX_CYCLES_PER_FRAME
            invariant
                interconnect.wf(),
                !old(interconnect).boot_active ==> !interconnect.boot_active,
                old(interconnect).serial.bytes().is_prefix_of(interconnect.serial.bytes()),
                turns <= MAX_CYCLES_PER_FRAME,
                cs.len() == turns + 1 && ms.len() == turns + 1,
                cs[0] == *old(self) && ms[0] == *old(interconnect),
                cs[turns as int] == *self && ms[turns as int] == *interconnect,
                forall|i: int| 0 <= i < turns ==> #[trigger] run_turn(cs[i], ms[i], cs[i + 1], ms[i + 1]),
                forall|k: int| 0 <= k < turns ==> #[trigger] cycles_before(cs, k) < MAX_CYCLES_PER_FRAME,
                cycles_this_update == if cycles_before(cs, turns as int) <= u64::MAX {
                    cycles_before(cs, turns as int)
                } else {
                    u64::MAX as int
                },
            ensures
                frame_trace(cs, ms, *old(self), *old(interconnect), *self, *interconnect),
                interconnect.wf(),
                !old(interconnect).boot_active ==> !interconnect.boot_active,
                old(interconnect).serial.bytes().is_prefix_of(interconnect.serial.bytes()),
            decreases MAX_CYCLES_PER_FRAME - turns,
        {
            let ghost c0 = *self;
            let ghost m0 = *interconnect;
            assert(cycles_before(cs, turns as int) < MAX_CYCLES_PER_FRAME);
            turns = turns + 1;
            let cycles: u64 = self.last_cycle;
            cycles_this_update = cycles_this_update.saturating_add(cycles);
            if self.pc == 0x100 {
                interconnect.write_enabled = false;
                interconnect.boot_active = false;
            }
            let running: bool = !self.halted;
            if running {
                self.execute_instruction(interconnect);
                let ghost m2 = *interconnect;
                if interconnect.read_mem(SERIAL_TRANSFER_CONTROL) == 0x81 {
                    let c: u8 = interconnect.read_mem(SERIAL_TRASFER_DATA);
                    let ghost before = interconnect.serial.bytes();
                    interconnect.serial.write_byte(c);
                    interconnect.write_mem(SERIAL_TRANSFER_CONTROL, 0x00);
                    proof {
                        assert(before.is_prefix_of(interconnect.serial.bytes()));
                    }
                }
                proof {
                    let (cm, mm) = choose|c_mid: Cpu, m_mid: Interconnect|
                        #[trigger] instruction_done(c0, boot_checked(c0, m0), c_mid, m_mid, *self, m2);
                    assert(instruction_done(c0, boot_checked(c0, m0), cm, mm, *self, m2) && serial_checked(m2, *interconnect));
                }
            } else {
                interconnect.emu_tick(1);
                let interrupt_flag: u8 = interconnect.read_mem(INTERRUPT_FLAG);
                if interrupt_flag != 0 {
                    self.halted = false;
                }
            }
            proof {
                assert(run_turn(c0, m0, *self, *interconnect));
                let cs_old = cs;
                cs = cs.push(*self);
                ms = ms.push(*interconnect);
                assert(cs.drop_last() =~= cs_old);
                assert forall|k: int| 0 <= k <= turns - 1 implies #[trigger] cycles_before(cs, k) == cycles_before(cs_old, k) by {
                    lemma_cycles_prefix(cs, k);
                }
                assert(cycles_before(cs, turns as int) == cycles_before(cs, turns - 1) + c0.last_cycle);
            }
        }
    }

}

} // verus!
