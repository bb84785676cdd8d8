use vstd::prelude::*;
use crate::cpu::Cpu;
use crate::flags::{cf, group_flags, hf, nf, with_flags, zf};
use crate::instructions::{add8, dec_8bit, inc_8bit, sub8};
use crate::step::{reg8, with_f, with_reg8};

verus! {

broadcast use group_flags;

/// The number (as in `reg8`) of the register named by a letter:
/// 'B' 'C' 'D' 'E' 'H' 'L' 'A'; other letters name no register.
pub open spec fn reg_named(name: char) -> Option<u8> {
    if name == 'B' {
        Some(0u8)
    } else if name == 'C' {
        Some(1u8)
    } else if name == 'D' {
        Some(2u8)
    } else if name == 'E' {
        Some(3u8)
    } else if name == 'H' {
        Some(4u8)
    } else if name == 'L' {
        Some(5u8)
    } else if name == 'A' {
        Some(7u8)
    } else {
        None
    }
}

/// The number of the register named by a letter.
fn register_number(name: char) -> (r: Option<u8>)
    ensures
        r == reg_named(name),
{
    match name {
        'B' => Some(0),
        'C' => Some(1),
        'D' => Some(2),
        'E' => Some(3),
        'H' => Some(4),
        'L' => Some(5),
        'A' => Some(7),
        _ => None,
    }
}

impl Cpu {
    /// Increments the register named `register` ('A' to 'L'), setting the
    /// zero and half carry flags from the result and clearing the subtract
    /// flag; any other name changes nothing.
    pub fn inc_8bit(&mut self, register: char)
        ensures
            ({
                let f = old(self).registers.f.data;
                match reg_named(register) {
                    Some(r) => {
                        let v = reg8(*old(self), r);
                        *final(self) == with_f(with_reg8(*old(self), r, add8(v as int, 1)),
                            with_flags(f, add8(v as int, 1) == 0, false, v % 16 + 1 > 15, cf(f)))
                    },
                    None => *final(self) == *old(self),
                }
            }),
    {
        match register_number(register) {
            Some(r) => {
                let mut v: u8 = self.read_reg(r);
                inc_8bit(&mut self.registers.f, &mut v);
                self.write_reg(r, v);
            },
            None => {},
        }
    }

    /// Decrements the register named `register` ('A' to 'L'), setting the
    /// zero and half carry flags from the result and setting the subtract
    /// flag; any other name changes nothing.
    pub fn dec_8bit(&mut self, register: char)
        ensures
            ({
                let f = old(self).registers.f.data;
                match reg_named(register) {
                    Some(r) => {
                        let v = reg8(*old(self), r);
                        *final(self) == with_f(with_reg8(*old(self), r, sub8(v as int, 1)),
                            with_flags(f, sub8(v as int, 1) == 0, true, v % 16 < 1, cf(f)))
                    },
                    None => *final(self) == *old(self),
                }
            }),
    {
        match register_number(register) {
            Some(r) => {
                let mut v: u8 = self.read_reg(r);
                dec_8bit(&mut self.registers.f, &mut v);
                self.write_reg(r, v);
            },
            None => {},
        }
    }

    /// Increments the register named `register` ('A' to 'L'), wrapping from
    /// 0xFF to 0, without touching the flags; any other name changes nothing.
    pub fn inc_8bit_register(&mut self, reg: char)
        ensures
            match reg_named(reg) {
                Some(r) => *final(self) == with_reg8(*old(self), r, add8(reg8(*old(self), r) as int, 1)),
                None => *final(self) == *old(self),
            },
    {
        match register_number(reg) {
            Some(r) => {
                let v: u8 = self.read_reg(r);
                let res: Option<u8> = v.checked_add(1);
                let next: u8 = match res {
                    Some(n) => n,
                    None => v.wrapping_add(1),
                };
                self.write_reg(r, next);
            },
            None => {},
        }
    }

    /// Sets the zero flag exactly when `v` is zero.
    pub fn update_zero_flag(&mut self, v: u8)
        ensures
            ({
                let f = old(self).registers.f.data;
                *final(self) == with_f(*old(self), with_flags(f, v == 0, nf(f), hf(f), cf(f)))
            }),
    {
        self.registers.f.update_zero_flag(v);
    }

    /// Sets the subtract flag: a subtraction was done.
    pub fn update_sub_flag(&mut self)
        ensures
            ({
                let f = old(self).registers.f.data;
                *final(self) == with_f(*old(self), with_flags(f, zf(f), true, hf(f), cf(f)))
            }),
    {
        self.registers.f.set_sub_flag();
    }

    /// Sets the half carry flag exactly when the 8-bit sum carries from bit 3 to bit 4.
    pub fn update_half_carry_flag_sum_8bit(&mut self, register: u8, operand: u8)
        ensures
            ({
                let f = old(self).registers.f.data;
                *final(self) == with_f(*old(self), with_flags(f, zf(f), nf(f), register % 16 + operand % 16 > 15, cf(f)))
            }),
    {
        self.registers.f.update_half_carry_flag_sum_8bit(register, operand);
    }

    /// Sets the half carry flag exactly when the low nibble of the minuend is
    /// less than that of the subtrahend.
    pub fn update_half_carry_flag_sub_8bit(&mut self, register: u8, operand: u8)
        ensures
            ({
                let f = old(self).registers.f.data;
                *final(self) == with_f(*old(self), with_flags(f, zf(f), nf(f), register % 16 < operand % 16, cf(f)))
            }),
    {
        self.registers.f.update_half_carry_flag_sub_8bit(register, operand);
    }

    /// Sets the half carry flag exactly when the 16-bit sum carries from bit 11 to bit 12.
    pub fn update_half_carry_flag_sum_16bit(&mut self, register: u16, operand: u16)
        ensures
            ({
                let f = old(self).registers.f.data;
                *final(self) == with_f(*old(self), with_flags(f, zf(f), nf(f), register % 4096 + operand % 4096 > 4095, cf(f)))
            }),
    {
        self.registers.f.update_half_carry_flag_sum_16bit(register as u32, operand as u32);
    }

    /// Sets the half carry flag exactly when the low twelve bits of the
    /// minuend are less than those of the subtrahend.
    pub fn update_half_carry_flag_sub_16bit(&mut self, register: u16, operand: u16)
        ensures
            ({
                let f = old(self).registers.f.data;
                *final(self) == with_f(*old(self), with_flags(f, zf(f), nf(f), register % 4096 < operand % 4096, cf(f)))
            }),
    {
        self.registers.f.update_half_carry_flag_sub_16bit(register, operand);
    }

    /// Sets the carry flag exactly when the 8-bit sum overflows.
    pub fn update_carry_flag(&mut self, register: u8, operand: u8)
        ensures
            ({
                let f = old(self).registers.f.data;
                *final(self) == with_f(*old(self), with_flags(f, zf(f), nf(f), hf(f), register + operand > 255))
            }),
    {
        self.registers.f.update_carry_flag_sum_8bit(register, operand);
    }

    /// Sets the carry flag exactly when the 16-bit sum overflows.
    pub fn update_carry_flag_16bit(&mut self, register: u16, operand: u16)
        ensures
            ({
                let f = old(self).registers.f.data;
                *final(self) == with_f(*old(self), with_flags(f, zf(f), nf(f), hf(f), register + operand > 65535))
            }),
    {
        self.registers.f.update_carry_flag_sum_16bit(register, operand);
    }
}

} // verus!
