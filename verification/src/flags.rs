use vstd::prelude::*;
use crate::bits::{group_bits, lemma_u32_low_twelve};

verus! {

broadcast use group_bits;

/// Bit 7 of a flag byte: the zero flag.
pub open spec fn zf(d: u8) -> bool {
    (d >> 7u8) & 1 == 1
}

/// Bit 6 of a flag byte: the subtract flag.
pub open spec fn nf(d: u8) -> bool {
    (d >> 6u8) & 1 == 1
}

/// Bit 5 of a flag byte: the half carry flag.
pub open spec fn hf(d: u8) -> bool {
    (d >> 5u8) & 1 == 1
}

/// Bit 4 of a flag byte: the carry flag.
pub open spec fn cf(d: u8) -> bool {
    (d >> 4u8) & 1 == 1
}

/// 1 for true, 0 for false.
pub open spec fn b2u(b: bool) -> u8 {
    if b { 1 } else { 0 }
}

/// The flag byte whose four flags are `z n h c` and whose low nibble is that of `d`.
pub open spec fn with_flags(d: u8, z: bool, n: bool, h: bool, c: bool) -> u8 {
    (if z { 0x80u8 } else { 0u8 }) | (if n { 0x40u8 } else { 0u8 }) | (if h { 0x20u8 } else { 0u8 })
        | (if c { 0x10u8 } else { 0u8 }) | (d & 0x0Fu8)
}

/// Reading the flags back out of `with_flags` gives what was put in; a second
/// `with_flags` overrides the first; a byte is `with_flags` of its own flags.
pub broadcast proof fn lemma_with_flags(d: u8, z: bool, n: bool, h: bool, c: bool)
    ensures
        zf(#[trigger] with_flags(d, z, n, h, c)) == z,
        nf(with_flags(d, z, n, h, c)) == n,
        hf(with_flags(d, z, n, h, c)) == h,
        cf(with_flags(d, z, n, h, c)) == c,
        with_flags(d, z, n, h, c) & 0x0F == d & 0x0F,
        with_flags(d, zf(d), nf(d), hf(d), cf(d)) == d,
{
    assert({
        &&& zf(with_flags(d, z, n, h, c)) == z
        &&& nf(with_flags(d, z, n, h, c)) == n
        &&& hf(with_flags(d, z, n, h, c)) == h
        &&& cf(with_flags(d, z, n, h, c)) == c
        &&& with_flags(d, z, n, h, c) & 0x0F == d & 0x0F
        &&& with_flags(d, zf(d), nf(d), hf(d), cf(d)) == d
    }) by (bit_vector);
}

/// `with_flags` only looks at the low nibble of its first argument.
pub broadcast proof fn lemma_with_flags_low(d: u8, e: u8, z: bool, n: bool, h: bool, c: bool)
    requires
        d & 0x0F == e & 0x0F,
    ensures
        #[trigger] with_flags(d, z, n, h, c) == #[trigger] with_flags(e, z, n, h, c),
{
    assert(d & 0x0F == e & 0x0F ==> with_flags(d, z, n, h, c) == with_flags(e, z, n, h, c))
        by (bit_vector);
}

/// The single-bit updates of a flag byte, each as a `with_flags`.
pub proof fn lemma_flag_bit_ops(d: u8)
    ensures
        d | 0x80 == with_flags(d, true, nf(d), hf(d), cf(d)),
        d & 0x7F == with_flags(d, false, nf(d), hf(d), cf(d)),
        d | 0x40 == with_flags(d, zf(d), true, hf(d), cf(d)),
        d & 0xBF == with_flags(d, zf(d), false, hf(d), cf(d)),
        d | 0x20 == with_flags(d, zf(d), nf(d), true, cf(d)),
        d & 0xDF == with_flags(d, zf(d), nf(d), false, cf(d)),
        d | 0x10 == with_flags(d, zf(d), nf(d), hf(d), true),
        d & 0xEF == with_flags(d, zf(d), nf(d), hf(d), false),
        (d >> 7u8) & 1 == b2u(zf(d)),
        (d >> 6u8) & 1 == b2u(nf(d)),
        (d >> 5u8) & 1 == b2u(hf(d)),
        (d >> 4u8) & 1 == b2u(cf(d)),
{
    assert({
        &&& d | 0x80 == with_flags(d, true, nf(d), hf(d), cf(d))
        &&& d & 0x7F == with_flags(d, false, nf(d), hf(d), cf(d))
        &&& d | 0x40 == with_flags(d, zf(d), true, hf(d), cf(d))
        &&& d & 0xBF == with_flags(d, zf(d), false, hf(d), cf(d))
        &&& d | 0x20 == with_flags(d, zf(d), nf(d), true, cf(d))
        &&& d & 0xDF == with_flags(d, zf(d), nf(d), false, cf(d))
        &&& d | 0x10 == with_flags(d, zf(d), nf(d), hf(d), true)
        &&& d & 0xEF == with_flags(d, zf(d), nf(d), hf(d), false)
        &&& (d >> 7u8) & 1 == b2u(zf(d))
        &&& (d >> 6u8) & 1 == b2u(nf(d))
        &&& (d >> 5u8) & 1 == b2u(hf(d))
        &&& (d >> 4u8) & 1 == b2u(cf(d))
    }) by (bit_vector);
}

pub broadcast group group_flags {
    lemma_with_flags,
    lemma_with_flags_low,
}

/// The F register of the CPU: zero (bit 7), subtract (bit 6), half carry
/// (bit 5) and carry (bit 4).
#[derive(Debug)]
pub struct Flags {
    pub data: u8,
}

impl Flags {
    /// Flags with every bit clear.
    pub fn new() -> (f: Flags)
        ensures
            f.data == 0,
    {
        Flags { data: 0 }
    }

    /// Clears every bit of the register.
    pub fn clear_flags(&mut self)
        ensures
            final(self).data == 0,
    {
        self.data = 0;
    }

    pub fn zero_flag(&self) -> (r: u8)
        ensures
            r == b2u(zf(self.data)),
    {
        proof { lemma_flag_bit_ops(self.data); }
        (self.data >> 7) & 1
    }

    pub fn sub_flag(&self) -> (r: u8)
        ensures
            r == b2u(nf(self.data)),
    {
        proof { lemma_flag_bit_ops(self.data); }
        (self.data >> 6) & 1
    }

    pub fn half_carry_flag(&self) -> (r: u8)
        ensures
            r == b2u(hf(self.data)),
    {
        proof { lemma_flag_bit_ops(self.data); }
        (self.data >> 5) & 1
    }

    pub fn carry_flag(&self) -> (r: u8)
        ensures
            r == b2u(cf(self.data)),
    {
        proof { lemma_flag_bit_ops(self.data); }
        (self.data >> 4) & 1
    }

    pub fn set_zero_flag(&mut self)
        ensures
            final(self).data == with_flags(old(self).data, true, nf(old(self).data), hf(old(self).data), cf(old(self).data)),
    {
        proof { lemma_flag_bit_ops(self.data); }
        self.data = self.data | 0x80;
    }

    pub fn clear_zero_flag(&mut self)
        ensures
            final(self).data == with_flags(old(self).data, false, nf(old(self).data), hf(old(self).data), cf(old(self).data)),
    {
        proof { lemma_flag_bit_ops(self.data); }
        self.data = self.data & 0x7F;
    }

    pub fn set_sub_flag(&mut self)
        ensures
            final(self).data == with_flags(old(self).data, zf(old(self).data), true, hf(old(self).data), cf(old(self).data)),
    {
        proof { lemma_flag_bit_ops(self.data); }
        self.data = self.data | 0x40;
    }

    pub fn clear_sub_flag(&mut self)
        ensures
            final(self).data == with_flags(old(self).data, zf(old(self).data), false, hf(old(self).data), cf(old(self).data)),
    {
        proof { lemma_flag_bit_ops(self.data); }
        self.data = self.data & 0xBF;
    }

    pub fn set_half_carry_flag(&mut self)
        ensures
            final(self).data == with_flags(old(self).data, zf(old(self).data), nf(old(self).data), true, cf(old(self).data)),
    {
        proof { lemma_flag_bit_ops(self.data); }
        self.data = self.data | 0x20;
    }

    pub fn clear_half_carry_flag(&mut self)
        ensures
            final(self).data == with_flags(old(self).data, zf(old(self).data), nf(old(self).data), false, cf(old(self).data)),
    {
        proof { lemma_flag_bit_ops(self.data); }
        self.data = self.data & 0xDF;
    }

    pub fn set_carry_flag(&mut self)
        ensures
            final(self).data == with_flags(old(self).data, zf(old(self).data), nf(old(self).data), hf(old(self).data), true),
    {
        proof { lemma_flag_bit_ops(self.data); }
        self.data = self.data | 0x10;
    }

    pub fn clear_carry_flag(&mut self)
        ensures
            final(self).data == with_flags(old(self).data, zf(old(self).data), nf(old(self).data), hf(old(self).data), false),
    {
        proof { lemma_flag_bit_ops(self.data); }
        self.data = self.data & 0xEF;
    }
    /// Sets the carry flag exactly when the 8-bit sum `register + operand` overflows.
    pub fn update_carry_flag_sum_8bit(&mut self, register: u8, operand: u8)
        ensures
            final(self).data == with_flags(old(self).data, zf(old(self).data), nf(old(self).data), hf(old(self).data), register + operand > 0xFF),
    {
        let res: u16 = (register as u16) + (operand as u16);
        if res > 0xFF {
            self.set_carry_flag();
        } else {
            self.clear_carry_flag();
        }
    }

    /// Sets the carry flag exactly when the 16-bit sum `register + operand` overflows.
    pub fn update_carry_flag_sum_16bit(&mut self, register: u16, operand: u16)
        ensures
            final(self).data == with_flags(old(self).data, zf(old(self).data), nf(old(self).data), hf(old(self).data), register + operand > 0xFFFF),
    {
        let res: u32 = (register as u32) + (operand as u32);
        if res > 0xFFFF {
            self.set_carry_flag();
        } else {
            self.clear_carry_flag();
        }
    }

    /// Sets the carry flag exactly when `register - operand` borrows.
    pub fn update_carry_flag_sub_8bit(&mut self, register: u8, operand: u8)
        ensures
            final(self).data == with_flags(old(self).data, zf(old(self).data), nf(old(self).data), hf(old(self).data), register < operand),
    {
        if register < operand {
            self.set_carry_flag();
        } else {
            self.clear_carry_flag();
        }
    }

    /// Sets the carry flag exactly when the 16-bit `register - operand` borrows.
    pub fn update_carry_flag_sub_16bit(&mut self, register: u16, operand: u16)
        ensures
            final(self).data == with_flags(old(self).data, zf(old(self).data), nf(old(self).data), hf(old(self).data), register < operand),
    {
        if register < operand {
            self.set_carry_flag();
        } else {
            self.clear_carry_flag();
        }
    }

    /// Sets the half carry flag exactly when adding the low nibbles carries out of bit 3.
    pub fn update_half_carry_flag_sum_8bit(&mut self, register: u8, operand: u8)
        ensures
            final(self).data == with_flags(old(self).data, zf(old(self).data), nf(old(self).data), register % 16 + operand % 16 > 15, cf(old(self).data)),
    {
        if ((register & 0xF) + (operand & 0xF)) > 0xF {
            self.set_half_carry_flag();
        } else {
            self.clear_half_carry_flag();
        }
    }

    /// Sets the half carry flag exactly when adding the low twelve bits carries out of bit 11.
    pub fn update_half_carry_flag_sum_16bit(&mut self, register: u32, operand: u32)
        ensures
            final(self).data == with_flags(old(self).data, zf(old(self).data), nf(old(self).data), register % 4096 + operand % 4096 > 4095, cf(old(self).data)),
    {
        proof { lemma_u32_low_twelve(register); lemma_u32_low_twelve(operand); }
        let half_carry: bool = ((register & 0x0FFF) + (operand & 0x0FFF)) > 0x0FFF;
        if half_carry {
            self.set_half_carry_flag();
        } else {
            self.clear_half_carry_flag();
        }
    }

    /// Sets the half carry flag exactly when subtracting the low nibbles borrows from bit 4.
    pub fn update_half_carry_flag_sub_8bit(&mut self, register: u8, operand: u8)
        ensures
            final(self).data == with_flags(old(self).data, zf(old(self).data), nf(old(self).data), register % 16 < operand % 16, cf(old(self).data)),
    {
        if (register & 0xF) < (operand & 0xF) {
            self.set_half_carry_flag();
        } else {
            self.clear_half_carry_flag();
        }
    }

    /// Sets the half carry flag exactly when subtracting the low twelve bits borrows from bit 12.
    pub fn update_half_carry_flag_sub_16bit(&mut self, register: u16, operand: u16)
        ensures
            final(self).data == with_flags(old(self).data, zf(old(self).data), nf(old(self).data), register % 4096 < operand % 4096, cf(old(self).data)),
    {
        if (register & 0xFFF) < (operand & 0xFFF) {
            self.set_half_carry_flag();
        } else {
            self.clear_half_carry_flag();
        }
    }

    /// Sets the zero flag exactly when `v` is zero.
    pub fn update_zero_flag(&mut self, v: u8)
        ensures
            final(self).data == with_flags(old(self).data, v == 0, nf(old(self).data), hf(old(self).data), cf(old(self).data)),
    {
        if v == 0 {
            self.set_zero_flag();
        } else {
            self.clear_zero_flag();
        }
    }
}

} // verus!
