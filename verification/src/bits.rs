use vstd::prelude::*;

verus! {

/// The mask, shift and join identities that the broadcast lemmas below hand out.
proof fn lemma_mask_facts()
    ensures
        forall|x: u8| #![auto] x & 0x0F == x % 16 && x & 0x03 == x % 4,
        forall|x: u16| #![auto] x & 0x0FFF == x % 4096 && x & 0x3FFF == x % 0x4000 && x & 0x1FFF == x % 0x2000,
        forall|w: u16| #![auto] ((w >> 8u16) as u8) == w / 256 && ((w & 0x00FFu16) as u8) == w % 256,
        forall|x: u32| #![auto] x & 0x0FFF == x % 4096,
        forall|hi: u8, lo: u8| #[trigger] (((hi as u16) << 8u16) | (lo as u16)) == hi as int * 256 + lo as int,
        forall|x: usize, m: usize| #![auto] x & m <= m,
{
    assert({
        &&& forall|x: u8| #![auto] x & 0x0F == x % 16 && x & 0x03 == x % 4
        &&& forall|x: u16| #![auto] x & 0x0FFF == x % 4096 && x & 0x3FFF == x % 0x4000 && x & 0x1FFF == x % 0x2000
        &&& forall|w: u16| #![auto] ((w >> 8u16) as u8) == w / 256 && ((w & 0x00FFu16) as u8) == w % 256
        &&& forall|x: u32| #![auto] x & 0x0FFF == x % 4096
        &&& forall|hi: u8, lo: u8| #[trigger] (((hi as u16) << 8u16) | (lo as u16)) == hi as int * 256 + lo as int
        &&& forall|x: usize, m: usize| #![auto] x & m <= m
    }) by (bit_vector);
}

/// The low nibble of a byte is its remainder modulo 16.
pub broadcast proof fn lemma_u8_low_nibble(x: u8)
    ensures
        #[trigger] (x & 0x0F) == x % 16,
{
    lemma_mask_facts();
}

/// The low two bits of a byte are its remainder modulo 4.
pub broadcast proof fn lemma_u8_low_two(x: u8)
    ensures
        #[trigger] (x & 0x03) == x % 4,
{
    lemma_mask_facts();
}

/// The low twelve bits of a word are its remainder modulo 4096.
pub broadcast proof fn lemma_u16_low_twelve(x: u16)
    ensures
        #[trigger] (x & 0x0FFF) == x % 4096,
{
    lemma_mask_facts();
}

/// The low twelve bits of a 32-bit value are its remainder modulo 4096.
pub proof fn lemma_u32_low_twelve(x: u32)
    ensures
        (x & 0x0FFF) == x % 4096,
{
    lemma_mask_facts();
}

/// Two bytes joined high-first form the word `hi * 256 + lo`.
pub broadcast proof fn lemma_join_bytes(hi: u8, lo: u8)
    ensures
        #[trigger] (((hi as u16) << 8u16) | (lo as u16)) == hi as int * 256 + lo as int,
{
    lemma_mask_facts();
}

/// Splitting a word gives its high byte `w / 256` and low byte `w % 256`.
pub broadcast proof fn lemma_split_word(w: u16)
    ensures
        #[trigger] ((w >> 8u16) as u8) == w / 256,
        #[trigger] ((w & 0x00FFu16) as u8) == w % 256,
{
    lemma_mask_facts();
}

/// The shift and mask forms of the rotate and shift instructions, as arithmetic.
pub proof fn lemma_shift_facts(v: u8, c: u8)
    requires
        c <= 1,
    ensures
        (v & 0x80u8) >> 7u8 == v / 128,
        (v & 0x80u8 == 0) == (v < 128),
        v & 0x01u8 == v % 2,
        ((v << 1u8) | (1u8 & ((v & 0x80u8) >> 7u8))) == (v as int * 2) % 256 + v / 128,
        ((v >> 1u8) | (0x80u8 & ((v & 0x01u8) << 7u8))) == v / 2 + (v % 2) * 128,
        ((v << 1u8) | (1u8 & c)) == (v as int * 2) % 256 + c,
        ((v >> 1u8) | (0x80u8 & (c << 7u8))) == v / 2 + c * 128,
        (v << 1u8) == (v as int * 2) % 256,
        ((v >> 1u8) | (0x80u8 & (v & 0x80u8))) == v / 2 + (v / 128) * 128,
        ((v >> 1u8) & 0x7Fu8) == v / 2,
        ((((v & 0x0Fu8) as u16) << 4u16) | (((v & 0xF0u8) as u16) >> 4u16)) as u8 == (v % 16) * 16 + v / 16,
{
    assert({
        &&& (v & 0x80u8) >> 7u8 == v / 128
        &&& (v & 0x80u8 == 0) == (v < 128)
        &&& v & 0x01u8 == v % 2
        &&& ((v << 1u8) | (1u8 & ((v & 0x80u8) >> 7u8))) == (v as int * 2) % 256 + v / 128
        &&& ((v >> 1u8) | (0x80u8 & ((v & 0x01u8) << 7u8))) == v / 2 + (v % 2) * 128
        &&& (c <= 1 ==> ((v << 1u8) | (1u8 & c)) == (v as int * 2) % 256 + c)
        &&& (c <= 1 ==> ((v >> 1u8) | (0x80u8 & (c << 7u8))) == v / 2 + c * 128)
        &&& (v << 1u8) == (v as int * 2) % 256
        &&& ((v >> 1u8) | (0x80u8 & (v & 0x80u8))) == v / 2 + (v / 128) * 128
        &&& ((v >> 1u8) & 0x7Fu8) == v / 2
        &&& ((((v & 0x0Fu8) as u16) << 4u16) | (((v & 0xF0u8) as u16) >> 4u16)) as u8 == (v % 16) * 16 + v / 16
    }) by (bit_vector);
}

/// Masking with `m` never gives more than `m`.
pub broadcast proof fn lemma_usize_and_le(x: usize, m: usize)
    ensures
        #[trigger] (x & m) <= m,
{
    lemma_mask_facts();
}

/// The low fourteen bits of a word, as a remainder.
pub broadcast proof fn lemma_u16_low14(x: u16)
    ensures
        #[trigger] (x & 0x3FFF) == x % 0x4000,
{
    lemma_mask_facts();
}

/// The low thirteen bits of a word, as a remainder.
pub broadcast proof fn lemma_u16_low13(x: u16)
    ensures
        #[trigger] (x & 0x1FFF) == x % 0x2000,
{
    lemma_mask_facts();
}

/// Bank number arithmetic of the MBC1: the upper ROM bank stays below 128.
pub proof fn lemma_mbc1_banks(rom: usize, ram: usize)
    requires
        rom < 128,
        ram < 4,
    ensures
        (rom | (ram << 5usize)) < 128,
        ram << 5usize == ram * 32,
{
    assert(rom < 128 && ram < 4 ==> (rom | (ram << 5usize)) < 128 && ram << 5usize == ram * 32)
        by (bit_vector);
}

/// A pixel's colour number, made of bit `bit` of the high and the low byte, is below 4.
pub proof fn lemma_pixel_color(hi: u8, low: u8, bit: u8)
    requires
        bit < 8,
    ensures
        (((hi >> bit) & 1u8) | (((low >> bit) & 1u8) << 1u8)) < 4,
        ((hi >> bit) & 1u8) | (((low >> bit) & 1u8) << 1u8) == ((hi >> bit) & 1u8) + 2 * ((low >> bit) & 1u8),
{
    assert(bit < 8 ==> (((hi >> bit) & 1u8) | (((low >> bit) & 1u8) << 1u8)) < 4
        && ((hi >> bit) & 1u8) | (((low >> bit) & 1u8) << 1u8) == ((hi >> bit) & 1u8) + 2 * ((low >> bit) & 1u8))
        by (bit_vector);
}

/// The STAT mode field: reading it, replacing it, and the LY=LYC bit.
pub proof fn lemma_stat_bits(stat: u8, m: u8)
    requires
        m < 4,
    ensures
        stat & 0b11u8 == stat % 4,
        ((stat & !0b11u8) | m) % 4 == m,
        ((stat & !0b11u8) | m) / 4 == stat / 4,
        (stat | 4u8) % 4 == stat % 4,
        (stat & !4u8) % 4 == stat % 4,
{
    assert(m < 4 ==> (stat & 0b11u8 == stat % 4 && ((stat & !0b11u8) | m) % 4 == m
        && ((stat & !0b11u8) | m) / 4 == stat / 4 && (stat | 4u8) % 4 == stat % 4 && (stat & !4u8) % 4 == stat % 4))
        by (bit_vector);
}

/// Keeping every set bit is reflexive and transitive.
pub proof fn lemma_keeps_bits(o: u8, a: u8, b: u8)
    ensures
        o & o == o,
        (a & o == o && b & a == a) ==> b & o == o,
{
    assert(o & o == o && ((a & o == o && b & a == a) ==> b & o == o)) by (bit_vector);
}

/// The low nibble and the low byte of a word, as remainders.
pub proof fn lemma_u16_low_bits(x: u16)
    ensures
        (x & 0x0F) == x % 16,
        (x & 0xFF) == x % 256,
{
    assert((x & 0x0F) == x % 16 && (x & 0xFF) == x % 256) by (bit_vector);
}

/// The fields of an opcode byte: bits 7-6, bits 5-3 and bits 2-0.
pub proof fn lemma_opcode_fields(op: u8)
    ensures
        op >> 6 == op / 64,
        (op >> 3) & 7 == (op / 8) % 8,
        op & 7 == op % 8,
{
    assert(op >> 6 == op / 64 && (op >> 3) & 7 == (op / 8) % 8 && op & 7 == op % 8) by (bit_vector);
}

/// Flipping a bit that is 0 or 1.
pub proof fn lemma_flip_bit(b: u8)
    requires
        b <= 1,
    ensures
        b ^ 1 == 1 - b,
{
    assert(b <= 1 ==> b ^ 1 == 1 - b) by (bit_vector);
}

/// Bounds of the bit fields that the sound registers are cut into.
pub proof fn lemma_byte_fields(x: u8)
    ensures
        x & 7 < 8,
        (x >> 4) & 7 < 8,
        x >> 4 < 16,
        x >> 6 < 4,
        (x >> 3) & 1 < 2,
        (x >> 6) & 1 < 2,
        (x >> 7) & 1 < 2,
        x & 0x3F < 64,
        (x >> 5) & 3 < 4,
{
    assert({
        &&& x & 7 < 8
        &&& (x >> 4) & 7 < 8
        &&& x >> 4 < 16
        &&& x >> 6 < 4
        &&& (x >> 3) & 1 < 2
        &&& (x >> 6) & 1 < 2
        &&& (x >> 7) & 1 < 2
        &&& x & 0x3F < 64
        &&& (x >> 5) & 3 < 4
    }) by (bit_vector);
}

/// An eleven-bit frequency keeps eleven bits when its low byte or its high
/// three bits are replaced.
pub proof fn lemma_frequency_bytes(f: i32, x: u8)
    requires
        0 <= f <= 0x7FF,
    ensures
        0 <= ((f & 0x700) | (x as i32)) <= 0x7FF,
        0 <= ((f & 0xFF) | (((x as i32) & 7) << 8)) <= 0x7FF,
        ((2048 - f) as i32) << 1 == (2048 - f) * 2,
{
    assert(0 <= f <= 0x7FF ==> 0 <= ((f & 0x700) | (x as i32)) <= 0x7FF
        && 0 <= ((f & 0xFF) | (((x as i32) & 7) << 8)) <= 0x7FF
        && ((2048 - f) as i32) << 1 == (2048 - f) * 2) by (bit_vector);
}

/// Shifting an eleven-bit frequency right gives at most the frequency.
pub proof fn lemma_shift_down(f: i32, k: u8)
    requires
        0 <= f <= 0x7FF,
        k < 8,
    ensures
        0 <= f >> k <= f,
{
    assert(0 <= f <= 0x7FF && k < 8 ==> 0 <= f >> k <= f) by (bit_vector);
}

/// Counting positions modulo a power of two with a mask: the step
/// sequencers count modulo 8, the wave position modulo 32.
pub proof fn lemma_counters(s: i32)
    requires
        0 <= s < 32,
    ensures
        s < 8 ==> ((s + 1) as i32) & 7 == (s + 1) % 8,
        ((s + 1) as i32) & 31 == (s + 1) % 32,
        s >> 1 == s / 2,
        (s & 1 == 1) == (s % 2 == 1),
        (s >> 1) & !3i32 == (s / 2) - (s / 2) % 4,
{
    assert(0 <= s < 32 ==> {
        &&& (s < 8 ==> ((s + 1) as i32) & 7 == (s + 1) % 8)
        &&& ((s + 1) as i32) & 31 == (s + 1) % 32
        &&& s >> 1 == s / 2
        &&& (s & 1 == 1) == (s % 2 == 1)
        &&& (s >> 1) & !3i32 == (s / 2) - (s / 2) % 4
    }) by (bit_vector);
}

/// Or-ing into zero, and shifting by nothing, leave a byte as it is.
pub proof fn lemma_or_zero(x: u8)
    ensures
        0u8 | x == x,
        x << 0u8 == x,
{
    assert(0u8 | x == x && x << 0u8 == x) by (bit_vector);
}

/// Or regroups, or-ing zero or a bit already there changes nothing, and the
/// timer's interrupt bit is 4.
pub proof fn lemma_or_regroup(a: u8, b: u8, c: u8)
    ensures
        (a | b) | c == a | (b | c),
        a | 0u8 == a,
        0u8 | a == a,
        4u8 | 4u8 == 4u8,
        1u8 << 2u8 == 4u8,
{
    assert((a | b) | c == a | (b | c) && a | 0u8 == a && 0u8 | a == a && 4u8 | 4u8 == 4u8 && 1u8 << 2u8 == 4u8)
        by (bit_vector);
}

/// Bit `k` of a byte, read by shifting, is its `2^k`s taken modulo 2; bit 7 is
/// set exactly when the byte is at least 0x80.
pub proof fn lemma_bit_values(d: u8)
    ensures
        ((d >> 7u8) & 1 == 1) == (d >= 0x80),
        ((d >> 6u8) & 1 == 1) == ((d / 64) % 2 == 1),
        ((d >> 5u8) & 1 == 1) == ((d / 32) % 2 == 1),
        ((d >> 4u8) & 1 == 1) == ((d / 16) % 2 == 1),
        ((d >> 3u8) & 1 == 1) == ((d / 8) % 2 == 1),
        ((d >> 2u8) & 1 == 1) == ((d / 4) % 2 == 1),
        ((d >> 1u8) & 1 == 1) == ((d / 2) % 2 == 1),
        (d & 1 == 1) == (d % 2 == 1),
        ((d as u16) & 0xFEu16) == d - d % 2,
{
    assert({
        &&& ((d >> 7u8) & 1 == 1) == (d >= 0x80)
        &&& ((d >> 6u8) & 1 == 1) == ((d / 64) % 2 == 1)
        &&& ((d >> 5u8) & 1 == 1) == ((d / 32) % 2 == 1)
        &&& ((d >> 4u8) & 1 == 1) == ((d / 16) % 2 == 1)
        &&& ((d >> 3u8) & 1 == 1) == ((d / 8) % 2 == 1)
        &&& ((d >> 2u8) & 1 == 1) == ((d / 4) % 2 == 1)
        &&& ((d >> 1u8) & 1 == 1) == ((d / 2) % 2 == 1)
        &&& (d & 1 == 1) == (d % 2 == 1)
        &&& ((d as u16) & 0xFEu16) == d - d % 2
    }) by (bit_vector);
}

pub broadcast group group_bits {
    lemma_u8_low_nibble,
    lemma_u8_low_two,
    lemma_usize_and_le,
    lemma_u16_low14,
    lemma_u16_low13,
    lemma_u16_low_twelve,
    lemma_join_bytes,
    lemma_split_word,
}

} // verus!
