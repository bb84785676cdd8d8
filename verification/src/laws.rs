use vstd::prelude::*;
use crate::cartridge::cartridge_info::{CartridgeType, cart_type_code, cart_type_spec, supported_cart_type};
use crate::cartridge::mbc_kind;
use crate::cartridge::mbc1::{Mbc1State, mbc1_written};
use crate::apu::duty_spec;
use crate::apu::noise::divisor_spec;
use crate::cartridge::mbc2::{Mbc2State, mbc2_written};
use crate::cartridge::mbc3::{Mbc3State, mbc3_written};
use crate::cartridge::mbc5::{Mbc5, mbc5_written};
use crate::bits::lemma_bit_values;
use crate::cpu::Cpu;
use crate::flags::{b2u, group_flags, cf, hf, nf, zf};
use crate::instructions::{
    add16, add8, pushed, rl_value, rlc_value, rr_value, rrc_value, sla_value, sra_value, srl_value,
    sub16, sub8, swap_value,
};
use crate::interconnect::{Interconnect, first_pending, kept_by_tick, pending};
use crate::timer::{Timer, timer_written};
use crate::interrupts::{InterruptType, interrupt_bit};
use crate::ppu::{
    Ppu, Rgb, SpriteEntry, has_priority, lemma_selected, selected, sprite_color, sprite_paints, sprite_rgb, sprite_row, sprite_height, bg_color, bit_set, data_area, line_drawn, line_pixel, line_prio, map_pixel, win_color, window_left,
    window_on,
};
use crate::joypad::{Joypad, Key, is_action, key_bit};
use crate::step::{
    serviced, adv, alu_a, alu_f, cb_step, low_z45, ei_applied, imm8, rot_f, rot_value, pair16, reg8, step, top_word, with_pair, with_reg8,
};

verus! {

broadcast use group_flags;

/// Pushing `hi:lo` below `sp` and reading the word at the new stack pointer
/// gives `hi:lo` back, where the stack is memory that time leaves alone.
pub proof fn law_pop_returns_push(m0: Interconnect, m1: Interconnect, sp: u16, hi: u8, lo: u8)
    requires
        pushed(m0, m1, sp, hi, lo),
        kept_by_tick(sub16(sp as int, 2)),
        kept_by_tick(add16(sub16(sp as int, 2) as int, 1)),
    ensures
        top_word(m1, sub16(sp as int, 2)) == hi * 256 + lo,
        add16(sub16(sp as int, 2) as int, 2) == sp,
{
}

/// RET right after CALL u16 comes back to the instruction after the call,
/// with the stack pointer and every register as they were before the call.
pub proof fn law_ret_undoes_call(c0: Cpu, m0: Interconnect, c1: Cpu, m1: Interconnect, c2: Cpu, m2: Interconnect)
    requires
        c0.opcode == 0xCD,
        step(c0, m0, c1, m1),
        step(Cpu { opcode: 0xC9, ..c1 }, m1, c2, m2),
        kept_by_tick(sub16(c0.sp as int, 2)),
        kept_by_tick(add16(sub16(c0.sp as int, 2) as int, 1)),
    ensures
        c2.pc == add16(c0.pc as int, 3),
        c2.sp == c0.sp,
        c2.registers == c0.registers,
        c2.ime == c0.ime && c2.halted == c0.halted,
{
    reveal(step);
    law_pop_returns_push(m0, m1, c0.sp, (add16(c0.pc as int, 3) / 256) as u8, (add16(c0.pc as int, 3) % 256) as u8);
}

/// PUSH of BC, DE or HL: the pair's bytes go below SP, SP drops by two.
proof fn lemma_push_step(c0: Cpu, m0: Interconnect, c1: Cpu, m1: Interconnect, p: u8)
    requires
        p < 3,
        c0.opcode == 0xC5 + 16 * p,
        step(c0, m0, c1, m1),
    ensures
        pushed(m0, m1, c0.sp, (pair16(c0, p) / 256) as u8, (pair16(c0, p) % 256) as u8),
        c1.sp == sub16(c0.sp as int, 2),
        c1.pc == add16(c0.pc as int, 1),
{
    reveal(step);
    assert(c0.opcode / 64 == 3 && (c0.opcode / 8) % 8 == 2 * p && c0.opcode % 8 == 5);
}

/// POP of BC, DE or HL: the pair takes the word at SP, SP rises by two.
proof fn lemma_pop_step(c0: Cpu, m0: Interconnect, c1: Cpu, m1: Interconnect, q: u8)
    requires
        q < 3,
        c0.opcode == 0xC1 + 16 * q,
        step(c0, m0, c1, m1),
    ensures
        pair16(c1, q) == top_word(m0, c0.sp),
        c1.sp == add16(c0.sp as int, 2),
        c1.pc == add16(c0.pc as int, 1),
{
    reveal(step);
    assert(c0.opcode / 64 == 3 && (c0.opcode / 8) % 8 == 2 * q && c0.opcode % 8 == 1);
}

/// POP of a register pair right after PUSH of a register pair (BC, DE or HL)
/// loads the pushed value, and the stack pointer is back where it was.
pub proof fn law_pop_after_push(c0: Cpu, m0: Interconnect, c1: Cpu, m1: Interconnect, c2: Cpu, m2: Interconnect, p: u8, q: u8)
    requires
        p < 3,
        q < 3,
        c0.opcode == 0xC5 + 16 * p,
        step(c0, m0, c1, m1),
        step(Cpu { opcode: (0xC1 + 16 * q) as u8, ..c1 }, m1, c2, m2),
        kept_by_tick(sub16(c0.sp as int, 2)),
        kept_by_tick(add16(sub16(c0.sp as int, 2) as int, 1)),
    ensures
        pair16(c2, q) == pair16(c0, p),
        c2.sp == c0.sp,
        c2.pc == add16(c0.pc as int, 2),
{
    let w = pair16(c0, p);
    let d = Cpu { opcode: (0xC1 + 16 * q) as u8, ..c1 };
    lemma_push_step(c0, m0, c1, m1, p);
    lemma_pop_step(d, m1, c2, m2, q);
    law_pop_returns_push(m0, m1, c0.sp, (w / 256) as u8, (w % 256) as u8);
}

/// INC r: the register gains one, PC moves on by one.
proof fn lemma_inc_step(c0: Cpu, m0: Interconnect, c1: Cpu, m1: Interconnect, r: u8)
    requires
        r < 8,
        r != 6,
        c0.opcode == 0x04 + 8 * r,
        step(c0, m0, c1, m1),
    ensures
        reg8(c1, r) == add8(reg8(c0, r) as int, 1),
        c1.pc == add16(c0.pc as int, 1),
{
    reveal(step);
    assert(c0.opcode / 64 == 0 && (c0.opcode / 8) % 8 == r && c0.opcode % 8 == 4);
}

/// DEC r: the register loses one, PC moves on by one.
proof fn lemma_dec_step(c0: Cpu, m0: Interconnect, c1: Cpu, m1: Interconnect, r: u8)
    requires
        r < 8,
        r != 6,
        c0.opcode == 0x05 + 8 * r,
        step(c0, m0, c1, m1),
    ensures
        reg8(c1, r) == sub8(reg8(c0, r) as int, 1),
        c1.pc == add16(c0.pc as int, 1),
{
    reveal(step);
    assert(c0.opcode / 64 == 0 && (c0.opcode / 8) % 8 == r && c0.opcode % 8 == 5);
}

/// DEC of a register right after INC of the same register gives the register
/// its value back.
pub proof fn law_dec_undoes_inc(c0: Cpu, m0: Interconnect, c1: Cpu, m1: Interconnect, c2: Cpu, m2: Interconnect, r: u8)
    requires
        r < 8,
        r != 6,
        c0.opcode == 0x04 + 8 * r,
        step(c0, m0, c1, m1),
        step(Cpu { opcode: (0x05 + 8 * r) as u8, ..c1 }, m1, c2, m2),
    ensures
        reg8(c2, r) == reg8(c0, r),
        c2.pc == add16(c0.pc as int, 2),
{
    let d = Cpu { opcode: (0x05 + 8 * r) as u8, ..c1 };
    lemma_inc_step(c0, m0, c1, m1, r);
    lemma_dec_step(d, m1, c2, m2, r);
    assert(reg8(d, r) == reg8(c1, r));
    let v = reg8(c0, r);
    assert(sub8(add8(v as int, 1) as int, 1) == v);
}

/// After EI, the master enable is still as it was; it comes on when the next
/// instruction starts.
pub proof fn law_ei_is_delayed(c0: Cpu, m0: Interconnect, c1: Cpu, m1: Interconnect)
    requires
        c0.opcode == 0xFB,
        step(c0, m0, c1, m1),
    ensures
        c1.ime == c0.ime,
        ei_applied(c1).ime,
{
    reveal(step);
}

/// Loading a register pair and reading it back gives the value loaded.
pub proof fn law_pair_reads_back(c: Cpu, p: u8, v: u16)
    requires
        p < 4,
    ensures
        pair16(with_pair(c, p, v), p) == v,
{
}

/// Rotating left then right, or right then left, gives the byte back; so do
/// RL then RR through the carry, and SWAP twice.
pub proof fn law_rotations_undo(v: u8, c: bool)
    ensures
        rrc_value(rlc_value(v)) == v,
        rlc_value(rrc_value(v)) == v,
        rr_value(rl_value(v, c), v >= 128) == v,
        rl_value(rr_value(v, c), v % 2 == 1) == v,
        swap_value(swap_value(v)) == v,
{
    assert({
        &&& rrc_value(rlc_value(v)) == v
        &&& rlc_value(rrc_value(v)) == v
        &&& rr_value(rl_value(v, c), v >= 128) == v
        &&& rl_value(rr_value(v, c), v % 2 == 1) == v
        &&& swap_value(swap_value(v)) == v
    }) by (bit_vector);
}

/// After SET n the bit reads 1; after RES n it reads 0; other bits keep.
pub proof fn law_set_res_bit(v: u8, n: u8)
    requires
        n < 8,
    ensures
        ((v | (1u8 << n)) >> n) & 1 == 1,
        ((v & !(1u8 << n)) >> n) & 1 == 0,
        forall|k: u8| k < 8 && k != n ==> #[trigger] (((v | (1u8 << n)) >> k) & 1) == (v >> k) & 1,
        forall|k: u8| k < 8 && k != n ==> #[trigger] (((v & !(1u8 << n)) >> k) & 1) == (v >> k) & 1,
{
    assert(n < 8 ==> ((v | (1u8 << n)) >> n) & 1 == 1 && ((v & !(1u8 << n)) >> n) & 1 == 0) by (bit_vector);
    assert forall|k: u8| k < 8 && k != n implies #[trigger] (((v | (1u8 << n)) >> k) & 1) == (v >> k) & 1 by {
        assert(k < 8 && n < 8 && k != n ==> (((v | (1u8 << n)) >> k) & 1) == (v >> k) & 1) by (bit_vector);
    }
    assert forall|k: u8| k < 8 && k != n implies #[trigger] (((v & !(1u8 << n)) >> k) & 1) == (v >> k) & 1 by {
        assert(k < 8 && n < 8 && k != n ==> (((v & !(1u8 << n)) >> k) & 1) == (v >> k) & 1) by (bit_vector);
    }
}

/// The interrupt served is pending, and no interrupt of higher priority is.
pub proof fn law_interrupt_priority(m: Interconnect)
    ensures
        first_pending(m) matches Some(i) ==> pending(m, interrupt_bit(i))
            && forall|j: u8| j < interrupt_bit(i) ==> !pending(m, j),
        first_pending(m) is None ==> forall|j: u8| j < 5 ==> !pending(m, j),
{
}

/// Pressing a key and releasing it leaves the joypad as it was when the key
/// was up before; a pressed key's bit reads 0.
pub proof fn law_press_release(pad: Joypad, mask: u8)
    requires
        pad.wf(),
        mask == 1 || mask == 2 || mask == 4 || mask == 8,
    ensures
        (pad.buttons & !mask) & mask == 0,
        (pad.directions & !mask) & mask == 0,
        pad.buttons & mask == mask ==> (pad.buttons & !mask) | mask == pad.buttons,
        pad.directions & mask == mask ==> (pad.directions & !mask) | mask == pad.directions,
{
    let b = pad.buttons;
    let d = pad.directions;
    assert((b & !mask) & mask == 0 && (b & mask == mask ==> (b & !mask) | mask == b)) by (bit_vector);
    assert((d & !mask) & mask == 0 && (d & mask == mask ==> (d & !mask) | mask == d)) by (bit_vector);
}

/// Header byte 0x147 is taken by `u8_to_cart_type` exactly for the codes
/// 0x00-0x03, 0x05, 0x06, 0x0F-0x13 and 0x19-0x1E. Each of them decodes to the
/// cartridge type that carries that code, so no two give the same type; a
/// type is decoded from its own code exactly when that code is taken, which
/// leaves out the ROM+RAM and MMM01 types (0x08, 0x09, 0x0B-0x0D).
pub proof fn law_cart_type_codes(v: u8, w: u8, t: CartridgeType)
    ensures
        supported_cart_type(v) <==> (v <= 0x03 || v == 0x05 || v == 0x06 || (0x0F <= v && v <= 0x13)
            || (0x19 <= v && v <= 0x1E)),
        supported_cart_type(v) ==> cart_type_code(cart_type_spec(v)) == v,
        supported_cart_type(v) && supported_cart_type(w) && cart_type_spec(v) == cart_type_spec(w) ==> v == w,
        supported_cart_type(cart_type_code(t)) ==> cart_type_spec(cart_type_code(t)) == t,
        !supported_cart_type(cart_type_code(t)) <==> (t == CartridgeType::ROMRAM1 || t == CartridgeType::ROMRAMBattery1
            || t == CartridgeType::MMM01 || t == CartridgeType::MMM01RAM || t == CartridgeType::MMM01RAMBattery),
{
}

/// Whether conditional opcode `op` (JR, RET, JP or CALL with a condition)
/// branches for flag byte `f`: the NZ forms when Z (bit 7) is clear, the Z
/// forms when it is set, the NC forms when C (bit 4) is clear, the C forms
/// when it is set.
pub open spec fn branches(op: u8, f: u8) -> bool {
    let z = f >= 0x80;
    let c = (f / 16) % 2 == 1;
    if op == 0x20 || op == 0xC0 || op == 0xC2 || op == 0xC4 {
        !z
    } else if op == 0x28 || op == 0xC8 || op == 0xCA || op == 0xCC {
        z
    } else if op == 0x30 || op == 0xD0 || op == 0xD2 || op == 0xD4 {
        !c
    } else {
        c
    }
}

/// JR cc,e (0x20, 0x28, 0x30, 0x38): when the condition holds PC moves to
/// the instruction after the jump plus the signed offset `e` and three
/// machine cycles pass; otherwise PC moves past the two bytes and two pass.
#[verifier::spinoff_prover]
pub proof fn law_jr_cc(c0: Cpu, m0: Interconnect, c1: Cpu, m1: Interconnect)
    requires
        step(c0, m0, c1, m1),
        c0.opcode == 0x20 || c0.opcode == 0x28 || c0.opcode == 0x30 || c0.opcode == 0x38,
    ensures
        ({
            let e = m0.read_spec(((c0.pc + 1) % 65536) as u16);
            let off: int = if e < 0x80 { e as int } else { e - 256 };
            &&& c1.pc == if branches(c0.opcode, c0.registers.f.data) {
                    (c0.pc + 2 + off) % 65536
                } else {
                    (c0.pc + 2) % 65536
                }
            &&& m1.ticks == if branches(c0.opcode, c0.registers.f.data) { 12u64 } else { 8u64 }
            &&& c1.sp == c0.sp && c1.registers == c0.registers
        }),
{
    reveal(step);
    lemma_bit_values(c0.registers.f.data);
}

/// JP cc,nn (0xC2, 0xCA, 0xD2, 0xDA): when the condition holds PC becomes the
/// little-endian word after the opcode (four machine cycles); otherwise PC
/// moves past the three bytes (three cycles).
#[verifier::spinoff_prover]
pub proof fn law_jp_cc(c0: Cpu, m0: Interconnect, c1: Cpu, m1: Interconnect)
    requires
        step(c0, m0, c1, m1),
        c0.opcode == 0xC2 || c0.opcode == 0xCA || c0.opcode == 0xD2 || c0.opcode == 0xDA,
    ensures
        ({
            let nn = m0.read_spec(((c0.pc + 2) % 65536) as u16) * 256 + m0.read_spec(((c0.pc + 1) % 65536) as u16);
            &&& c1.pc == if branches(c0.opcode, c0.registers.f.data) { nn } else { (c0.pc + 3) % 65536 }
            &&& m1.ticks == if branches(c0.opcode, c0.registers.f.data) { 16u64 } else { 12u64 }
            &&& c1.sp == c0.sp && c1.registers == c0.registers
        }),
{
    reveal(step);
    lemma_bit_values(c0.registers.f.data);
}

/// CALL cc,nn (0xC4, 0xCC, 0xD4, 0xDC): when the condition holds PC becomes
/// the word after the opcode, SP drops by two and six machine cycles pass;
/// otherwise PC moves past the three bytes, SP stays and three pass.
#[verifier::spinoff_prover]
pub proof fn law_call_cc(c0: Cpu, m0: Interconnect, c1: Cpu, m1: Interconnect)
    requires
        step(c0, m0, c1, m1),
        c0.opcode == 0xC4 || c0.opcode == 0xCC || c0.opcode == 0xD4 || c0.opcode == 0xDC,
    ensures
        ({
            let nn = m0.read_spec(((c0.pc + 2) % 65536) as u16) * 256 + m0.read_spec(((c0.pc + 1) % 65536) as u16);
            &&& c1.pc == if branches(c0.opcode, c0.registers.f.data) { nn } else { (c0.pc + 3) % 65536 }
            &&& c1.sp == if branches(c0.opcode, c0.registers.f.data) { (c0.sp + 65534) % 65536 } else { c0.sp as int }
            &&& m1.ticks == if branches(c0.opcode, c0.registers.f.data) { 24u64 } else { 12u64 }
        }),
{
    reveal(step);
    lemma_bit_values(c0.registers.f.data);
}

/// RET cc (0xC0, 0xC8, 0xD0, 0xD8): when the condition holds PC becomes the
/// word on the stack, SP rises by two and five machine cycles pass; otherwise
/// PC moves past the opcode, SP stays and two pass.
#[verifier::spinoff_prover]
pub proof fn law_ret_cc(c0: Cpu, m0: Interconnect, c1: Cpu, m1: Interconnect)
    requires
        step(c0, m0, c1, m1),
        c0.opcode == 0xC0 || c0.opcode == 0xC8 || c0.opcode == 0xD0 || c0.opcode == 0xD8,
    ensures
        ({
            let w = m0.read_spec(((c0.sp + 1) % 65536) as u16) * 256 + m0.read_spec(c0.sp);
            &&& c1.pc == if branches(c0.opcode, c0.registers.f.data) { w } else { (c0.pc + 1) % 65536 }
            &&& c1.sp == if branches(c0.opcode, c0.registers.f.data) { (c0.sp + 2) % 65536 } else { c0.sp as int }
            &&& m1.ticks == if branches(c0.opcode, c0.registers.f.data) { 20u64 } else { 8u64 }
        }),
{
    reveal(step);
    lemma_bit_values(c0.registers.f.data);
}

/// Each key owns one bit of its group's nibble: in the directions Right,
/// Left, Up and Down own bits 0, 1, 2 and 3, in the actions A, B, Select and
/// Start do; so two different keys of one group never share a bit, and
/// pressing a key leaves the bit of every other key of its group as it was.
pub proof fn law_key_bits(k1: Key, k2: Key, pad: Joypad)
    requires
        pad.wf(),
    ensures
        k1 == Key::Right || k1 == Key::A ==> key_bit(k1) == 1,
        k1 == Key::Left || k1 == Key::B ==> key_bit(k1) == 2,
        k1 == Key::Up || k1 == Key::Select ==> key_bit(k1) == 4,
        k1 == Key::Down || k1 == Key::Start ==> key_bit(k1) == 8,
        is_action(k1) <==> (k1 == Key::A || k1 == Key::B || k1 == Key::Select || k1 == Key::Start),
        k1 != k2 && is_action(k1) == is_action(k2) ==> key_bit(k1) & key_bit(k2) == 0,
        k1 != k2 && is_action(k1) == is_action(k2) ==>
            (pad.buttons & !key_bit(k1)) & key_bit(k2) == pad.buttons & key_bit(k2)
            && (pad.directions & !key_bit(k1)) & key_bit(k2) == pad.directions & key_bit(k2),
{
    let a = key_bit(k1);
    let b = key_bit(k2);
    let x = pad.buttons;
    let y = pad.directions;
    if k1 != k2 && is_action(k1) == is_action(k2) {
        assert(a != b);
        assert((a == 1 || a == 2 || a == 4 || a == 8) && (b == 1 || b == 2 || b == 4 || b == 8) && a != b
            ==> a & b == 0 && (x & !a) & b == x & b && (y & !a) & b == y & b) by (bit_vector);
    }
}

/// An MBC3 write to 0x2000-0x3FFF selects the ROM bank mapped at
/// 0x4000-0x7FFF: all eight bits of the value, 0 selecting bank 1, so two
/// different values other than 0 and 1 select different banks; RAM, its bank
/// and its enable stay.
pub proof fn law_mbc3_rom_bank(m0: Mbc3State, m1: Mbc3State, m2: Mbc3State, addr: u16, v: u8, w: u8)
    requires
        mbc3_written(m0, m1, addr, v),
        mbc3_written(m0, m2, addr, w),
        0x2000 <= addr <= 0x3FFF,
    ensures
        m1.rom_bank_number == (if v == 0 { 1 } else { v as int }),
        v != w && v > 1 && w > 1 ==> m1.rom_bank_number != m2.rom_bank_number,
        m1.rom@ == m0.rom@ && m1.ram@ == m0.ram@,
        m1.ram_bank_number == m0.ram_bank_number && m1.ram_enabled == m0.ram_enabled,
{
}

/// An MBC2 write to 0x0000-0x3FFF with bit 8 of the address set selects the
/// ROM bank: the low four bits of the value, 0 selecting bank 1.
pub proof fn law_mbc2_rom_bank(m0: Mbc2State, m1: Mbc2State, addr: u16, v: u8)
    requires
        mbc2_written(m0, m1, addr, v),
        addr <= 0x3FFF,
        (addr / 256) % 2 == 1,
    ensures
        m1.rom_bank_number == (if v % 16 == 0 { 1 } else { (v % 16) as int }),
        m1.rom@ == m0.rom@ && m1.ram@ == m0.ram@ && m1.ram_enabled == m0.ram_enabled,
{
}

/// An MBC5 write to 0x2000-0x2FFF sets the ROM bank to the value, 0 included;
/// a later write of an odd value to 0x3000-0x3FFF adds 0x100 (bit 8).
pub proof fn law_mbc5_rom_bank(m0: Mbc5, m1: Mbc5, m2: Mbc5, a1: u16, a2: u16, v: u8, w: u8)
    requires
        mbc5_written(m0, m1, a1, v),
        mbc5_written(m1, m2, a2, w),
        0x2000 <= a1 <= 0x2FFF,
        0x3000 <= a2 <= 0x3FFF,
    ensures
        m1.rom_bank_number == v,
        m2.rom_bank_number == (if w % 2 == 1 { v + 0x100 } else { v as int }),
        m2.ram_bank_number == m0.ram_bank_number && m2.ram_enabled == m0.ram_enabled,
{
}

/// The controller a cartridge gets is the one its header code names: MBC1
/// for 0x01-0x03, MBC2 for 0x05-0x06, MBC3 for 0x0F-0x13, MBC5 for
/// 0x19-0x1E, and none for ROM only (0x00).
pub proof fn law_controller_of_code(code: u8)
    requires
        supported_cart_type(code),
    ensures
        mbc_kind(cart_type_spec(code)) == if 0x01 <= code <= 0x03 {
            1int
        } else if code == 0x05 || code == 0x06 {
            2int
        } else if 0x0F <= code <= 0x13 {
            3int
        } else if 0x19 <= code <= 0x1E {
            5int
        } else {
            0int
        },
{
}

/// Colour number (0-3) of pixel (`fx`, `fy`) of the tile that the 32x32
/// tile map at `map` holds at (`col`, `row`). With LCDC bit 4 set tile `n`
/// lies at 0x8000 + 16n; with it clear tile numbers are signed and tile `n`
/// lies at 0x9000 + 16n. A tile row is two bytes, the first holding bit 0
/// and the second bit 1 of each pixel's colour, the leftmost pixel in bit 7.
pub open spec fn tile_map_color(p: &Ppu, map: int, row: int, col: int, fy: int, fx: int) -> u8 {
    let n = p.vram@[map + 32 * row + col - 0x8000];
    let tile: int = if (p.control / 16) % 2 == 1 {
        0x8000 + 16 * n
    } else {
        0x9000 + 16 * (if n < 0x80 { n as int } else { n - 256 })
    };
    let b0 = p.vram@[tile + 2 * fy - 0x8000];
    let b1 = p.vram@[tile + 2 * fy + 1 - 0x8000];
    let k = (7 - fx) as u8;
    (((b0 >> k) & 1u8) + 2 * ((b1 >> k) & 1u8)) as u8
}

/// The picture unit's tile lookup gives the colour `tile_map_color` names.
#[verifier::spinoff_prover]
#[verifier::rlimit(60)]
proof fn lemma_map_pixel_color(p: &Ppu, map: u16, row: u8, col: u8, fy: u8, fx: u8)
    requires
        map == 0x9800 || map == 0x9C00,
        row < 32 && col < 32 && fy < 8 && fx < 8,
    ensures
        map_pixel(p, map, row, col, fy, fx) == tile_map_color(p, map as int, row as int, col as int, fy as int, fx as int),
{
    lemma_bit_values(p.control);
    let n = p.vram@[map + col + row * 32 - 0x8000];
    assert(map + col + row * 32 - 0x8000 == map as int + 32 * row + col - 0x8000);
    if !bit_set(p.control, 4) {
        assert(data_area(p) == 0x8800);
        let t: u8 = n.wrapping_add(128);
        assert(0x8800 + t * 16 == 0x9000 + 16 * (if n < 0x80 { n as int } else { n - 256 }));
    } else {
        assert(data_area(p) == 0x8000);
    }
}

/// A drawn window pixel (LCDC bit 5 set, WY at or above LY, the column at or
/// right of WX - 7) comes from the tile map that LCDC bit 6 selects (0x9C00
/// when set, 0x9800 when clear), whatever LCDC bit 3 says, on window row
/// LY - WY; it marks the priority row when its colour is not 0 and, with
/// sprites off, shows that colour through the background palette.
#[verifier::spinoff_prover]
#[verifier::rlimit(60)]
pub proof fn law_window_pixel(p0: Ppu, p1: Ppu, x: int)
    requires
        line_drawn(&p0, &p1),
        p0.ly < 144,
        0 <= x < 160,
        (p0.control / 32) % 2 == 1,
        p0.window_y <= p0.ly,
        x >= (p0.window_x + 249) % 256,
    ensures
        ({
            let left = (p0.window_x + 249) % 256;
            let my = p0.ly - p0.window_y;
            let scrolled = (x + p0.scroll_x) % 256;
            let mx = if scrolled >= left { x - left } else { scrolled };
            let map = if (p0.control / 64) % 2 == 1 { 0x9C00int } else { 0x9800int };
            let color = tile_map_color(&p0, map, my / 8, mx / 8, my % 8, mx % 8);
            &&& p1.bg_prio@[x] == (color != 0)
            &&& (p0.control / 2) % 2 == 0 ==> p1.video_buffer@[160 * p0.ly + x] == p0.bg_palette@[color as int]
        }),
{
    lemma_bit_values(p0.control);
    let left = (p0.window_x + 249) % 256;
    assert(window_left(&p0) == left);
    assert(window_on(&p0));
    let xu = x as u8;
    let my = p0.ly - p0.window_y;
    let scrolled = (x + p0.scroll_x) % 256;
    let mx = if scrolled >= left { x - left } else { scrolled };
    assert(xu.wrapping_add(p0.scroll_x) == scrolled);
    let mxu: u8 = mx as u8;
    let myu: u8 = my as u8;
    let map: u16 = if bit_set(p0.control, 6) { 0x9C00u16 } else { 0x9800u16 };
    assert(win_color(&p0, xu) == map_pixel(&p0, map, myu / 8, mxu / 8, myu % 8, mxu % 8));
    lemma_map_pixel_color(&p0, map, myu / 8, mxu / 8, myu % 8, mxu % 8);
    assert(line_prio(&p0, x) == (win_color(&p0, xu) != 0));
    assert(p1.bg_prio@[x] == line_prio(&p0, x));
    if (p0.control / 2) % 2 == 0 {
        assert(!bit_set(p0.control, 1));
        assert(line_pixel(&p0, x) == p0.bg_palette@[win_color(&p0, xu) as int]);
        assert(p1.video_buffer@[160 * p0.ly + x] == line_pixel(&p0, x));
    }
}

/// A drawn background pixel outside the window (LCDC bit 0 set) comes from
/// the tile map that LCDC bit 3 selects, at the position scrolled by SCX and
/// SCY (wrapping at 256).
#[verifier::spinoff_prover]
#[verifier::rlimit(60)]
pub proof fn law_background_pixel(p0: Ppu, p1: Ppu, x: int)
    requires
        line_drawn(&p0, &p1),
        p0.ly < 144,
        0 <= x < 160,
        p0.control % 2 == 1,
        (p0.control / 32) % 2 == 0 || p0.window_y > p0.ly || x < (p0.window_x + 249) % 256,
    ensures
        ({
            let my = (p0.ly + p0.scroll_y) % 256;
            let mx = (x + p0.scroll_x) % 256;
            let map = if (p0.control / 8) % 2 == 1 { 0x9C00int } else { 0x9800int };
            let color = tile_map_color(&p0, map, my / 8, mx / 8, my % 8, mx % 8);
            &&& p1.bg_prio@[x] == (color != 0)
            &&& (p0.control / 2) % 2 == 0 ==> p1.video_buffer@[160 * p0.ly + x] == p0.bg_palette@[color as int]
        }),
{
    lemma_bit_values(p0.control);
    let xu = x as u8;
    assert(window_left(&p0) == (p0.window_x + 249) % 256);
    assert(!(window_on(&p0) && x >= window_left(&p0)));
    let my = (p0.ly + p0.scroll_y) % 256;
    let mx = (x + p0.scroll_x) % 256;
    let mxu: u8 = mx as u8;
    let myu: u8 = my as u8;
    assert(p0.ly.wrapping_add(p0.scroll_y) == myu && xu.wrapping_add(p0.scroll_x) == mxu);
    let map: u16 = if bit_set(p0.control, 3) { 0x9C00u16 } else { 0x9800u16 };
    assert(bg_color(&p0, xu) == map_pixel(&p0, map, myu / 8, mxu / 8, myu % 8, mxu % 8));
    lemma_map_pixel_color(&p0, map, myu / 8, mxu / 8, myu % 8, mxu % 8);
    assert(line_prio(&p0, x) == (bg_color(&p0, xu) != 0));
    assert(p1.bg_prio@[x] == line_prio(&p0, x));
    if (p0.control / 2) % 2 == 0 {
        assert(!bit_set(p0.control, 1));
        assert(line_pixel(&p0, x) == p0.bg_palette@[bg_color(&p0, xu) as int]);
        assert(p1.video_buffer@[160 * p0.ly + x] == line_pixel(&p0, x));
    }
}

/// The register an opcode names by the three-bit number `r`: 0 B, 1 C, 2 D,
/// 3 E, 4 H, 5 L, 7 A (6 names memory at HL).
pub open spec fn coded_register(c: Cpu, r: int) -> u8 {
    let g = c.registers;
    if r == 0 { g.b } else if r == 1 { g.c } else if r == 2 { g.d } else if r == 3 { g.e }
    else if r == 4 { g.h } else if r == 5 { g.l } else { g.a }
}

/// ALU operation `y` on A = `a` with operand `v` and carry `cin` (0 or 1),
/// written out: the new A, then the Z, N, H and C flags.
pub open spec fn alu_result(y: int, a: int, v: int, cin: int) -> int {
    if y == 0 { (a + v) % 256 } else if y == 1 { (a + v + cin) % 256 }
    else if y == 2 { (a - v + 256) % 256 } else if y == 3 { (a - v - cin + 512) % 256 }
    else if y == 4 { (a as u8 & v as u8) as int } else if y == 5 { (a as u8 ^ v as u8) as int }
    else if y == 6 { (a as u8 | v as u8) as int } else { a }
}

/// The flags ALU operation `y` leaves: Z, N, H and C in that order.
pub open spec fn alu_flags(y: int, a: int, v: int, cin: int) -> (bool, bool, bool, bool) {
    let r = alu_result(y, a, v, cin);
    (
        if y == 7 { a == v } else { r == 0 },
        y == 2 || y == 3 || y == 7,
        if y == 0 { a % 16 + v % 16 > 15 } else if y == 1 { a % 16 + v % 16 + cin > 15 }
            else if y == 2 || y == 7 { a % 16 < v % 16 } else if y == 3 { a % 16 < v % 16 + cin } else { y == 4 },
        if y == 0 { a + v > 255 } else if y == 1 { a + v + cin > 255 }
            else if y == 2 || y == 7 { a < v } else if y == 3 { a < v + cin } else { false },
    )
}

#[verifier::spinoff_prover]
#[verifier::rlimit(60)]
proof fn lemma_alu_raw(y: u8, a: u8, f: u8, v: u8)
    requires
        y < 8,
    ensures
        ({
            let cin: int = if (f / 16) % 2 == 1 { 1 } else { 0 };
            let f1 = alu_f(y, a, f, v);
            let fl = alu_flags(y as int, a as int, v as int, cin);
            &&& alu_a(y, a, f, v) == alu_result(y as int, a as int, v as int, cin)
            &&& (f1 >= 0x80) == fl.0
            &&& ((f1 / 64) % 2 == 1) == fl.1
            &&& ((f1 / 32) % 2 == 1) == fl.2
            &&& ((f1 / 16) % 2 == 1) == fl.3
        }),
{
    lemma_bit_values(f);
    let f1 = alu_f(y, a, f, v);
    lemma_bit_values(f1);
    assert(zf(f1) == (f1 >= 0x80) && nf(f1) == ((f1 / 64) % 2 == 1));
    assert(hf(f1) == ((f1 / 32) % 2 == 1) && cf(f1) == ((f1 / 16) % 2 == 1));
    assert(cf(f) == ((f / 16) % 2 == 1));
    if y == 0 {
        assert(alu_a(y, a, f, v) == (a + v) % 256);
    } else if y == 1 {
        assert(alu_a(y, a, f, v) == (a + v + b2u(cf(f))) % 256);
    } else if y == 2 {
        assert(alu_a(y, a, f, v) == (a - v + 256) % 256);
    } else if y == 3 {
        assert(alu_a(y, a, f, v) == (a - v - b2u(cf(f)) + 512) % 256);
    } else if y == 4 {
    } else if y == 5 {
    } else if y == 6 {
    } else {
    }
}

/// ALU operations on A with a register (0x80-0xBF, operand not (HL)): bits
/// 5-3 of the opcode pick ADD, ADC, SUB, SBC, AND, XOR, OR, CP and bits 2-0
/// the register. A becomes the sum or difference modulo 256 (with the carry
/// for ADC and SBC), the bitwise AND, XOR or OR, or stays (CP). Z is set when
/// that result (for CP: A - operand) is 0; N for the subtractions; H for a
/// carry out of or borrow into bit 4 (always for AND); C for a carry out of
/// bit 7 or a borrow (never for AND, XOR, OR). PC moves on by one and one
/// machine cycle passes.
#[verifier::spinoff_prover]
#[verifier::rlimit(60)]
pub proof fn law_alu_register(c0: Cpu, m0: Interconnect, c1: Cpu, m1: Interconnect)
    requires
        step(c0, m0, c1, m1),
        0x80 <= c0.opcode < 0xC0,
        c0.opcode % 8 != 6,
    ensures
        ({
            let y = ((c0.opcode / 8) % 8) as int;
            let a = c0.registers.a as int;
            let v = coded_register(c0, (c0.opcode % 8) as int) as int;
            let cin: int = if (c0.registers.f.data / 16) % 2 == 1 { 1 } else { 0 };
            let f1 = c1.registers.f.data;
            let fl = alu_flags(y, a, v, cin);
            &&& c1.registers.a == alu_result(y, a, v, cin)
            &&& (f1 >= 0x80) == fl.0 && ((f1 / 64) % 2 == 1) == fl.1
            &&& ((f1 / 32) % 2 == 1) == fl.2 && ((f1 / 16) % 2 == 1) == fl.3
            &&& c1.pc == (c0.pc + 1) % 65536 && m1.ticks == 4
        }),
{
    reveal(step);
    let y = (c0.opcode / 8) % 8;
    let z = c0.opcode % 8;
    let v = reg8(c0, z);
    assert(v == coded_register(c0, z as int));
    lemma_alu_raw(y, c0.registers.a, c0.registers.f.data, v);
}

/// LD r,r' (0x40-0x7F, neither operand (HL), not HALT): the register that
/// bits 5-3 name takes the value of the register that bits 2-0 name; every
/// other register, SP and the flags stay; PC moves on by one.
#[verifier::spinoff_prover]
pub proof fn law_ld_register(c0: Cpu, m0: Interconnect, c1: Cpu, m1: Interconnect, r: int)
    requires
        step(c0, m0, c1, m1),
        0x40 <= c0.opcode < 0x80,
        (c0.opcode / 8) % 8 != 6,
        c0.opcode % 8 != 6,
        0 <= r < 8 && r != 6,
    ensures
        coded_register(c1, r) == if r == (c0.opcode / 8) % 8 {
            coded_register(c0, (c0.opcode % 8) as int)
        } else {
            coded_register(c0, r)
        },
        c1.registers.f == c0.registers.f && c1.sp == c0.sp,
        c1.pc == (c0.pc + 1) % 65536,
{
    reveal(step);
}

/// Serving an interrupt jumps to its vector: 0x40 VBlank, 0x48 LCD STAT,
/// 0x50 timer, 0x58 serial, 0x60 joypad; the one served is the pending one
/// with the lowest bit.
pub proof fn law_interrupt_vector(c0: Cpu, m0: Interconnect, c1: Cpu, m1: Interconnect)
    requires
        serviced(c0, m0, c1, m1),
        c0.ime,
        first_pending(m0) is Some,
    ensures
        ({
            let i = first_pending(m0)->0;
            &&& i == InterruptType::VBlank ==> c1.pc == 0x40
            &&& i == InterruptType::LcdStat ==> c1.pc == 0x48
            &&& i == InterruptType::Timer ==> c1.pc == 0x50
            &&& i == InterruptType::Serial ==> c1.pc == 0x58
            &&& i == InterruptType::Joypad ==> c1.pc == 0x60
            &&& c1.sp == (c0.sp + 65534) % 65536 && !c1.ime
        }),
{
}

/// Selecting a TIMA clock through TAC (a write to 0xFF07 that changes its low
/// two bits) restarts it with a period of 1024, 16, 64 or 256 T-cycles for
/// the selects 0, 1, 2 and 3 (4096, 262144, 65536 and 16384 Hz).
pub proof fn law_timer_period(t0: Timer, t1: Timer, v: u8)
    requires
        timer_written(t0, t1, 0xFF07, v),
        t0.tac % 4 != v % 4,
    ensures
        t1.tima_clock.n == 0,
        t1.tima_clock.period == if v % 4 == 0 { 1024u32 } else if v % 4 == 1 { 16u32 }
            else if v % 4 == 2 { 64u32 } else { 256u32 },
        4194304int / (t1.tima_clock.period as int) == if v % 4 == 0 { 4096int } else if v % 4 == 1 { 262144int }
            else if v % 4 == 2 { 65536int } else { 16384int },
{
}

/// Rotate or shift `y` of byte `v` with carry `cin`, written out: RLC, RRC,
/// RL, RR, SLA, SRA, SWAP, SRL.
pub open spec fn shifted(y: int, v: int, cin: int) -> int {
    if y == 0 { (2 * v + v / 128) % 256 } else if y == 1 { v / 2 + 128 * (v % 2) }
    else if y == 2 { (2 * v + cin) % 256 } else if y == 3 { v / 2 + 128 * cin }
    else if y == 4 { (2 * v) % 256 } else if y == 5 { v / 2 + 128 * (v / 128) }
    else if y == 6 { 16 * (v % 16) + v / 16 } else { v / 2 }
}

/// CB-prefixed rotates and shifts of a register (CB 0x00-0x3F, operand not
/// (HL)): bits 5-3 of the second byte pick RLC, RRC, RL, RR, SLA, SRA, SWAP,
/// SRL and bits 2-0 the register, which takes the shifted value; C takes the
/// bit shifted out (bit 7 for the left shifts, bit 0 for the right ones,
/// cleared by SWAP), Z is set when the result is 0, N and H are cleared; the
/// other registers stay, PC moves on by two and two machine cycles pass.
#[verifier::spinoff_prover]
#[verifier::rlimit(60)]
pub proof fn law_cb_shift_register(c0: Cpu, m0: Interconnect, c1: Cpu, m1: Interconnect, r: int)
    requires
        step(c0, m0, c1, m1),
        c0.opcode == 0xCB,
        m0.read_spec(((c0.pc + 1) % 65536) as u16) < 0x40,
        m0.read_spec(((c0.pc + 1) % 65536) as u16) % 8 != 6,
        0 <= r < 8 && r != 6,
    ensures
        ({
            let cb = m0.read_spec(((c0.pc + 1) % 65536) as u16);
            let y = (cb / 8) as int;
            let z = (cb % 8) as int;
            let v = coded_register(c0, z) as int;
            let cin: int = if (c0.registers.f.data / 16) % 2 == 1 { 1 } else { 0 };
            let res = shifted(y, v, cin);
            let f1 = c1.registers.f.data;
            &&& coded_register(c1, r) == if r == z { res } else { coded_register(c0, r) as int }
            &&& ((f1 / 16) % 2 == 1) == (if y == 6 { false } else if y == 0 || y == 2 || y == 4 { v >= 128 } else { v % 2 == 1 })
            &&& (f1 >= 0x80) == (res == 0)
            &&& (f1 / 64) % 2 == 0 && (f1 / 32) % 2 == 0
            &&& c1.pc == (c0.pc + 2) % 65536 && c1.sp == c0.sp
        }),
{
    lemma_cb_is_cb_step(c0, m0, c1, m1);
    let cb = m0.read_spec(((c0.pc + 1) % 65536) as u16);
    assert(imm8(c0, m0) == cb);
    let y = cb / 8;
    let z = cb % 8;
    let v = reg8(c0, z);
    assert(v == coded_register(c0, z as int));
    lemma_shift_raw(y, v, c0.registers.f.data);
}

#[verifier::spinoff_prover]
proof fn lemma_cb_is_cb_step(c0: Cpu, m0: Interconnect, c1: Cpu, m1: Interconnect)
    requires
        step(c0, m0, c1, m1),
        c0.opcode == 0xCB,
    ensures
        cb_step(c0, m0, c1, m1, imm8(c0, m0)),
{
    reveal(step);
}

#[verifier::spinoff_prover]
#[verifier::rlimit(60)]
proof fn lemma_shift_raw(y: u8, v: u8, f: u8)
    requires
        y < 8,
    ensures
        ({
            let cin: int = if (f / 16) % 2 == 1 { 1 } else { 0 };
            let f1 = rot_f(y, v, f);
            let res = shifted(y as int, v as int, cin);
            &&& rot_value(y, v, f) == res
            &&& ((f1 / 16) % 2 == 1) == (if y == 6 { false } else if y == 0 || y == 2 || y == 4 { v >= 128 } else { v % 2 == 1 })
            &&& (f1 >= 0x80) == (res == 0)
            &&& (f1 / 64) % 2 == 0 && (f1 / 32) % 2 == 0
        }),
{
    lemma_bit_values(f);
    let f1 = rot_f(y, v, f);
    lemma_bit_values(f1);
    assert(zf(f1) == (f1 >= 0x80) && nf(f1) == ((f1 / 64) % 2 == 1));
    assert(hf(f1) == ((f1 / 32) % 2 == 1) && cf(f1) == ((f1 / 16) % 2 == 1));
    let cin: int = if (f / 16) % 2 == 1 { 1 } else { 0 };
    assert(b2u(cf(f)) == cin);
    if y == 0 {
        assert(rot_value(y, v, f) == rlc_value(v));
    } else if y == 1 {
        assert(rot_value(y, v, f) == rrc_value(v));
    } else if y == 2 {
        assert(rot_value(y, v, f) == rl_value(v, cf(f)));
    } else if y == 3 {
        assert(rot_value(y, v, f) == rr_value(v, cf(f)));
    } else if y == 4 {
        assert(rot_value(y, v, f) == sla_value(v));
    } else if y == 5 {
        assert(rot_value(y, v, f) == sra_value(v));
    } else if y == 6 {
        assert(rot_value(y, v, f) == swap_value(v));
    } else {
        assert(rot_value(y, v, f) == srl_value(v));
    }
}

/// INC r and DEC r (0x04/0x05 + 8r, r not (HL)): the register gains or
/// loses one modulo 256; Z is set when the result is 0, N for DEC, H on a
/// carry out of bit 3 (INC of a value ending in 0xF) or a borrow into it (DEC
/// of a value ending in 0x0); C stays; PC moves on by one, one cycle passes.
#[verifier::spinoff_prover]
#[verifier::rlimit(60)]
pub proof fn law_inc_dec_register(c0: Cpu, m0: Interconnect, c1: Cpu, m1: Interconnect, r: int)
    requires
        step(c0, m0, c1, m1),
        c0.opcode < 0x40,
        c0.opcode % 8 == 4 || c0.opcode % 8 == 5,
        (c0.opcode / 8) % 8 != 6,
        0 <= r < 8 && r != 6,
    ensures
        ({
            let y = ((c0.opcode / 8) % 8) as int;
            let inc = c0.opcode % 8 == 4;
            let v = coded_register(c0, y) as int;
            let res = if inc { (v + 1) % 256 } else { (v + 255) % 256 };
            let f0 = c0.registers.f.data;
            let f1 = c1.registers.f.data;
            &&& coded_register(c1, r) == if r == y { res } else { coded_register(c0, r) as int }
            &&& (f1 >= 0x80) == (res == 0)
            &&& ((f1 / 64) % 2 == 1) == !inc
            &&& ((f1 / 32) % 2 == 1) == (if inc { v % 16 == 15 } else { v % 16 == 0 })
            &&& (f1 / 16) % 2 == (f0 / 16) % 2
            &&& c1.pc == (c0.pc + 1) % 65536 && m1.ticks == 4
        }),
{
    lemma_inc_dec_is_low_z45(c0, m0, c1, m1);
    let f0 = c0.registers.f.data;
    let f1 = c1.registers.f.data;
    lemma_bit_values(f0);
    lemma_bit_values(f1);
    assert(zf(f1) == (f1 >= 0x80) && nf(f1) == ((f1 / 64) % 2 == 1));
    assert(hf(f1) == ((f1 / 32) % 2 == 1) && cf(f1) == ((f1 / 16) % 2 == 1));
    assert(cf(f0) == ((f0 / 16) % 2 == 1));
}

#[verifier::spinoff_prover]
proof fn lemma_inc_dec_is_low_z45(c0: Cpu, m0: Interconnect, c1: Cpu, m1: Interconnect)
    requires
        step(c0, m0, c1, m1),
        c0.opcode < 0x40,
        c0.opcode % 8 == 4 || c0.opcode % 8 == 5,
    ensures
        low_z45(c0, m0, c1, m1),
{
    reveal(step);
}

/// Colour number (0-3) that sprite `s` (already placed on screen) shows at
/// column `x` on line LY: sprites are 16 lines tall when LCDC bit 2 is set
/// (an even/odd tile pair), else 8; flag bit 6 mirrors the lines and flag
/// bit 5 the columns; tile rows are read from tile data at 0x8000 as two
/// bytes, the first giving bit 0 of the colour.
pub open spec fn sprite_pixel(p: &Ppu, s: SpriteEntry, x: int) -> u8 {
    let h: int = if (p.control / 4) % 2 == 1 { 16 } else { 8 };
    let dy = (p.ly - s.y + 256) % 256;
    let line = if (s.flags / 64) % 2 == 1 { h - 1 - dy } else { dy };
    let first: int = if h == 16 { s.tile_index - s.tile_index % 2 } else { s.tile_index as int };
    let row = 16 * (first + line / 8) + 2 * (line % 8);
    let col = (x - s.x) % 256;
    let k: u8 = if (s.flags / 32) % 2 == 1 { col as u8 } else { (7 - col) as u8 };
    (((p.vram@[row] >> k) & 1u8) + 2 * ((p.vram@[row + 1] >> k) & 1u8)) as u8
}

/// A column that a sprite paints, with sprites on (LCDC bit 1): the sprite
/// covers the column (one of its eight), its colour there is not 0, and when
/// its flag bit 7 is set the background there has colour 0; the column then
/// shows that colour through object palette 1 (flag bit 4 set) or 0, when
/// no sprite of higher priority paints it.
#[verifier::spinoff_prover]
pub proof fn law_sprite_pixel(p0: Ppu, p1: Ppu, x: int, j: int)
    requires
        p0.wf(),
        line_drawn(&p0, &p1),
        p0.ly < 144,
        (p0.control / 2) % 2 == 1,
        0 <= j < selected(&p0, 40).len(),
        sprite_paints(&p0, p1.bg_prio@, selected(&p0, 40)[j].1, x),
        forall|j2: int| 0 <= j2 < selected(&p0, 40).len()
            && sprite_paints(&p0, p1.bg_prio@, #[trigger] selected(&p0, 40)[j2].1, x)
            ==> has_priority(selected(&p0, 40)[j], selected(&p0, 40)[j2]),
    ensures
        ({
            let s = selected(&p0, 40)[j].1;
            let c = sprite_pixel(&p0, s, x);
            &&& 0 <= x < 160 && (x - s.x) % 256 < 8 && c != 0
            &&& (s.flags / 128) % 2 == 1 ==> !p1.bg_prio@[x]
            &&& p1.video_buffer@[160 * p0.ly + x] == if (s.flags / 16) % 2 == 1 {
                    p0.sprite1_palette@[c as int]
                } else {
                    p0.sprite0_palette@[c as int]
                }
        }),
{
    let sel = selected(&p0, 40);
    let s = sel[j].1;
    lemma_bit_values(p0.control);
    lemma_bit_values(s.flags);
    lemma_selected(&p0, 40);
    assert((p0.ly.wrapping_sub(s.y) as int) < sprite_height(&p0));
    lemma_sprite_pixel(&p0, s, x);
    assert(sprite_rgb(&p0, s, x) == p1.video_buffer@[160 * p0.ly + x]);
}

#[verifier::spinoff_prover]
proof fn lemma_sprite_pixel(p: &Ppu, s: SpriteEntry, x: int)
    requires
        0 <= (x - s.x) % 256 < 8,
        (p.ly.wrapping_sub(s.y) as int) < sprite_height(p),
    ensures
        sprite_color(p, s, x) == sprite_pixel(p, s, x),
{
    lemma_sprite_row(p, s);
    lemma_bit_values(s.flags);
}

#[verifier::spinoff_prover]
proof fn lemma_sprite_row(p: &Ppu, s: SpriteEntry)
    requires
        (p.ly.wrapping_sub(s.y) as int) < sprite_height(p),
    ensures
        sprite_row(p, s) == {
            let h: int = if (p.control / 4) % 2 == 1 { 16 } else { 8 };
            let dy = (p.ly - s.y + 256) % 256;
            let line = if (s.flags / 64) % 2 == 1 { h - 1 - dy } else { dy };
            let first: int = if h == 16 { s.tile_index - s.tile_index % 2 } else { s.tile_index as int };
            16 * (first + line / 8) + 2 * (line % 8)
        },
{
    lemma_bit_values(p.control);
    lemma_bit_values(s.flags);
    lemma_bit_values(s.tile_index);
    let h = sprite_height(p);
    assert(h == if (p.control / 4) % 2 == 1 { 16u8 } else { 8u8 });
    let dy = p.ly.wrapping_sub(s.y);
    assert(dy == (p.ly - s.y + 256) % 256);
    let base = s.tile_index as u16;
    assert((base & 0xFE) == s.tile_index - s.tile_index % 2);
}

/// 1 for a high step, 0 for a low one.
pub open spec fn high(b: bool) -> int {
    if b { 1 } else { 0 }
}

/// The duty settings 0-3 keep a square wave high for 1, 2, 4 and 6 of its
/// eight steps (12.5%, 25%, 50%, 75%), and the 75% wave is the 25% wave
/// upside down.
pub proof fn law_duty_fractions(d: u8, s: i32)
    requires
        d < 4,
        0 <= s < 8,
    ensures
        high(duty_spec(d, 0)) + high(duty_spec(d, 1)) + high(duty_spec(d, 2)) + high(duty_spec(d, 3))
            + high(duty_spec(d, 4)) + high(duty_spec(d, 5)) + high(duty_spec(d, 6)) + high(duty_spec(d, 7))
            == if d == 0 { 1int } else if d == 1 { 2int } else if d == 2 { 4int } else { 6int },
        duty_spec(3, s) == !duty_spec(1, s),
{
}

/// The noise channel's timer period is 16 times its divisor code, with code
/// 0 counting as one half.
pub proof fn law_noise_divisor(code: u8)
    requires
        code < 8,
    ensures
        divisor_spec(code) == if code == 0 { 8int } else { 16 * code },
{
}

/// An MBC1 write to 0x2000-0x3FFF whose low five bits are not all zero
/// selects the ROM bank those five bits give; RAM and the banking mode stay.
pub proof fn law_mbc1_rom_bank(m0: Mbc1State, m1: Mbc1State, addr: u16, v: u8)
    requires
        mbc1_written(m0, m1, addr, v),
        0x2000 <= addr <= 0x3FFF,
        v % 32 != 0,
    ensures
        m1.rom_bank_number == v % 32,
        m1.ram@ == m0.ram@ && m1.ram_bank_number == m0.ram_bank_number,
        m1.banking_mode == m0.banking_mode && m1.ram_enabled == m0.ram_enabled,
{
}

} // verus!
