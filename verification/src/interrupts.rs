use vstd::prelude::*;

verus! {

/// The five interrupt sources, in priority order.
#[derive(Debug, PartialEq, Eq, Clone, Copy, Structural)]
pub enum InterruptType {
    VBlank,
    LcdStat,
    Timer,
    Serial,
    Joypad,
}

/// The bit of IE and IF that an interrupt owns.
pub open spec fn interrupt_bit(i: InterruptType) -> u8 {
    match i {
        InterruptType::VBlank => 0,
        InterruptType::LcdStat => 1,
        InterruptType::Timer => 2,
        InterruptType::Serial => 3,
        InterruptType::Joypad => 4,
    }
}

/// The bit of IE and IF that an interrupt owns (its place in priority order).
pub fn interrupt_index(interrupt: InterruptType) -> (r: u8)
    ensures
        r == interrupt_bit(interrupt),
        r < 5,
{
    match interrupt {
        InterruptType::VBlank => 0,
        InterruptType::LcdStat => 1,
        InterruptType::Timer => 2,
        InterruptType::Serial => 3,
        InterruptType::Joypad => 4,
    }
}

/// The interrupt that owns bit `i` of IE and IF.
pub open spec fn interrupt_at(i: int) -> InterruptType {
    if i == 0 {
        InterruptType::VBlank
    } else if i == 1 {
        InterruptType::LcdStat
    } else if i == 2 {
        InterruptType::Timer
    } else if i == 3 {
        InterruptType::Serial
    } else {
        InterruptType::Joypad
    }
}

/// The interrupt that owns bit `index` of IE and IF.
pub fn interrupt_from_index(index: u8) -> (r: InterruptType)
    requires
        index < 5,
    ensures
        r == interrupt_at(index as int),
        interrupt_bit(r) == index,
{
    match index {
        0 => InterruptType::VBlank,
        1 => InterruptType::LcdStat,
        2 => InterruptType::Timer,
        3 => InterruptType::Serial,
        _ => InterruptType::Joypad,
    }
}

/// The address of the routine that serves an interrupt.
pub fn handler_address(interrupt: InterruptType) -> (r: u16)
    ensures
        interrupt == InterruptType::VBlank ==> r == 0x40,
        interrupt == InterruptType::LcdStat ==> r == 0x48,
        interrupt == InterruptType::Timer ==> r == 0x50,
        interrupt == InterruptType::Serial ==> r == 0x58,
        interrupt == InterruptType::Joypad ==> r == 0x60,
{
    match interrupt {
        InterruptType::VBlank => 0x40,
        InterruptType::LcdStat => 0x48,
        InterruptType::Timer => 0x50,
        InterruptType::Serial => 0x58,
        InterruptType::Joypad => 0x60,
    }
}

} // verus!
