use vstd::prelude::*;

verus! {

/// The eight buttons of the Game Boy.
#[derive(Debug, Clone, Copy, PartialEq, Eq, Structural)]
pub enum Key {
    Right,
    Left,
    Up,
    Down,
    A,
    B,
    Start,
    Select,
}

/// The bit a key owns in its nibble of the joypad register.
pub open spec fn key_bit(key: Key) -> u8 {
    match key {
        Key::Right | Key::A => 0b0001,
        Key::Left | Key::B => 0b0010,
        Key::Up | Key::Select => 0b0100,
        Key::Down | Key::Start => 0b1000,
    }
}

/// Whether a key belongs to the action buttons (A, B, Start, Select).
pub open spec fn is_action(key: Key) -> bool {
    key == Key::A || key == Key::B || key == Key::Start || key == Key::Select
}

/// The bit a key owns in its nibble of the joypad register.
pub fn key_to_u8(key: &Key) -> (r: u8)
    ensures
        r == key_bit(*key),
{
    match key {
        Key::Right | Key::A => 0b0001,
        Key::Left | Key::B => 0b0010,
        Key::Up | Key::Select => 0b0100,
        Key::Down | Key::Start => 0b1000,
    }
}

/// The joypad register: a nibble of action buttons and one of directions
/// (a 0 bit is a pressed key) and the two group selects (0 selects).
#[derive(Debug, Clone, Copy)]
pub struct Joypad {
    pub buttons: u8,
    pub directions: u8,
    pub select_direction: u8,
    pub select_action: u8,
}

impl Joypad {
    pub open spec fn wf(&self) -> bool {
        self.buttons < 16 && self.directions < 16 && self.select_direction < 2 && self.select_action < 2
    }

    /// No key pressed and neither group selected.
    pub fn init() -> (pad: Joypad)
        ensures
            pad.buttons == 0xF && pad.directions == 0xF,
            pad.select_direction == 1 && pad.select_action == 1,
            pad.wf(),
    {
        Joypad { buttons: 0xF, directions: 0xF, select_direction: 0x1, select_action: 0x1 }
    }

    /// Clears the key's bit in its group.
    pub fn key_down(&mut self, key: Key)
        requires
            old(self).wf(),
        ensures
            final(self).wf(),
            is_action(key) ==> *final(self) == (Joypad { buttons: old(self).buttons & !key_bit(key), ..*old(self) }),
            !is_action(key) ==> *final(self) == (Joypad { directions: old(self).directions & !key_bit(key), ..*old(self) }),
    {
        let k: u8 = key_to_u8(&key);
        match key {
            Key::A | Key::B | Key::Start | Key::Select => {
                let b: u8 = self.buttons;
                proof { assert(b < 16 ==> b & !k < 16) by (bit_vector); }
                self.buttons = b & !k;
            },
            Key::Right | Key::Left | Key::Up | Key::Down => {
                let d: u8 = self.directions;
                proof { assert(d < 16 ==> d & !k < 16) by (bit_vector); }
                self.directions = d & !k;
            },
        }
    }

    /// Sets the key's bit in its group.
    pub fn key_up(&mut self, key: Key)
        requires
            old(self).wf(),
        ensures
            final(self).wf(),
            is_action(key) ==> *final(self) == (Joypad { buttons: old(self).buttons | key_bit(key), ..*old(self) }),
            !is_action(key) ==> *final(self) == (Joypad { directions: old(self).directions | key_bit(key), ..*old(self) }),
    {
        let k: u8 = key_to_u8(&key);
        match key {
            Key::A | Key::B | Key::Start | Key::Select => {
                let b: u8 = self.buttons;
                proof { assert(b < 16 && k < 16 ==> b | k < 16) by (bit_vector); }
                self.buttons = b | k;
            },
            Key::Right | Key::Left | Key::Up | Key::Down => {
                let d: u8 = self.directions;
                proof { assert(d < 16 && k < 16 ==> d | k < 16) by (bit_vector); }
                self.directions = d | k;
            },
        }
    }

    /// The selected group's nibble (directions first), or 0xFF when none is selected.
    pub fn read(&self) -> (r: u8)
        ensures
            self.select_direction == 0 ==> r == self.directions,
            self.select_direction != 0 && self.select_action == 0 ==> r == self.buttons,
            self.select_direction != 0 && self.select_action != 0 ==> r == 0xFF,
    {
        if self.select_direction == 0 {
            return self.directions;
        }
        if self.select_action == 0 {
            return self.buttons;
        }
        0xFF
    }

    /// Bit 4 of `value` clear selects the action buttons, bit 5 clear the directions.
    pub fn write(&mut self, value: u8)
        requires
            old(self).wf(),
        ensures
            final(self).wf(),
            final(self).select_action == (if (value / 16) % 2 == 1 { 0u8 } else { 1u8 }),
            final(self).select_direction == (if (value / 32) % 2 == 1 { 0u8 } else { 1u8 }),
            final(self).buttons == old(self).buttons && final(self).directions == old(self).directions,
    {
        let select: u8 = (value & 0b0011_0000) >> 4;
        let buttons: u8 = (!(select & 0b01)) & 1;
        let directions: u8 = (!((select & 0b10) >> 1)) & 1;
        proof {
            assert({
                let s = (value & 0x30u8) >> 4u8;
                &&& (!(s & 1u8)) & 1u8 == (if (value / 16) % 2 == 1 { 0u8 } else { 1u8 })
                &&& (!((s & 2u8) >> 1u8)) & 1u8 == (if (value / 32) % 2 == 1 { 0u8 } else { 1u8 })
            }) by (bit_vector);
        }
        self.select_action = buttons;
        self.select_direction = directions;
    }
}

} // verus!
