use vstd::prelude::*;

verus! {

/// The length counter of a channel: while enabled it counts the length
/// down, and the channel stops when it reaches 0.
#[derive(Clone, Copy)]
pub struct LengthCounter {
    pub enabled: bool,
    pub full_length: i32,
    pub length: i32,
    pub frame_sequencer: i32,
}

/// The length after an NRx4 write of `value` (bit 6 enables the counter,
/// bit 7 triggers the channel).
pub open spec fn nr4_length(lc: LengthCounter, value: u8) -> i32 {
    let enable = (value >> 6) & 1 != 0;
    let trigger = (value >> 7) & 1 != 0;
    if lc.enabled {
        if trigger && lc.length == 0 { (lc.full_length - 1) as i32 } else { lc.full_length }
    } else if enable {
        if lc.frame_sequencer & 1 == 0 {
            let l = if lc.length != 0 { (lc.length - 1) as i32 } else { lc.length };
            if trigger && l == 0 { (lc.full_length - 1) as i32 } else { l }
        } else {
            lc.length
        }
    } else {
        if trigger && lc.length == 0 { lc.full_length } else { lc.length }
    }
}

/// The counter after one length clock.
pub open spec fn lc_stepped(lc: LengthCounter) -> LengthCounter {
    if lc.enabled && lc.length > 0 { LengthCounter { length: (lc.length - 1) as i32, ..lc } } else { lc }
}

/// The counter after an NRx4 write.
pub open spec fn lc_written(lc: LengthCounter, value: u8) -> LengthCounter {
    LengthCounter { length: nr4_length(lc, value), enabled: (value >> 6) & 1 != 0, ..lc }
}

/// The counter after power-off.
pub open spec fn lc_off(lc: LengthCounter) -> LengthCounter {
    LengthCounter { enabled: false, frame_sequencer: 0, ..lc }
}

impl LengthCounter {
    /// The counts that a write may decrement stay above the least `i32`.
    pub open spec fn counts_ok(&self) -> bool {
        self.full_length > i32::MIN && self.length > i32::MIN
    }

    pub fn new() -> (lc: LengthCounter)
        ensures
            lc == (LengthCounter { enabled: false, full_length: 0, length: 0, frame_sequencer: 0 }),
    {
        LengthCounter { enabled: false, full_length: 0, length: 0, frame_sequencer: 0 }
    }

    pub fn enabled(&self) -> (r: bool)
        ensures
            r == self.enabled,
    {
        self.enabled
    }

    /// The length has run out.
    pub fn zero(&self) -> (r: bool)
        ensures
            r == (self.length == 0),
    {
        self.length == 0
    }

    pub fn set_length(&mut self, value: u8)
        ensures
            *final(self) == (LengthCounter { length: value as i32, ..*old(self) }),
    {
        self.length = value as i32;
    }

    pub fn length(&self) -> (r: i32)
        ensures
            r == self.length,
    {
        self.length
    }

    pub fn set_full_length(&mut self, value: i32)
        ensures
            *final(self) == (LengthCounter { full_length: value, ..*old(self) }),
    {
        self.full_length = value;
    }

    pub fn full_length(&self) -> (r: i32)
        ensures
            r == self.full_length,
    {
        self.full_length
    }

    pub fn set_frame_sequencer(&mut self, frame_sequencer: i32)
        ensures
            *final(self) == (LengthCounter { frame_sequencer: frame_sequencer, ..*old(self) }),
    {
        self.frame_sequencer = frame_sequencer;
    }

    pub fn frame_sequencer(&self) -> (r: i32)
        ensures
            r == self.frame_sequencer,
    {
        self.frame_sequencer
    }

    /// One length clock: an enabled counter above 0 counts down by one.
    pub fn step(&mut self)
        ensures
            *final(self) == lc_stepped(*old(self)),
    {
        if self.enabled && self.length > 0 {
            self.length = self.length - 1;
        }
    }

    /// The counter is disabled and the frame sequencer position cleared.
    pub fn power_off(&mut self)
        ensures
            *final(self) == lc_off(*old(self)),
    {
        self.enabled = false;
        self.frame_sequencer = 0;
    }

    /// NRx4: bit 6 enables the counter, bit 7 triggers the channel; the
    /// length is reloaded or clocked as the hardware does on such writes.
    pub fn write_nr4(&mut self, value: u8)
        requires
            old(self).counts_ok(),
        ensures
            *final(self) == lc_written(*old(self), value),
    {
        let enable: bool = ((value >> 6) & 1) != 0;
        let trigger: bool = ((value >> 7) & 1) != 0;
        if self.enabled {
            if trigger && self.length == 0 {
                self.length = self.full_length - 1;
            } else {
                self.length = self.full_length;
            }
        } else if enable {
            if (self.frame_sequencer & 1) == 0 {
                if self.length != 0 {
                    self.length = self.length - 1;
                }
                if trigger && self.length == 0 {
                    self.length = self.full_length - 1;
                }
            }
        } else {
            if trigger && self.length == 0 {
                self.length = self.full_length;
            }
        }
        self.enabled = enable;
    }
}

} // verus!
