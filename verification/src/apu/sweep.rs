use vstd::prelude::*;
use crate::bits::{lemma_byte_fields, lemma_frequency_bytes, lemma_shift_down};

verus! {

/// The frequency sweep of channel 1: every `period` sweep clocks the
/// frequency moves by itself shifted right by `shift`, up or down.
#[derive(Clone, Copy)]
pub struct FrequencySweep {
    pub freq: i32,
    pub shadow_freq: i32,
    pub timer: i32,
    pub period: u8,
    pub negative_direction: u8,
    pub shift: u8,
    pub enabled: bool,
    pub overflow: bool,
}

/// The frequency the next sweep computes from the shadow frequency.
pub open spec fn sweep_next(s: FrequencySweep) -> i32 {
    let d = s.shadow_freq >> s.shift;
    if s.negative_direction == 1 { (s.shadow_freq - d) as i32 } else { (s.shadow_freq + d) as i32 }
}

/// The sweep after computing the next frequency: it overflows past 2047.
pub open spec fn after_calc(s: FrequencySweep) -> FrequencySweep {
    FrequencySweep { overflow: s.overflow || sweep_next(s) > 2047, ..s }
}

/// The period counted down from: the register's period, or 8 when it is 0.
pub open spec fn sweep_reload(s: FrequencySweep) -> i32 {
    if s.period != 0 { s.period as i32 } else { 8 }
}

/// The sweep after a trigger.
pub open spec fn sweep_triggered(s: FrequencySweep) -> FrequencySweep {
    let s1 = FrequencySweep {
        overflow: false,
        shadow_freq: s.freq,
        timer: sweep_reload(s),
        enabled: s.period != 0 || s.shift != 0,
        ..s
    };
    if s.shift > 0 { after_calc(s1) } else { s1 }
}

/// The sweep after one sweep clock.
pub open spec fn sweep_stepped(s: FrequencySweep) -> FrequencySweep {
    let s1 = FrequencySweep { timer: sweep_reload(s), ..s };
    let s2 = after_calc(s1);
    let n = sweep_next(s1);
    let s3 = FrequencySweep { shadow_freq: n, freq: n, ..s2 };
    if !s.enabled || s.timer > 0 {
        s
    } else if s.period == 0 {
        s1
    } else if !s2.overflow && s.shift != 0 {
        after_calc(s3)
    } else {
        s2
    }
}

/// The sweep after an NR10 write.
pub open spec fn sweep_written(s: FrequencySweep, value: u8) -> FrequencySweep {
    FrequencySweep { period: (value >> 4) & 7, negative_direction: (value >> 3) & 1, shift: value & 7, ..s }
}

/// The sweep after an NR13 write (low frequency byte).
pub open spec fn sweep_low_written(s: FrequencySweep, value: u8) -> FrequencySweep {
    FrequencySweep { freq: (s.freq & 0x700) | (value as i32), ..s }
}

/// The sweep after an NR14 write (high frequency bits).
pub open spec fn sweep_high_written(s: FrequencySweep, value: u8) -> FrequencySweep {
    FrequencySweep { freq: (s.freq & 0xFF) | (((value as i32) & 7) << 8), ..s }
}

impl FrequencySweep {
    /// Frequencies are eleven bits; period and shift three bits; the
    /// direction one.
    pub open spec fn wf(&self) -> bool {
        &&& 0 <= self.freq <= 0x7FF && 0 <= self.shadow_freq <= 0x7FF
        &&& self.period < 8 && self.shift < 8 && self.negative_direction < 2
    }

    pub fn new() -> (s: FrequencySweep)
        ensures
            s == (FrequencySweep { freq: 0, shadow_freq: 0, timer: 0, period: 0, negative_direction: 0,
                shift: 0, enabled: false, overflow: false }),
            s.wf(),
    {
        FrequencySweep {
            freq: 0,
            shadow_freq: 0,
            timer: 0,
            period: 0,
            negative_direction: 0,
            shift: 0,
            enabled: false,
            overflow: false,
        }
    }

    /// The channel stays on as long as no sweep has overflowed.
    pub fn enabled(&self) -> (r: bool)
        ensures
            r == !self.overflow,
    {
        !self.overflow
    }

    pub fn frequency(&self) -> (r: i32)
        ensures
            r == self.freq,
    {
        self.freq
    }

    /// NR10: period (bits 6-4), direction (bit 3, 1 decreases), shift (bits 2-0).
    pub fn write_nr10(&mut self, value: u8)
        requires
            old(self).wf(),
        ensures
            final(self).wf(),
            *final(self) == sweep_written(*old(self), value),
    {
        proof { lemma_byte_fields(value); }
        self.period = (value >> 4) & 0b111;
        self.negative_direction = (value >> 3) & 1;
        self.shift = value & 0b111;
    }

    /// NR10 as read back.
    pub fn read_nr10(&self) -> (r: u8)
        ensures
            r == (self.period << 4) | (self.negative_direction << 3) | self.shift,
    {
        (self.period << 4) | (self.negative_direction << 3) | self.shift
    }

    /// NR13: the low eight bits of the frequency.
    pub fn write_nr13(&mut self, value: u8)
        requires
            old(self).wf(),
        ensures
            final(self).wf(),
            *final(self) == sweep_low_written(*old(self), value),
    {
        proof { lemma_frequency_bytes(self.freq, value); }
        self.freq = (self.freq & 0x700) | (value as i32);
    }

    /// NR14: bits 2-0 are the high three bits of the frequency.
    pub fn write_nr14(&mut self, value: u8)
        requires
            old(self).wf(),
        ensures
            final(self).wf(),
            *final(self) == sweep_high_written(*old(self), value),
    {
        proof { lemma_frequency_bytes(self.freq, value); }
        self.freq = (self.freq & 0xFF) | (((value as i32) & 0b111) << 8);
    }

    /// Everything cleared.
    pub fn power_off(&mut self)
        ensures
            *final(self) == FrequencySweep::spec_new(),
            final(self).wf(),
    {
        self.enabled = false;
        self.overflow = false;
        self.timer = 0;
        self.freq = 0;
        self.shadow_freq = 0;
        self.period = 0;
        self.negative_direction = 0;
        self.shift = 0;
    }

    /// The cleared sweep.
    pub open spec fn spec_new() -> FrequencySweep {
        FrequencySweep { freq: 0, shadow_freq: 0, timer: 0, period: 0, negative_direction: 0,
            shift: 0, enabled: false, overflow: false }
    }

    /// Restarts the sweep from the current frequency; with a shift, the next
    /// frequency is computed at once (and may overflow).
    pub fn trigger(&mut self)
        requires
            old(self).wf(),
        ensures
            final(self).wf(),
            *final(self) == sweep_triggered(*old(self)),
    {
        let period: u8 = self.period;
        self.overflow = false;
        self.shadow_freq = self.freq;
        self.timer = if period != 0 { period as i32 } else { 8 };
        self.enabled = period != 0 || self.shift != 0;
        if self.shift > 0 {
            self.calc_freq();
        }
    }

    /// The next frequency from the shadow frequency; past 2047 the sweep
    /// overflows.
    pub fn calc_freq(&mut self) -> (r: i32)
        requires
            old(self).wf(),
        ensures
            final(self).wf(),
            r == sweep_next(*old(self)),
            0 <= r <= 0xFFF,
            *final(self) == after_calc(*old(self)),
    {
        proof { lemma_shift_down(self.shadow_freq, self.shift); }
        let mut new_frequency: i32 = self.shadow_freq >> self.shift;
        let is_decreasing: bool = self.negative_direction == 1;
        if is_decreasing {
            new_frequency = self.shadow_freq - new_frequency;
        } else {
            new_frequency = self.shadow_freq + new_frequency;
        }
        if new_frequency > 2047 {
            self.overflow = true;
        }
        new_frequency
    }

    /// One sweep clock: when the timer has run out it is reloaded; with a
    /// period, the next frequency is computed and, while it has not
    /// overflowed and there is a shift, becomes the frequency, and the one
    /// after it is checked for overflow.
    pub fn step(&mut self)
        requires
            old(self).wf(),
        ensures
            final(self).wf(),
            *final(self) == sweep_stepped(*old(self)),
    {
        if !self.enabled {
            return;
        }
        if self.timer <= 0 {
            self.timer = if self.period != 0 { self.period as i32 } else { 8 };
            if self.period != 0 {
                let new_freq: i32 = self.calc_freq();
                if !self.overflow && self.shift != 0 {
                    self.shadow_freq = new_freq;
                    self.freq = new_freq;
                    self.calc_freq();
                }
            }
        }
    }
}

} // verus!
