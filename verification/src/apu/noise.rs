use vstd::prelude::*;
use crate::apu::envelope::{VolumeEnvelope, env_off, env_stepped, env_triggered, env_volume, env_written};
use crate::apu::length_counter::{LengthCounter, lc_off, lc_written};
use crate::bits::lemma_byte_fields;

verus! {

/// The timer periods that the divisor code of NR43 selects.
pub open spec fn divisor_spec(code: u8) -> i32 {
    if code == 0 {
        8
    } else if code == 1 {
        16
    } else if code == 2 {
        32
    } else if code == 3 {
        48
    } else if code == 4 {
        64
    } else if code == 5 {
        80
    } else if code == 6 {
        96
    } else {
        112
    }
}

/// The timer period for divisor code `code`.
pub fn divisor_code(code: u8) -> (r: i32)
    requires
        code < 8,
    ensures
        r == divisor_spec(code),
{
    match code {
        0 => 8,
        1 => 16,
        2 => 32,
        3 => 48,
        4 => 64,
        5 => 80,
        6 => 96,
        _ => 112,
    }
}

/// Sound channel 4: noise from a linear feedback shift register, with a
/// volume envelope and a length counter.
#[derive(Clone, Copy)]
pub struct Noise {
    pub length_counter: LengthCounter,
    pub vol_envelope: VolumeEnvelope,
    pub timer: i32,
    pub shift: i32,
    pub lsfr: u16,
    pub output: u8,
    pub div_mode: u8,
    pub width_mode: bool,
    pub dac_enabled: bool,
    pub channel_enabled: bool,
}

/// The channel plays: its DAC and the channel are on.
pub open spec fn noise_on(c: Noise) -> bool {
    c.dac_enabled && c.channel_enabled
}

/// The shift register after one step: bit 0 xor bit 1 goes into bit 14
/// (and into bit 6 in 7-bit width mode) as the register shifts right.
pub open spec fn lfsr_next(l: u16, width: bool) -> u16 {
    let x = (l & 1) ^ ((l & 2) >> 1);
    let l1 = (l >> 1) | (x << 14);
    if width { (l1 & !(1u16 << 6)) | (x << 6) } else { l1 }
}

/// The timer period of the channel.
pub open spec fn noise_period(c: Noise) -> i32 {
    divisor_spec(c.div_mode) << c.shift
}

/// Channel 4 after a trigger.
pub open spec fn noise_triggered(c: Noise) -> Noise {
    Noise {
        vol_envelope: env_triggered(c.vol_envelope),
        timer: noise_period(c),
        lsfr: 0x7FFF,
        channel_enabled: c.dac_enabled,
        ..c
    }
}

/// Channel 4 after a write of `value` to register `addr`.
pub open spec fn noise_written(c: Noise, addr: u16, value: u8) -> Noise {
    if addr == 0xFF20 {
        Noise { length_counter: LengthCounter { length: (value & 0x3F) as i32, ..c.length_counter }, ..c }
    } else if addr == 0xFF21 {
        let dac = value & 0xF8 != 0;
        Noise { dac_enabled: dac, channel_enabled: c.channel_enabled && dac, vol_envelope: env_written(c.vol_envelope, value), ..c }
    } else if addr == 0xFF22 {
        Noise { shift: (value >> 4) as i32, width_mode: (value >> 3) & 1 != 0, div_mode: value & 7, ..c }
    } else if addr == 0xFF23 {
        let lc = lc_written(c.length_counter, value);
        let c1 = Noise { length_counter: lc, ..c };
        if lc.enabled && lc.length == 0 {
            Noise { channel_enabled: false, ..c1 }
        } else if (value >> 7) & 1 == 1 {
            noise_triggered(c1)
        } else {
            c1
        }
    } else {
        c
    }
}

/// Channel 4 after one timer step.
pub open spec fn noise_ticked(c: Noise) -> Noise {
    let l = lfsr_next(c.lsfr, c.width_mode);
    if c.timer <= 0 {
        Noise {
            timer: noise_period(c),
            lsfr: l,
            output: if noise_on(c) && l & 1 == 0 { env_volume(c.vol_envelope) } else { 0 },
            ..c
        }
    } else {
        c
    }
}

/// Channel 4 after one envelope clock.
pub open spec fn noise_env_clocked(c: Noise) -> Noise {
    Noise { vol_envelope: env_stepped(c.vol_envelope), ..c }
}

/// Channel 4 after a length clock: a counter that has run out switches it off.
pub open spec fn noise_length_clocked(c: Noise) -> Noise {
    Noise {
        channel_enabled: if c.length_counter.enabled && c.length_counter.length == 0 { false } else { c.channel_enabled },
        ..c
    }
}

/// Channel 4 after power-off.
pub open spec fn noise_off(c: Noise) -> Noise {
    Noise {
        vol_envelope: env_off(),
        length_counter: lc_off(c.length_counter),
        channel_enabled: false,
        dac_enabled: false,
        shift: 0,
        width_mode: false,
        div_mode: 0,
        ..c
    }
}

/// What register `addr` of channel 4 reads.
pub open spec fn noise_read(c: Noise, addr: u16) -> u8 {
    if addr == 0xFF1F || addr == 0xFF20 {
        0xFF
    } else if addr == 0xFF21 {
        (c.vol_envelope.starting_volume << 4) | ((if c.vol_envelope.add_mode { 1u8 } else { 0u8 }) << 3)
            | c.vol_envelope.period
    } else if addr == 0xFF22 {
        ((c.shift as u8) << 4) | ((if c.width_mode { 1u8 } else { 0u8 }) << 3) | c.div_mode
    } else if addr == 0xFF23 {
        ((if c.length_counter.enabled { 1u8 } else { 0u8 }) << 6) | 0xBF
    } else {
        0
    }
}

impl Noise {
    /// The envelope holds its invariant; shift and divisor code are in range.
    pub open spec fn wf(&self) -> bool {
        self.vol_envelope.wf() && 0 <= self.shift < 16 && self.div_mode < 8
    }

    /// Channel 4 at power-on; its length counter counts from 64 and the
    /// shift register is all ones.
    pub fn new() -> (c: Noise)
        ensures
            c.wf(),
            c.vol_envelope == VolumeEnvelope::new_spec(),
            c.length_counter == (LengthCounter { enabled: false, full_length: 64, length: 0, frame_sequencer: 0 }),
            c.timer == 0 && c.shift == 0 && c.lsfr == 0x7FFF && c.output == 0 && c.div_mode == 0,
            !c.width_mode && !c.dac_enabled && !c.channel_enabled,
    {
        let mut lc: LengthCounter = LengthCounter::new();
        lc.set_full_length(64);
        Noise {
            length_counter: lc,
            vol_envelope: VolumeEnvelope::new(),
            timer: 0,
            shift: 0,
            lsfr: 0x7FFF,
            output: 0,
            div_mode: 0,
            width_mode: false,
            dac_enabled: false,
            channel_enabled: false,
        }
    }

    /// Envelope and length counter off; channel and DAC off; shift, width
    /// and divisor cleared.
    pub fn power_off(&mut self)
        ensures
            final(self).wf(),
            *final(self) == noise_off(*old(self)),
    {
        self.vol_envelope.power_off();
        self.length_counter.power_off();
        self.channel_enabled = false;
        self.dac_enabled = false;
        self.shift = 0;
        self.width_mode = false;
        self.div_mode = 0;
    }

    /// Restarts the channel with a full shift register.
    pub fn trigger(&mut self)
        requires
            old(self).wf(),
        ensures
            final(self).wf(),
            *final(self) == noise_triggered(*old(self)),
    {
        self.vol_envelope.trigger();
        self.timer = divisor_code(self.div_mode) << self.shift;
        self.lsfr = 0x7FFF;
        self.channel_enabled = self.dac_enabled;
    }

    /// One envelope clock.
    pub fn envelope_clock(&mut self)
        requires
            old(self).wf(),
        ensures
            final(self).wf(),
            *final(self) == noise_env_clocked(*old(self)),
    {
        self.vol_envelope.step();
    }

    /// One timer step: when the timer has run out it is reloaded, the shift
    /// register steps, and a playing channel outputs the envelope volume
    /// while bit 0 of the register is 0.
    pub fn tick(&mut self)
        requires
            old(self).wf(),
        ensures
            final(self).wf(),
            *final(self) == noise_ticked(*old(self)),
    {
        if self.timer <= 0 {
            self.timer = divisor_code(self.div_mode) << self.shift;
            let xor_result: u16 = (self.lsfr & 0b01) ^ ((self.lsfr & 0b10) >> 1);
            self.lsfr = (self.lsfr >> 1) | (xor_result << 14);
            if self.width_mode {
                self.lsfr = self.lsfr & !(1u16 << 6);
                self.lsfr = self.lsfr | (xor_result << 6);
            }
            self.output = if self.enabled() && (self.lsfr & 1) == 0 {
                self.vol_envelope.volume()
            } else {
                0
            };
        }
    }

    /// Reads register `addr` (NR41 to NR44; other addresses read 0).
    pub fn read(&self, addr: u16) -> (r: u8)
        ensures
            r == noise_read(*self, addr),
    {
        match addr {
            0xFF1F => 0xFF,
            0xFF20 => 0xFF,
            0xFF21 => self.vol_envelope.read_nr2(),
            0xFF22 => ((self.shift as u8) << 4) | ((if self.width_mode { 1u8 } else { 0u8 }) << 3) | self.div_mode,
            0xFF23 => ((if self.length_counter.enabled() { 1u8 } else { 0u8 }) << 6) | 0xBF,
            _ => 0,
        }
    }

    /// Writes register `addr` (NR41 to NR44; other addresses change nothing).
    pub fn write(&mut self, addr: u16, value: u8)
        requires
            old(self).wf(),
            addr == 0xFF23 ==> old(self).length_counter.counts_ok(),
        ensures
            final(self).wf(),
            *final(self) == noise_written(*old(self), addr, value),
    {
        proof { lemma_byte_fields(value); }
        match addr {
            0xFF20 => self.length_counter.set_length(value & 0x3F),
            0xFF21 => {
                self.dac_enabled = (value & 0xF8) != 0;
                self.channel_enabled = self.channel_enabled && self.dac_enabled;
                self.vol_envelope.write_nr2(value);
            },
            0xFF22 => {
                self.shift = (value >> 4) as i32;
                self.width_mode = ((value >> 3) & 1) != 0;
                self.div_mode = value & 0b111;
            },
            0xFF23 => {
                self.length_counter.write_nr4(value);
                if self.length_counter.enabled() && self.length_counter.zero() {
                    self.channel_enabled = false;
                } else if ((value >> 7) & 1) == 1 {
                    self.trigger();
                }
            },
            _ => {},
        }
    }

    /// A length counter that has run out switches the channel off.
    pub fn length_clock(&mut self)
        ensures
            *final(self) == noise_length_clocked(*old(self)),
    {
        if self.length_counter.enabled() && self.length_counter.zero() {
            self.channel_enabled = false;
        }
    }

    /// The channel plays: its DAC and the channel are on.
    pub fn enabled(&self) -> (r: bool)
        ensures
            r == noise_on(*self),
    {
        self.dac_enabled && self.channel_enabled
    }
}

} // verus!
