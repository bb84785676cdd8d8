use vstd::prelude::*;
use crate::apu::{duty_cycle, duty_spec};
use crate::apu::envelope::{VolumeEnvelope, env_off, env_stepped, env_triggered, env_volume, env_written};
use crate::apu::length_counter::{LengthCounter, lc_off, lc_written};
use crate::bits::{lemma_byte_fields, lemma_counters, lemma_frequency_bytes};

verus! {

/// Sound channel 2: a square wave with a volume envelope and a length counter.
#[derive(Clone, Copy)]
pub struct Square2 {
    pub vol_envelope: VolumeEnvelope,
    pub length_counter: LengthCounter,
    pub duty: u8,
    pub sequence: i32,
    pub timer: i32,
    pub channel_enabled: bool,
    pub dac_enabled: bool,
    pub output: u8,
    pub freq: i32,
}

/// The channel plays: its DAC and the channel are on.
pub open spec fn sq2_on(c: Square2) -> bool {
    c.dac_enabled && c.channel_enabled
}

/// Channel 2 after a trigger.
pub open spec fn sq2_triggered(c: Square2) -> Square2 {
    Square2 {
        timer: ((2048 - c.freq) * 4) as i32,
        vol_envelope: env_triggered(c.vol_envelope),
        channel_enabled: c.dac_enabled,
        ..c
    }
}

/// Channel 2 after a write of `value` to register `addr`.
pub open spec fn sq2_written(c: Square2, addr: u16, value: u8) -> Square2 {
    if addr == 0xFF16 {
        Square2 { duty: value >> 6, length_counter: LengthCounter { length: (value & 0x3F) as i32, ..c.length_counter }, ..c }
    } else if addr == 0xFF17 {
        let dac = value & 0xF8 != 0;
        Square2 { dac_enabled: dac, channel_enabled: c.channel_enabled && dac, vol_envelope: env_written(c.vol_envelope, value), ..c }
    } else if addr == 0xFF18 {
        Square2 { freq: (c.freq & 0x700) | (value as i32), ..c }
    } else if addr == 0xFF19 {
        let lc = lc_written(c.length_counter, value);
        let c1 = Square2 { freq: (c.freq & 0xFF) | (((value as i32) & 7) << 8), length_counter: lc, ..c };
        if lc.enabled && lc.length == 0 {
            Square2 { channel_enabled: false, ..c1 }
        } else if (value >> 7) & 1 == 1 {
            sq2_triggered(c1)
        } else {
            c1
        }
    } else {
        c
    }
}

/// Channel 2 after one timer step.
pub open spec fn sq2_ticked(c: Square2) -> Square2 {
    let seq = ((c.sequence + 1) % 8) as i32;
    if c.timer <= 0 {
        Square2 {
            timer: ((2048 - c.freq) * 4) as i32,
            sequence: seq,
            output: if sq2_on(c) {
                if duty_spec(c.duty, seq) { env_volume(c.vol_envelope) } else { 0 }
            } else {
                c.output
            },
            ..c
        }
    } else {
        c
    }
}

/// Channel 2 after one envelope clock.
pub open spec fn sq2_env_clocked(c: Square2) -> Square2 {
    Square2 { vol_envelope: env_stepped(c.vol_envelope), ..c }
}

/// Channel 2 after a length clock: a counter that has run out switches it off.
pub open spec fn sq2_length_clocked(c: Square2) -> Square2 {
    Square2 {
        channel_enabled: if c.length_counter.enabled && c.length_counter.length == 0 { false } else { c.channel_enabled },
        ..c
    }
}

/// Channel 2 after power-off.
pub open spec fn sq2_off(c: Square2) -> Square2 {
    Square2 {
        vol_envelope: env_off(),
        length_counter: lc_off(c.length_counter),
        channel_enabled: false,
        dac_enabled: false,
        sequence: 0,
        freq: 0,
        duty: 0,
        ..c
    }
}

/// What register `addr` of channel 2 reads.
pub open spec fn sq2_read(c: Square2, addr: u16) -> u8 {
    if addr == 0xFF15 || addr == 0xFF18 {
        0xFF
    } else if addr == 0xFF16 {
        (c.duty << 6) | 0x3F
    } else if addr == 0xFF17 {
        (c.vol_envelope.starting_volume << 4) | ((if c.vol_envelope.add_mode { 1u8 } else { 0u8 }) << 3)
            | c.vol_envelope.period
    } else if addr == 0xFF19 {
        ((if c.length_counter.enabled { 1u8 } else { 0u8 }) << 6) | 0xBF
    } else {
        0
    }
}

impl Square2 {
    /// The envelope holds its invariant; frequency, step and duty are in range.
    pub open spec fn wf(&self) -> bool {
        &&& self.vol_envelope.wf()
        &&& 0 <= self.freq <= 0x7FF && 0 <= self.sequence < 8 && self.duty < 4
    }

    /// Channel 2 at power-on; its length counter counts from 64.
    pub fn new() -> (c: Square2)
        ensures
            c.wf(),
            c.vol_envelope == VolumeEnvelope::new_spec(),
            c.length_counter == (LengthCounter { enabled: false, full_length: 64, length: 0, frame_sequencer: 0 }),
            c.timer == 0 && c.sequence == 0 && c.freq == 0 && c.duty == 0 && c.output == 0,
            !c.channel_enabled && !c.dac_enabled,
    {
        let mut len_counter: LengthCounter = LengthCounter::new();
        len_counter.set_full_length(64);
        Square2 {
            timer: 0,
            sequence: 0,
            freq: 0,
            duty: 0,
            channel_enabled: false,
            dac_enabled: false,
            output: 0,
            vol_envelope: VolumeEnvelope::new(),
            length_counter: len_counter,
        }
    }

    /// One timer step: when the timer has run out it is reloaded from the
    /// frequency and the duty step advances; a playing channel outputs the
    /// envelope volume on a high step and 0 on a low one.
    pub fn tick(&mut self)
        requires
            old(self).wf(),
        ensures
            final(self).wf(),
            *final(self) == sq2_ticked(*old(self)),
    {
        if self.timer <= 0 {
            self.timer = (2048 - self.freq) * 4;
            proof { lemma_counters(self.sequence); }
            self.sequence = (self.sequence + 1) & 7;
            if self.enabled() {
                self.output = if duty_cycle(self.duty, self.sequence) {
                    self.vol_envelope.volume()
                } else {
                    0
                };
            }
        }
    }

    /// One envelope clock.
    pub fn envelope_clock(&mut self)
        requires
            old(self).wf(),
        ensures
            final(self).wf(),
            *final(self) == sq2_env_clocked(*old(self)),
    {
        self.vol_envelope.step();
    }

    /// Envelope and length counter off; channel and DAC off; step,
    /// frequency and duty cleared.
    pub fn power_off(&mut self)
        ensures
            final(self).wf(),
            *final(self) == sq2_off(*old(self)),
    {
        self.vol_envelope.power_off();
        self.length_counter.power_off();
        self.channel_enabled = false;
        self.dac_enabled = false;
        self.sequence = 0;
        self.freq = 0;
        self.duty = 0;
    }

    /// Restarts the channel.
    pub fn trigger(&mut self)
        requires
            old(self).wf(),
        ensures
            final(self).wf(),
            *final(self) == sq2_triggered(*old(self)),
    {
        self.timer = (2048 - self.freq) * 4;
        self.vol_envelope.trigger();
        self.channel_enabled = self.dac_enabled;
    }

    /// Reads register `addr` (NR21 to NR24; other addresses read 0).
    pub fn read(&self, addr: u16) -> (r: u8)
        ensures
            r == sq2_read(*self, addr),
    {
        match addr {
            0xFF15 => 0xFF,
            0xFF16 => (self.duty << 6) | 0x3F,
            0xFF17 => self.vol_envelope.read_nr2(),
            0xFF18 => 0xFF,
            0xFF19 => ((if self.length_counter.enabled() { 1u8 } else { 0u8 }) << 6) | 0xBF,
            _ => 0,
        }
    }

    /// Writes register `addr` (NR21 to NR24; other addresses change nothing).
    pub fn write(&mut self, addr: u16, value: u8)
        requires
            old(self).wf(),
            addr == 0xFF19 ==> old(self).length_counter.counts_ok(),
        ensures
            final(self).wf(),
            *final(self) == sq2_written(*old(self), addr, value),
    {
        proof {
            lemma_byte_fields(value);
            lemma_frequency_bytes(self.freq, value);
        }
        match addr {
            0xFF16 => {
                self.duty = value >> 6;
                self.length_counter.set_length(value & 0x3F);
            },
            0xFF17 => {
                self.dac_enabled = (value & 0xF8) != 0;
                self.channel_enabled = self.channel_enabled && self.dac_enabled;
                self.vol_envelope.write_nr2(value);
            },
            0xFF18 => {
                self.freq = (self.freq & 0x700) | (value as i32);
            },
            0xFF19 => {
                self.freq = (self.freq & 0xFF) | (((value as i32) & 0b111) << 8);
                self.length_counter.write_nr4(value);
                if self.length_counter.enabled() && self.length_counter.zero() {
                    self.channel_enabled = false;
                } else if ((value >> 7) & 1) == 1 {
                    self.trigger();
                }
            },
            _ => {},
        }
    }

    /// A length counter that has run out switches the channel off.
    pub fn length_clock(&mut self)
        ensures
            *final(self) == sq2_length_clocked(*old(self)),
    {
        if self.length_counter.enabled() && self.length_counter.zero() {
            self.channel_enabled = false;
        }
    }

    /// The channel plays: its DAC and the channel are on.
    pub fn enabled(&self) -> (r: bool)
        ensures
            r == sq2_on(*self),
    {
        self.dac_enabled && self.channel_enabled
    }
}

} // verus!
