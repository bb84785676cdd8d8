use vstd::prelude::*;
use crate::apu::duty_cycle;
use crate::apu::duty_spec;
use crate::apu::envelope::{VolumeEnvelope, env_off, env_stepped, env_triggered, env_volume, env_written};
use crate::apu::length_counter::{LengthCounter, lc_off, lc_stepped, lc_written};
use crate::apu::sweep::{
    FrequencySweep, sweep_high_written, sweep_low_written, sweep_stepped, sweep_triggered, sweep_written,
};
use crate::bits::{lemma_byte_fields, lemma_counters};

verus! {

/// Sound channel 1: a square wave with a frequency sweep, a volume envelope
/// and a length counter.
#[derive(Clone, Copy)]
pub struct Square1 {
    pub vol_envelope: VolumeEnvelope,
    pub freq_sweep: FrequencySweep,
    pub length_counter: LengthCounter,
    pub timer: i32,
    pub sequence: i32,
    pub duty: u8,
    pub output: u8,
    pub channel_enabled: bool,
    pub dac_enabled: bool,
}

/// The channel plays: its DAC and the channel are on.
pub open spec fn sq1_on(c: Square1) -> bool {
    c.dac_enabled && c.channel_enabled
}

/// Channel 1 after a trigger: the timer is loaded from the frequency, the
/// envelope and sweep restart, and the channel is on if the DAC is and the
/// sweep has not overflowed.
pub open spec fn sq1_triggered(c: Square1) -> Square1 {
    let s = sweep_triggered(c.freq_sweep);
    Square1 {
        timer: (2048 * c.freq_sweep.freq * 4) as i32,
        vol_envelope: env_triggered(c.vol_envelope),
        freq_sweep: s,
        channel_enabled: if !s.overflow { c.dac_enabled } else { false },
        ..c
    }
}

/// Channel 1 after a write of `value` to register `addr`.
pub open spec fn sq1_written(c: Square1, addr: u16, value: u8) -> Square1 {
    if addr == 0xFF10 {
        let s = sweep_written(c.freq_sweep, value);
        Square1 { freq_sweep: s, channel_enabled: if !s.overflow { c.channel_enabled } else { false }, ..c }
    } else if addr == 0xFF11 {
        Square1 { duty: value >> 6, length_counter: LengthCounter { length: (value & 0x3F) as i32, ..c.length_counter }, ..c }
    } else if addr == 0xFF12 {
        let dac = value & 0xF8 != 0;
        Square1 { dac_enabled: dac, channel_enabled: c.channel_enabled && dac, vol_envelope: env_written(c.vol_envelope, value), ..c }
    } else if addr == 0xFF13 {
        Square1 { freq_sweep: sweep_low_written(c.freq_sweep, value), ..c }
    } else if addr == 0xFF14 {
        let lc = lc_written(c.length_counter, value);
        let c1 = Square1 { freq_sweep: sweep_high_written(c.freq_sweep, value), length_counter: lc, ..c };
        if lc.enabled && lc.length == 0 {
            Square1 { channel_enabled: false, ..c1 }
        } else if (value >> 7) & 1 == 1 {
            sq1_triggered(c1)
        } else {
            c1
        }
    } else {
        c
    }
}

/// Channel 1 after one timer step.
pub open spec fn sq1_ticked(c: Square1) -> Square1 {
    let seq = ((c.sequence + 1) % 8) as i32;
    if c.timer <= 0 {
        Square1 {
            timer: ((2048 - c.freq_sweep.freq) * 4) as i32,
            sequence: seq,
            output: if sq1_on(c) && duty_spec(c.duty, seq) { env_volume(c.vol_envelope) } else { 0 },
            ..c
        }
    } else {
        c
    }
}

/// Channel 1 after one sweep clock.
pub open spec fn sq1_swept(c: Square1) -> Square1 {
    let s = sweep_stepped(c.freq_sweep);
    Square1 { freq_sweep: s, channel_enabled: if !s.overflow { false } else { c.channel_enabled }, ..c }
}

/// Channel 1 after one envelope clock.
pub open spec fn sq1_env_clocked(c: Square1) -> Square1 {
    Square1 { vol_envelope: env_stepped(c.vol_envelope), ..c }
}

/// Channel 1 after one length clock.
pub open spec fn sq1_length_clocked(c: Square1) -> Square1 {
    let lc = lc_stepped(c.length_counter);
    Square1 { length_counter: lc, channel_enabled: if lc.enabled && lc.length == 0 { false } else { c.channel_enabled }, ..c }
}

/// Channel 1 after power-off.
pub open spec fn sq1_off(c: Square1) -> Square1 {
    Square1 {
        freq_sweep: FrequencySweep::spec_new(),
        vol_envelope: env_off(),
        length_counter: lc_off(c.length_counter),
        channel_enabled: false,
        dac_enabled: false,
        sequence: 0,
        duty: 0,
        ..c
    }
}

/// What register `addr` (NR10 to NR14) of channel 1 reads.
pub open spec fn sq1_read(c: Square1, addr: u16) -> u8 {
    if addr == 0xFF10 {
        ((c.freq_sweep.period << 4) | (c.freq_sweep.negative_direction << 3) | c.freq_sweep.shift) | 0x80
    } else if addr == 0xFF11 {
        (c.duty << 6) | 0x3F
    } else if addr == 0xFF12 {
        (c.vol_envelope.starting_volume << 4) | ((if c.vol_envelope.add_mode { 1u8 } else { 0u8 }) << 3)
            | c.vol_envelope.period
    } else if addr == 0xFF13 {
        0xFF
    } else {
        ((if c.length_counter.enabled { 1u8 } else { 0u8 }) >> 6) | 0xBF
    }
}

impl Square1 {
    /// The envelope and sweep hold their invariants; the step and duty are in range.
    pub open spec fn wf(&self) -> bool {
        &&& self.vol_envelope.wf() && self.freq_sweep.wf()
        &&& 0 <= self.sequence < 8 && self.duty < 4
    }

    pub fn new() -> (c: Square1)
        ensures
            c.wf(),
            c.vol_envelope == VolumeEnvelope::new_spec() && c.freq_sweep == FrequencySweep::spec_new(),
            c.length_counter == (LengthCounter { enabled: false, full_length: 0, length: 0, frame_sequencer: 0 }),
            c.timer == 0 && c.sequence == 0 && c.duty == 0 && c.output == 0,
            !c.channel_enabled && !c.dac_enabled,
    {
        Square1 {
            vol_envelope: VolumeEnvelope::new(),
            freq_sweep: FrequencySweep::new(),
            length_counter: LengthCounter::new(),
            timer: 0,
            sequence: 0,
            duty: 0,
            output: 0,
            channel_enabled: false,
            dac_enabled: false,
        }
    }

    /// Sweep, envelope and length counter off; channel and DAC off; step and duty cleared.
    pub fn power_off(&mut self)
        ensures
            final(self).wf(),
            *final(self) == sq1_off(*old(self)),
    {
        self.freq_sweep.power_off();
        self.vol_envelope.power_off();
        self.length_counter.power_off();
        self.channel_enabled = false;
        self.dac_enabled = false;
        self.sequence = 0;
        self.duty = 0;
    }

    /// Restarts the channel.
    pub fn trigger(&mut self)
        requires
            old(self).wf(),
        ensures
            final(self).wf(),
            *final(self) == sq1_triggered(*old(self)),
    {
        self.timer = (2048 * self.freq_sweep.frequency()) * 4;
        self.vol_envelope.trigger();
        self.freq_sweep.trigger();
        if self.freq_sweep.enabled() {
            self.channel_enabled = self.dac_enabled;
        } else {
            self.channel_enabled = false;
        }
    }

    /// One timer step: when the timer has run out it is reloaded from the
    /// frequency, the duty step advances, and the output is the envelope
    /// volume on a high step of a playing channel, 0 otherwise.
    pub fn tick(&mut self)
        requires
            old(self).wf(),
        ensures
            final(self).wf(),
            *final(self) == sq1_ticked(*old(self)),
    {
        if self.timer <= 0 {
            self.timer = (2048 - self.freq_sweep.frequency()) * 4;
            proof { lemma_counters(self.sequence); }
            self.sequence = (self.sequence + 1) & 7;
            if self.enabled() {
                self.output = if duty_cycle(self.duty, self.sequence) {
                    self.vol_envelope.volume()
                } else {
                    0
                };
            } else {
                self.output = 0;
            }
        }
    }

    /// One sweep clock; while the sweep has not overflowed the channel is
    /// switched off.
    pub fn sweep_clock(&mut self)
        requires
            old(self).wf(),
        ensures
            final(self).wf(),
            *final(self) == sq1_swept(*old(self)),
    {
        self.freq_sweep.step();
        if self.freq_sweep.enabled() {
            self.channel_enabled = false;
        }
    }

    /// One envelope clock.
    pub fn envelope_clock(&mut self)
        requires
            old(self).wf(),
        ensures
            final(self).wf(),
            *final(self) == sq1_env_clocked(*old(self)),
    {
        self.vol_envelope.step();
    }

    /// Reads register `addr` (NR10 to NR14).
    pub fn read(&self, addr: u16) -> (r: u8)
        requires
            0xFF10 <= addr <= 0xFF14,
        ensures
            r == sq1_read(*self, addr),
    {
        match addr {
            0xFF10 => self.freq_sweep.read_nr10() | 0x80,
            0xFF11 => (self.duty << 6) | 0x3F,
            0xFF12 => self.vol_envelope.read_nr2(),
            0xFF13 => 0xFF,
            _ => ((if self.length_counter.enabled() { 1u8 } else { 0u8 }) >> 6) | 0xBF,
        }
    }

    /// Writes register `addr` (NR10 to NR14; other addresses change nothing).
    pub fn write(&mut self, addr: u16, value: u8)
        requires
            old(self).wf(),
            addr == 0xFF14 ==> old(self).length_counter.counts_ok(),
        ensures
            final(self).wf(),
            *final(self) == sq1_written(*old(self), addr, value),
    {
        proof { lemma_byte_fields(value); }
        match addr {
            0xFF10 => {
                self.freq_sweep.write_nr10(value);
                if !self.freq_sweep.enabled() {
                    self.channel_enabled = false;
                }
            },
            0xFF11 => {
                self.duty = value >> 6;
                self.length_counter.set_length(value & 0x3F);
            },
            0xFF12 => {
                self.dac_enabled = (value & 0xF8) != 0;
                self.channel_enabled = self.channel_enabled && self.dac_enabled;
                self.vol_envelope.write_nr2(value);
            },
            0xFF13 => self.freq_sweep.write_nr13(value),
            0xFF14 => {
                self.freq_sweep.write_nr14(value);
                self.length_counter.write_nr4(value);
                if self.length_counter.enabled() && self.length_counter.zero() {
                    self.channel_enabled = false;
                } else if ((value >> 7) & 1) == 1 {
                    self.trigger();
                }
            },
            _ => {},
        }
    }

    /// One length clock; a counter that runs out switches the channel off.
    pub fn length_clock(&mut self)
        requires
            old(self).wf(),
        ensures
            final(self).wf(),
            *final(self) == sq1_length_clocked(*old(self)),
    {
        self.length_counter.step();
        if self.length_counter.enabled() && self.length_counter.zero() {
            self.channel_enabled = false;
        }
    }

    /// The channel plays: its DAC and the channel are on.
    pub fn enabled(&self) -> (r: bool)
        ensures
            r == sq1_on(*self),
    {
        self.dac_enabled && self.channel_enabled
    }
}

} // verus!
