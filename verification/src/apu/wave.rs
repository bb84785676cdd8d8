use vstd::prelude::*;
use crate::apu::length_counter::{LengthCounter, lc_off, lc_written};
use crate::bits::{lemma_byte_fields, lemma_counters, lemma_frequency_bytes};

verus! {

/// Sound channel 3: plays the sixteen bytes of wave RAM, two samples a byte.
pub struct Wave {
    pub dac_enabled: bool,
    pub channel_enabled: bool,
    pub position: i32,
    pub timer: i32,
    pub ticks_since_read: i32,
    pub frequency: i32,
    pub volume_code: i32,
    pub last_address: i32,
    pub length_counter: LengthCounter,
    pub output: u8,
    pub waves: Vec<u8>,
}

/// The channel plays: its DAC and the channel are on.
pub open spec fn wave_on(w: &Wave) -> bool {
    w.dac_enabled && w.channel_enabled
}

/// A trigger is possible: a playing channel whose timer is 2 copies wave
/// RAM around, which it can only do from the first half.
pub open spec fn wave_trigger_ok(w: &Wave) -> bool {
    !(wave_on(w) && w.timer == 2 && w.position / 2 >= 8)
}

/// Channel 3 after power-off: length counter off, channel and DAC off,
/// position, frequency, volume and read tracking cleared; wave RAM kept.
pub open spec fn wave_off(w0: Wave, w1: Wave) -> bool {
    &&& w1.length_counter == lc_off(w0.length_counter)
    &&& !w1.channel_enabled && !w1.dac_enabled
    &&& w1.position == 0 && w1.frequency == 0 && w1.volume_code == 0
    &&& w1.ticks_since_read == 0 && w1.last_address == 0
    &&& w1.timer == w0.timer && w1.output == w0.output
    &&& w1.waves@ == w0.waves@
}

/// Channel 3 after a trigger: it restarts at position 0; a playing channel
/// whose timer is 2 first copies the byte being played to the front of wave RAM.
pub open spec fn wave_triggered(w0: Wave, w1: Wave) -> bool {
    &&& w1.timer == 6 && w1.position == 0 && w1.last_address == 0
    &&& w1.channel_enabled == w0.dac_enabled
    &&& w1.waves@ == if wave_on(&w0) && w0.timer == 2 && w0.position / 2 < 4 {
            w0.waves@.update(0, w0.waves@[w0.position / 2])
    } else {
            w0.waves@
    }
    &&& w1.dac_enabled == w0.dac_enabled && w1.frequency == w0.frequency
    &&& w1.volume_code == w0.volume_code && w1.output == w0.output
    &&& w1.ticks_since_read == w0.ticks_since_read
    &&& w1.length_counter == w0.length_counter
}

/// Channel 3 after one timer step.
pub open spec fn wave_ticked(w0: Wave, w1: Wave) -> bool {
    &&& w1.waves@ == w0.waves@
    &&& w1.length_counter == w0.length_counter
    &&& w1.dac_enabled == w0.dac_enabled && w1.channel_enabled == w0.channel_enabled
    &&& w1.frequency == w0.frequency && w1.volume_code == w0.volume_code
    &&& ({
            let w = &w0;
            let p = w.position;
            let b = w.waves@[p / 2];
            let sample = if p % 2 == 1 { b & 0x0F } else { b >> 4 };
            if w.timer > 0 {
                &&& w1.timer == w.timer && w1.position == p
                &&& w1.output == w.output && w1.last_address == w.last_address
                &&& w1.ticks_since_read == w.ticks_since_read + 1
            } else if wave_on(w) {
                &&& w1.timer == (2048 - w.frequency) * 2
                &&& w1.ticks_since_read == 0
                &&& w1.last_address == p / 2
                &&& w1.output == if w.volume_code > 0 { sample >> ((w.volume_code - 1) as u8) } else { 0 }
                &&& w1.position == (p + 1) % 32
            } else {
                &&& w1.timer == (2048 - w.frequency) * 2
                &&& w1.ticks_since_read == w.ticks_since_read + 1
                &&& w1.output == 0
                &&& w1.position == p && w1.last_address == w.last_address
            }
    })
}

/// Channel 3 after a write of `value` to register `addr`: wave RAM (while
/// playing only the byte just played, within two ticks of it), the DAC
/// switch (NR30), the length (NR31), the volume code (NR32), the frequency
/// (NR33, NR34), where NR34 also writes the length counter and triggers;
/// other addresses change nothing.
pub open spec fn wave_written(w0: Wave, w1: Wave, addr: u16, value: u8) -> bool {
    if 0xFF30 <= addr <= 0xFF3F {
        &&& w1 == (Wave { waves: w1.waves, ..w0 })
        &&& w1.waves@ == if wave_on(&w0) {
                if w0.ticks_since_read < 2 {
                    w0.waves@.update(w0.last_address as int, value)
                } else {
                    w0.waves@
                }
            } else {
                w0.waves@.update(addr - 0xFF30, value)
            }
    } else if addr == 0xFF1A {
        let dac = (value >> 7) & 1 != 0;
        w1 == (Wave { dac_enabled: dac, channel_enabled: w0.channel_enabled && dac, ..w0 })
    } else if addr == 0xFF1B {
        w1 == (Wave { length_counter: LengthCounter { length: value as i32, ..w0.length_counter }, ..w0 })
    } else if addr == 0xFF1C {
        w1 == (Wave { volume_code: ((value >> 5) & 3) as i32, ..w0 })
    } else if addr == 0xFF1D {
        w1 == (Wave { frequency: (w0.frequency & 0x700) | (value as i32), ..w0 })
    } else if addr == 0xFF1E {
        let lc = lc_written(w0.length_counter, value);
        let mid = Wave { length_counter: lc, frequency: (w0.frequency & 0xFF) | (((value as i32) & 7) << 8), ..w0 };
        if lc.enabled && lc.length == 0 {
            w1 == (Wave { channel_enabled: false, ..mid })
        } else if (value >> 7) & 1 == 1 {
            wave_triggered(mid, w1)
        } else {
            w1 == mid
        }
    } else {
        w1 == w0
    }
}

/// Channel 3 after a length clock: a counter that has run out switches it off.
pub open spec fn wave_length_clocked(w0: Wave, w1: Wave) -> bool {
    w1 == (Wave {
        channel_enabled: if w0.length_counter.enabled && w0.length_counter.length == 0 {
            false
        } else {
            w0.channel_enabled
        },
        ..w0
    })
}

/// Channel 3 clocked for frame sequencer step `k`: lengths on even steps.
pub open spec fn wave_framed(w: Wave, k: i32) -> Wave {
    if k == 0 || k == 2 || k == 4 || k == 6 {
        Wave {
            channel_enabled: if w.length_counter.enabled && w.length_counter.length == 0 {
                false
            } else {
                w.channel_enabled
            },
            ..w
        }
    } else {
        w
    }
}

/// What register `addr` of channel 3 reads: wave RAM (while playing only
/// the byte just played, within two ticks of it, else 0xFF), NR30 to NR34;
/// other addresses read 0.
pub open spec fn wave_read(w: Wave, addr: u16) -> u8 {
    if 0xFF30 <= addr <= 0xFF3F {
        if wave_on(&w) {
            if w.ticks_since_read < 2 { w.waves@[w.last_address as int] } else { 0xFF }
        } else {
            w.waves@[addr - 0xFF30]
        }
    } else if addr == 0xFF1A {
        ((if w.dac_enabled { 1u8 } else { 0u8 }) << 7) | 0x7F
    } else if addr == 0xFF1B || addr == 0xFF1D {
        0xFF
    } else if addr == 0xFF1C {
        ((w.volume_code as u8) << 5) | 0x9F
    } else if addr == 0xFF1E {
        ((if w.length_counter.enabled { 1u8 } else { 0u8 }) << 6) | 0xBF
    } else {
        0
    }
}

impl Wave {
    /// Position, address, volume code and frequency are in range; wave RAM
    /// holds sixteen bytes.
    pub open spec fn wf(&self) -> bool {
        &&& 0 <= self.position < 32 && 0 <= self.last_address < 16
        &&& 0 <= self.volume_code < 4 && 0 <= self.frequency <= 0x7FF
        &&& self.waves@.len() == 16
    }

    /// Channel 3 at power-on; its length counter counts from 64.
    pub fn new() -> (w: Wave)
        ensures
            w.wf(),
            w.timer == 0 && w.position == 4 && w.ticks_since_read == 0,
            w.frequency == 0 && w.volume_code == 0 && w.last_address == 0,
            w.length_counter == (LengthCounter { enabled: false, full_length: 64, length: 0, frame_sequencer: 0 }),
            !w.channel_enabled && !w.dac_enabled && w.output == 0,
            w.waves@ == Seq::new(16, |i: int| 0u8),
    {
        let mut lc: LengthCounter = LengthCounter::new();
        lc.set_full_length(64);
        let mut waves: Vec<u8> = Vec::new();
        while waves.len() < 16
            invariant
                waves.len() <= 16,
                forall|i: int| 0 <= i < waves.len() ==> waves@[i] == 0,
            decreases 16 - waves.len(),
        {
            waves.push(0);
        }
        assert(waves@ =~= Seq::new(16, |i: int| 0u8));
        Wave {
            timer: 0,
            position: 4,
            ticks_since_read: 0,
            frequency: 0,
            volume_code: 0,
            last_address: 0,
            length_counter: lc,
            channel_enabled: false,
            output: 0,
            dac_enabled: false,
            waves: waves,
        }
    }

    /// Length counter off; channel and DAC off; position, frequency, volume
    /// and read tracking cleared. Wave RAM is kept.
    pub fn power_off(&mut self)
        requires
            old(self).wf(),
        ensures
            final(self).wf(),
            wave_off(*old(self), *final(self)),
    {
        self.length_counter.power_off();
        self.channel_enabled = false;
        self.dac_enabled = false;
        self.position = 0;
        self.frequency = 0;
        self.volume_code = 0;
        self.ticks_since_read = 0;
        self.last_address = 0;
    }

    /// Restarts the channel at position 0. A playing channel whose timer is
    /// 2 first copies the byte being played to the front of wave RAM.
    pub fn trigger(&mut self)
        requires
            old(self).wf(),
            wave_trigger_ok(&*old(self)),
        ensures
            final(self).wf(),
            wave_triggered(*old(self), *final(self)),
    {
        if self.enabled() && self.timer == 2 {
            proof { lemma_counters(self.position); }
            let pos: i32 = self.position >> 1;
            if pos < 4 {
                let b: u8 = self.waves[pos as usize];
                self.waves.set(0, b);
            }
        }
        self.timer = 6;
        self.position = 0;
        self.last_address = 0;
        self.channel_enabled = self.dac_enabled;
    }

    /// One timer step. When the timer has run out it is reloaded from the
    /// frequency; a playing channel reads the sample at its position (high
    /// nibble first), shifts it down by the volume code (code 0 mutes) and
    /// moves to the next sample; a silent one outputs 0.
    pub fn tick(&mut self)
        requires
            old(self).wf(),
            old(self).ticks_since_read < i32::MAX,
        ensures
            final(self).wf(),
            wave_ticked(*old(self), *final(self)),
    {
        self.ticks_since_read = self.ticks_since_read + 1;
        proof { lemma_frequency_bytes(self.frequency, 0); }
        if self.timer <= 0 {
            self.timer = (2048 - self.frequency) << 1;
            if self.enabled() {
                proof { lemma_counters(self.position); }
                self.ticks_since_read = 0;
                self.last_address = self.position >> 1;
                self.output = self.waves[self.last_address as usize];
                if (self.position & 1) == 1 {
                    self.output = self.output & 0x0F;
                } else {
                    self.output = self.output >> 4;
                }
                if self.volume_code > 0 {
                    self.output = self.output >> ((self.volume_code - 1) as u8);
                } else {
                    self.output = 0;
                }
                self.position = (self.position + 1) & 31;
            } else {
                self.output = 0;
            }
        }
    }

    /// Reads register `addr`: wave RAM (0xFF30-0xFF3F; while playing only
    /// the byte just played, within two ticks of it, else 0xFF), NR30 to
    /// NR34; other addresses read 0.
    pub fn read(&self, addr: u16) -> (r: u8)
        requires
            self.wf(),
        ensures
            r == wave_read(*self, addr),
    {
        if addr >= 0xFF30 && addr <= 0xFF3F {
            if self.enabled() {
                if self.ticks_since_read < 2 {
                    return self.waves[self.last_address as usize];
                } else {
                    return 0xFF;
                }
            } else {
                return self.waves[(addr - 0xFF30) as usize];
            }
        }
        match addr {
            0xFF1A => ((if self.dac_enabled { 1u8 } else { 0u8 }) << 7) | 0x7F,
            0xFF1B => 0xFF,
            0xFF1C => ((self.volume_code as u8) << 5) | 0x9F,
            0xFF1D => 0xFF,
            0xFF1E => ((if self.length_counter.enabled() { 1u8 } else { 0u8 }) << 6) | 0xBF,
            _ => 0,
        }
    }

    /// Writes register `addr`: wave RAM (while playing only the byte just
    /// played, within two ticks of it), NR30 to NR34; other addresses change
    /// nothing.
    pub fn write(&mut self, addr: u16, value: u8)
        requires
            old(self).wf(),
            addr == 0xFF1E ==> old(self).length_counter.counts_ok(),
            addr == 0xFF1E && (value >> 7) & 1 == 1 ==> wave_trigger_ok(&*old(self)),
        ensures
            final(self).wf(),
            wave_written(*old(self), *final(self), addr, value),
    {
        proof {
            lemma_byte_fields(value);
            lemma_frequency_bytes(self.frequency, value);
        }
        if addr >= 0xFF30 && addr <= 0xFF3F {
            if self.enabled() {
                if self.ticks_since_read < 2 {
                    let i: usize = self.last_address as usize;
                    self.waves.set(i, value);
                }
            } else {
                self.waves.set((addr - 0xFF30) as usize, value);
            }
            return;
        }
        match addr {
            0xFF1A => {
                self.dac_enabled = ((value >> 7) & 1) != 0;
                self.channel_enabled = self.channel_enabled && self.dac_enabled;
            },
            0xFF1B => self.length_counter.set_length(value),
            0xFF1C => self.volume_code = ((value >> 5) & 0b11) as i32,
            0xFF1D => self.frequency = (self.frequency & 0x700) | (value as i32),
            0xFF1E => {
                self.length_counter.write_nr4(value);
                self.frequency = (self.frequency & 0xFF) | (((value as i32) & 0b111) << 8);
                if self.length_counter.enabled() && self.length_counter.zero() {
                    self.channel_enabled = false;
                } else if ((value >> 7) & 1) == 1 {
                    self.trigger();
                }
            },
            _ => {},
        }
    }

    /// A length counter that has run out switches the channel off.
    pub fn length_clock(&mut self)
        ensures
            wave_length_clocked(*old(self), *final(self)),
    {
        if self.length_counter.enabled() && self.length_counter.zero() {
            self.channel_enabled = false;
        }
    }

    /// The channel plays: its DAC and the channel are on.
    pub fn enabled(&self) -> (r: bool)
        ensures
            r == wave_on(self),
    {
        self.dac_enabled && self.channel_enabled
    }
}

} // verus!
