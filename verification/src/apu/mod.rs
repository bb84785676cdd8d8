pub mod envelope;
pub mod length_counter;
pub mod sweep;
pub mod square1;
pub mod square2;
pub mod wave;
pub mod noise;

use vstd::prelude::*;
use crate::apu::length_counter::LengthCounter;
use crate::apu::noise::{Noise, noise_env_clocked, noise_length_clocked, noise_off, noise_on, noise_read, noise_ticked, noise_written};
use crate::apu::square1::{Square1, sq1_env_clocked, sq1_length_clocked, sq1_off, sq1_on, sq1_read, sq1_swept, sq1_ticked, sq1_written};
use crate::apu::square2::{Square2, sq2_env_clocked, sq2_length_clocked, sq2_off, sq2_on, sq2_read, sq2_ticked, sq2_written};
use crate::apu::wave::{Wave, wave_framed, wave_off, wave_on, wave_read, wave_ticked, wave_trigger_ok, wave_written};
use crate::bits::{lemma_byte_fields, lemma_counters, lemma_or_zero};

verus! {

/// The duty waveforms: whether step `step` of the eight steps of duty
/// setting `duty` (12.5%, 25%, 50%, 75%) is high.
pub open spec fn duty_spec(duty: u8, step: i32) -> bool {
    if duty == 0 {
        step == 7
    } else if duty == 1 {
        step == 0 || step == 7
    } else if duty == 2 {
        step == 0 || step >= 5
    } else {
        1 <= step <= 6
    }
}

/// Whether step `step` of duty setting `duty` is high.
pub fn duty_cycle(duty: u8, step: i32) -> (r: bool)
    requires
        duty < 4,
        0 <= step < 8,
    ensures
        r == duty_spec(duty, step),
{
    if duty == 0 {
        step == 7
    } else if duty == 1 {
        step == 0 || step == 7
    } else if duty == 2 {
        step == 0 || step >= 5
    } else {
        1 <= step && step <= 6
    }
}

/// The eight steps of the frame sequencer.
#[derive(Clone, Copy, PartialEq, Eq, Structural)]
pub enum FrameSequencer {
    Step0,
    Step1,
    Step2,
    Step3,
    Step4,
    Step5,
    Step6,
    Step7,
}

/// The number of a frame sequencer step.
pub open spec fn fs_index(fs: FrameSequencer) -> i32 {
    match fs {
        FrameSequencer::Step0 => 0,
        FrameSequencer::Step1 => 1,
        FrameSequencer::Step2 => 2,
        FrameSequencer::Step3 => 3,
        FrameSequencer::Step4 => 4,
        FrameSequencer::Step5 => 5,
        FrameSequencer::Step6 => 6,
        FrameSequencer::Step7 => 7,
    }
}

/// The frame sequencer step numbered `i`; numbers outside 0..8 give step 0.
pub open spec fn fs_of(i: int) -> FrameSequencer {
    if i == 1 {
        FrameSequencer::Step1
    } else if i == 2 {
        FrameSequencer::Step2
    } else if i == 3 {
        FrameSequencer::Step3
    } else if i == 4 {
        FrameSequencer::Step4
    } else if i == 5 {
        FrameSequencer::Step5
    } else if i == 6 {
        FrameSequencer::Step6
    } else if i == 7 {
        FrameSequencer::Step7
    } else {
        FrameSequencer::Step0
    }
}

/// The frame sequencer step numbered `fs`; numbers outside 0..8 give step 0.
pub fn int_to_frame_sequencer(fs: i32) -> (r: FrameSequencer)
    ensures
        r == fs_of(fs as int),
{
    match fs {
        0 => FrameSequencer::Step0,
        1 => FrameSequencer::Step1,
        2 => FrameSequencer::Step2,
        3 => FrameSequencer::Step3,
        4 => FrameSequencer::Step4,
        5 => FrameSequencer::Step5,
        6 => FrameSequencer::Step6,
        7 => FrameSequencer::Step7,
        _ => FrameSequencer::Step0,
    }
}

/// The number of a frame sequencer step.
pub fn frame_sequencer_to_int(fs: FrameSequencer) -> (r: i32)
    ensures
        r == fs_index(fs),
{
    match fs {
        FrameSequencer::Step0 => 0,
        FrameSequencer::Step1 => 1,
        FrameSequencer::Step2 => 2,
        FrameSequencer::Step3 => 3,
        FrameSequencer::Step4 => 4,
        FrameSequencer::Step5 => 5,
        FrameSequencer::Step6 => 6,
        FrameSequencer::Step7 => 7,
    }
}

/// 1 for true, 0 for false.
pub open spec fn bit(b: bool) -> u8 {
    if b { 1 } else { 0 }
}

/// The audio processing unit: four channels, the master controls and the
/// frame sequencer that clocks lengths, sweep and envelopes.
pub struct Apu {
    pub channel_1: Square1,
    pub channel_2: Square2,
    pub channel_3: Wave,
    pub channel_4: Noise,
    pub enabled: bool,
    pub vin_left_enable: bool,
    pub vin_right_enable: bool,
    pub left_volume: u8,
    pub right_volume: u8,
    pub left_enables: Vec<bool>,
    pub right_enables: Vec<bool>,
    pub frequency_counter: i32,
    pub frame_sequencer_counter: i32,
    pub frame_sequencer: FrameSequencer,
}

/// Channel 1 at frame sequencer step `k`: lengths are clocked on even
/// steps, the sweep on steps 2 and 6, the envelope on step 7.
pub open spec fn sq1_framed(c: Square1, k: i32) -> Square1 {
    if k == 0 || k == 4 {
        sq1_length_clocked(c)
    } else if k == 2 || k == 6 {
        sq1_length_clocked(sq1_swept(c))
    } else if k == 7 {
        sq1_env_clocked(c)
    } else {
        c
    }
}

/// Channel 2 at frame sequencer step `k`.
pub open spec fn sq2_framed(c: Square2, k: i32) -> Square2 {
    if k == 0 || k == 2 || k == 4 || k == 6 {
        sq2_length_clocked(c)
    } else if k == 7 {
        sq2_env_clocked(c)
    } else {
        c
    }
}

/// Channel 4 at frame sequencer step `k`.
pub open spec fn noise_framed(c: Noise, k: i32) -> Noise {
    if k == 0 || k == 2 || k == 4 || k == 6 {
        noise_length_clocked(c)
    } else if k == 7 {
        noise_env_clocked(c)
    } else {
        c
    }
}

/// What register `addr` of the sound unit reads: the channel registers
/// (0xFF10-0xFF23), NR50 (0xFF24), NR51 (0xFF25) and NR52 (0xFF26); others read 0.
pub open spec fn apu_read(a: Apu, addr: u16) -> u8 {
    if 0xFF10 <= addr <= 0xFF14 {
        sq1_read(a.channel_1, addr)
    } else if 0xFF15 <= addr <= 0xFF19 {
        sq2_read(a.channel_2, addr)
    } else if 0xFF1A <= addr <= 0xFF1E {
        wave_read(a.channel_3, addr)
    } else if 0xFF1F <= addr <= 0xFF23 {
        noise_read(a.channel_4, addr)
    } else if addr == 0xFF24 {
        (bit(a.vin_left_enable) << 7) | (a.left_volume << 4) | (bit(a.vin_right_enable) << 3) | a.right_volume
    } else if addr == 0xFF25 {
        let r = a.right_enables@;
        let l = a.left_enables@;
        bit(r[0]) | bit(l[0]) | (bit(r[1]) << 1) | (bit(l[1]) << 1) | (bit(r[2]) << 2) | (bit(l[2]) << 2)
            | (bit(r[3]) << 3) | (bit(l[3]) << 3)
    } else if addr == 0xFF26 {
        (bit(a.enabled) << 7) | bit(sq1_on(a.channel_1)) | (bit(sq2_on(a.channel_2)) << 1)
            | (bit(wave_on(&a.channel_3)) << 2) | (bit(noise_on(a.channel_4)) << 3) | 0x70
    } else {
        0
    }
}

/// The four channel enables of NR51 from `value`, starting at bit `from`.
pub open spec fn enables_of(value: u8, from: u8) -> Seq<bool> {
    Seq::new(4, |i: int| (value >> ((i + from) as u8)) & 1 != 0)
}

/// Clocks channel 1 for frame sequencer step `k`.
fn frame_square1(c: &mut Square1, k: i32)
    requires
        old(c).wf(),
    ensures
        final(c).wf(),
        *final(c) == sq1_framed(*old(c), k),
{
    if k == 0 || k == 4 {
        c.length_clock();
    } else if k == 2 || k == 6 {
        c.sweep_clock();
        c.length_clock();
    } else if k == 7 {
        c.envelope_clock();
    }
}

/// Clocks channel 2 for frame sequencer step `k`.
fn frame_square2(c: &mut Square2, k: i32)
    requires
        old(c).wf(),
    ensures
        final(c).wf(),
        *final(c) == sq2_framed(*old(c), k),
{
    if k == 0 || k == 2 || k == 4 || k == 6 {
        c.length_clock();
    } else if k == 7 {
        c.envelope_clock();
    }
}

/// Clocks channel 3 for frame sequencer step `k` (lengths on even steps).
fn frame_wave(c: &mut Wave, k: i32)
    requires
        old(c).wf(),
    ensures
        final(c).wf(),
        *final(c) == wave_framed(*old(c), k),
{
    if k == 0 || k == 2 || k == 4 || k == 6 {
        c.length_clock();
    }
}

/// Clocks channel 4 for frame sequencer step `k`.
fn frame_noise(c: &mut Noise, k: i32)
    requires
        old(c).wf(),
    ensures
        final(c).wf(),
        *final(c) == noise_framed(*old(c), k),
{
    if k == 0 || k == 2 || k == 4 || k == 6 {
        c.length_clock();
    } else if k == 7 {
        c.envelope_clock();
    }
}

/// The sound unit after power-off: master controls and enables cleared,
/// every channel powered off; the frame sequencer and mixing counter kept.
pub open spec fn apu_cleared(a0: Apu, a1: Apu) -> bool {
    &&& !a1.vin_left_enable && !a1.vin_right_enable
    &&& a1.left_volume == 0 && a1.right_volume == 0
    &&& !a1.enabled
    &&& a1.channel_1 == sq1_off(a0.channel_1)
    &&& a1.channel_2 == sq2_off(a0.channel_2)
    &&& wave_off(a0.channel_3, a1.channel_3)
    &&& a1.channel_4 == noise_off(a0.channel_4)
    &&& a1.left_enables@ == seq![false, false, false, false]
    &&& a1.right_enables@ == seq![false, false, false, false]
    &&& a1.frequency_counter == a0.frequency_counter
    &&& a1.frame_sequencer_counter == a0.frame_sequencer_counter
    &&& a1.frame_sequencer == a0.frame_sequencer
}

/// The sound unit after a write of `value` to register `addr`. NR52
/// (0xFF26) switches the unit on or off (off clears it; on restarts the
/// frame sequencer); wave RAM is always written; while the unit is off only
/// the length bits of NR11, NR21, NR31 and NR41 are written; otherwise the
/// channel registers, NR50 (0xFF24) and NR51 (0xFF25) are.
pub open spec fn apu_written(a0: Apu, a1: Apu, addr: u16, value: u8) -> bool {
    let enable = (value >> 7) & 1 != 0;
    if addr == 0xFF26 {
        if a0.enabled && !enable {
            apu_cleared(a0, a1)
        } else {
            a1 == (Apu {
                enabled: enable,
                frame_sequencer: if !a0.enabled && enable { FrameSequencer::Step0 } else { a0.frame_sequencer },
                ..a0
            })
        }
    } else if 0xFF30 <= addr <= 0xFF3F {
        a1 == (Apu { channel_3: a1.channel_3, ..a0 }) && wave_written(a0.channel_3, a1.channel_3, addr, value)
    } else if !a0.enabled {
        if addr == 0xFF11 {
            a1 == (Apu { channel_1: sq1_written(a0.channel_1, addr, value & 0x3F), ..a0 })
        } else if addr == 0xFF16 {
            a1 == (Apu { channel_2: sq2_written(a0.channel_2, addr, value & 0x3F), ..a0 })
        } else if addr == 0xFF1B {
            a1 == (Apu { channel_3: a1.channel_3, ..a0 }) && wave_written(a0.channel_3, a1.channel_3, addr, value & 0x3F)
        } else if addr == 0xFF20 {
            a1 == (Apu { channel_4: noise_written(a0.channel_4, addr, value & 0x3F), ..a0 })
        } else {
            a1 == a0
        }
    } else if 0xFF10 <= addr <= 0xFF14 {
        a1 == (Apu { channel_1: sq1_written(a0.channel_1, addr, value), ..a0 })
    } else if 0xFF15 <= addr <= 0xFF19 {
        a1 == (Apu { channel_2: sq2_written(a0.channel_2, addr, value), ..a0 })
    } else if 0xFF1A <= addr <= 0xFF1E {
        a1 == (Apu { channel_3: a1.channel_3, ..a0 }) && wave_written(a0.channel_3, a1.channel_3, addr, value)
    } else if 0xFF1F <= addr <= 0xFF23 {
        a1 == (Apu { channel_4: noise_written(a0.channel_4, addr, value), ..a0 })
    } else if addr == 0xFF24 {
        a1 == (Apu {
            right_volume: value & 7,
            vin_right_enable: (value >> 3) & 1 != 0,
            left_volume: (value >> 4) & 7,
            vin_left_enable: enable,
            ..a0
        })
    } else if addr == 0xFF25 {
        &&& a1.right_enables@ == enables_of(value, 0)
        &&& a1.left_enables@ == enables_of(value, 4)
        &&& a1 == (Apu { right_enables: a1.right_enables, left_enables: a1.left_enables, ..a0 })
    } else {
        a1 == a0
    }
}

impl Apu {
    /// Every channel holds its invariant; each side has four enables.
    pub open spec fn wf(&self) -> bool {
        &&& self.channel_1.wf() && self.channel_2.wf() && self.channel_3.wf() && self.channel_4.wf()
        &&& self.left_enables@.len() == 4 && self.right_enables@.len() == 4
    }

    /// The sound unit at power-on: everything off, frame sequencer at step 0.
    pub fn new() -> (a: Apu)
        ensures
            a.wf(),
            !a.enabled && !a.vin_left_enable && !a.vin_right_enable,
            a.left_volume == 0 && a.right_volume == 0,
            a.left_enables@ == seq![false, false, false, false],
            a.right_enables@ == seq![false, false, false, false],
            a.frequency_counter == 0 && a.frame_sequencer_counter == 0,
            a.frame_sequencer == FrameSequencer::Step0,
    {
        Apu {
            channel_1: Square1::new(),
            channel_2: Square2::new(),
            channel_3: Wave::new(),
            channel_4: Noise::new(),
            enabled: false,
            vin_left_enable: false,
            vin_right_enable: false,
            left_volume: 0,
            right_volume: 0,
            left_enables: vec![false, false, false, false],
            right_enables: vec![false, false, false, false],
            frequency_counter: 0,
            frame_sequencer_counter: 0,
            frame_sequencer: FrameSequencer::Step0,
        }
    }

    /// Powers the unit off: master controls and enables cleared, every
    /// channel powered off.
    pub fn clear_regs(&mut self)
        requires
            old(self).wf(),
        ensures
            final(self).wf(),
            apu_cleared(*old(self), *final(self)),
    {
        self.vin_left_enable = false;
        self.vin_right_enable = false;
        self.left_volume = 0;
        self.right_volume = 0;
        self.enabled = false;
        self.channel_1.power_off();
        self.channel_2.power_off();
        self.channel_3.power_off();
        self.channel_4.power_off();
        self.left_enables = vec![false, false, false, false];
        self.right_enables = vec![false, false, false, false];
    }

    /// One frame sequencer clock: the counter is reloaded with 8192, the
    /// channels are clocked for the current step, and the sequencer moves
    /// to the next step, which the length counters note.
    fn clock_frame_sequencer(&mut self)
        requires
            old(self).wf(),
        ensures
            final(self).wf(),
            ({
                let a = &*old(self);
                let k = fs_index(a.frame_sequencer);
                let next = ((k + 1) % 8) as i32;
                let c1 = sq1_framed(a.channel_1, k);
                let c2 = sq2_framed(a.channel_2, k);
                let c4 = noise_framed(a.channel_4, k);
                &&& final(self).frame_sequencer_counter == 8192
                &&& final(self).frame_sequencer == fs_of(next as int)
                &&& final(self).channel_1 == (Square1 { length_counter: LengthCounter { frame_sequencer: next, ..c1.length_counter }, ..c1 })
                &&& final(self).channel_2 == (Square2 { length_counter: LengthCounter { frame_sequencer: next, ..c2.length_counter }, ..c2 })
                &&& final(self).channel_4 == (Noise { length_counter: LengthCounter { frame_sequencer: next, ..c4.length_counter }, ..c4 })
                &&& final(self).channel_3 == (Wave {
                        length_counter: LengthCounter { frame_sequencer: next, ..wave_framed(a.channel_3, k).length_counter },
                        ..wave_framed(a.channel_3, k)
                    })
                &&& final(self).frequency_counter == a.frequency_counter
                &&& final(self).enabled == a.enabled && final(self).left_enables == a.left_enables
                &&& final(self).right_enables == a.right_enables
                &&& final(self).left_volume == a.left_volume && final(self).right_volume == a.right_volume
                &&& final(self).vin_left_enable == a.vin_left_enable && final(self).vin_right_enable == a.vin_right_enable
            }),
    {
        self.frame_sequencer_counter = 8192;
        let step: i32 = frame_sequencer_to_int(self.frame_sequencer);
        frame_square1(&mut self.channel_1, step);
        frame_square2(&mut self.channel_2, step);
        frame_wave(&mut self.channel_3, step);
        frame_noise(&mut self.channel_4, step);
        let k: i32 = frame_sequencer_to_int(self.frame_sequencer);
        proof { lemma_counters(k); }
        let new_frame_sequencer: i32 = (k + 1) & 7;
        self.frame_sequencer = int_to_frame_sequencer(new_frame_sequencer);
        self.channel_1.length_counter.set_frame_sequencer(new_frame_sequencer);
        self.channel_2.length_counter.set_frame_sequencer(new_frame_sequencer);
        self.channel_3.length_counter.set_frame_sequencer(new_frame_sequencer);
        self.channel_4.length_counter.set_frame_sequencer(new_frame_sequencer);
    }

    /// One step of the sound unit. When the frame sequencer counter has run
    /// out it is reloaded with 8192, the channels are clocked for the
    /// current step and the sequencer moves to the next step (which the
    /// length counters note); then every channel ticks, and the mixing
    /// counter is reloaded with 95 when it has run out.
    pub fn tick(&mut self)
        requires
            old(self).wf(),
            old(self).channel_3.ticks_since_read < i32::MAX,
        ensures
            final(self).wf(),
            ({
                let a = &*old(self);
                let clocked = a.frame_sequencer_counter <= 0;
                let k = fs_index(a.frame_sequencer);
                let next = ((k + 1) % 8) as i32;
                let c1 = sq1_framed(a.channel_1, k);
                let c2 = sq2_framed(a.channel_2, k);
                let c4 = noise_framed(a.channel_4, k);
                &&& final(self).frame_sequencer_counter == if clocked { 8192 } else { a.frame_sequencer_counter }
                &&& final(self).frame_sequencer == if clocked { fs_of(next as int) } else { a.frame_sequencer }
                &&& final(self).frequency_counter == if a.frequency_counter <= 0 { 95 } else { a.frequency_counter }
                &&& final(self).channel_1 == sq1_ticked(if clocked {
                    Square1 { length_counter: LengthCounter { frame_sequencer: next, ..c1.length_counter }, ..c1 }
                } else {
                    a.channel_1
                })
                &&& final(self).channel_2 == sq2_ticked(if clocked {
                    Square2 { length_counter: LengthCounter { frame_sequencer: next, ..c2.length_counter }, ..c2 }
                } else {
                    a.channel_2
                })
                &&& final(self).channel_4 == noise_ticked(if clocked {
                    Noise { length_counter: LengthCounter { frame_sequencer: next, ..c4.length_counter }, ..c4 }
                } else {
                    a.channel_4
                })
                &&& wave_ticked(if clocked {
                        Wave {
                            length_counter: LengthCounter { frame_sequencer: next, ..wave_framed(a.channel_3, k).length_counter },
                            ..wave_framed(a.channel_3, k)
                        }
                    } else {
                        a.channel_3
                    }, final(self).channel_3)
                &&& final(self).enabled == a.enabled && final(self).left_enables == a.left_enables
                &&& final(self).right_enables == a.right_enables
                &&& final(self).left_volume == a.left_volume && final(self).right_volume == a.right_volume
                &&& final(self).vin_left_enable == a.vin_left_enable && final(self).vin_right_enable == a.vin_right_enable
            }),
    {
        if self.frame_sequencer_counter <= 0 {
            self.clock_frame_sequencer();
        }
        self.channel_1.tick();
        self.channel_2.tick();
        self.channel_3.tick();
        self.channel_4.tick();
        if self.frequency_counter <= 0 {
            self.frequency_counter = 95;
        }
    }

    /// Reads register `addr` of the sound unit.
    pub fn read(&self, addr: u16) -> (r: u8)
        requires
            self.wf(),
        ensures
            r == apu_read(*self, addr),
    {
        if 0xFF10 <= addr && addr <= 0xFF14 {
            return self.channel_1.read(addr);
        } else if 0xFF15 <= addr && addr <= 0xFF19 {
            return self.channel_2.read(addr);
        } else if 0xFF1A <= addr && addr <= 0xFF1E {
            return self.channel_3.read(addr);
        } else if 0xFF1F <= addr && addr <= 0xFF23 {
            return self.channel_4.read(addr);
        }
        match addr {
            0xFF24 => {
                ((if self.vin_left_enable { 1u8 } else { 0u8 }) << 7) | (self.left_volume << 4)
                    | ((if self.vin_right_enable { 1u8 } else { 0u8 }) << 3) | self.right_volume
            },
            0xFF25 => {
                let mut result: u8 = 0;
                result = result | ((if self.right_enables[0] { 1u8 } else { 0u8 }) << 0u8);
                result = result | ((if self.left_enables[0] { 1u8 } else { 0u8 }) << 0u8);
                result = result | ((if self.right_enables[1] { 1u8 } else { 0u8 }) << 1u8);
                result = result | ((if self.left_enables[1] { 1u8 } else { 0u8 }) << 1u8);
                result = result | ((if self.right_enables[2] { 1u8 } else { 0u8 }) << 2u8);
                result = result | ((if self.left_enables[2] { 1u8 } else { 0u8 }) << 2u8);
                result = result | ((if self.right_enables[3] { 1u8 } else { 0u8 }) << 3u8);
                result = result | ((if self.left_enables[3] { 1u8 } else { 0u8 }) << 3u8);
                proof {
                    lemma_or_zero(bit(self.right_enables@[0]));
                    lemma_or_zero(bit(self.left_enables@[0]));
                }
                result
            },
            0xFF26 => {
                let mut result: u8 = (if self.enabled { 1u8 } else { 0u8 }) << 7;
                result = result | ((if self.channel_1.enabled() { 1u8 } else { 0u8 }) << 0u8);
                result = result | ((if self.channel_2.enabled() { 1u8 } else { 0u8 }) << 1u8);
                result = result | ((if self.channel_3.enabled() { 1u8 } else { 0u8 }) << 2u8);
                result = result | ((if self.channel_4.enabled() { 1u8 } else { 0u8 }) << 3u8);
                proof { lemma_or_zero(bit(sq1_on(self.channel_1))); }
                result | 0x70
            },
            _ => 0,
        }
    }

    /// Writes register `addr` of the sound unit.
    #[verifier::rlimit(30)]
    pub fn write(&mut self, addr: u16, value: u8)
        requires
            old(self).wf(),
            old(self).enabled && addr == 0xFF14 ==> old(self).channel_1.length_counter.counts_ok(),
            old(self).enabled && addr == 0xFF19 ==> old(self).channel_2.length_counter.counts_ok(),
            old(self).enabled && addr == 0xFF1E ==> old(self).channel_3.length_counter.counts_ok()
                && ((value >> 7) & 1 == 1 ==> wave_trigger_ok(&old(self).channel_3)),
            old(self).enabled && addr == 0xFF23 ==> old(self).channel_4.length_counter.counts_ok(),
        ensures
            final(self).wf(),
            apu_written(*old(self), *final(self), addr, value),
    {
        proof { lemma_byte_fields(value); }
        if addr == 0xFF26 {
            let enable: bool = ((value >> 7) & 1) != 0;
            if self.enabled && !enable {
                self.clear_regs();
            } else if !self.enabled && enable {
                self.frame_sequencer = int_to_frame_sequencer(0);
            }
            self.enabled = enable;
            return;
        } else if 0xFF30 <= addr && addr <= 0xFF3F {
            self.channel_3.write(addr, value);
            return;
        }
        if !self.enabled {
            match addr {
                0xFF11 => self.channel_1.write(addr, value & 0x3F),
                0xFF16 => self.channel_2.write(addr, value & 0x3F),
                0xFF1B => self.channel_3.write(addr, value & 0x3F),
                0xFF20 => self.channel_4.write(addr, value & 0x3F),
                _ => {},
            }
            return;
        }
        if 0xFF10 <= addr && addr <= 0xFF14 {
            self.channel_1.write(addr, value);
            return;
        } else if 0xFF15 <= addr && addr <= 0xFF19 {
            self.channel_2.write(addr, value);
            return;
        } else if 0xFF1A <= addr && addr <= 0xFF1E {
            self.channel_3.write(addr, value);
            return;
        } else if 0xFF1F <= addr && addr <= 0xFF23 {
            self.channel_4.write(addr, value);
            return;
        }
        if 0xFF27 <= addr && addr <= 0xFF2F {
            return;
        }
        match addr {
            0xFF24 => {
                self.right_volume = value & 0b111;
                self.vin_right_enable = ((value >> 3) & 1) != 0;
                self.left_volume = (value >> 4) & 0b111;
                self.vin_left_enable = ((value >> 7) & 1) != 0;
            },
            0xFF25 => {
                let mut i: usize = 0;
                while i < 4
                    invariant
                        i <= 4,
                        self.left_enables@.len() == 4 && self.right_enables@.len() == 4,
                        forall|j: int| 0 <= j < i ==> self.right_enables@[j] == enables_of(value, 0)[j],
                        forall|j: int| 0 <= j < i ==> self.left_enables@[j] == enables_of(value, 4)[j],
                        *self == (Apu { right_enables: self.right_enables, left_enables: self.left_enables, ..*old(self) }),
                    decreases 4 - i,
                {
                    self.right_enables.set(i, ((value >> (i as u8)) & 1) != 0);
                    self.left_enables.set(i, ((value >> ((i + 4) as u8)) & 1) != 0);
                    i = i + 1;
                }
                assert(self.right_enables@ =~= enables_of(value, 0));
                assert(self.left_enables@ =~= enables_of(value, 4));
            },
            _ => {},
        }
    }
}

} // verus!
