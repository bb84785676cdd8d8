use vstd::prelude::*;
use crate::bits::lemma_byte_fields;

verus! {

/// The volume envelope of a channel: a starting volume that each step moves
/// up or down by one until it reaches 0 or 15.
#[derive(Clone, Copy)]
pub struct VolumeEnvelope {
    pub finished: bool,
    pub timer: i32,
    pub starting_volume: u8,
    pub add_mode: bool,
    pub period: u8,
    pub volume: u8,
}

/// The envelope after an NRx2 write.
pub open spec fn env_written(e: VolumeEnvelope, value: u8) -> VolumeEnvelope {
    VolumeEnvelope { starting_volume: value >> 4, add_mode: (value >> 3) & 1 != 0, period: value & 7, ..e }
}

/// The envelope after a trigger.
pub open spec fn env_triggered(e: VolumeEnvelope) -> VolumeEnvelope {
    VolumeEnvelope { volume: e.starting_volume, finished: false, timer: e.reload(), ..e }
}

/// The envelope after one envelope clock.
pub open spec fn env_stepped(e: VolumeEnvelope) -> VolumeEnvelope {
    let v = if e.add_mode && e.volume < 15 {
        (e.volume + 1) as u8
    } else if !e.add_mode && e.volume > 0 {
        (e.volume - 1) as u8
    } else {
        e.volume
    };
    if e.finished || e.timer > 0 {
        e
    } else {
        VolumeEnvelope { timer: e.reload(), volume: v, finished: v == 0 || v == 15, ..e }
    }
}

/// The envelope after power-off.
pub open spec fn env_off() -> VolumeEnvelope {
    VolumeEnvelope { finished: true, timer: 0, starting_volume: 0, add_mode: false, period: 0, volume: 0 }
}

/// The volume a channel plays at.
pub open spec fn env_volume(e: VolumeEnvelope) -> u8 {
    if e.period > 0 { e.volume } else { e.starting_volume }
}

impl VolumeEnvelope {
    /// Volumes are four bits, the period three.
    pub open spec fn wf(&self) -> bool {
        self.starting_volume < 16 && self.volume < 16 && self.period < 8
    }

    /// The period counted down from: the register's period, or 8 when it is 0.
    pub open spec fn reload(&self) -> i32 {
        if self.period != 0 { self.period as i32 } else { 8 }
    }

    /// The envelope before any write.
    pub open spec fn new_spec() -> VolumeEnvelope {
        VolumeEnvelope { finished: false, timer: 0, starting_volume: 0, add_mode: false, period: 0, volume: 0 }
    }

    pub fn new() -> (e: VolumeEnvelope)
        ensures
            e == VolumeEnvelope::new_spec(),
            e.wf(),
    {
        VolumeEnvelope { finished: false, timer: 0, starting_volume: 0, add_mode: false, period: 0, volume: 0 }
    }

    /// Everything cleared; the envelope is finished.
    pub fn power_off(&mut self)
        ensures
            *final(self) == env_off(),
            final(self).wf(),
    {
        self.finished = true;
        self.timer = 0;
        self.starting_volume = 0;
        self.add_mode = false;
        self.period = 0;
        self.volume = 0;
    }

    /// NRx2: starting volume (bits 7-4), direction (bit 3, 1 adds), period (bits 2-0).
    pub fn write_nr2(&mut self, value: u8)
        requires
            old(self).wf(),
        ensures
            final(self).wf(),
            *final(self) == env_written(*old(self), value),
    {
        proof { lemma_byte_fields(value); }
        self.starting_volume = value >> 4;
        self.add_mode = ((value >> 3) & 1) != 0;
        self.period = value & 0b111;
    }

    /// NRx2 as read back.
    pub fn read_nr2(&self) -> (r: u8)
        ensures
            r == (self.starting_volume << 4) | ((if self.add_mode { 1u8 } else { 0u8 }) << 3) | self.period,
    {
        let add_m: u8 = (if self.add_mode { 1u8 } else { 0u8 }) << 3;
        (self.starting_volume << 4) | add_m | self.period
    }

    /// The current volume; the starting volume while the period is 0.
    pub fn volume(&self) -> (r: u8)
        ensures
            r == env_volume(*self),
    {
        if self.period > 0 {
            self.volume
        } else {
            self.starting_volume
        }
    }

    /// Restarts the envelope at the starting volume.
    pub fn trigger(&mut self)
        requires
            old(self).wf(),
        ensures
            final(self).wf(),
            *final(self) == env_triggered(*old(self)),
    {
        self.volume = self.starting_volume;
        self.finished = false;
        self.timer = if self.period != 0 { self.period as i32 } else { 8 };
    }

    /// One envelope clock: when the timer has run out it is reloaded and the
    /// volume moves one step in its direction; reaching 0 or 15 finishes.
    pub fn step(&mut self)
        requires
            old(self).wf(),
        ensures
            final(self).wf(),
            *final(self) == env_stepped(*old(self)),
    {
        if self.finished {
            return;
        }
        if self.timer <= 0 {
            self.timer = if self.period != 0 { self.period as i32 } else { 8 };
            if self.add_mode && self.volume < 15 {
                self.volume = self.volume + 1;
            } else if !self.add_mode && self.volume > 0 {
                self.volume = self.volume - 1;
            }
            if self.volume == 0 || self.volume == 15 {
                self.finished = true;
            }
        }
    }
}

} // verus!
