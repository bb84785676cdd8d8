use vstd::prelude::*;
use crate::bits::group_bits;
use crate::constants::{DIV, TAC, TIMA, TMA};

verus! {

broadcast use group_bits;

/// A divider: counts cycles and reports how many whole periods went by.
#[derive(Debug, Clone, Copy)]
pub struct Clock {
    pub period: u32,
    pub n: u32,
}

impl Clock {
    /// A clock with the given period and no cycles counted.
    pub fn power_up(period: u32) -> (c: Clock)
        ensures
            c.period == period,
            c.n == 0,
    {
        Clock { period, n: 0x00 }
    }

    /// Adds `cycles` to the count; returns the whole periods it holds and
    /// keeps the remainder.
    pub fn next(&mut self, cycles: u32) -> (res: u32)
        requires
            old(self).period > 0,
            old(self).n + cycles <= u32::MAX,
        ensures
            res == (old(self).n + cycles) / old(self).period as int,
            final(self).n == (old(self).n + cycles) % old(self).period as int,
            final(self).period == old(self).period,
            final(self).n < final(self).period,
    {
        self.n = self.n + cycles;
        let res: u32 = self.n / self.period;
        self.n = self.n % self.period;
        res
    }
}

/// The period, in T-cycles, that the low two bits of TAC select for TIMA.
pub open spec fn tima_period(select: u8) -> u32 {
    if select % 4 == 0 {
        1024
    } else if select % 4 == 1 {
        16
    } else if select % 4 == 2 {
        64
    } else {
        256
    }
}

/// TIMA after `k` increments: each adds one, and a count that wraps to zero
/// is reloaded from TMA.
pub open spec fn tima_after(tima: u8, tma: u8, k: nat) -> u8
    decreases k,
{
    if k == 0 {
        tima
    } else {
        let t = tima_after(tima, tma, (k - 1) as nat).wrapping_add(1);
        if t == 0 { tma } else { t }
    }
}

/// Some of the first `k` increments of TIMA wrapped it past 0xFF.
pub open spec fn tima_overflows(tima: u8, tma: u8, k: nat) -> bool
    decreases k,
{
    k > 0 && (tima_overflows(tima, tma, (k - 1) as nat) || tima_after(tima, tma, (k - 1) as nat).wrapping_add(1) == 0)
}

/// The Game Boy timer: DIV, TIMA, TMA and TAC.
#[derive(Debug)]
pub struct Timer {
    /// Divider register: counts up at 16384 Hz; writing it resets it.
    pub div: u8,
    /// Timer counter: counts up at the rate TAC selects; on overflow it is
    /// reloaded from TMA and an interrupt is requested.
    pub tima: u8,
    /// Timer modulo
    pub tma: u8,
    /// Timer control
    pub tac: u8,
    pub counter: u64,
    pub div_clock: Clock,
    pub tima_clock: Clock,
}

/// The timer `t1` is `t0` after a write of `value` to `addr`: writing DIV
/// resets DIV, its clock and TIMA; TIMA and TMA take the value; a write to
/// TAC that changes the clock select restarts the TIMA clock at the selected
/// period and reloads TIMA from TMA; other addresses change nothing.
pub open spec fn timer_written(t0: Timer, t1: Timer, addr: u16, value: u8) -> bool {
    &&& (t1.counter == t0.counter)
    &&& (addr == DIV ==> {
        &&& t1.div == 0 && t1.tima == 0
        &&& t1.div_clock == (Clock { period: t0.div_clock.period, n: 0 })
        &&& t1.tma == t0.tma && t1.tac == t0.tac
        &&& t1.tima_clock == t0.tima_clock
    })
    &&& (addr == TIMA ==> {
        &&& t1.tima == value
        &&& t1.div == t0.div && t1.tma == t0.tma
        &&& t1.tac == t0.tac
        &&& t1.div_clock == t0.div_clock && t1.tima_clock == t0.tima_clock
    })
    &&& (addr == TMA ==> {
        &&& t1.tma == value
        &&& t1.div == t0.div && t1.tima == t0.tima
        &&& t1.tac == t0.tac
        &&& t1.div_clock == t0.div_clock && t1.tima_clock == t0.tima_clock
    })
    &&& (addr == TAC ==> {
        let changed = t0.tac % 4 != value % 4;
        &&& t1.tac == value
        &&& t1.div == t0.div && t1.tma == t0.tma
        &&& t1.div_clock == t0.div_clock
        &&& changed ==> t1.tima_clock == (Clock { period: tima_period(value), n: 0 })
            && t1.tima == t0.tma
        &&& !changed ==> t1.tima_clock == t0.tima_clock
            && t1.tima == t0.tima
    })
    &&& (!(DIV <= addr <= TAC) ==> t1 == t0)
}

impl Timer {

    /// The clocks have periods and their counts stay below them.
    pub open spec fn wf(&self) -> bool {
        &&& self.div_clock.period == 256
        &&& 0 < self.tima_clock.period <= 1024
        &&& self.div_clock.n < self.div_clock.period
        &&& self.tima_clock.n < self.tima_clock.period
    }

    /// A timer at power-on: registers zero, DIV every 256 cycles, TIMA every 1024.
    pub fn new() -> (t: Timer)
        ensures
            t.div == 0 && t.tima == 0 && t.tma == 0 && t.tac == 0,
            t.counter == 0,
            t.div_clock == (Clock { period: 256, n: 0 }),
            t.tima_clock == (Clock { period: 1024, n: 0 }),
            t.wf(),
    {
        Timer {
            div: 0,
            tima: 0,
            tma: 0,
            tac: 0,
            counter: 0,
            div_clock: Clock::power_up(256),
            tima_clock: Clock::power_up(1024),
        }
    }

    pub fn set_div(&mut self, value: u8)
        ensures
            final(self).div == value,
            final(self).tima == old(self).tima && final(self).tma == old(self).tma,
            final(self).tac == old(self).tac && final(self).counter == old(self).counter,
            final(self).div_clock == old(self).div_clock && final(self).tima_clock == old(self).tima_clock,
    {
        self.div = value;
    }

    pub fn div(&self) -> (r: u8)
        ensures
            r == self.div,
    {
        self.div
    }

    pub fn set_tima(&mut self, value: u8)
        ensures
            final(self).tima == value,
            final(self).div == old(self).div && final(self).tma == old(self).tma,
            final(self).tac == old(self).tac && final(self).counter == old(self).counter,
            final(self).div_clock == old(self).div_clock && final(self).tima_clock == old(self).tima_clock,
    {
        self.tima = value;
    }

    pub fn tima(&self) -> (r: u8)
        ensures
            r == self.tima,
    {
        self.tima
    }

    pub fn set_tma(&mut self, value: u8)
        ensures
            final(self).tma == value,
            final(self).div == old(self).div && final(self).tima == old(self).tima,
            final(self).tac == old(self).tac && final(self).counter == old(self).counter,
            final(self).div_clock == old(self).div_clock && final(self).tima_clock == old(self).tima_clock,
    {
        self.tma = value;
    }

    pub fn tma(&self) -> (r: u8)
        ensures
            r == self.tma,
    {
        self.tma
    }

    pub fn set_tac(&mut self, value: u8)
        ensures
            final(self).tac == value,
            final(self).div == old(self).div && final(self).tima == old(self).tima,
            final(self).tma == old(self).tma && final(self).counter == old(self).counter,
            final(self).div_clock == old(self).div_clock && final(self).tima_clock == old(self).tima_clock,
    {
        self.tac = value;
    }

    pub fn tac(&self) -> (r: u8)
        ensures
            r == self.tac,
    {
        self.tac
    }

    pub fn set_counter(&mut self, value: u64)
        ensures
            final(self).counter == value,
            final(self).div == old(self).div && final(self).tima == old(self).tima,
            final(self).tma == old(self).tma && final(self).tac == old(self).tac,
            final(self).div_clock == old(self).div_clock && final(self).tima_clock == old(self).tima_clock,
    {
        self.counter = value;
    }

    pub fn counter(&self) -> (r: u64)
        ensures
            r == self.counter,
    {
        self.counter
    }

    pub fn div_clock(&self) -> (r: Clock)
        ensures
            r == self.div_clock,
    {
        self.div_clock
    }

    pub fn tima_clock(&self) -> (r: Clock)
        ensures
            r == self.tima_clock,
    {
        self.tima_clock
    }

    /// Reads DIV, TIMA, TMA or TAC.
    pub fn timer_read(&self, addr: u16) -> (r: u8)
        requires
            DIV <= addr <= TAC,
        ensures
            addr == DIV ==> r == self.div,
            addr == TIMA ==> r == self.tima,
            addr == TMA ==> r == self.tma,
            addr == TAC ==> r == self.tac,
    {
        if addr == DIV {
            self.div
        } else if addr == TIMA {
            self.tima
        } else if addr == TMA {
            self.tma
        } else {
            self.tac
        }
    }

    /// Writes a timer register. Writing DIV resets DIV, its clock and TIMA;
    /// a write to TAC that changes the clock select restarts the TIMA clock
    /// at the selected period and reloads TIMA from TMA.
    pub fn timer_write(&mut self, addr: u16, value: u8)
        requires
            old(self).wf(),
        ensures
            final(self).wf(),
            timer_written(*old(self), *final(self), addr, value),
    {
        if addr == DIV {
            self.div = 0x00;
            self.div_clock.n = 0x00;
            self.tima = 0x00;
        } else if addr == TIMA {
            self.tima = value;
        } else if addr == TMA {
            self.tma = value;
        } else if addr == TAC {
            let clock_changed: bool = (self.tac & 0x03) != (value & 0x03);
            if clock_changed {
                self.tima_clock.n = 0x00;
                let clock_select: u8 = value & 0x03;
                self.tima_clock.period = if clock_select == 0x00 {
                    1024
                } else if clock_select == 0x01 {
                    16
                } else if clock_select == 0x02 {
                    64
                } else {
                    256
                };
                self.tima = self.tma;
            }
            self.tac = value;
        }
    }
}

impl Default for Timer {
    fn default() -> (t: Timer)
        ensures
            t.div == 0 && t.tima == 0 && t.tma == 0 && t.tac == 0,
            t.counter == 0,
            t.div_clock == (Clock { period: 256, n: 0 }),
            t.tima_clock == (Clock { period: 1024, n: 0 }),
            t.wf(),
    {
        Timer::new()
    }
}

} // verus!
