//! Hardware timer: a free-running divider plus a configurable-rate counter
//! that reloads from TMA and raises the timer interrupt on overflow.

use vstd::prelude::*;

verus! {

/// A cycle accumulator that emits one tick every `period` machine cycles.
pub struct Clock {
    pub period: u32,
    pub n: u32,
}

impl Clock {
    pub open spec fn wf(&self) -> bool {
        1 <= self.period && self.n < self.period
    }

    pub fn new(period: u32) -> (r: Clock)
        requires
            period >= 1,
        ensures
            r == (Clock { period, n: 0u32 }),
    {
        Clock { period, n: 0x00 }
    }

    /// Absorbs `cycles` cycles and returns how many whole periods elapsed.
    pub fn next(&mut self, cycles: u32) -> (r: u32)
        requires
            old(self).wf(),
            old(self).n + cycles <= u32::MAX,
        ensures
            r == (old(self).n + cycles) as u32 / old(self).period,
            *final(self) == (Clock {
                period: old(self).period,
                n: (old(self).n + cycles) as u32 % old(self).period,
            }),
            final(self).wf(),
    {
        self.n += cycles;
        let s = self.n / self.period;
        self.n = self.n % self.period;
        s
    }
}

/// The counter period selected by the low two bits of TAC.
pub open spec fn period_of(sel: u8) -> u32 {
    if sel % 4 == 0 {
        1024u32
    } else if sel % 4 == 1 {
        16u32
    } else if sel % 4 == 2 {
        64u32
    } else {
        256u32
    }
}

/// TIMA after `k` input ticks: each tick increments, and an increment that
/// wraps past 0xFF reloads the counter from `tma`.
pub open spec fn tima_steps(tima: u8, tma: u8, k: nat) -> u8
    decreases k,
{
    if k == 0 {
        tima
    } else {
        let t = tima_steps(tima, tma, (k - 1) as nat);
        if t == 0xFF {
            tma
        } else {
            (t + 1) as u8
        }
    }
}

/// Whether any of the first `k` input ticks overflowed the counter.
pub open spec fn tima_overflowed(tima: u8, tma: u8, k: nat) -> bool
    decreases k,
{
    if k == 0 {
        false
    } else {
        tima_overflowed(tima, tma, (k - 1) as nat) || tima_steps(tima, tma, (k - 1) as nat) == 0xFF
    }
}

pub struct Timer {
    pub div: u8,
    pub tima: u8,
    pub tma: u8,
    pub tac: u8,
    pub div_clock: Clock,
    pub tma_clock: Clock,
}

impl Timer {
    pub open spec fn wf(&self) -> bool {
        &&& self.div_clock.wf()
        &&& self.div_clock.period == 256
        &&& self.tma_clock.wf()
        &&& self.tma_clock.period == period_of(self.tac)
    }

    pub fn new() -> (r: Timer)
        ensures
            r == (Timer {
                div: 0u8,
                tima: 0u8,
                tma: 0u8,
                tac: 0u8,
                div_clock: Clock { period: 256u32, n: 0u32 },
                tma_clock: Clock { period: 1024u32, n: 0u32 },
            }),
            r.wf(),
    {
        Timer {
            div: 0,
            tima: 0,
            tma: 0,
            tac: 0,
            div_clock: Clock::new(256),
            tma_clock: Clock::new(1024),
        }
    }

    pub open spec fn spec_read(&self, addr: u16) -> u8 {
        if addr == 0xFF04 {
            self.div
        } else if addr == 0xFF05 {
            self.tima
        } else if addr == 0xFF06 {
            self.tma
        } else {
            self.tac
        }
    }

    pub fn read(&self, addr: u16) -> (r: u8)
        requires
            0xFF04 <= addr <= 0xFF07,
        ensures
            r == self.spec_read(addr),
    {
        if addr == 0xFF04 {
            self.div
        } else if addr == 0xFF05 {
            self.tima
        } else if addr == 0xFF06 {
            self.tma
        } else {
            self.tac
        }
    }

    /// The timer state after a register write: writing DIV clears the
    /// divider and its accumulator; changing the TAC clock-select bits
    /// restarts the counter's accumulator at the new period and reloads
    /// TIMA from TMA.
    pub open spec fn spec_write(&self, addr: u16, dat: u8) -> Timer {
        if addr == 0xFF04 {
            Timer { div: 0u8, div_clock: Clock { n: 0u32, ..self.div_clock }, ..*self }
        } else if addr == 0xFF05 {
            Timer { tima: dat, ..*self }
        } else if addr == 0xFF06 {
            Timer { tma: dat, ..*self }
        } else {
            if self.tac % 4 != dat % 4 {
                Timer {
                    tma_clock: Clock { period: period_of(dat), n: 0u32 },
                    tima: self.tma,
                    tac: dat,
                    ..*self
                }
            } else {
                Timer { tac: dat, ..*self }
            }
        }
    }

    pub fn write(&mut self, addr: u16, dat: u8)
        requires
            old(self).wf(),
            0xFF04 <= addr <= 0xFF07,
        ensures
            *final(self) == old(self).spec_write(addr, dat),
            final(self).wf(),
    {
        if addr == 0xFF04 {
            self.div = 0;
            self.div_clock.n = 0;
        } else if addr == 0xFF05 {
            self.tima = dat;
        } else if addr == 0xFF06 {
            self.tma = dat;
        } else {
            if self.tac % 4 != dat % 4 {
                self.tma_clock.n = 0;
                self.tma_clock.period = if dat % 4 == 0 {
                    1024
                } else if dat % 4 == 1 {
                    16
                } else if dat % 4 == 2 {
                    64
                } else {
                    256
                };
                self.tima = self.tma;
            }
            self.tac = dat;
        }
    }

    /// Whether the control register's enable bit (bit 2) is set.
    pub open spec fn spec_enabled(&self) -> bool {
        (self.tac / 4) % 2 == 1
    }

    /// How many counter input ticks `cycles` machine cycles produce.
    pub open spec fn spec_ticks(&self, cycles: u32) -> nat {
        ((self.tma_clock.n + cycles) / self.tma_clock.period as int) as nat
    }

    /// Advances the timer by `cycles` machine cycles.  The divider gains
    /// one for every 256 cycles (truncated to 8 bits); while enabled, the
    /// counter steps once per period, reloading from TMA on overflow, and
    /// an overflow raises the timer bit (bit 2) of the interrupt-flag
    /// register.  No other bit of the interrupt flag changes.
    pub fn run(&mut self, cycles: u32, int_flag: &mut u8)
        requires
            old(self).wf(),
            cycles <= 0x0FFF_FFFF,
        ensures
            final(self).wf(),
            (*final(self), *final(int_flag)) == timer_run_spec(
                *old(self),
                cycles,
                *old(int_flag),
            ),
            final(self).tma == old(self).tma,
            final(self).tac == old(self).tac,
            final(self).div as int == (old(self).div + (old(self).div_clock.n + cycles) as int
                / 256) % 256,
            final(self).div_clock == (Clock {
                period: 256u32,
                n: (old(self).div_clock.n + cycles) as u32 % 256,
            }),
            old(self).spec_enabled() ==> {
                &&& final(self).tima == tima_steps(
                    old(self).tima,
                    old(self).tma,
                    old(self).spec_ticks(cycles),
                )
                &&& final(self).tma_clock == (Clock {
                    period: old(self).tma_clock.period,
                    n: (old(self).tma_clock.n + cycles) as u32 % old(self).tma_clock.period,
                })
                &&& *final(int_flag) == (if tima_overflowed(
                    old(self).tima,
                    old(self).tma,
                    old(self).spec_ticks(cycles),
                ) {
                    *old(int_flag) | 0x04
                } else {
                    *old(int_flag)
                })
            },
            !old(self).spec_enabled() ==> {
                &&& final(self).tima == old(self).tima
                &&& final(self).tma_clock == old(self).tma_clock
                &&& *final(int_flag) == *old(int_flag)
            },
    {
        let s = self.div_clock.next(cycles);
        self.div = self.div.wrapping_add((s % 256) as u8);

        if (self.tac / 4) % 2 == 1 {
            let n = self.tma_clock.next(cycles);
            let ghost pre = *self;
            let ghost t0 = self.tima;
            let ghost tma0 = self.tma;
            let mut raised = false;
            let mut i: u32 = 0;
            while i < n
                invariant
                    i <= n,
                    *self == (Timer { tima: tima_steps(t0, tma0, i as nat), ..pre }),
                    raised == tima_overflowed(t0, tma0, i as nat),
                    tma0 == pre.tma,
                decreases n - i,
            {
                if self.tima == 0xFF {
                    self.tima = self.tma;
                    raised = true;
                } else {
                    self.tima = self.tima + 1;
                }
                i += 1;
            }
            if raised {
                *int_flag = *int_flag | 0x04;
            }
        }
    }
}

/// The timer state and interrupt flag after absorbing `cycles` machine
/// cycles, as one function.
pub open spec fn timer_run_spec(t: Timer, cycles: u32, iflag: u8) -> (Timer, u8) {
    let div2 = ((t.div + (t.div_clock.n + cycles) as int / 256) % 256) as u8;
    let dclock = Clock {
        period: t.div_clock.period,
        n: ((t.div_clock.n + cycles) as int % t.div_clock.period as int) as u32,
    };
    let t2 = Timer { div: div2, div_clock: dclock, ..t };
    if t.spec_enabled() {
        let k = t.spec_ticks(cycles);
        let tmc = Clock {
            period: t.tma_clock.period,
            n: ((t.tma_clock.n + cycles) as int % t.tma_clock.period as int) as u32,
        };
        (
            Timer { tima: tima_steps(t.tima, t.tma, k), tma_clock: tmc, ..t2 },
            if tima_overflowed(t.tima, t.tma, k) {
                iflag | 0x04
            } else {
                iflag
            },
        )
    } else {
        (t2, iflag)
    }
}

/// Starting from counter value `t`, the counter first overflows on input
/// tick number `256 - t`: until then it simply counts up, and on that tick
/// it reloads from `tma` and raises the interrupt.
pub proof fn lemma_timer_first_overflow(t: u8, tma: u8, k: nat)
    ensures
        k <= 255 - t ==> tima_steps(t, tma, k) == t + k && !tima_overflowed(t, tma, k),
        k == 256 - t ==> tima_steps(t, tma, k) == tma && tima_overflowed(t, tma, k),
    decreases k,
{
    if k > 0 {
        lemma_timer_first_overflow(t, tma, (k - 1) as nat);
    }
}

} // verus!
