//! The timer and divider hardware: free-running counters with a selectable
//! tick rate, driven by the T-cycles the CPU reports.

use vstd::prelude::*;

verus! {

#[derive(Debug, Clone, Copy, PartialEq, Eq, Structural)]
pub enum TimerFrequency {
    F4KiHz,
    F16KiHz,
    F64KiHz,
    F256KiHz,
}

/// The timer's frequency expressed as the number of system clock cycles
/// (T-cycles) per tick of the timer: the system clock runs at 4 MiHz.
pub open spec fn spec_t_cycles_per_tick(f: TimerFrequency) -> u16 {
    match f {
        TimerFrequency::F4KiHz => 1024,
        TimerFrequency::F16KiHz => 256,
        TimerFrequency::F64KiHz => 64,
        TimerFrequency::F256KiHz => 16,
    }
}

impl TimerFrequency {
    fn t_cycles_per_tick(self) -> (r: u16)
        ensures
            r == spec_t_cycles_per_tick(self),
    {
        match self {
            TimerFrequency::F4KiHz => 1024,
            TimerFrequency::F16KiHz => 256,
            TimerFrequency::F64KiHz => 64,
            TimerFrequency::F256KiHz => 16,
        }
    }
}

/// The counter's value after `n` increments, and whether it wrapped
/// 0xFF -> 0x00 at least once. On a wrap, a counter that reloads restarts
/// from `tma`; one that does not restarts from 0.
pub open spec fn spec_tick_n(value: u8, tma: u8, reloads: bool, n: nat) -> (u8, bool)
    decreases n,
{
    if n == 0 {
        (value, false)
    } else {
        let once = if value == 0xFF {
            (if reloads {
                tma
            } else {
                0
            }, true)
        } else {
            ((value + 1) as u8, false)
        };
        let rest = spec_tick_n(once.0, tma, reloads, (n - 1) as nat);
        (rest.0, once.1 || rest.1)
    }
}

pub struct Timer {
    pub frequency: TimerFrequency,
    pub enabled: bool,
    /// Timer modulo: when the timer overflows, it is reset to this value.
    /// The divider keeps this at 0 and so restarts from 0.
    pub tma: u8,
    pub value: u8,
    /// Whether the counter reloads from `tma` on overflow: true for the
    /// timer, false for the divider.
    pub reloads: bool,
    /// The number of T-cycles since the last tick of the counter.
    pub t_cycles_count: u16,
}

impl Timer {
    /// The T-cycle accumulator never reaches a full tick's worth of cycles
    /// at the slowest rate.
    pub open spec fn wf(self) -> bool {
        self.t_cycles_count < 1024
    }

    /// The counter as `update` leaves it: the accumulator grows by the
    /// elapsed T-cycles and is reduced modulo the tick length, and the value
    /// advances once per threshold crossing.
    pub open spec fn spec_update(self, t_cycles: u8) -> (Timer, bool) {
        if !self.enabled {
            (self, false)
        } else {
            let per = spec_t_cycles_per_tick(self.frequency) as int;
            let total = self.t_cycles_count + t_cycles;
            let n = (total / per) as nat;
            let ticked = spec_tick_n(self.value, self.tma, self.reloads, n);
            (
                Timer {
                    value: ticked.0,
                    t_cycles_count: (total % per) as u16,
                    ..self
                },
                ticked.1,
            )
        }
    }

    pub fn new(frequency: TimerFrequency) -> (r: Timer)
        ensures
            r == (Timer {
                frequency,
                enabled: false,
                tma: 0,
                value: 0,
                reloads: true,
                t_cycles_count: 0,
            }),
            r.wf(),
    {
        Timer { frequency, enabled: false, tma: 0, value: 0, reloads: true, t_cycles_count: 0 }
    }

    /// Update the state of the counter by simulating `t_cycles` T-cycles and
    /// return whether the counter overflowed.
    pub fn update(&mut self, t_cycles: u8) -> (overflowed: bool)
        requires
            old(self).wf(),
        ensures
            final(self).wf(),
            (*final(self), overflowed) == old(self).spec_update(t_cycles),
    {
        if !self.enabled {
            return false;
        }
        let per = self.frequency.t_cycles_per_tick();
        let ghost n_total = ((self.t_cycles_count + t_cycles) / per as int) as nat;
        let ghost v0 = self.value;
        self.t_cycles_count += t_cycles as u16;
        let mut overflowed = false;
        let ghost n_done: nat = 0;
        while self.t_cycles_count >= per
            invariant
                16 <= per == spec_t_cycles_per_tick(self.frequency),
                self.t_cycles_count + n_done * per == old(self).t_cycles_count + t_cycles,
                n_done <= n_total,
                spec_tick_n(v0, self.tma, self.reloads, n_total) == {
                    let rest = spec_tick_n(self.value, self.tma, self.reloads, (n_total
                        - n_done) as nat);
                    (rest.0, overflowed || rest.1)
                },
                self.frequency == old(self).frequency,
                self.enabled,
                self.tma == old(self).tma,
                self.reloads == old(self).reloads,
                n_total == ((old(self).t_cycles_count + t_cycles) / per as int),
            decreases self.t_cycles_count,
        {
            proof {
                // there is at least one crossing left
                let total = old(self).t_cycles_count + t_cycles;
                assert(total >= (n_done + 1) * per) by (nonlinear_arith)
                    requires
                        self.t_cycles_count + n_done * per == total,
                        self.t_cycles_count >= per,
                ;
                vstd::arithmetic::div_mod::lemma_div_by_multiple(n_done as int + 1, per as int);
                vstd::arithmetic::div_mod::lemma_div_is_ordered(
                    (n_done + 1) * per,
                    total as int,
                    per as int,
                );
                assert(n_done + 1 <= n_total);
            }
            self.t_cycles_count -= per;
            if self.value == 0xFF {
                self.value = if self.reloads {
                    self.tma
                } else {
                    0
                };
                overflowed = true;
            } else {
                self.value += 1;
            }
            proof {
                n_done = n_done + 1;
            }
        }
        proof {
            // all crossings are done: the remaining accumulator is the remainder
            let total = old(self).t_cycles_count + t_cycles;
            vstd::arithmetic::div_mod::lemma_fundamental_div_mod_converse(
                total as int,
                per as int,
                n_done as int,
                self.t_cycles_count as int,
            );
        }
        overflowed
    }
}

} // verus!
