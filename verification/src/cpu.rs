//! The SM83 CPU: register file, instruction implementations, and the
//! fetch/decode/execute step with interrupt dispatch.

pub mod opcode;
pub mod register_file;

use crate::mmu::{
    interrupt_mask, spec_addr_prohibited, spec_mmu_step_effect, spec_read_byte, spec_write_effect,
    InterruptKind, InterruptSet, Mmu,
};
use opcode::{spec_execute_effect, wrap16};
use register_file::{hi_byte, lo_byte};
use register_file::Registers;
use vstd::prelude::*;

verus! {

/// The interrupt master enable. EI sets `PendingEnable`; the switch turns
/// `Enabled` only after the instruction following EI retires.
#[derive(Debug, Clone, Copy, PartialEq, Eq, Structural)]
pub enum ImeState {
    Enabled,
    Disabled,
    PendingEnable,
}

/// A fatal condition the CPU surfaces instead of proceeding: a read of
/// prohibited memory, an opcode the hardware does not have, or STOP, which
/// this core treats as fatal.
#[derive(Debug, Clone, Copy, PartialEq, Eq, Structural)]
pub enum CpuFault {
    ProhibitedMemoryRead(u16),
    IllegalOpcode(u8),
    Stop,
}

pub struct Cpu {
    pub regs: Registers,
    pub mmu: Mmu,
    /// The `IME` flag: the main switch that enables or disables all
    /// interrupts. `IE` is the per-source mask.
    pub ime: ImeState,
    pub is_halted: bool,
}

impl Cpu {
    /// The CPU is well formed when its bus is.
    pub open spec fn wf(self) -> bool {
        self.mmu.wf()
    }

    /// A CPU over the given bus, with the registers at their power-on
    /// values: SP = 0xFFFE and PC = 0, so execution starts in the boot ROM.
    pub fn new(mmu: Mmu) -> (r: Cpu)
        requires
            mmu.wf(),
        ensures
            r == (Cpu { regs: r.regs, mmu, ime: ImeState::Disabled, is_halted: false }),
            r.regs == (Registers {
                a: 0,
                f: 0,
                b: 0,
                c: 0,
                d: 0,
                e: 0,
                h: 0,
                l: 0,
                sp: 0xFFFE,
                pc: 0,
            }),
            r.wf(),
    {
        Cpu { regs: Registers::create(), mmu, ime: ImeState::Disabled, is_halted: false }
    }
}

impl Cpu {
    /// Service the highest-priority pending interrupt if the master switch
    /// is on: clear IME and the source's IF bit, leave the halt state, push
    /// PC, jump to the source's vector and charge 20 T-cycles. Returns
    /// whether one was serviced. The priority order is VBlank, LCD status,
    /// timer, serial, joypad.
    fn service_interrupt(&mut self) -> (handled: bool)
        requires
            old(self).wf(),
            old(self).ime == ImeState::Enabled,
        ensures
            final(self).wf(),
            match spec_pending_interrupt(*old(self)) {
                Option::Some(k) => handled && spec_service_effect(*old(self), *final(self), k),
                Option::None => !handled && *final(self) == *old(self),
            },
    {
        let requested = self.mmu.interrupts_requested();
        let enabled = self.mmu.interrupts_enabled();
        let kind = if requested.contains(InterruptKind::Vblank) && enabled.contains(
            InterruptKind::Vblank,
        ) {
            InterruptKind::Vblank
        } else if requested.contains(InterruptKind::LcdStat) && enabled.contains(
            InterruptKind::LcdStat,
        ) {
            InterruptKind::LcdStat
        } else if requested.contains(InterruptKind::Timer) && enabled.contains(
            InterruptKind::Timer,
        ) {
            InterruptKind::Timer
        } else if requested.contains(InterruptKind::Serial) && enabled.contains(
            InterruptKind::Serial,
        ) {
            InterruptKind::Serial
        } else if requested.contains(InterruptKind::Joypad) && enabled.contains(
            InterruptKind::Joypad,
        ) {
            InterruptKind::Joypad
        } else {
            return false;
        };
        proof {
            assert(spec_pending_interrupt(*old(self)) == Option::Some(kind));
        }
        self.ime = ImeState::Disabled;
        self.is_halted = false;
        self.mmu.clear_requested_interrupt(kind);
        let ghost cleared = self.mmu;
        let pc = self.regs.pc;
        let ghost sp0 = self.regs.sp;
        self.push_u16(pc);
        let ghost pushed = self.mmu;
        self.regs.pc = match kind {
            InterruptKind::Vblank => 0x40,
            InterruptKind::LcdStat => 0x48,
            InterruptKind::Timer => 0x50,
            InterruptKind::Serial => 0x58,
            InterruptKind::Joypad => 0x60,
        };
        self.mmu.step(20);
        proof {
            assert(hi_byte(pc) == (pc / 256) as u8 && lo_byte(pc) == (pc % 256) as u8);
            let m1 = choose|m: Mmu|
                #[trigger] spec_write_effect(cleared, m, wrap16(sp0 - 1), (pc / 256) as u8)
                    && spec_write_effect(m, pushed, wrap16(sp0 - 2), (pc % 256) as u8);
            assert(spec_write_effect(cleared, m1, wrap16(sp0 - 1), hi_byte(pc))
                && spec_write_effect(m1, pushed, wrap16(sp0 - 2), lo_byte(pc)));
            assert(spec_mmu_step_effect(pushed, self.mmu, 20));
            assert(spec_service_effect(*old(self), *self, kind));
        }
        true
    }

    /// Fetch, decode and execute a single instruction, servicing at most
    /// one interrupt first. Returns the T-cycles consumed: every
    /// instruction takes a whole number of machine cycles, at most six,
    /// plus the 20-cycle interrupt dispatch when one was serviced. A
    /// pending interrupt wakes a halted CPU even with the master switch
    /// off, without servicing; a pending enable from EI turns on before the
    /// next instruction runs, so its effect shows one instruction late.
    #[verifier::rlimit(100)]
    #[verifier::spinoff_prover]
    pub fn step(&mut self) -> (r: Result<u8, CpuFault>)
        requires
            old(self).wf(),
        ensures
            final(self).wf(),
            r is Ok ==> (r->Ok_0 % 4 == 0 && 4 <= r->Ok_0 <= 44),
            spec_cpu_step_effect(*old(self), *final(self), r),
    {
        proof {
            reveal(spec_cpu_step_effect);
        }
        let mut handled_interrupt = false;
        if matches!(self.ime, ImeState::Enabled) {
            handled_interrupt = self.service_interrupt();
        } else {
            let pending = self.mmu.interrupts_requested().intersect(
                self.mmu.interrupts_enabled(),
            );
            proof {
                assert(pending.bits == 0 <==> spec_pending_interrupt(*self) is None) by {
                    let ie = self.mmu.interrupts_enabled.bits;
                    let ifr = self.mmu.interrupts_requested.bits;
                    assert((ifr & ie == 0) <==> (!(ifr & 0x01 != 0 && ie & 0x01 != 0) && !(ifr
                        & 0x02 != 0 && ie & 0x02 != 0) && !(ifr & 0x04 != 0 && ie & 0x04 != 0) && !(
                    ifr & 0x08 != 0 && ie & 0x08 != 0) && !(ifr & 0x10 != 0 && ie & 0x10 != 0)))
                        by (bit_vector)
                        requires
                            ifr & 0x1F == ifr,
                            ie & 0x1F == ie,
                    ;
                }
            }
            if !pending.is_empty() && self.is_halted {
                // HALT wakes on a pending interrupt even with IME off,
                // without servicing it
                self.is_halted = false;
            }
        }
        // the enable EI requested takes effect one instruction late
        if matches!(self.ime, ImeState::PendingEnable) {
            self.ime = ImeState::Enabled;
        }
        let ghost mid = *self;
        proof {
            assert(spec_dispatch_effect(*old(self), mid, handled_interrupt));
        }
        if self.is_halted {
            self.mmu.step(4);
            proof {
                assert(spec_run_effect(mid, handled_interrupt, *self, Ok::<u8, CpuFault>(4)));
            }
            Ok(4)
        } else {
            let pc = self.regs.pc;
            let opcode = match self.read_mem(pc) {
                Ok(b) => b,
                Err(f) => {
                    proof {
                        assert(spec_run_effect(
                            mid,
                            handled_interrupt,
                            *self,
                            Err::<u8, CpuFault>(f),
                        ));
                    }
                    return Err(f);
                },
            };
            self.regs.pc = pc.wrapping_add(1);
            let ghost fetched = *self;
            let exec_result = self.execute(opcode);
            let ghost ex = *self;
            let t_cycles = match exec_result {
                Ok(t) => t,
                Err(f) => {
                    proof {
                        assert(spec_execute_effect(fetched, opcode, ex, exec_result));
                        assert(spec_run_effect(
                            mid,
                            handled_interrupt,
                            *self,
                            Err::<u8, CpuFault>(f),
                        ));
                    }
                    return Err(f);
                },
            };
            self.mmu.step(t_cycles);
            let total = t_cycles + if handled_interrupt {
                20
            } else {
                0
            };
            proof {
                assert(spec_execute_effect(fetched, opcode, ex, exec_result));
                assert(spec_run_effect(mid, handled_interrupt, *self, Ok::<u8, CpuFault>(total)));
            }
            Ok(total)
        }
    }
}

/// The first interrupt source, in priority order (VBlank, LCD status,
/// timer, serial, joypad), that is both requested and enabled; none when no
/// source is pending.
pub open spec fn spec_pending_interrupt(c: Cpu) -> Option<InterruptKind> {
    let ie = c.mmu.interrupts_enabled;
    let ifr = c.mmu.interrupts_requested;
    if ifr.spec_contains(InterruptKind::Vblank) && ie.spec_contains(InterruptKind::Vblank) {
        Option::Some(InterruptKind::Vblank)
    } else if ifr.spec_contains(InterruptKind::LcdStat) && ie.spec_contains(
        InterruptKind::LcdStat,
    ) {
        Option::Some(InterruptKind::LcdStat)
    } else if ifr.spec_contains(InterruptKind::Timer) && ie.spec_contains(InterruptKind::Timer) {
        Option::Some(InterruptKind::Timer)
    } else if ifr.spec_contains(InterruptKind::Serial) && ie.spec_contains(InterruptKind::Serial) {
        Option::Some(InterruptKind::Serial)
    } else if ifr.spec_contains(InterruptKind::Joypad) && ie.spec_contains(InterruptKind::Joypad) {
        Option::Some(InterruptKind::Joypad)
    } else {
        Option::None
    }
}

/// The handler address of each interrupt source.
pub open spec fn spec_vector(k: InterruptKind) -> u16 {
    match k {
        InterruptKind::Vblank => 0x40,
        InterruptKind::LcdStat => 0x48,
        InterruptKind::Timer => 0x50,
        InterruptKind::Serial => 0x58,
        InterruptKind::Joypad => 0x60,
    }
}

/// What servicing interrupt `k` does: the master switch turns off, a halted
/// CPU wakes, the source's IF bit is cleared, the old PC is pushed
/// little-endian (SP drops by two), PC jumps to the source's vector, and
/// the bus is charged 20 T-cycles.
pub open spec fn spec_service_effect(pre: Cpu, mid: Cpu, k: InterruptKind) -> bool {
    &&& mid.ime == ImeState::Disabled
    &&& !mid.is_halted
    &&& mid.regs == (Registers {
        pc: spec_vector(k),
        sp: wrap16(pre.regs.sp - 2),
        ..pre.regs
    })
    &&& exists|m1: Mmu, m2: Mmu|
        spec_write_effect(
            Mmu {
                interrupts_requested: InterruptSet {
                    bits: pre.mmu.interrupts_requested.bits & !interrupt_mask(k),
                },
                ..pre.mmu
            },
            m1,
            wrap16(pre.regs.sp - 1),
            hi_byte(pre.regs.pc),
        ) && #[trigger] spec_write_effect(m1, m2, wrap16(pre.regs.sp - 2), lo_byte(pre.regs.pc))
            && spec_mmu_step_effect(m2, mid.mmu, 20)
}

/// The step's dispatch phase: with the master switch on, the first pending
/// interrupt (if any) is serviced; with it off, a pending interrupt wakes a
/// halted CPU without being serviced; and a pending enable from EI turns
/// the switch on, one instruction after EI ran.
pub open spec fn spec_dispatch_effect(pre: Cpu, mid: Cpu, handled: bool) -> bool {
    if pre.ime == ImeState::Enabled {
        match spec_pending_interrupt(pre) {
            Option::Some(k) => handled && spec_service_effect(pre, mid, k),
            Option::None => !handled && mid == pre,
        }
    } else {
        let woken = if spec_pending_interrupt(pre) is Some && pre.is_halted {
            Cpu { is_halted: false, ..pre }
        } else {
            pre
        };
        !handled && mid == (Cpu {
            ime: if pre.ime == ImeState::PendingEnable {
                ImeState::Enabled
            } else {
                pre.ime
            },
            ..woken
        })
    }
}

/// The step's run phase: a halted CPU just charges the bus 4 T-cycles;
/// otherwise the opcode at PC is fetched (faulting if PC is prohibited), PC
/// advances, the instruction runs per the decode table, the bus is charged
/// the instruction's T-cycles, and the dispatch phase's 20 cycles are added
/// to the returned count.
pub open spec fn spec_run_effect(mid: Cpu, handled: bool, post: Cpu, r: Result<
    u8,
    CpuFault,
>) -> bool {
    if mid.is_halted {
        r == Ok::<u8, CpuFault>(4) && post == (Cpu { mmu: post.mmu, ..mid })
            && spec_mmu_step_effect(mid.mmu, post.mmu, 4)
    } else {
        let pc = mid.regs.pc;
        if spec_addr_prohibited(pc) {
            r == Err::<u8, CpuFault>(CpuFault::ProhibitedMemoryRead(pc)) && post == mid
        } else {
            exists|ex: Cpu, r2: Result<u8, CpuFault>|
                #[trigger] spec_execute_effect(
                    Cpu { regs: Registers { pc: wrap16(pc + 1), ..mid.regs }, ..mid },
                    spec_read_byte(mid.mmu, pc),
                    ex,
                    r2,
                ) && match r2 {
                    Result::Ok(t) => r == Ok::<u8, CpuFault>(
                        (t + if handled {
                            20int
                        } else {
                            0int
                        }) as u8,
                    ) && post == (Cpu { mmu: post.mmu, ..ex }) && spec_mmu_step_effect(
                        ex.mmu,
                        post.mmu,
                        t,
                    ),
                    Result::Err(f) => r == Err::<u8, CpuFault>(f) && post == ex,
                }
        }
    }
}

/// What one CPU step does, per the fetch-execute cycle: a dispatch phase
/// (interrupt service, HALT wake, the delayed enable) followed by the run
/// phase through some intermediate state.
#[verifier::opaque]
pub open spec fn spec_cpu_step_effect(pre: Cpu, post: Cpu, r: Result<u8, CpuFault>) -> bool {
    exists|mid: Cpu, handled: bool|
        #[trigger] spec_dispatch_effect(pre, mid, handled) && spec_run_effect(
            mid,
            handled,
            post,
            r,
        )
}

} // verus!
