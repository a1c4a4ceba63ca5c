//! Implementations of the individual SM83 instructions. Each method
//! simulates one instruction and returns the number of T-cycles it takes;
//! instructions that touch memory return a fault instead of reading
//! prohibited addresses.

use super::register_file::{flag_mask, lo_byte, word_of, Flag, Registers, R16, R8};
use super::{Cpu, CpuFault, ImeState};
use crate::mmu::{spec_addr_prohibited, spec_read_byte, spec_write_effect, Mmu};
use vstd::prelude::*;

verus! {

/// The address vectors the RST instruction can call.
#[derive(Copy, Clone, Debug, PartialEq, Eq, Structural)]
pub enum RstVec {
    X00,
    X08,
    X10,
    X18,
    X20,
    X28,
    X30,
    X38,
}

/// The address an RST vector names.
pub open spec fn spec_rst_addr(v: RstVec) -> u16 {
    match v {
        RstVec::X00 => 0x00,
        RstVec::X08 => 0x08,
        RstVec::X10 => 0x10,
        RstVec::X18 => 0x18,
        RstVec::X20 => 0x20,
        RstVec::X28 => 0x28,
        RstVec::X30 => 0x30,
        RstVec::X38 => 0x38,
    }
}

/// A condition code of a conditional jump, call or return.
#[derive(Copy, Clone, Debug, PartialEq, Eq, Structural)]
pub enum CC {
    /// Execute if Z is set
    Z,
    /// Execute if Z is not set
    NZ,
    /// Execute if C is set
    C,
    /// Execute if C is not set
    NC,
}

/// Whether a condition code holds of the flags.
pub open spec fn spec_cc(regs: Registers, cc: CC) -> bool {
    match cc {
        CC::Z => regs.spec_flag(Flag::Z),
        CC::NZ => !regs.spec_flag(Flag::Z),
        CC::C => regs.spec_flag(Flag::C),
        CC::NC => !regs.spec_flag(Flag::C),
    }
}

// ---------------------------------------------------------------------------
// Flag bytes
// ---------------------------------------------------------------------------
/// The F register after writing all four flags; the low nibble stays zero.
pub open spec fn spec_flags(f0: u8, z: bool, n: bool, h: bool, c: bool) -> u8 {
    ((f0 & 0x0F) + (if z {
        0x80u8
    } else {
        0u8
    }) + (if n {
        0x40u8
    } else {
        0u8
    }) + (if h {
        0x20u8
    } else {
        0u8
    }) + (if c {
        0x10u8
    } else {
        0u8
    })) as u8
}

/// The F register after writing Z, N and H, keeping C.
pub open spec fn spec_flags_znh(f0: u8, z: bool, n: bool, h: bool) -> u8 {
    ((f0 & 0x1F) + (if z {
        0x80u8
    } else {
        0u8
    }) + (if n {
        0x40u8
    } else {
        0u8
    }) + (if h {
        0x20u8
    } else {
        0u8
    })) as u8
}

/// The F register after writing Z, H and C, keeping N.
pub open spec fn spec_flags_zhc(f0: u8, z: bool, h: bool, c: bool) -> u8 {
    ((f0 & 0x4F) + (if z {
        0x80u8
    } else {
        0u8
    }) + (if h {
        0x20u8
    } else {
        0u8
    }) + (if c {
        0x10u8
    } else {
        0u8
    })) as u8
}

/// The F register after writing N, H and C, keeping Z.
pub open spec fn spec_flags_nhc(f0: u8, n: bool, h: bool, c: bool) -> u8 {
    ((f0 & 0x8F) + (if n {
        0x40u8
    } else {
        0u8
    }) + (if h {
        0x20u8
    } else {
        0u8
    }) + (if c {
        0x10u8
    } else {
        0u8
    })) as u8
}

/// What each flag of a freshly written flag byte reads as, and that the
/// low nibble of F stays what it was (zero everywhere in this core).
pub proof fn lemma_flags_readback(f0: u8, z: bool, n: bool, h: bool, c: bool)
    ensures
        (spec_flags(f0, z, n, h, c) & flag_mask(Flag::Z) != 0) == z,
        (spec_flags(f0, z, n, h, c) & flag_mask(Flag::N) != 0) == n,
        (spec_flags(f0, z, n, h, c) & flag_mask(Flag::H) != 0) == h,
        (spec_flags(f0, z, n, h, c) & flag_mask(Flag::C) != 0) == c,
        spec_flags(f0, z, n, h, c) & 0x0F == f0 & 0x0F,
{
    let zb: u8 = if z {
        0x80
    } else {
        0
    };
    let nb: u8 = if n {
        0x40
    } else {
        0
    };
    let hb: u8 = if h {
        0x20
    } else {
        0
    };
    let cb: u8 = if c {
        0x10
    } else {
        0
    };
    assert((zb == 0x80 || zb == 0) && (nb == 0x40 || nb == 0) && (hb == 0x20 || hb == 0) && (cb
        == 0x10 || cb == 0) ==> {
        let f = ((f0 & 0x0F) + zb + nb + hb + cb) as u8;
        (f & 0x80 == zb) && (f & 0x40 == nb) && (f & 0x20 == hb) && (f & 0x10 == cb) && (f & 0x0F
            == f0 & 0x0F)
    }) by (bit_vector);
}

// ---------------------------------------------------------------------------
// ALU operations on the register file
// ---------------------------------------------------------------------------
/// ADD/ADC: add the value and carry-in to A. Z from the result, N clear,
/// H on carry out of bit 3, C on carry out of bit 7.
pub open spec fn spec_alu_add(regs: Registers, x: u8, carry: bool) -> Registers {
    let c: u8 = if carry {
        1
    } else {
        0
    };
    let result = ((regs.a + x + c) % 256) as u8;
    Registers {
        a: result,
        f: spec_flags(
            regs.f,
            result == 0,
            false,
            (regs.a % 16) + (x % 16) + c > 15,
            regs.a + x + c > 255,
        ),
        ..regs
    }
}

/// SUB/SBC: subtract the value and carry-in from A. Z from the result, N
/// set, H on borrow from bit 4, C on full borrow.
pub open spec fn spec_alu_sub(regs: Registers, x: u8, carry: bool) -> Registers {
    let c: u8 = if carry {
        1
    } else {
        0
    };
    let result = (((regs.a - x - c) % 256 + 256) % 256) as u8;
    Registers {
        a: result,
        f: spec_flags(
            regs.f,
            result == 0,
            true,
            (regs.a % 16) < (x % 16) + c,
            x + c > regs.a,
        ),
        ..regs
    }
}

/// CP: compare by subtracting without storing the result.
pub open spec fn spec_alu_cp(regs: Registers, x: u8) -> Registers {
    Registers { a: regs.a, ..spec_alu_sub(regs, x, false) }
}

/// AND: Z from the result, N clear, H set, C clear.
pub open spec fn spec_alu_and(regs: Registers, x: u8) -> Registers {
    let result = regs.a & x;
    Registers { a: result, f: spec_flags(regs.f, result == 0, false, true, false), ..regs }
}

/// OR: Z from the result, N, H and C clear.
pub open spec fn spec_alu_or(regs: Registers, x: u8) -> Registers {
    let result = regs.a | x;
    Registers { a: result, f: spec_flags(regs.f, result == 0, false, false, false), ..regs }
}

/// XOR: Z from the result, N, H and C clear.
pub open spec fn spec_alu_xor(regs: Registers, x: u8) -> Registers {
    let result = regs.a ^ x;
    Registers { a: result, f: spec_flags(regs.f, result == 0, false, false, false), ..regs }
}

/// INC (8-bit): the incremented value and flags; C is untouched.
pub open spec fn spec_alu_inc(f0: u8, x: u8) -> (u8, u8) {
    let result = ((x + 1) % 256) as u8;
    (result, spec_flags_znh(f0, result == 0, false, x % 16 == 15))
}

/// DEC (8-bit): the decremented value and flags; C is untouched.
pub open spec fn spec_alu_dec(f0: u8, x: u8) -> (u8, u8) {
    let result = (((x - 1) % 256 + 256) % 256) as u8;
    (result, spec_flags_znh(f0, result == 0, true, x % 16 == 0))
}

/// SWAP: exchange the nibbles. Z from the result, N, H and C clear.
pub open spec fn spec_alu_swap(f0: u8, x: u8) -> (u8, u8) {
    let result = ((x % 16) * 16 + x / 16) as u8;
    (result, spec_flags(f0, result == 0, false, false, false))
}

/// RL: rotate left through the carry flag. C takes bit 7.
pub open spec fn spec_alu_rl(f0: u8, x: u8, carry_in: bool) -> (u8, u8) {
    let result = ((x * 2) % 256 + if carry_in {
        1int
    } else {
        0int
    }) as u8;
    (result, spec_flags(f0, result == 0, false, false, x >= 0x80))
}

/// RLC: rotate left; bit 7 goes to both bit 0 and C.
pub open spec fn spec_alu_rlc(f0: u8, x: u8) -> (u8, u8) {
    let result = ((x * 2) % 256 + x / 128) as u8;
    (result, spec_flags(f0, result == 0, false, false, x >= 0x80))
}

/// RR: rotate right through the carry flag. C takes bit 0.
pub open spec fn spec_alu_rr(f0: u8, x: u8, carry_in: bool) -> (u8, u8) {
    let result = (x / 2 + if carry_in {
        128int
    } else {
        0int
    }) as u8;
    (result, spec_flags(f0, result == 0, false, false, x % 2 == 1))
}

/// RRC: rotate right; bit 0 goes to both bit 7 and C.
pub open spec fn spec_alu_rrc(f0: u8, x: u8) -> (u8, u8) {
    let result = (x / 2 + (x % 2) * 128) as u8;
    (result, spec_flags(f0, result == 0, false, false, x % 2 == 1))
}

/// SLA: shift left; C takes bit 7, bit 0 is cleared.
pub open spec fn spec_alu_sla(f0: u8, x: u8) -> (u8, u8) {
    let result = ((x * 2) % 256) as u8;
    (result, spec_flags(f0, result == 0, false, false, x >= 0x80))
}

/// SRA: shift right arithmetically; bit 7 is kept, C takes bit 0.
pub open spec fn spec_alu_sra(f0: u8, x: u8) -> (u8, u8) {
    let result = (x / 2 + (x / 128) * 128) as u8;
    (result, spec_flags(f0, result == 0, false, false, x % 2 == 1))
}

/// SRL: shift right logically; bit 7 is cleared, C takes bit 0.
pub open spec fn spec_alu_srl(f0: u8, x: u8) -> (u8, u8) {
    let result = (x / 2) as u8;
    (result, spec_flags(f0, result == 0, false, false, x % 2 == 1))
}

/// BIT: test one bit. Z iff the bit is clear, N clear, H set, C untouched.
pub open spec fn spec_alu_bit(f0: u8, u3: u8, x: u8) -> u8 {
    spec_flags_znh(f0, (x / vstd::arithmetic::power2::pow2(u3 as nat) as u8) % 2 == 0, false, true)
}

/// ADD HL,r16: N clear, H on carry from bit 11, C on carry from bit 15,
/// Z untouched.
pub open spec fn spec_add_hl(regs: Registers, val: u16) -> Registers {
    let hl = regs.spec_r16(R16::HL);
    let result = ((hl + val) % 0x10000) as u16;
    let f = spec_flags_nhc(
        regs.f,
        false,
        (hl % 0x1000) + (val % 0x1000) > 0xFFF,
        hl + val > 0xFFFF,
    );
    Registers { h: (result / 256) as u8, l: (result % 256) as u8, f, ..regs }
}

/// ADD SP,e8 and LD HL,SP+e8: the sum of SP and the signed immediate, with
/// H and C derived from the unsigned low-byte addition; Z and N clear.
pub open spec fn spec_add_sp(f0: u8, sp: u16, b: u8) -> (u16, u8) {
    let off = spec_i8(b);
    let sum = sp + off;
    let result = (if sum < 0 {
        sum + 0x10000
    } else {
        sum % 0x10000
    }) as u16;
    (result, spec_flags(f0, false, false, (sp % 16) + (b % 16) > 15, (sp % 256) + b > 255))
}

/// The signed value of a byte, two's complement.
pub open spec fn spec_i8(b: u8) -> int {
    if b < 128 {
        b as int
    } else {
        b - 256
    }
}

/// DAA: decimal-adjust A after a BCD addition or subtraction. After an
/// addition (N clear), 6 is added to a nibble that overflowed 9 or carried;
/// after a subtraction (N set) the adjustments are subtracted where H or C
/// are set. C is set when the high adjustment fires; Z from the result;
/// H cleared; N untouched.
pub open spec fn spec_daa(regs: Registers) -> Registers {
    let a = regs.a;
    let nf = regs.spec_flag(Flag::N);
    let adj_low = regs.spec_flag(Flag::H) || (!nf && a % 16 > 9);
    let adj_high = regs.spec_flag(Flag::C) || (!nf && a > 0x99);
    let adjust = (if adj_low {
        6int
    } else {
        0int
    }) + (if adj_high {
        0x60int
    } else {
        0int
    });
    let result = (if nf {
        ((a - adjust) % 256 + 256) % 256
    } else {
        (a + adjust) % 256
    }) as u8;
    Registers { a: result, f: spec_flags_zhc(regs.f, result == 0, false, adj_high), ..regs }
}

impl Cpu {
    // --- utility functions ---
    /// Write all four flags.
    fn set_flags(&mut self, z: bool, n: bool, h: bool, c: bool)
        ensures
            *final(self) == (Cpu {
                regs: Registers {
                    f: spec_flags(old(self).regs.f, z, n, h, c),
                    ..old(self).regs
                },
                ..*old(self)
            }),
    {
        let mut f = self.regs.f & 0x0F;
        proof {
            let f0 = old(self).regs.f;
            assert(f0 & 0x0F <= 0x0F) by (bit_vector);
        }
        if z {
            f += 0x80;
        }
        if n {
            f += 0x40;
        }
        if h {
            f += 0x20;
        }
        if c {
            f += 0x10;
        }
        self.regs.f = f;
    }

    /// Write Z, N and H, keeping C.
    fn set_flags_znh(&mut self, z: bool, n: bool, h: bool)
        ensures
            *final(self) == (Cpu {
                regs: Registers {
                    f: spec_flags_znh(old(self).regs.f, z, n, h),
                    ..old(self).regs
                },
                ..*old(self)
            }),
    {
        let mut f = self.regs.f & 0x1F;
        proof {
            let f0 = old(self).regs.f;
            assert(f0 & 0x1F <= 0x1F) by (bit_vector);
        }
        if z {
            f += 0x80;
        }
        if n {
            f += 0x40;
        }
        if h {
            f += 0x20;
        }
        self.regs.f = f;
    }

    /// Write Z, H and C, keeping N.
    fn set_flags_zhc(&mut self, z: bool, h: bool, c: bool)
        ensures
            *final(self) == (Cpu {
                regs: Registers {
                    f: spec_flags_zhc(old(self).regs.f, z, h, c),
                    ..old(self).regs
                },
                ..*old(self)
            }),
    {
        let mut f = self.regs.f & 0x4F;
        proof {
            let f0 = old(self).regs.f;
            assert(f0 & 0x4F <= 0x4F) by (bit_vector);
        }
        if z {
            f += 0x80;
        }
        if h {
            f += 0x20;
        }
        if c {
            f += 0x10;
        }
        self.regs.f = f;
    }

    /// Write N, H and C, keeping Z.
    fn set_flags_nhc(&mut self, n: bool, h: bool, c: bool)
        ensures
            *final(self) == (Cpu {
                regs: Registers {
                    f: spec_flags_nhc(old(self).regs.f, n, h, c),
                    ..old(self).regs
                },
                ..*old(self)
            }),
    {
        let mut f = self.regs.f & 0x8F;
        proof {
            let f0 = old(self).regs.f;
            assert(f0 & 0x8F <= 0x8F) by (bit_vector);
        }
        if n {
            f += 0x40;
        }
        if h {
            f += 0x20;
        }
        if c {
            f += 0x10;
        }
        self.regs.f = f;
    }

    /// Read a byte off the bus, faulting on the prohibited range.
    pub(crate) fn read_mem(&self, addr: u16) -> (r: Result<u8, CpuFault>)
        requires
            self.wf(),
        ensures
            !spec_addr_prohibited(addr) ==> r == Ok::<u8, CpuFault>(
                spec_read_byte(self.mmu, addr),
            ),
            spec_addr_prohibited(addr) ==> r == Err::<u8, CpuFault>(
                CpuFault::ProhibitedMemoryRead(addr),
            ),
    {
        if 0xFEA0 <= addr && addr < 0xFF00 {
            Err(CpuFault::ProhibitedMemoryRead(addr))
        } else {
            Ok(self.mmu.read_byte(addr))
        }
    }

    /// Fetch the 8-bit immediate that follows the opcode, and advance PC,
    /// which wraps at the top of the address space.
    fn fetch_imm8(&mut self) -> (r: Result<u8, CpuFault>)
        requires
            old(self).wf(),
        ensures
            final(self).wf(),
            !spec_addr_prohibited(old(self).regs.pc) ==> r == Ok::<u8, CpuFault>(
                spec_read_byte(old(self).mmu, old(self).regs.pc),
            ) && *final(self) == (Cpu {
                regs: Registers {
                    pc: ((old(self).regs.pc + 1) % 0x10000) as u16,
                    ..old(self).regs
                },
                ..*old(self)
            }),
            spec_addr_prohibited(old(self).regs.pc) ==> r == Err::<u8, CpuFault>(
                CpuFault::ProhibitedMemoryRead(old(self).regs.pc),
            ) && *final(self) == *old(self),
    {
        let pc = self.regs.pc;
        let b = match self.read_mem(pc) {
            Ok(b) => b,
            Err(f) => {
                return Err(f);
            },
        };
        self.regs.pc = pc.wrapping_add(1);
        Ok(b)
    }

    /// The signed value of an offset byte, for relative jumps.
    fn signed_offset(b: u8) -> (r: i16)
        ensures
            r == spec_i8(b),
    {
        if b < 128 {
            b as i16
        } else {
            b as i16 - 256
        }
    }
}

/// The CPU with its register file replaced.
pub open spec fn with_regs(c: Cpu, r: Registers) -> Cpu {
    Cpu { regs: r, ..c }
}

/// Whether both bytes of a 16-bit immediate at PC can be fetched.
pub open spec fn spec_imm16_ok(c: Cpu) -> bool {
    !spec_addr_prohibited(c.regs.pc) && !spec_addr_prohibited(wrap16(c.regs.pc + 1))
}

/// Whether both bytes of the word at SP can be popped.
pub open spec fn spec_pop_ok(c: Cpu) -> bool {
    !spec_addr_prohibited(c.regs.sp) && !spec_addr_prohibited(wrap16(c.regs.sp + 1))
}

/// The CPU after an instruction that writes one byte of memory and leaves
/// the registers as given.
pub open spec fn regs_and_write(c: Cpu, c2: Cpu, r: Registers, addr: u16, byte: u8) -> bool {
    &&& c2 == (Cpu { regs: r, mmu: c2.mmu, ..c })
    &&& spec_write_effect(c.mmu, c2.mmu, addr, byte)
}

/// A 16-bit value wrapped to the address space.
pub open spec fn wrap16(v: int) -> u16 {
    (((v % 0x10000) + 0x10000) % 0x10000) as u16
}

impl Cpu {
    // --- 8-bit arithmetic and logic ---
    /// ADC A,r8
    pub fn adc_a_r8(&mut self, r: R8) -> (t: u8)
        ensures
            t == 4,
            *final(self) == with_regs(
                *old(self),
                spec_alu_add(
                    old(self).regs,
                    old(self).regs.spec_r8(r),
                    old(self).regs.spec_flag(Flag::C),
                ),
            ),
    {
        let x = self.regs.r8(r);
        let carry = self.regs.flag(Flag::C);
        self.alu_add(x, carry);
        4
    }

    /// ADC A,[HL]
    pub fn adc_a_ref_hl(&mut self) -> (t: Result<u8, CpuFault>)
        requires
            old(self).wf(),
        ensures
            final(self).wf(),
            ({
                let hl = old(self).regs.spec_r16(R16::HL);
                if !spec_addr_prohibited(hl) {
                    t == Ok::<u8, CpuFault>(8) && *final(self) == with_regs(
                        *old(self),
                        spec_alu_add(
                            old(self).regs,
                            spec_read_byte(old(self).mmu, hl),
                            old(self).regs.spec_flag(Flag::C),
                        ),
                    )
                } else {
                    t == Err::<u8, CpuFault>(CpuFault::ProhibitedMemoryRead(hl)) && *final(self)
                        == *old(self)
                }
            }),
    {
        let x = match self.read_mem(self.regs.hl()) {
            Ok(b) => b,
            Err(f) => {
                return Err(f);
            },
        };
        let carry = self.regs.flag(Flag::C);
        self.alu_add(x, carry);
        Ok(8)
    }

    /// ADC A,n8
    pub fn adc_a_n8(&mut self) -> (t: Result<u8, CpuFault>)
        requires
            old(self).wf(),
        ensures
            final(self).wf(),
            ({
                let pc = old(self).regs.pc;
                if !spec_addr_prohibited(pc) {
                    t == Ok::<u8, CpuFault>(8) && *final(self) == with_regs(
                        *old(self),
                        Registers {
                            pc: wrap16(pc + 1),
                            ..spec_alu_add(
                                old(self).regs,
                                spec_read_byte(old(self).mmu, pc),
                                old(self).regs.spec_flag(Flag::C),
                            )
                        },
                    )
                } else {
                    t == Err::<u8, CpuFault>(CpuFault::ProhibitedMemoryRead(pc)) && *final(self)
                        == *old(self)
                }
            }),
    {
        let imm = match self.fetch_imm8() {
            Ok(b) => b,
            Err(f) => {
                return Err(f);
            },
        };
        let carry = self.regs.flag(Flag::C);
        self.alu_add(imm, carry);
        Ok(8)
    }

    /// ADD A,r8
    pub fn add_a_r8(&mut self, r: R8) -> (t: u8)
        ensures
            t == 4,
            *final(self) == with_regs(
                *old(self),
                spec_alu_add(old(self).regs, old(self).regs.spec_r8(r), false),
            ),
    {
        let x = self.regs.r8(r);
        self.alu_add(x, false);
        4
    }

    /// ADD A,[HL]
    pub fn add_a_ref_hl(&mut self) -> (t: Result<u8, CpuFault>)
        requires
            old(self).wf(),
        ensures
            final(self).wf(),
            ({
                let hl = old(self).regs.spec_r16(R16::HL);
                if !spec_addr_prohibited(hl) {
                    t == Ok::<u8, CpuFault>(8) && *final(self) == with_regs(
                        *old(self),
                        spec_alu_add(old(self).regs, spec_read_byte(old(self).mmu, hl), false),
                    )
                } else {
                    t == Err::<u8, CpuFault>(CpuFault::ProhibitedMemoryRead(hl)) && *final(self)
                        == *old(self)
                }
            }),
    {
        let x = match self.read_mem(self.regs.hl()) {
            Ok(b) => b,
            Err(f) => {
                return Err(f);
            },
        };
        self.alu_add(x, false);
        Ok(8)
    }

    /// ADD A,n8
    pub fn add_a_n8(&mut self) -> (t: Result<u8, CpuFault>)
        requires
            old(self).wf(),
        ensures
            final(self).wf(),
            ({
                let pc = old(self).regs.pc;
                if !spec_addr_prohibited(pc) {
                    t == Ok::<u8, CpuFault>(8) && *final(self) == with_regs(
                        *old(self),
                        Registers {
                            pc: wrap16(pc + 1),
                            ..spec_alu_add(
                                old(self).regs,
                                spec_read_byte(old(self).mmu, pc),
                                false,
                            )
                        },
                    )
                } else {
                    t == Err::<u8, CpuFault>(CpuFault::ProhibitedMemoryRead(pc)) && *final(self)
                        == *old(self)
                }
            }),
    {
        let imm = match self.fetch_imm8() {
            Ok(b) => b,
            Err(f) => {
                return Err(f);
            },
        };
        self.alu_add(imm, false);
        Ok(8)
    }

    /// Add the value and carry bit to A, and set the flags.
    fn alu_add(&mut self, x: u8, carry: bool)
        ensures
            *final(self) == with_regs(*old(self), spec_alu_add(old(self).regs, x, carry)),
    {
        let c: u8 = if carry {
            1
        } else {
            0
        };
        let a = self.regs.a;
        let sum: u16 = a as u16 + x as u16 + c as u16;
        let result = (sum % 256) as u8;
        self.regs.a = result;
        self.set_flags(result == 0, false, (a % 16) + (x % 16) + c > 15, sum > 255);
    }

    /// Subtract the value and carry bit from A, and set the flags.
    fn alu_sub(&mut self, x: u8, carry: bool)
        ensures
            *final(self) == with_regs(*old(self), spec_alu_sub(old(self).regs, x, carry)),
    {
        let c: u8 = if carry {
            1
        } else {
            0
        };
        let a = self.regs.a;
        let result = ((a as u16 + 256 - x as u16 - c as u16) % 256) as u8;
        proof {
            let ai = a as int;
            let xi = x as int;
            let ci = c as int;
            assert((ai + 256 - xi - ci) % 256 == ((ai - xi - ci) % 256 + 256) % 256);
        }
        self.regs.a = result;
        self.set_flags(result == 0, true, (a % 16) < (x % 16) + c, x as u16 + c as u16 > a as u16);
    }

    /// SUB A,r8
    pub fn sub_a_r8(&mut self, r: R8) -> (t: u8)
        ensures
            t == 4,
            *final(self) == with_regs(
                *old(self),
                spec_alu_sub(old(self).regs, old(self).regs.spec_r8(r), false),
            ),
    {
        let x = self.regs.r8(r);
        self.alu_sub(x, false);
        4
    }

    /// SUB A,[HL]
    pub fn sub_a_ref_hl(&mut self) -> (t: Result<u8, CpuFault>)
        requires
            old(self).wf(),
        ensures
            final(self).wf(),
            ({
                let hl = old(self).regs.spec_r16(R16::HL);
                if !spec_addr_prohibited(hl) {
                    t == Ok::<u8, CpuFault>(8) && *final(self) == with_regs(
                        *old(self),
                        spec_alu_sub(old(self).regs, spec_read_byte(old(self).mmu, hl), false),
                    )
                } else {
                    t == Err::<u8, CpuFault>(CpuFault::ProhibitedMemoryRead(hl)) && *final(self)
                        == *old(self)
                }
            }),
    {
        let x = match self.read_mem(self.regs.hl()) {
            Ok(b) => b,
            Err(f) => {
                return Err(f);
            },
        };
        self.alu_sub(x, false);
        Ok(8)
    }

    /// SUB A,n8
    pub fn sub_a_n8(&mut self) -> (t: Result<u8, CpuFault>)
        requires
            old(self).wf(),
        ensures
            final(self).wf(),
            ({
                let pc = old(self).regs.pc;
                if !spec_addr_prohibited(pc) {
                    t == Ok::<u8, CpuFault>(8) && *final(self) == with_regs(
                        *old(self),
                        Registers {
                            pc: wrap16(pc + 1),
                            ..spec_alu_sub(
                                old(self).regs,
                                spec_read_byte(old(self).mmu, pc),
                                false,
                            )
                        },
                    )
                } else {
                    t == Err::<u8, CpuFault>(CpuFault::ProhibitedMemoryRead(pc)) && *final(self)
                        == *old(self)
                }
            }),
    {
        let imm = match self.fetch_imm8() {
            Ok(b) => b,
            Err(f) => {
                return Err(f);
            },
        };
        self.alu_sub(imm, false);
        Ok(8)
    }

    /// SBC A,r8
    pub fn sbc_a_r8(&mut self, r: R8) -> (t: u8)
        ensures
            t == 4,
            *final(self) == with_regs(
                *old(self),
                spec_alu_sub(
                    old(self).regs,
                    old(self).regs.spec_r8(r),
                    old(self).regs.spec_flag(Flag::C),
                ),
            ),
    {
        let x = self.regs.r8(r);
        let carry = self.regs.flag(Flag::C);
        self.alu_sub(x, carry);
        4
    }

    /// SBC A,[HL]
    pub fn sbc_a_ref_hl(&mut self) -> (t: Result<u8, CpuFault>)
        requires
            old(self).wf(),
        ensures
            final(self).wf(),
            ({
                let hl = old(self).regs.spec_r16(R16::HL);
                if !spec_addr_prohibited(hl) {
                    t == Ok::<u8, CpuFault>(8) && *final(self) == with_regs(
                        *old(self),
                        spec_alu_sub(
                            old(self).regs,
                            spec_read_byte(old(self).mmu, hl),
                            old(self).regs.spec_flag(Flag::C),
                        ),
                    )
                } else {
                    t == Err::<u8, CpuFault>(CpuFault::ProhibitedMemoryRead(hl)) && *final(self)
                        == *old(self)
                }
            }),
    {
        let x = match self.read_mem(self.regs.hl()) {
            Ok(b) => b,
            Err(f) => {
                return Err(f);
            },
        };
        let carry = self.regs.flag(Flag::C);
        self.alu_sub(x, carry);
        Ok(8)
    }

    /// SBC A,n8
    pub fn sbc_a_n8(&mut self) -> (t: Result<u8, CpuFault>)
        requires
            old(self).wf(),
        ensures
            final(self).wf(),
            ({
                let pc = old(self).regs.pc;
                if !spec_addr_prohibited(pc) {
                    t == Ok::<u8, CpuFault>(8) && *final(self) == with_regs(
                        *old(self),
                        Registers {
                            pc: wrap16(pc + 1),
                            ..spec_alu_sub(
                                old(self).regs,
                                spec_read_byte(old(self).mmu, pc),
                                old(self).regs.spec_flag(Flag::C),
                            )
                        },
                    )
                } else {
                    t == Err::<u8, CpuFault>(CpuFault::ProhibitedMemoryRead(pc)) && *final(self)
                        == *old(self)
                }
            }),
    {
        let imm = match self.fetch_imm8() {
            Ok(b) => b,
            Err(f) => {
                return Err(f);
            },
        };
        let carry = self.regs.flag(Flag::C);
        self.alu_sub(imm, carry);
        Ok(8)
    }

    /// CP A,r8
    pub fn cp_a_r8(&mut self, r: R8) -> (t: u8)
        ensures
            t == 4,
            *final(self) == with_regs(
                *old(self),
                spec_alu_cp(old(self).regs, old(self).regs.spec_r8(r)),
            ),
    {
        let x = self.regs.r8(r);
        self.alu_cp(x);
        4
    }

    /// CP A,[HL]
    pub fn cp_a_ref_hl(&mut self) -> (t: Result<u8, CpuFault>)
        requires
            old(self).wf(),
        ensures
            final(self).wf(),
            ({
                let hl = old(self).regs.spec_r16(R16::HL);
                if !spec_addr_prohibited(hl) {
                    t == Ok::<u8, CpuFault>(8) && *final(self) == with_regs(
                        *old(self),
                        spec_alu_cp(old(self).regs, spec_read_byte(old(self).mmu, hl)),
                    )
                } else {
                    t == Err::<u8, CpuFault>(CpuFault::ProhibitedMemoryRead(hl)) && *final(self)
                        == *old(self)
                }
            }),
    {
        let x = match self.read_mem(self.regs.hl()) {
            Ok(b) => b,
            Err(f) => {
                return Err(f);
            },
        };
        self.alu_cp(x);
        Ok(8)
    }

    /// CP A,n8
    pub fn cp_a_n8(&mut self) -> (t: Result<u8, CpuFault>)
        requires
            old(self).wf(),
        ensures
            final(self).wf(),
            ({
                let pc = old(self).regs.pc;
                if !spec_addr_prohibited(pc) {
                    t == Ok::<u8, CpuFault>(8) && *final(self) == with_regs(
                        *old(self),
                        Registers {
                            pc: wrap16(pc + 1),
                            ..spec_alu_cp(old(self).regs, spec_read_byte(old(self).mmu, pc))
                        },
                    )
                } else {
                    t == Err::<u8, CpuFault>(CpuFault::ProhibitedMemoryRead(pc)) && *final(self)
                        == *old(self)
                }
            }),
    {
        let imm = match self.fetch_imm8() {
            Ok(b) => b,
            Err(f) => {
                return Err(f);
            },
        };
        self.alu_cp(imm);
        Ok(8)
    }

    /// Compare A with the value: subtract without storing the result.
    fn alu_cp(&mut self, x: u8)
        ensures
            *final(self) == with_regs(*old(self), spec_alu_cp(old(self).regs, x)),
    {
        let prev = self.regs.a;
        self.alu_sub(x, false);
        self.regs.a = prev;
    }

    /// AND A,r8
    pub fn and_a_r8(&mut self, r: R8) -> (t: u8)
        ensures
            t == 4,
            *final(self) == with_regs(
                *old(self),
                spec_alu_and(old(self).regs, old(self).regs.spec_r8(r)),
            ),
    {
        let x = self.regs.r8(r);
        self.alu_and(x);
        4
    }

    /// AND A,[HL]
    pub fn and_a_ref_hl(&mut self) -> (t: Result<u8, CpuFault>)
        requires
            old(self).wf(),
        ensures
            final(self).wf(),
            ({
                let hl = old(self).regs.spec_r16(R16::HL);
                if !spec_addr_prohibited(hl) {
                    t == Ok::<u8, CpuFault>(8) && *final(self) == with_regs(
                        *old(self),
                        spec_alu_and(old(self).regs, spec_read_byte(old(self).mmu, hl)),
                    )
                } else {
                    t == Err::<u8, CpuFault>(CpuFault::ProhibitedMemoryRead(hl)) && *final(self)
                        == *old(self)
                }
            }),
    {
        let x = match self.read_mem(self.regs.hl()) {
            Ok(b) => b,
            Err(f) => {
                return Err(f);
            },
        };
        self.alu_and(x);
        Ok(8)
    }

    /// AND A,n8
    pub fn and_a_n8(&mut self) -> (t: Result<u8, CpuFault>)
        requires
            old(self).wf(),
        ensures
            final(self).wf(),
            ({
                let pc = old(self).regs.pc;
                if !spec_addr_prohibited(pc) {
                    t == Ok::<u8, CpuFault>(8) && *final(self) == with_regs(
                        *old(self),
                        Registers {
                            pc: wrap16(pc + 1),
                            ..spec_alu_and(old(self).regs, spec_read_byte(old(self).mmu, pc))
                        },
                    )
                } else {
                    t == Err::<u8, CpuFault>(CpuFault::ProhibitedMemoryRead(pc)) && *final(self)
                        == *old(self)
                }
            }),
    {
        let imm = match self.fetch_imm8() {
            Ok(b) => b,
            Err(f) => {
                return Err(f);
            },
        };
        self.alu_and(imm);
        Ok(8)
    }

    /// AND the value into A and set the flags.
    fn alu_and(&mut self, x: u8)
        ensures
            *final(self) == with_regs(*old(self), spec_alu_and(old(self).regs, x)),
    {
        self.regs.a = self.regs.a & x;
        let z = self.regs.a == 0;
        self.set_flags(z, false, true, false);
    }

    /// OR A,r8
    pub fn or_a_r8(&mut self, r: R8) -> (t: u8)
        ensures
            t == 4,
            *final(self) == with_regs(
                *old(self),
                spec_alu_or(old(self).regs, old(self).regs.spec_r8(r)),
            ),
    {
        let x = self.regs.r8(r);
        self.alu_or(x);
        4
    }

    /// OR A,[HL]
    pub fn or_a_ref_hl(&mut self) -> (t: Result<u8, CpuFault>)
        requires
            old(self).wf(),
        ensures
            final(self).wf(),
            ({
                let hl = old(self).regs.spec_r16(R16::HL);
                if !spec_addr_prohibited(hl) {
                    t == Ok::<u8, CpuFault>(8) && *final(self) == with_regs(
                        *old(self),
                        spec_alu_or(old(self).regs, spec_read_byte(old(self).mmu, hl)),
                    )
                } else {
                    t == Err::<u8, CpuFault>(CpuFault::ProhibitedMemoryRead(hl)) && *final(self)
                        == *old(self)
                }
            }),
    {
        let x = match self.read_mem(self.regs.hl()) {
            Ok(b) => b,
            Err(f) => {
                return Err(f);
            },
        };
        self.alu_or(x);
        Ok(8)
    }

    /// OR A,n8
    pub fn or_a_n8(&mut self) -> (t: Result<u8, CpuFault>)
        requires
            old(self).wf(),
        ensures
            final(self).wf(),
            ({
                let pc = old(self).regs.pc;
                if !spec_addr_prohibited(pc) {
                    t == Ok::<u8, CpuFault>(8) && *final(self) == with_regs(
                        *old(self),
                        Registers {
                            pc: wrap16(pc + 1),
                            ..spec_alu_or(old(self).regs, spec_read_byte(old(self).mmu, pc))
                        },
                    )
                } else {
                    t == Err::<u8, CpuFault>(CpuFault::ProhibitedMemoryRead(pc)) && *final(self)
                        == *old(self)
                }
            }),
    {
        let imm = match self.fetch_imm8() {
            Ok(b) => b,
            Err(f) => {
                return Err(f);
            },
        };
        self.alu_or(imm);
        Ok(8)
    }

    /// OR the value into A and set the flags.
    fn alu_or(&mut self, x: u8)
        ensures
            *final(self) == with_regs(*old(self), spec_alu_or(old(self).regs, x)),
    {
        self.regs.a = self.regs.a | x;
        let z = self.regs.a == 0;
        self.set_flags(z, false, false, false);
    }

    /// XOR A,r8
    pub fn xor_a_r8(&mut self, r: R8) -> (t: u8)
        ensures
            t == 4,
            *final(self) == with_regs(
                *old(self),
                spec_alu_xor(old(self).regs, old(self).regs.spec_r8(r)),
            ),
    {
        let x = self.regs.r8(r);
        self.alu_xor(x);
        4
    }

    /// XOR A,[HL]
    pub fn xor_a_ref_hl(&mut self) -> (t: Result<u8, CpuFault>)
        requires
            old(self).wf(),
        ensures
            final(self).wf(),
            ({
                let hl = old(self).regs.spec_r16(R16::HL);
                if !spec_addr_prohibited(hl) {
                    t == Ok::<u8, CpuFault>(8) && *final(self) == with_regs(
                        *old(self),
                        spec_alu_xor(old(self).regs, spec_read_byte(old(self).mmu, hl)),
                    )
                } else {
                    t == Err::<u8, CpuFault>(CpuFault::ProhibitedMemoryRead(hl)) && *final(self)
                        == *old(self)
                }
            }),
    {
        let x = match self.read_mem(self.regs.hl()) {
            Ok(b) => b,
            Err(f) => {
                return Err(f);
            },
        };
        self.alu_xor(x);
        Ok(8)
    }

    /// XOR A,n8
    pub fn xor_a_n8(&mut self) -> (t: Result<u8, CpuFault>)
        requires
            old(self).wf(),
        ensures
            final(self).wf(),
            ({
                let pc = old(self).regs.pc;
                if !spec_addr_prohibited(pc) {
                    t == Ok::<u8, CpuFault>(8) && *final(self) == with_regs(
                        *old(self),
                        Registers {
                            pc: wrap16(pc + 1),
                            ..spec_alu_xor(old(self).regs, spec_read_byte(old(self).mmu, pc))
                        },
                    )
                } else {
                    t == Err::<u8, CpuFault>(CpuFault::ProhibitedMemoryRead(pc)) && *final(self)
                        == *old(self)
                }
            }),
    {
        let imm = match self.fetch_imm8() {
            Ok(b) => b,
            Err(f) => {
                return Err(f);
            },
        };
        self.alu_xor(imm);
        Ok(8)
    }

    /// XOR the value into A and set the flags.
    fn alu_xor(&mut self, x: u8)
        ensures
            *final(self) == with_regs(*old(self), spec_alu_xor(old(self).regs, x)),
    {
        self.regs.a = self.regs.a ^ x;
        let z = self.regs.a == 0;
        self.set_flags(z, false, false, false);
    }

    /// INC r8
    pub fn inc_r8(&mut self, r: R8) -> (t: u8)
        ensures
            t == 4,
            *final(self) == with_regs(
                *old(self),
                Registers {
                    f: spec_alu_inc(old(self).regs.f, old(self).regs.spec_r8(r)).1,
                    ..old(self).regs.spec_with_r8(
                        r,
                        spec_alu_inc(old(self).regs.f, old(self).regs.spec_r8(r)).0,
                    )
                },
            ),
    {
        let x = self.regs.r8(r);
        let result = ((x as u16 + 1) % 256) as u8;
        self.regs.set_r8(r, result);
        self.set_flags_znh(result == 0, false, x % 16 == 15);
        4
    }

    /// DEC r8
    pub fn dec_r8(&mut self, r: R8) -> (t: u8)
        ensures
            t == 4,
            *final(self) == with_regs(
                *old(self),
                Registers {
                    f: spec_alu_dec(old(self).regs.f, old(self).regs.spec_r8(r)).1,
                    ..old(self).regs.spec_with_r8(
                        r,
                        spec_alu_dec(old(self).regs.f, old(self).regs.spec_r8(r)).0,
                    )
                },
            ),
    {
        let x = self.regs.r8(r);
        let result = ((x as u16 + 255) % 256) as u8;
        proof {
            let xi = x as int;
            assert((xi + 255) % 256 == ((xi - 1) % 256 + 256) % 256);
        }
        self.regs.set_r8(r, result);
        self.set_flags_znh(result == 0, true, x % 16 == 0);
        4
    }

    /// INC [HL]
    pub fn inc_ref_hl(&mut self) -> (t: Result<u8, CpuFault>)
        requires
            old(self).wf(),
        ensures
            final(self).wf(),
            ({
                let hl = old(self).regs.spec_r16(R16::HL);
                let v = spec_read_byte(old(self).mmu, hl);
                if !spec_addr_prohibited(hl) {
                    t == Ok::<u8, CpuFault>(12) && regs_and_write(
                        *old(self),
                        *final(self),
                        Registers {
                            f: spec_alu_inc(old(self).regs.f, v).1,
                            ..old(self).regs
                        },
                        hl,
                        spec_alu_inc(old(self).regs.f, v).0,
                    )
                } else {
                    t == Err::<u8, CpuFault>(CpuFault::ProhibitedMemoryRead(hl)) && *final(self)
                        == *old(self)
                }
            }),
    {
        let hl = self.regs.hl();
        let x = match self.read_mem(hl) {
            Ok(b) => b,
            Err(f) => {
                return Err(f);
            },
        };
        let result = ((x as u16 + 1) % 256) as u8;
        self.set_flags_znh(result == 0, false, x % 16 == 15);
        self.mmu.write_byte(hl, result);
        Ok(12)
    }

    /// DEC [HL]
    pub fn dec_ref_hl(&mut self) -> (t: Result<u8, CpuFault>)
        requires
            old(self).wf(),
        ensures
            final(self).wf(),
            ({
                let hl = old(self).regs.spec_r16(R16::HL);
                let v = spec_read_byte(old(self).mmu, hl);
                if !spec_addr_prohibited(hl) {
                    t == Ok::<u8, CpuFault>(12) && regs_and_write(
                        *old(self),
                        *final(self),
                        Registers {
                            f: spec_alu_dec(old(self).regs.f, v).1,
                            ..old(self).regs
                        },
                        hl,
                        spec_alu_dec(old(self).regs.f, v).0,
                    )
                } else {
                    t == Err::<u8, CpuFault>(CpuFault::ProhibitedMemoryRead(hl)) && *final(self)
                        == *old(self)
                }
            }),
    {
        let hl = self.regs.hl();
        let x = match self.read_mem(hl) {
            Ok(b) => b,
            Err(f) => {
                return Err(f);
            },
        };
        let result = ((x as u16 + 255) % 256) as u8;
        proof {
            let xi = x as int;
            assert((xi + 255) % 256 == ((xi - 1) % 256 + 256) % 256);
        }
        self.set_flags_znh(result == 0, true, x % 16 == 0);
        self.mmu.write_byte(hl, result);
        Ok(12)
    }
}

impl Cpu {
    // --- 16-bit arithmetic ---
    /// ADD HL,r16
    pub fn add_hl_r16(&mut self, reg: R16) -> (t: u8)
        ensures
            t == 8,
            *final(self) == with_regs(
                *old(self),
                spec_add_hl(old(self).regs, old(self).regs.spec_r16(reg)),
            ),
    {
        let hl = self.regs.hl();
        let val = self.regs.r16(reg);
        let sum: u32 = hl as u32 + val as u32;
        let result = (sum % 0x10000) as u16;
        self.set_flags_nhc(false, (hl % 0x1000) + (val % 0x1000) > 0xFFF, sum > 0xFFFF);
        self.regs.set_hl(result);
        8
    }

    /// DEC r16: no flags are touched.
    pub fn dec_r16(&mut self, reg: R16) -> (t: u8)
        ensures
            t == 8,
            *final(self) == with_regs(
                *old(self),
                old(self).regs.spec_with_r16(reg, wrap16(old(self).regs.spec_r16(reg) - 1)),
            ),
    {
        let v = self.regs.r16(reg);
        self.regs.set_r16(reg, v.wrapping_sub(1));
        8
    }

    /// INC r16: no flags are touched.
    pub fn inc_r16(&mut self, reg: R16) -> (t: u8)
        ensures
            t == 8,
            *final(self) == with_regs(
                *old(self),
                old(self).regs.spec_with_r16(reg, wrap16(old(self).regs.spec_r16(reg) + 1)),
            ),
    {
        let v = self.regs.r16(reg);
        self.regs.set_r16(reg, v.wrapping_add(1));
        8
    }

    // --- bit operations ---
    /// BIT u3,r8: set Z iff the bit is clear.
    pub fn bit_u3_r8(&mut self, u3: u8, reg: R8) -> (t: u8)
        requires
            u3 < 8,
        ensures
            t == 8,
            *final(self) == with_regs(
                *old(self),
                Registers {
                    f: spec_alu_bit(old(self).regs.f, u3, old(self).regs.spec_r8(reg)),
                    ..old(self).regs
                },
            ),
    {
        let x = self.regs.r8(reg);
        self.test_bit_u3(u3, x);
        8
    }

    /// BIT u3,[HL]
    pub fn bit_u3_ref_hl(&mut self, u3: u8) -> (t: Result<u8, CpuFault>)
        requires
            old(self).wf(),
            u3 < 8,
        ensures
            final(self).wf(),
            ({
                let hl = old(self).regs.spec_r16(R16::HL);
                if !spec_addr_prohibited(hl) {
                    t == Ok::<u8, CpuFault>(12) && *final(self) == with_regs(
                        *old(self),
                        Registers {
                            f: spec_alu_bit(
                                old(self).regs.f,
                                u3,
                                spec_read_byte(old(self).mmu, hl),
                            ),
                            ..old(self).regs
                        },
                    )
                } else {
                    t == Err::<u8, CpuFault>(CpuFault::ProhibitedMemoryRead(hl)) && *final(self)
                        == *old(self)
                }
            }),
    {
        let x = match self.read_mem(self.regs.hl()) {
            Ok(b) => b,
            Err(f) => {
                return Err(f);
            },
        };
        self.test_bit_u3(u3, x);
        Ok(12)
    }

    /// Test bit u3 of the value; Z is set iff the bit is clear.
    fn test_bit_u3(&mut self, u3: u8, val: u8)
        requires
            u3 < 8,
        ensures
            *final(self) == with_regs(
                *old(self),
                Registers { f: spec_alu_bit(old(self).regs.f, u3, val), ..old(self).regs },
            ),
    {
        let bit = (val >> u3) & 1;
        proof {
            vstd::arithmetic::power2::lemma2_to64();
            let u = u3;
            let v = val;
            assert(u < 8 ==> ((v >> u) & 1) == (v / (if u == 0 {
                1u8
            } else if u == 1 {
                2u8
            } else if u == 2 {
                4u8
            } else if u == 3 {
                8u8
            } else if u == 4 {
                16u8
            } else if u == 5 {
                32u8
            } else if u == 6 {
                64u8
            } else {
                128u8
            })) % 2) by (bit_vector);
        }
        self.set_flags_znh(bit == 0, false, true);
    }

    /// RES u3,r8: clear bit u3. Bit 0 is the right-most one.
    pub fn res_u3_r8(&mut self, u3: u8, reg: R8) -> (t: u8)
        requires
            u3 < 8,
        ensures
            t == 8,
            *final(self) == with_regs(
                *old(self),
                old(self).regs.spec_with_r8(
                    reg,
                    old(self).regs.spec_r8(reg) & !(1u8 << u3),
                ),
            ),
    {
        let mask = !(1u8 << u3);
        let v = self.regs.r8(reg) & mask;
        self.regs.set_r8(reg, v);
        8
    }

    /// RES u3,[HL]
    pub fn res_u3_ref_hl(&mut self, u3: u8) -> (t: Result<u8, CpuFault>)
        requires
            old(self).wf(),
            u3 < 8,
        ensures
            final(self).wf(),
            ({
                let hl = old(self).regs.spec_r16(R16::HL);
                if !spec_addr_prohibited(hl) {
                    t == Ok::<u8, CpuFault>(16) && regs_and_write(
                        *old(self),
                        *final(self),
                        old(self).regs,
                        hl,
                        spec_read_byte(old(self).mmu, hl) & !(1u8 << u3),
                    )
                } else {
                    t == Err::<u8, CpuFault>(CpuFault::ProhibitedMemoryRead(hl)) && *final(self)
                        == *old(self)
                }
            }),
    {
        let hl = self.regs.hl();
        let x = match self.read_mem(hl) {
            Ok(b) => b,
            Err(f) => {
                return Err(f);
            },
        };
        self.mmu.write_byte(hl, x & !(1u8 << u3));
        Ok(16)
    }

    /// SET u3,r8: set bit u3. Bit 0 is the right-most one.
    pub fn set_u3_r8(&mut self, u3: u8, reg: R8) -> (t: u8)
        requires
            u3 < 8,
        ensures
            t == 8,
            *final(self) == with_regs(
                *old(self),
                old(self).regs.spec_with_r8(reg, old(self).regs.spec_r8(reg) | (1u8 << u3)),
            ),
    {
        let mask = 1u8 << u3;
        let v = self.regs.r8(reg) | mask;
        self.regs.set_r8(reg, v);
        8
    }

    /// SET u3,[HL]
    pub fn set_u3_ref_hl(&mut self, u3: u8) -> (t: Result<u8, CpuFault>)
        requires
            old(self).wf(),
            u3 < 8,
        ensures
            final(self).wf(),
            ({
                let hl = old(self).regs.spec_r16(R16::HL);
                if !spec_addr_prohibited(hl) {
                    t == Ok::<u8, CpuFault>(16) && regs_and_write(
                        *old(self),
                        *final(self),
                        old(self).regs,
                        hl,
                        spec_read_byte(old(self).mmu, hl) | (1u8 << u3),
                    )
                } else {
                    t == Err::<u8, CpuFault>(CpuFault::ProhibitedMemoryRead(hl)) && *final(self)
                        == *old(self)
                }
            }),
    {
        let hl = self.regs.hl();
        let x = match self.read_mem(hl) {
            Ok(b) => b,
            Err(f) => {
                return Err(f);
            },
        };
        self.mmu.write_byte(hl, x | (1u8 << u3));
        Ok(16)
    }

    /// Swap the two nibbles of the byte and set the flags.
    fn swap_byte(&mut self, val: u8) -> (r: u8)
        ensures
            r == spec_alu_swap(old(self).regs.f, val).0,
            *final(self) == with_regs(
                *old(self),
                Registers { f: spec_alu_swap(old(self).regs.f, val).1, ..old(self).regs },
            ),
    {
        let res = (val % 16) * 16 + val / 16;
        self.set_flags(res == 0, false, false, false);
        res
    }

    /// SWAP r8
    pub fn swap_r8(&mut self, reg: R8) -> (t: u8)
        ensures
            t == 8,
            *final(self) == with_regs(
                *old(self),
                Registers {
                    f: spec_alu_swap(old(self).regs.f, old(self).regs.spec_r8(reg)).1,
                    ..old(self).regs.spec_with_r8(
                        reg,
                        spec_alu_swap(old(self).regs.f, old(self).regs.spec_r8(reg)).0,
                    )
                },
            ),
    {
        let x = self.regs.r8(reg);
        let v = self.swap_byte(x);
        self.regs.set_r8(reg, v);
        8
    }

    /// SWAP [HL]
    pub fn swap_ref_hl(&mut self) -> (t: Result<u8, CpuFault>)
        requires
            old(self).wf(),
        ensures
            final(self).wf(),
            ({
                let hl = old(self).regs.spec_r16(R16::HL);
                let v = spec_read_byte(old(self).mmu, hl);
                if !spec_addr_prohibited(hl) {
                    t == Ok::<u8, CpuFault>(16) && regs_and_write(
                        *old(self),
                        *final(self),
                        Registers { f: spec_alu_swap(old(self).regs.f, v).1, ..old(self).regs },
                        hl,
                        spec_alu_swap(old(self).regs.f, v).0,
                    )
                } else {
                    t == Err::<u8, CpuFault>(CpuFault::ProhibitedMemoryRead(hl)) && *final(self)
                        == *old(self)
                }
            }),
    {
        let hl = self.regs.hl();
        let x = match self.read_mem(hl) {
            Ok(b) => b,
            Err(f) => {
                return Err(f);
            },
        };
        let swapped = self.swap_byte(x);
        self.mmu.write_byte(hl, swapped);
        Ok(16)
    }
}

impl Cpu {
    // --- rotates and shifts ---
    /// Rotate left through the carry flag and set the flags.
    fn alu_rl(&mut self, val: u8) -> (r: u8)
        ensures
            r == spec_alu_rl(old(self).regs.f, val, old(self).regs.spec_flag(Flag::C)).0,
            *final(self) == with_regs(
                *old(self),
                Registers {
                    f: spec_alu_rl(old(self).regs.f, val, old(self).regs.spec_flag(Flag::C)).1,
                    ..old(self).regs
                },
            ),
    {
        let carry_in = self.regs.flag(Flag::C);
        let res = ((val as u16 * 2) % 256) as u8 + (if carry_in {
            1
        } else {
            0
        });
        self.set_flags(res == 0, false, false, val >= 0x80);
        res
    }

    /// RL r8
    pub fn rl_r8(&mut self, reg: R8) -> (t: u8)
        ensures
            t == 8,
            *final(self) == with_regs(
                *old(self),
                ({
                    let up = spec_alu_rl(
                        old(self).regs.f,
                        old(self).regs.spec_r8(reg),
                        old(self).regs.spec_flag(Flag::C),
                    );
                    Registers { f: up.1, ..old(self).regs.spec_with_r8(reg, up.0) }
                }),
            ),
    {
        let x = self.regs.r8(reg);
        let v = self.alu_rl(x);
        self.regs.set_r8(reg, v);
        8
    }

    /// RL [HL]
    pub fn rl_ref_hl(&mut self) -> (t: Result<u8, CpuFault>)
        requires
            old(self).wf(),
        ensures
            final(self).wf(),
            ({
                let hl = old(self).regs.spec_r16(R16::HL);
                let up = spec_alu_rl(
                    old(self).regs.f,
                    spec_read_byte(old(self).mmu, hl),
                    old(self).regs.spec_flag(Flag::C),
                );
                if !spec_addr_prohibited(hl) {
                    t == Ok::<u8, CpuFault>(16) && regs_and_write(
                        *old(self),
                        *final(self),
                        Registers { f: up.1, ..old(self).regs },
                        hl,
                        up.0,
                    )
                } else {
                    t == Err::<u8, CpuFault>(CpuFault::ProhibitedMemoryRead(hl)) && *final(self)
                        == *old(self)
                }
            }),
    {
        let hl = self.regs.hl();
        let x = match self.read_mem(hl) {
            Ok(b) => b,
            Err(f) => {
                return Err(f);
            },
        };
        let rotated = self.alu_rl(x);
        self.mmu.write_byte(hl, rotated);
        Ok(16)
    }

    /// RLA: RL on A, with Z forced clear.
    pub fn rla(&mut self) -> (t: u8)
        ensures
            t == 4,
            *final(self) == with_regs(
                *old(self),
                ({
                    let up = spec_alu_rl(
                        old(self).regs.f,
                        old(self).regs.a,
                        old(self).regs.spec_flag(Flag::C),
                    );
                    Registers {
                        a: up.0,
                        f: spec_flags(old(self).regs.f, false, false, false, old(self).regs.a
                            >= 0x80),
                        ..old(self).regs
                    }
                }),
            ),
    {
        let x = self.regs.a;
        let v = self.alu_rl(x);
        self.regs.a = v;
        self.regs.set_flag(Flag::Z, false);
        proof {
            lemma_clear_z(old(self).regs.f, false, false, x >= 0x80);
        }
        4
    }

    /// Rotate left circular and set the flags.
    fn alu_rlc(&mut self, val: u8) -> (r: u8)
        ensures
            r == spec_alu_rlc(old(self).regs.f, val).0,
            *final(self) == with_regs(
                *old(self),
                Registers { f: spec_alu_rlc(old(self).regs.f, val).1, ..old(self).regs },
            ),
    {
        let res = ((val as u16 * 2) % 256) as u8 + val / 128;
        self.set_flags(res == 0, false, false, val >= 0x80);
        res
    }

    /// RLC r8
    pub fn rlc_r8(&mut self, reg: R8) -> (t: u8)
        ensures
            t == 8,
            *final(self) == with_regs(
                *old(self),
                ({
                    let up = spec_alu_rlc(old(self).regs.f, old(self).regs.spec_r8(reg));
                    Registers { f: up.1, ..old(self).regs.spec_with_r8(reg, up.0) }
                }),
            ),
    {
        let x = self.regs.r8(reg);
        let v = self.alu_rlc(x);
        self.regs.set_r8(reg, v);
        8
    }

    /// RLC [HL]
    pub fn rlc_ref_hl(&mut self) -> (t: Result<u8, CpuFault>)
        requires
            old(self).wf(),
        ensures
            final(self).wf(),
            ({
                let hl = old(self).regs.spec_r16(R16::HL);
                let up = spec_alu_rlc(old(self).regs.f, spec_read_byte(old(self).mmu, hl));
                if !spec_addr_prohibited(hl) {
                    t == Ok::<u8, CpuFault>(16) && regs_and_write(
                        *old(self),
                        *final(self),
                        Registers { f: up.1, ..old(self).regs },
                        hl,
                        up.0,
                    )
                } else {
                    t == Err::<u8, CpuFault>(CpuFault::ProhibitedMemoryRead(hl)) && *final(self)
                        == *old(self)
                }
            }),
    {
        let hl = self.regs.hl();
        let x = match self.read_mem(hl) {
            Ok(b) => b,
            Err(f) => {
                return Err(f);
            },
        };
        let rotated = self.alu_rlc(x);
        self.mmu.write_byte(hl, rotated);
        Ok(16)
    }

    /// RLCA: RLC on A, with Z forced clear.
    pub fn rlca(&mut self) -> (t: u8)
        ensures
            t == 4,
            *final(self) == with_regs(
                *old(self),
                Registers {
                    a: spec_alu_rlc(old(self).regs.f, old(self).regs.a).0,
                    f: spec_flags(old(self).regs.f, false, false, false, old(self).regs.a >= 0x80),
                    ..old(self).regs
                },
            ),
    {
        let x = self.regs.a;
        let v = self.alu_rlc(x);
        self.regs.a = v;
        self.regs.set_flag(Flag::Z, false);
        proof {
            lemma_clear_z(old(self).regs.f, false, false, x >= 0x80);
        }
        4
    }

    /// Rotate right through the carry flag and set the flags.
    fn alu_rr(&mut self, val: u8) -> (r: u8)
        ensures
            r == spec_alu_rr(old(self).regs.f, val, old(self).regs.spec_flag(Flag::C)).0,
            *final(self) == with_regs(
                *old(self),
                Registers {
                    f: spec_alu_rr(old(self).regs.f, val, old(self).regs.spec_flag(Flag::C)).1,
                    ..old(self).regs
                },
            ),
    {
        let carry_in = self.regs.flag(Flag::C);
        let res = val / 2 + (if carry_in {
            128
        } else {
            0
        });
        self.set_flags(res == 0, false, false, val % 2 == 1);
        res
    }

    /// RR r8
    pub fn rr_r8(&mut self, reg: R8) -> (t: u8)
        ensures
            t == 8,
            *final(self) == with_regs(
                *old(self),
                ({
                    let up = spec_alu_rr(
                        old(self).regs.f,
                        old(self).regs.spec_r8(reg),
                        old(self).regs.spec_flag(Flag::C),
                    );
                    Registers { f: up.1, ..old(self).regs.spec_with_r8(reg, up.0) }
                }),
            ),
    {
        let x = self.regs.r8(reg);
        let v = self.alu_rr(x);
        self.regs.set_r8(reg, v);
        8
    }

    /// RR [HL]
    pub fn rr_ref_hl(&mut self) -> (t: Result<u8, CpuFault>)
        requires
            old(self).wf(),
        ensures
            final(self).wf(),
            ({
                let hl = old(self).regs.spec_r16(R16::HL);
                let up = spec_alu_rr(
                    old(self).regs.f,
                    spec_read_byte(old(self).mmu, hl),
                    old(self).regs.spec_flag(Flag::C),
                );
                if !spec_addr_prohibited(hl) {
                    t == Ok::<u8, CpuFault>(16) && regs_and_write(
                        *old(self),
                        *final(self),
                        Registers { f: up.1, ..old(self).regs },
                        hl,
                        up.0,
                    )
                } else {
                    t == Err::<u8, CpuFault>(CpuFault::ProhibitedMemoryRead(hl)) && *final(self)
                        == *old(self)
                }
            }),
    {
        let hl = self.regs.hl();
        let x = match self.read_mem(hl) {
            Ok(b) => b,
            Err(f) => {
                return Err(f);
            },
        };
        let rotated = self.alu_rr(x);
        self.mmu.write_byte(hl, rotated);
        Ok(16)
    }

    /// RRA: RR on A, with Z forced clear.
    pub fn rra(&mut self) -> (t: u8)
        ensures
            t == 4,
            *final(self) == with_regs(
                *old(self),
                ({
                    let up = spec_alu_rr(
                        old(self).regs.f,
                        old(self).regs.a,
                        old(self).regs.spec_flag(Flag::C),
                    );
                    Registers {
                        a: up.0,
                        f: spec_flags(old(self).regs.f, false, false, false, old(self).regs.a % 2
                            == 1),
                        ..old(self).regs
                    }
                }),
            ),
    {
        let x = self.regs.a;
        let v = self.alu_rr(x);
        self.regs.a = v;
        self.regs.set_flag(Flag::Z, false);
        proof {
            lemma_clear_z(old(self).regs.f, false, false, x % 2 == 1);
        }
        4
    }

    /// Rotate right circular and set the flags.
    fn alu_rrc(&mut self, val: u8) -> (r: u8)
        ensures
            r == spec_alu_rrc(old(self).regs.f, val).0,
            *final(self) == with_regs(
                *old(self),
                Registers { f: spec_alu_rrc(old(self).regs.f, val).1, ..old(self).regs },
            ),
    {
        let res = val / 2 + (val % 2) * 128;
        self.set_flags(res == 0, false, false, val % 2 == 1);
        res
    }

    /// RRC r8
    pub fn rrc_r8(&mut self, reg: R8) -> (t: u8)
        ensures
            t == 8,
            *final(self) == with_regs(
                *old(self),
                ({
                    let up = spec_alu_rrc(old(self).regs.f, old(self).regs.spec_r8(reg));
                    Registers { f: up.1, ..old(self).regs.spec_with_r8(reg, up.0) }
                }),
            ),
    {
        let x = self.regs.r8(reg);
        let v = self.alu_rrc(x);
        self.regs.set_r8(reg, v);
        8
    }

    /// RRC [HL]
    pub fn rrc_ref_hl(&mut self) -> (t: Result<u8, CpuFault>)
        requires
            old(self).wf(),
        ensures
            final(self).wf(),
            ({
                let hl = old(self).regs.spec_r16(R16::HL);
                let up = spec_alu_rrc(old(self).regs.f, spec_read_byte(old(self).mmu, hl));
                if !spec_addr_prohibited(hl) {
                    t == Ok::<u8, CpuFault>(16) && regs_and_write(
                        *old(self),
                        *final(self),
                        Registers { f: up.1, ..old(self).regs },
                        hl,
                        up.0,
                    )
                } else {
                    t == Err::<u8, CpuFault>(CpuFault::ProhibitedMemoryRead(hl)) && *final(self)
                        == *old(self)
                }
            }),
    {
        let hl = self.regs.hl();
        let x = match self.read_mem(hl) {
            Ok(b) => b,
            Err(f) => {
                return Err(f);
            },
        };
        let rotated = self.alu_rrc(x);
        self.mmu.write_byte(hl, rotated);
        Ok(16)
    }

    /// RRCA: RRC on A, with Z forced clear.
    pub fn rrca(&mut self) -> (t: u8)
        ensures
            t == 4,
            *final(self) == with_regs(
                *old(self),
                Registers {
                    a: spec_alu_rrc(old(self).regs.f, old(self).regs.a).0,
                    f: spec_flags(old(self).regs.f, false, false, false, old(self).regs.a % 2
                        == 1),
                    ..old(self).regs
                },
            ),
    {
        let x = self.regs.a;
        let v = self.alu_rrc(x);
        self.regs.a = v;
        self.regs.set_flag(Flag::Z, false);
        proof {
            lemma_clear_z(old(self).regs.f, false, false, x % 2 == 1);
        }
        4
    }

    /// Shift left arithmetically and set the flags.
    fn alu_sla(&mut self, val: u8) -> (r: u8)
        ensures
            r == spec_alu_sla(old(self).regs.f, val).0,
            *final(self) == with_regs(
                *old(self),
                Registers { f: spec_alu_sla(old(self).regs.f, val).1, ..old(self).regs },
            ),
    {
        let res = ((val as u16 * 2) % 256) as u8;
        self.set_flags(res == 0, false, false, val >= 0x80);
        res
    }

    /// SLA r8
    pub fn sla_r8(&mut self, reg: R8) -> (t: u8)
        ensures
            t == 8,
            *final(self) == with_regs(
                *old(self),
                ({
                    let up = spec_alu_sla(old(self).regs.f, old(self).regs.spec_r8(reg));
                    Registers { f: up.1, ..old(self).regs.spec_with_r8(reg, up.0) }
                }),
            ),
    {
        let x = self.regs.r8(reg);
        let v = self.alu_sla(x);
        self.regs.set_r8(reg, v);
        8
    }

    /// SLA [HL]
    pub fn sla_ref_hl(&mut self) -> (t: Result<u8, CpuFault>)
        requires
            old(self).wf(),
        ensures
            final(self).wf(),
            ({
                let hl = old(self).regs.spec_r16(R16::HL);
                let up = spec_alu_sla(old(self).regs.f, spec_read_byte(old(self).mmu, hl));
                if !spec_addr_prohibited(hl) {
                    t == Ok::<u8, CpuFault>(16) && regs_and_write(
                        *old(self),
                        *final(self),
                        Registers { f: up.1, ..old(self).regs },
                        hl,
                        up.0,
                    )
                } else {
                    t == Err::<u8, CpuFault>(CpuFault::ProhibitedMemoryRead(hl)) && *final(self)
                        == *old(self)
                }
            }),
    {
        let hl = self.regs.hl();
        let x = match self.read_mem(hl) {
            Ok(b) => b,
            Err(f) => {
                return Err(f);
            },
        };
        let shifted = self.alu_sla(x);
        self.mmu.write_byte(hl, shifted);
        Ok(16)
    }

    /// Shift right arithmetically (bit 7 kept) and set the flags.
    fn alu_sra(&mut self, val: u8) -> (r: u8)
        ensures
            r == spec_alu_sra(old(self).regs.f, val).0,
            *final(self) == with_regs(
                *old(self),
                Registers { f: spec_alu_sra(old(self).regs.f, val).1, ..old(self).regs },
            ),
    {
        let res = val / 2 + (val / 128) * 128;
        self.set_flags(res == 0, false, false, val % 2 == 1);
        res
    }

    /// SRA r8
    pub fn sra_r8(&mut self, reg: R8) -> (t: u8)
        ensures
            t == 8,
            *final(self) == with_regs(
                *old(self),
                ({
                    let up = spec_alu_sra(old(self).regs.f, old(self).regs.spec_r8(reg));
                    Registers { f: up.1, ..old(self).regs.spec_with_r8(reg, up.0) }
                }),
            ),
    {
        let x = self.regs.r8(reg);
        let v = self.alu_sra(x);
        self.regs.set_r8(reg, v);
        8
    }

    /// SRA [HL]
    pub fn sra_ref_hl(&mut self) -> (t: Result<u8, CpuFault>)
        requires
            old(self).wf(),
        ensures
            final(self).wf(),
            ({
                let hl = old(self).regs.spec_r16(R16::HL);
                let up = spec_alu_sra(old(self).regs.f, spec_read_byte(old(self).mmu, hl));
                if !spec_addr_prohibited(hl) {
                    t == Ok::<u8, CpuFault>(16) && regs_and_write(
                        *old(self),
                        *final(self),
                        Registers { f: up.1, ..old(self).regs },
                        hl,
                        up.0,
                    )
                } else {
                    t == Err::<u8, CpuFault>(CpuFault::ProhibitedMemoryRead(hl)) && *final(self)
                        == *old(self)
                }
            }),
    {
        let hl = self.regs.hl();
        let x = match self.read_mem(hl) {
            Ok(b) => b,
            Err(f) => {
                return Err(f);
            },
        };
        let shifted = self.alu_sra(x);
        self.mmu.write_byte(hl, shifted);
        Ok(16)
    }

    /// Shift right logically and set the flags.
    fn alu_srl(&mut self, val: u8) -> (r: u8)
        ensures
            r == spec_alu_srl(old(self).regs.f, val).0,
            *final(self) == with_regs(
                *old(self),
                Registers { f: spec_alu_srl(old(self).regs.f, val).1, ..old(self).regs },
            ),
    {
        let res = val / 2;
        self.set_flags(res == 0, false, false, val % 2 == 1);
        res
    }

    /// SRL r8
    pub fn srl_r8(&mut self, reg: R8) -> (t: u8)
        ensures
            t == 8,
            *final(self) == with_regs(
                *old(self),
                ({
                    let up = spec_alu_srl(old(self).regs.f, old(self).regs.spec_r8(reg));
                    Registers { f: up.1, ..old(self).regs.spec_with_r8(reg, up.0) }
                }),
            ),
    {
        let x = self.regs.r8(reg);
        let v = self.alu_srl(x);
        self.regs.set_r8(reg, v);
        8
    }

    /// SRL [HL]
    pub fn srl_ref_hl(&mut self) -> (t: Result<u8, CpuFault>)
        requires
            old(self).wf(),
        ensures
            final(self).wf(),
            ({
                let hl = old(self).regs.spec_r16(R16::HL);
                let up = spec_alu_srl(old(self).regs.f, spec_read_byte(old(self).mmu, hl));
                if !spec_addr_prohibited(hl) {
                    t == Ok::<u8, CpuFault>(16) && regs_and_write(
                        *old(self),
                        *final(self),
                        Registers { f: up.1, ..old(self).regs },
                        hl,
                        up.0,
                    )
                } else {
                    t == Err::<u8, CpuFault>(CpuFault::ProhibitedMemoryRead(hl)) && *final(self)
                        == *old(self)
                }
            }),
    {
        let hl = self.regs.hl();
        let x = match self.read_mem(hl) {
            Ok(b) => b,
            Err(f) => {
                return Err(f);
            },
        };
        let shifted = self.alu_srl(x);
        self.mmu.write_byte(hl, shifted);
        Ok(16)
    }
}

/// Clearing Z in a freshly written flag byte equals writing the byte with Z
/// clear in the first place.
proof fn lemma_clear_z(f0: u8, n: bool, h: bool, c: bool)
    ensures
        forall|z: bool|
            (#[trigger] spec_flags(f0, z, n, h, c)) & !0x80 == spec_flags(f0, false, n, h, c),
{
    let nb: u8 = if n {
        0x40
    } else {
        0
    };
    let hb: u8 = if h {
        0x20
    } else {
        0
    };
    let cb: u8 = if c {
        0x10
    } else {
        0
    };
    assert((nb == 0x40 || nb == 0) && (hb == 0x20 || hb == 0) && (cb == 0x10 || cb == 0) ==> {
        &&& (((f0 & 0x0F) + 0x80 + nb + hb + cb) as u8) & !0x80 == ((f0 & 0x0F) + nb + hb
            + cb) as u8
        &&& (((f0 & 0x0F) + nb + hb + cb) as u8) & !0x80 == ((f0 & 0x0F) + nb + hb + cb) as u8
    }) by (bit_vector);
}

impl Cpu {
    // --- loads ---
    /// Fetch the 16-bit little-endian immediate that follows the opcode,
    /// and advance PC twice, wrapping at the top of the address space.
    fn fetch_imm16(&mut self) -> (r: Result<u16, CpuFault>)
        requires
            old(self).wf(),
        ensures
            final(self).wf(),
            r is Ok ==> r == Ok::<u16, CpuFault>(
                crate::mmu::spec_read_word(old(self).mmu, old(self).regs.pc),
            ) && *final(self) == with_regs(
                *old(self),
                Registers { pc: wrap16(old(self).regs.pc + 2), ..old(self).regs },
            ),
            r is Ok <==> spec_imm16_ok(*old(self)),
    {
        let lo = match self.fetch_imm8() {
            Ok(b) => b,
            Err(f) => {
                return Err(f);
            },
        };
        let hi = match self.fetch_imm8() {
            Ok(b) => b,
            Err(f) => {
                return Err(f);
            },
        };
        Ok(super::register_file::pack_word(hi, lo))
    }

    /// LD r8,r8
    pub fn ld_r8_r8(&mut self, dest: R8, src: R8) -> (t: u8)
        ensures
            t == 4,
            *final(self) == with_regs(
                *old(self),
                old(self).regs.spec_with_r8(dest, old(self).regs.spec_r8(src)),
            ),
    {
        let v = self.regs.r8(src);
        self.regs.set_r8(dest, v);
        4
    }

    /// LD r8,n8
    pub fn ld_r8_n8(&mut self, reg: R8) -> (t: Result<u8, CpuFault>)
        requires
            old(self).wf(),
        ensures
            final(self).wf(),
            ({
                let pc = old(self).regs.pc;
                if !spec_addr_prohibited(pc) {
                    t == Ok::<u8, CpuFault>(8) && *final(self) == with_regs(
                        *old(self),
                        Registers {
                            pc: wrap16(pc + 1),
                            ..old(self).regs.spec_with_r8(reg, spec_read_byte(old(self).mmu, pc))
                        },
                    )
                } else {
                    t == Err::<u8, CpuFault>(CpuFault::ProhibitedMemoryRead(pc)) && *final(self)
                        == *old(self)
                }
            }),
    {
        let imm = match self.fetch_imm8() {
            Ok(b) => b,
            Err(f) => {
                return Err(f);
            },
        };
        self.regs.set_r8(reg, imm);
        Ok(8)
    }

    /// LD r16,n16
    pub fn ld_r16_n16(&mut self, r: R16) -> (t: Result<u8, CpuFault>)
        requires
            old(self).wf(),
        ensures
            final(self).wf(),
            t is Ok <==> spec_imm16_ok(*old(self)),
            t is Ok ==> t == Ok::<u8, CpuFault>(12) && *final(self) == with_regs(
                *old(self),
                Registers {
                    pc: wrap16(old(self).regs.pc + 2),
                    ..old(self).regs
                }.spec_with_r16(r, crate::mmu::spec_read_word(old(self).mmu, old(self).regs.pc)),
            ),
    {
        let word = match self.fetch_imm16() {
            Ok(w) => w,
            Err(f) => {
                return Err(f);
            },
        };
        self.regs.set_r16(r, word);
        Ok(12)
    }

    /// LD [HL],r8
    pub fn ld_ref_hl_r8(&mut self, reg: R8) -> (t: u8)
        requires
            old(self).wf(),
        ensures
            final(self).wf(),
            t == 8,
            regs_and_write(
                *old(self),
                *final(self),
                old(self).regs,
                old(self).regs.spec_r16(R16::HL),
                old(self).regs.spec_r8(reg),
            ),
    {
        let hl = self.regs.hl();
        let v = self.regs.r8(reg);
        self.mmu.write_byte(hl, v);
        8
    }

    /// LD [HL],n8
    pub fn ld_ref_hl_n8(&mut self) -> (t: Result<u8, CpuFault>)
        requires
            old(self).wf(),
        ensures
            final(self).wf(),
            ({
                let pc = old(self).regs.pc;
                if !spec_addr_prohibited(pc) {
                    t == Ok::<u8, CpuFault>(12) && regs_and_write(
                        *old(self),
                        *final(self),
                        Registers { pc: wrap16(pc + 1), ..old(self).regs },
                        old(self).regs.spec_r16(R16::HL),
                        spec_read_byte(old(self).mmu, pc),
                    )
                } else {
                    t == Err::<u8, CpuFault>(CpuFault::ProhibitedMemoryRead(pc)) && *final(self)
                        == *old(self)
                }
            }),
    {
        let imm = match self.fetch_imm8() {
            Ok(b) => b,
            Err(f) => {
                return Err(f);
            },
        };
        let hl = self.regs.hl();
        self.mmu.write_byte(hl, imm);
        Ok(12)
    }

    /// LD r8,[HL]
    pub fn ld_r8_ref_hl(&mut self, reg: R8) -> (t: Result<u8, CpuFault>)
        requires
            old(self).wf(),
        ensures
            final(self).wf(),
            ({
                let hl = old(self).regs.spec_r16(R16::HL);
                if !spec_addr_prohibited(hl) {
                    t == Ok::<u8, CpuFault>(8) && *final(self) == with_regs(
                        *old(self),
                        old(self).regs.spec_with_r8(reg, spec_read_byte(old(self).mmu, hl)),
                    )
                } else {
                    t == Err::<u8, CpuFault>(CpuFault::ProhibitedMemoryRead(hl)) && *final(self)
                        == *old(self)
                }
            }),
    {
        let v = match self.read_mem(self.regs.hl()) {
            Ok(b) => b,
            Err(f) => {
                return Err(f);
            },
        };
        self.regs.set_r8(reg, v);
        Ok(8)
    }

    /// LD [r16],A
    pub fn ld_ref_r16_a(&mut self, reg: R16) -> (t: u8)
        requires
            old(self).wf(),
        ensures
            final(self).wf(),
            t == 8,
            regs_and_write(
                *old(self),
                *final(self),
                old(self).regs,
                old(self).regs.spec_r16(reg),
                old(self).regs.a,
            ),
    {
        let addr = self.regs.r16(reg);
        let a = self.regs.a;
        self.mmu.write_byte(addr, a);
        8
    }

    /// LD [n16],A
    pub fn ld_ref_n16_a(&mut self) -> (t: Result<u8, CpuFault>)
        requires
            old(self).wf(),
        ensures
            final(self).wf(),
            t is Ok <==> spec_imm16_ok(*old(self)),
            t is Ok ==> t == Ok::<u8, CpuFault>(16) && regs_and_write(
                *old(self),
                *final(self),
                Registers { pc: wrap16(old(self).regs.pc + 2), ..old(self).regs },
                crate::mmu::spec_read_word(old(self).mmu, old(self).regs.pc),
                old(self).regs.a,
            ),
    {
        let addr = match self.fetch_imm16() {
            Ok(w) => w,
            Err(f) => {
                return Err(f);
            },
        };
        let a = self.regs.a;
        self.mmu.write_byte(addr, a);
        Ok(16)
    }

    /// LDH [n8],A: write A to 0xFF00 + n8.
    pub fn ldh_ref_a8_a(&mut self) -> (t: Result<u8, CpuFault>)
        requires
            old(self).wf(),
        ensures
            final(self).wf(),
            ({
                let pc = old(self).regs.pc;
                if !spec_addr_prohibited(pc) {
                    t == Ok::<u8, CpuFault>(12) && regs_and_write(
                        *old(self),
                        *final(self),
                        Registers { pc: wrap16(pc + 1), ..old(self).regs },
                        (0xFF00 + spec_read_byte(old(self).mmu, pc)) as u16,
                        old(self).regs.a,
                    )
                } else {
                    t == Err::<u8, CpuFault>(CpuFault::ProhibitedMemoryRead(pc)) && *final(self)
                        == *old(self)
                }
            }),
    {
        let offset = match self.fetch_imm8() {
            Ok(b) => b,
            Err(f) => {
                return Err(f);
            },
        };
        let addr = 0xFF00 + offset as u16;
        let a = self.regs.a;
        self.mmu.write_byte(addr, a);
        Ok(12)
    }

    /// LDH [C],A: write A to 0xFF00 + C.
    pub fn ldh_ref_c_a(&mut self) -> (t: u8)
        requires
            old(self).wf(),
        ensures
            final(self).wf(),
            t == 8,
            regs_and_write(
                *old(self),
                *final(self),
                old(self).regs,
                (0xFF00 + old(self).regs.c) as u16,
                old(self).regs.a,
            ),
    {
        let addr = 0xFF00 + self.regs.c as u16;
        let a = self.regs.a;
        self.mmu.write_byte(addr, a);
        8
    }

    /// LD A,[r16]
    pub fn ld_a_ref_r16(&mut self, reg: R16) -> (t: Result<u8, CpuFault>)
        requires
            old(self).wf(),
        ensures
            final(self).wf(),
            ({
                let addr = old(self).regs.spec_r16(reg);
                if !spec_addr_prohibited(addr) {
                    t == Ok::<u8, CpuFault>(8) && *final(self) == with_regs(
                        *old(self),
                        Registers { a: spec_read_byte(old(self).mmu, addr), ..old(self).regs },
                    )
                } else {
                    t == Err::<u8, CpuFault>(CpuFault::ProhibitedMemoryRead(addr)) && *final(self)
                        == *old(self)
                }
            }),
    {
        let v = match self.read_mem(self.regs.r16(reg)) {
            Ok(b) => b,
            Err(f) => {
                return Err(f);
            },
        };
        self.regs.a = v;
        Ok(8)
    }

    /// LD A,[n16]
    pub fn ld_a_ref_n16(&mut self) -> (t: Result<u8, CpuFault>)
        requires
            old(self).wf(),
        ensures
            final(self).wf(),
            t is Ok <==> spec_imm16_ok(*old(self)) && !spec_addr_prohibited(
                crate::mmu::spec_read_word(old(self).mmu, old(self).regs.pc),
            ),
            t is Ok ==> t == Ok::<u8, CpuFault>(16) && *final(self) == with_regs(
                *old(self),
                Registers {
                    a: spec_read_byte(
                        old(self).mmu,
                        crate::mmu::spec_read_word(old(self).mmu, old(self).regs.pc),
                    ),
                    pc: wrap16(old(self).regs.pc + 2),
                    ..old(self).regs
                },
            ),
    {
        let addr = match self.fetch_imm16() {
            Ok(w) => w,
            Err(f) => {
                return Err(f);
            },
        };
        let v = match self.read_mem(addr) {
            Ok(b) => b,
            Err(f) => {
                return Err(f);
            },
        };
        self.regs.a = v;
        Ok(16)
    }

    /// LDH A,[n8]: read A from 0xFF00 + n8.
    pub fn ldh_a_ref_a8(&mut self) -> (t: Result<u8, CpuFault>)
        requires
            old(self).wf(),
        ensures
            final(self).wf(),
            ({
                let pc = old(self).regs.pc;
                if !spec_addr_prohibited(pc) {
                    t == Ok::<u8, CpuFault>(12) && *final(self) == with_regs(
                        *old(self),
                        Registers {
                            a: spec_read_byte(
                                old(self).mmu,
                                (0xFF00 + spec_read_byte(old(self).mmu, pc)) as u16,
                            ),
                            pc: wrap16(pc + 1),
                            ..old(self).regs
                        },
                    )
                } else {
                    t == Err::<u8, CpuFault>(CpuFault::ProhibitedMemoryRead(pc)) && *final(self)
                        == *old(self)
                }
            }),
    {
        let offset = match self.fetch_imm8() {
            Ok(b) => b,
            Err(f) => {
                return Err(f);
            },
        };
        let addr = 0xFF00 + offset as u16;
        let v = self.mmu.read_byte(addr);
        self.regs.a = v;
        Ok(12)
    }

    /// LDH A,[C]: read A from 0xFF00 + C.
    pub fn ldh_a_ref_c(&mut self) -> (t: u8)
        requires
            old(self).wf(),
        ensures
            final(self).wf(),
            t == 8,
            *final(self) == with_regs(
                *old(self),
                Registers {
                    a: spec_read_byte(old(self).mmu, (0xFF00 + old(self).regs.c) as u16),
                    ..old(self).regs
                },
            ),
    {
        let addr = 0xFF00 + self.regs.c as u16;
        let v = self.mmu.read_byte(addr);
        self.regs.a = v;
        8
    }

    /// LD [HLI],A: write A to [HL], then increment HL.
    pub fn ld_ref_hli_a(&mut self) -> (t: u8)
        requires
            old(self).wf(),
        ensures
            final(self).wf(),
            t == 8,
            regs_and_write(
                *old(self),
                *final(self),
                old(self).regs.spec_with_r16(
                    R16::HL,
                    wrap16(old(self).regs.spec_r16(R16::HL) + 1),
                ),
                old(self).regs.spec_r16(R16::HL),
                old(self).regs.a,
            ),
    {
        let hl = self.regs.hl();
        let a = self.regs.a;
        self.mmu.write_byte(hl, a);
        self.regs.set_hl(hl.wrapping_add(1));
        8
    }

    /// LD [HLD],A: write A to [HL], then decrement HL.
    pub fn ld_ref_hld_a(&mut self) -> (t: u8)
        requires
            old(self).wf(),
        ensures
            final(self).wf(),
            t == 8,
            regs_and_write(
                *old(self),
                *final(self),
                old(self).regs.spec_with_r16(
                    R16::HL,
                    wrap16(old(self).regs.spec_r16(R16::HL) - 1),
                ),
                old(self).regs.spec_r16(R16::HL),
                old(self).regs.a,
            ),
    {
        let hl = self.regs.hl();
        let a = self.regs.a;
        self.mmu.write_byte(hl, a);
        self.regs.set_hl(hl.wrapping_sub(1));
        8
    }

    /// LD A,[HLI]: read A from [HL], then increment HL.
    pub fn ld_a_ref_hli(&mut self) -> (t: Result<u8, CpuFault>)
        requires
            old(self).wf(),
        ensures
            final(self).wf(),
            ({
                let hl = old(self).regs.spec_r16(R16::HL);
                if !spec_addr_prohibited(hl) {
                    t == Ok::<u8, CpuFault>(8) && *final(self) == with_regs(
                        *old(self),
                        Registers {
                            a: spec_read_byte(old(self).mmu, hl),
                            ..old(self).regs
                        }.spec_with_r16(R16::HL, wrap16(hl + 1)),
                    )
                } else {
                    t == Err::<u8, CpuFault>(CpuFault::ProhibitedMemoryRead(hl)) && *final(self)
                        == *old(self)
                }
            }),
    {
        let hl = self.regs.hl();
        let v = match self.read_mem(hl) {
            Ok(b) => b,
            Err(f) => {
                return Err(f);
            },
        };
        self.regs.a = v;
        self.regs.set_hl(hl.wrapping_add(1));
        Ok(8)
    }

    /// LD A,[HLD]: read A from [HL], then decrement HL.
    pub fn ld_a_ref_hld(&mut self) -> (t: Result<u8, CpuFault>)
        requires
            old(self).wf(),
        ensures
            final(self).wf(),
            ({
                let hl = old(self).regs.spec_r16(R16::HL);
                if !spec_addr_prohibited(hl) {
                    t == Ok::<u8, CpuFault>(8) && *final(self) == with_regs(
                        *old(self),
                        Registers {
                            a: spec_read_byte(old(self).mmu, hl),
                            ..old(self).regs
                        }.spec_with_r16(R16::HL, wrap16(hl - 1)),
                    )
                } else {
                    t == Err::<u8, CpuFault>(CpuFault::ProhibitedMemoryRead(hl)) && *final(self)
                        == *old(self)
                }
            }),
    {
        let hl = self.regs.hl();
        let v = match self.read_mem(hl) {
            Ok(b) => b,
            Err(f) => {
                return Err(f);
            },
        };
        self.regs.a = v;
        self.regs.set_hl(hl.wrapping_sub(1));
        Ok(8)
    }
}

impl Cpu {
    // --- stack and subroutines ---
    /// Push a word: SP decrements twice and the word lands little-endian
    /// (the low byte at the lower address).
    #[verifier::rlimit(100)]
    #[verifier::spinoff_prover]
    pub fn push_u16(&mut self, word: u16)
        requires
            old(self).wf(),
        ensures
            final(self).wf(),
            final(self).regs == (Registers {
                sp: wrap16(old(self).regs.sp - 2),
                ..old(self).regs
            }),
            final(self).ime == old(self).ime,
            final(self).is_halted == old(self).is_halted,
            exists|mid: Mmu|
                #[trigger] spec_write_effect(
                    old(self).mmu,
                    mid,
                    wrap16(old(self).regs.sp - 1),
                    (word / 256) as u8,
                ) && spec_write_effect(
                    mid,
                    final(self).mmu,
                    wrap16(old(self).regs.sp - 2),
                    (word % 256) as u8,
                ),
    {
        let lo = super::register_file::word_lo(word);
        let hi = super::register_file::word_hi(word);
        self.regs.sp = self.regs.sp.wrapping_sub(1);
        self.mmu.write_byte(self.regs.sp, hi);
        let ghost mid = self.mmu;
        self.regs.sp = self.regs.sp.wrapping_sub(1);
        self.mmu.write_byte(self.regs.sp, lo);
        proof {
            assert(spec_write_effect(
                old(self).mmu,
                mid,
                wrap16(old(self).regs.sp - 1),
                (word / 256) as u8,
            ));
        }
    }

    /// Pop a word: read the low byte then the high byte, incrementing SP
    /// each time.
    fn pop_u16(&mut self) -> (r: Result<u16, CpuFault>)
        requires
            old(self).wf(),
        ensures
            final(self).wf(),
            r is Ok <==> spec_pop_ok(*old(self)),
            r is Ok ==> r == Ok::<u16, CpuFault>(
                crate::mmu::spec_read_word(old(self).mmu, old(self).regs.sp),
            ) && *final(self) == with_regs(
                *old(self),
                Registers { sp: wrap16(old(self).regs.sp + 2), ..old(self).regs },
            ),
            r is Err ==> *final(self) == *old(self),
    {
        let lo = match self.read_mem(self.regs.sp) {
            Ok(b) => b,
            Err(f) => {
                return Err(f);
            },
        };
        let hi = match self.read_mem(self.regs.sp.wrapping_add(1)) {
            Ok(b) => b,
            Err(f) => {
                return Err(f);
            },
        };
        self.regs.sp = self.regs.sp.wrapping_add(2);
        Ok(super::register_file::pack_word(hi, lo))
    }

    /// PUSH r16
    pub fn push_r16(&mut self, reg: R16) -> (t: u8)
        requires
            old(self).wf(),
        ensures
            final(self).wf(),
            t == 16,
            final(self).regs == (Registers {
                sp: wrap16(old(self).regs.sp - 2),
                ..old(self).regs
            }),
            final(self).ime == old(self).ime,
            final(self).is_halted == old(self).is_halted,
            exists|mid: Mmu|
                #[trigger] spec_write_effect(
                    old(self).mmu,
                    mid,
                    wrap16(old(self).regs.sp - 1),
                    (old(self).regs.spec_r16(reg) / 256) as u8,
                ) && spec_write_effect(
                    mid,
                    final(self).mmu,
                    wrap16(old(self).regs.sp - 2),
                    (old(self).regs.spec_r16(reg) % 256) as u8,
                ),
    {
        let v = self.regs.r16(reg);
        self.push_u16(v);
        16
    }

    /// POP r16; a pop into AF keeps the low nibble of F zero.
    pub fn pop_r16(&mut self, reg: R16) -> (t: Result<u8, CpuFault>)
        requires
            old(self).wf(),
        ensures
            final(self).wf(),
            t is Ok <==> spec_pop_ok(*old(self)),
            t is Ok ==> t == Ok::<u8, CpuFault>(12) && *final(self) == with_regs(
                *old(self),
                Registers {
                    sp: wrap16(old(self).regs.sp + 2),
                    ..old(self).regs
                }.spec_with_r16(
                    reg,
                    crate::mmu::spec_read_word(old(self).mmu, old(self).regs.sp),
                ),
            ),
            t is Err ==> *final(self) == *old(self),
    {
        let word = match self.pop_u16() {
            Ok(w) => w,
            Err(f) => {
                return Err(f);
            },
        };
        self.regs.set_r16(reg, word);
        Ok(12)
    }

    /// CALL n16
    pub fn call_n16(&mut self) -> (t: Result<u8, CpuFault>)
        requires
            old(self).wf(),
        ensures
            final(self).wf(),
            t is Ok <==> spec_imm16_ok(*old(self)),
            t is Ok ==> t == Ok::<u8, CpuFault>(24) && final(self).regs == (Registers {
                pc: crate::mmu::spec_read_word(old(self).mmu, old(self).regs.pc),
                sp: wrap16(old(self).regs.sp - 2),
                ..old(self).regs
            }) && final(self).ime == old(self).ime && final(self).is_halted == old(
                self,
            ).is_halted,
    {
        let jump_addr = match self.fetch_imm16() {
            Ok(w) => w,
            Err(f) => {
                return Err(f);
            },
        };
        let pc = self.regs.pc;
        self.push_u16(pc);
        self.regs.pc = jump_addr;
        Ok(24)
    }

    /// CALL cc,n16: 24 T-cycles taken, 12 untaken.
    pub fn call_cc_n16(&mut self, cc: CC) -> (t: Result<u8, CpuFault>)
        requires
            old(self).wf(),
        ensures
            final(self).wf(),
            t is Ok <==> spec_imm16_ok(*old(self)),
            t is Ok && spec_cc(old(self).regs, cc) ==> t == Ok::<u8, CpuFault>(24) && final(self).regs == (Registers {
                pc: crate::mmu::spec_read_word(old(self).mmu, old(self).regs.pc),
                sp: wrap16(old(self).regs.sp - 2),
                ..old(self).regs
            }) && final(self).ime == old(self).ime && final(self).is_halted == old(
                self,
            ).is_halted,
            t is Ok && !spec_cc(old(self).regs, cc) ==> t == Ok::<u8, CpuFault>(12) && *final(self)
                == with_regs(
                *old(self),
                Registers { pc: wrap16(old(self).regs.pc + 2), ..old(self).regs },
            ),
    {
        let jump_addr = match self.fetch_imm16() {
            Ok(w) => w,
            Err(f) => {
                return Err(f);
            },
        };
        if self.check_cond(cc) {
            let pc = self.regs.pc;
            self.push_u16(pc);
            self.regs.pc = jump_addr;
            Ok(24)
        } else {
            Ok(12)
        }
    }

    /// Whether a condition code holds of the flags.
    fn check_cond(&self, cond: CC) -> (r: bool)
        ensures
            r == spec_cc(self.regs, cond),
    {
        match cond {
            CC::Z => self.regs.flag(Flag::Z),
            CC::NZ => !self.regs.flag(Flag::Z),
            CC::C => self.regs.flag(Flag::C),
            CC::NC => !self.regs.flag(Flag::C),
        }
    }

    /// JP HL
    pub fn jp_hl(&mut self) -> (t: u8)
        ensures
            t == 4,
            *final(self) == with_regs(
                *old(self),
                Registers { pc: old(self).regs.spec_r16(R16::HL), ..old(self).regs },
            ),
    {
        self.regs.pc = self.regs.hl();
        4
    }

    /// JP n16
    pub fn jp_n16(&mut self) -> (t: Result<u8, CpuFault>)
        requires
            old(self).wf(),
        ensures
            final(self).wf(),
            t is Ok <==> spec_imm16_ok(*old(self)),
            t is Ok ==> t == Ok::<u8, CpuFault>(16) && *final(self) == with_regs(
                *old(self),
                Registers {
                    pc: crate::mmu::spec_read_word(old(self).mmu, old(self).regs.pc),
                    ..old(self).regs
                },
            ),
    {
        let addr = match self.fetch_imm16() {
            Ok(w) => w,
            Err(f) => {
                return Err(f);
            },
        };
        self.regs.pc = addr;
        Ok(16)
    }

    /// JP cc,n16: 16 T-cycles taken, 12 untaken.
    pub fn jp_cc_n16(&mut self, cc: CC) -> (t: Result<u8, CpuFault>)
        requires
            old(self).wf(),
        ensures
            final(self).wf(),
            t is Ok <==> spec_imm16_ok(*old(self)),
            t is Ok ==> t == Ok::<u8, CpuFault>(
                if spec_cc(old(self).regs, cc) {
                    16
                } else {
                    12
                },
            ) && *final(self) == with_regs(
                *old(self),
                Registers {
                    pc: if spec_cc(old(self).regs, cc) {
                        crate::mmu::spec_read_word(old(self).mmu, old(self).regs.pc)
                    } else {
                        wrap16(old(self).regs.pc + 2)
                    },
                    ..old(self).regs
                },
            ),
    {
        let addr = match self.fetch_imm16() {
            Ok(w) => w,
            Err(f) => {
                return Err(f);
            },
        };
        if self.check_cond(cc) {
            self.regs.pc = addr;
            Ok(16)
        } else {
            Ok(12)
        }
    }

    /// JR e8: relative jump, the signed offset added to the PC after the
    /// offset byte is consumed.
    pub fn jr_e8(&mut self) -> (t: Result<u8, CpuFault>)
        requires
            old(self).wf(),
        ensures
            final(self).wf(),
            ({
                let pc = old(self).regs.pc;
                if !spec_addr_prohibited(pc) {
                    t == Ok::<u8, CpuFault>(12) && *final(self) == with_regs(
                        *old(self),
                        Registers {
                            pc: wrap16(pc + 1 + spec_i8(spec_read_byte(old(self).mmu, pc))),
                            ..old(self).regs
                        },
                    )
                } else {
                    t == Err::<u8, CpuFault>(CpuFault::ProhibitedMemoryRead(pc)) && *final(self)
                        == *old(self)
                }
            }),
    {
        let b = match self.fetch_imm8() {
            Ok(b) => b,
            Err(f) => {
                return Err(f);
            },
        };
        let offset = Self::signed_offset(b);
        self.regs.pc = self.regs.pc.wrapping_add_signed(offset);
        Ok(12)
    }

    /// JR cc,e8: 12 T-cycles taken, 8 untaken.
    pub fn jr_cc_e8(&mut self, cc: CC) -> (t: Result<u8, CpuFault>)
        requires
            old(self).wf(),
        ensures
            final(self).wf(),
            ({
                let pc = old(self).regs.pc;
                if !spec_addr_prohibited(pc) {
                    t == Ok::<u8, CpuFault>(
                        if spec_cc(old(self).regs, cc) {
                            12
                        } else {
                            8
                        },
                    ) && *final(self) == with_regs(
                        *old(self),
                        Registers {
                            pc: if spec_cc(old(self).regs, cc) {
                                wrap16(pc + 1 + spec_i8(spec_read_byte(old(self).mmu, pc)))
                            } else {
                                wrap16(pc + 1)
                            },
                            ..old(self).regs
                        },
                    )
                } else {
                    t == Err::<u8, CpuFault>(CpuFault::ProhibitedMemoryRead(pc)) && *final(self)
                        == *old(self)
                }
            }),
    {
        let b = match self.fetch_imm8() {
            Ok(b) => b,
            Err(f) => {
                return Err(f);
            },
        };
        if self.check_cond(cc) {
            let offset = Self::signed_offset(b);
            self.regs.pc = self.regs.pc.wrapping_add_signed(offset);
            Ok(12)
        } else {
            Ok(8)
        }
    }

    /// RET
    pub fn ret(&mut self) -> (t: Result<u8, CpuFault>)
        requires
            old(self).wf(),
        ensures
            final(self).wf(),
            t is Ok <==> spec_pop_ok(*old(self)),
            t is Ok ==> t == Ok::<u8, CpuFault>(16) && *final(self) == with_regs(
                *old(self),
                Registers {
                    pc: crate::mmu::spec_read_word(old(self).mmu, old(self).regs.sp),
                    sp: wrap16(old(self).regs.sp + 2),
                    ..old(self).regs
                },
            ),
            t is Err ==> *final(self) == *old(self),
    {
        let addr = match self.pop_u16() {
            Ok(w) => w,
            Err(f) => {
                return Err(f);
            },
        };
        self.regs.pc = addr;
        Ok(16)
    }

    /// RET cc: 20 T-cycles taken, 8 untaken.
    pub fn ret_cc(&mut self, cc: CC) -> (t: Result<u8, CpuFault>)
        requires
            old(self).wf(),
        ensures
            final(self).wf(),
            t is Ok <==> (!spec_cc(old(self).regs, cc) || spec_pop_ok(*old(self))),
            t is Err ==> *final(self) == *old(self),
            t is Ok && spec_cc(old(self).regs, cc) ==> t == Ok::<u8, CpuFault>(20) && *final(self)
                == with_regs(
                *old(self),
                Registers {
                    pc: crate::mmu::spec_read_word(old(self).mmu, old(self).regs.sp),
                    sp: wrap16(old(self).regs.sp + 2),
                    ..old(self).regs
                },
            ),
            !spec_cc(old(self).regs, cc) ==> t == Ok::<u8, CpuFault>(8) && *final(self) == *old(
                self,
            ),
    {
        if self.check_cond(cc) {
            let addr = match self.pop_u16() {
                Ok(w) => w,
                Err(f) => {
                    return Err(f);
                },
            };
            self.regs.pc = addr;
            Ok(20)
        } else {
            Ok(8)
        }
    }

    /// RETI: return and enable interrupts at once.
    pub fn reti(&mut self) -> (t: Result<u8, CpuFault>)
        requires
            old(self).wf(),
        ensures
            final(self).wf(),
            t is Ok <==> spec_pop_ok(*old(self)),
            t is Ok ==> t == Ok::<u8, CpuFault>(16) && *final(self) == (Cpu {
                regs: Registers {
                    pc: crate::mmu::spec_read_word(old(self).mmu, old(self).regs.sp),
                    sp: wrap16(old(self).regs.sp + 2),
                    ..old(self).regs
                },
                ime: ImeState::Enabled,
                ..*old(self)
            }),
            t is Err ==> *final(self) == *old(self),
    {
        let addr = match self.pop_u16() {
            Ok(w) => w,
            Err(f) => {
                return Err(f);
            },
        };
        self.regs.pc = addr;
        self.ime = ImeState::Enabled;
        Ok(16)
    }

    /// RST vec: push PC and jump to the vector.
    pub fn rst_vec(&mut self, vec: RstVec) -> (t: u8)
        requires
            old(self).wf(),
        ensures
            final(self).wf(),
            t == 16,
            final(self).regs == (Registers {
                pc: spec_rst_addr(vec),
                sp: wrap16(old(self).regs.sp - 2),
                ..old(self).regs
            }),
            final(self).ime == old(self).ime,
            final(self).is_halted == old(self).is_halted,
    {
        let pc = self.regs.pc;
        self.push_u16(pc);
        self.regs.pc = match vec {
            RstVec::X00 => 0x00,
            RstVec::X08 => 0x08,
            RstVec::X10 => 0x10,
            RstVec::X18 => 0x18,
            RstVec::X20 => 0x20,
            RstVec::X28 => 0x28,
            RstVec::X30 => 0x30,
            RstVec::X38 => 0x38,
        };
        16
    }

    // --- SP arithmetic ---
    /// ADD SP,e8
    pub fn add_sp_e8(&mut self) -> (t: Result<u8, CpuFault>)
        requires
            old(self).wf(),
        ensures
            final(self).wf(),
            ({
                let pc = old(self).regs.pc;
                let up = spec_add_sp(
                    old(self).regs.f,
                    old(self).regs.sp,
                    spec_read_byte(old(self).mmu, pc),
                );
                if !spec_addr_prohibited(pc) {
                    t == Ok::<u8, CpuFault>(16) && *final(self) == with_regs(
                        *old(self),
                        Registers { sp: up.0, f: up.1, pc: wrap16(pc + 1), ..old(self).regs },
                    )
                } else {
                    t == Err::<u8, CpuFault>(CpuFault::ProhibitedMemoryRead(pc)) && *final(self)
                        == *old(self)
                }
            }),
    {
        let b = match self.fetch_imm8() {
            Ok(b) => b,
            Err(f) => {
                return Err(f);
            },
        };
        let result = self.alu_add_sp(b);
        self.regs.sp = result;
        Ok(16)
    }

    /// LD HL,SP+e8
    pub fn ld_hl_sp_e8(&mut self) -> (t: Result<u8, CpuFault>)
        requires
            old(self).wf(),
        ensures
            final(self).wf(),
            ({
                let pc = old(self).regs.pc;
                let up = spec_add_sp(
                    old(self).regs.f,
                    old(self).regs.sp,
                    spec_read_byte(old(self).mmu, pc),
                );
                if !spec_addr_prohibited(pc) {
                    t == Ok::<u8, CpuFault>(12) && *final(self) == with_regs(
                        *old(self),
                        Registers {
                            f: up.1,
                            pc: wrap16(pc + 1),
                            ..old(self).regs
                        }.spec_with_r16(R16::HL, up.0),
                    )
                } else {
                    t == Err::<u8, CpuFault>(CpuFault::ProhibitedMemoryRead(pc)) && *final(self)
                        == *old(self)
                }
            }),
    {
        let b = match self.fetch_imm8() {
            Ok(b) => b,
            Err(f) => {
                return Err(f);
            },
        };
        let word = self.alu_add_sp(b);
        self.regs.set_hl(word);
        Ok(12)
    }

    /// Add the signed offset byte to SP; H and C come from the unsigned
    /// low-byte addition, Z and N are cleared.
    fn alu_add_sp(&mut self, b: u8) -> (r: u16)
        ensures
            r == spec_add_sp(old(self).regs.f, old(self).regs.sp, b).0,
            *final(self) == with_regs(
                *old(self),
                Registers {
                    f: spec_add_sp(old(self).regs.f, old(self).regs.sp, b).1,
                    ..old(self).regs
                },
            ),
    {
        let sp = self.regs.sp;
        let offset = Self::signed_offset(b);
        let result = sp.wrapping_add_signed(offset);
        self.set_flags(false, false, (sp % 16) as u8 + (b % 16) > 15, (sp % 256) + b as u16 > 255);
        result
    }

    /// LD [n16],SP: a 16-bit store of SP, little-endian.
    pub fn ld_n16_sp(&mut self) -> (t: Result<u8, CpuFault>)
        requires
            old(self).wf(),
        ensures
            final(self).wf(),
            t is Ok <==> spec_imm16_ok(*old(self)),
            t is Ok ==> t == Ok::<u8, CpuFault>(20) && final(self).regs == (Registers {
                pc: wrap16(old(self).regs.pc + 2),
                ..old(self).regs
            }) && final(self).ime == old(self).ime && final(self).is_halted == old(self).is_halted
                && exists|mid: Mmu|
                #[trigger] spec_write_effect(
                    old(self).mmu,
                    mid,
                    crate::mmu::spec_read_word(old(self).mmu, old(self).regs.pc),
                    (old(self).regs.sp % 256) as u8,
                ) && spec_write_effect(
                    mid,
                    final(self).mmu,
                    wrap16(crate::mmu::spec_read_word(old(self).mmu, old(self).regs.pc) + 1),
                    (old(self).regs.sp / 256) as u8,
                ),
    {
        let addr = match self.fetch_imm16() {
            Ok(w) => w,
            Err(f) => {
                return Err(f);
            },
        };
        let lo = super::register_file::word_lo(self.regs.sp);
        let hi = super::register_file::word_hi(self.regs.sp);
        self.mmu.write_byte(addr, lo);
        let ghost mid = self.mmu;
        self.mmu.write_byte(addr.wrapping_add(1), hi);
        proof {
            assert(spec_write_effect(
                old(self).mmu,
                mid,
                crate::mmu::spec_read_word(old(self).mmu, old(self).regs.pc),
                (old(self).regs.sp % 256) as u8,
            ));
        }
        Ok(20)
    }

    /// LD SP,HL
    pub fn ld_sp_hl(&mut self) -> (t: u8)
        ensures
            t == 8,
            *final(self) == with_regs(
                *old(self),
                Registers { sp: old(self).regs.spec_r16(R16::HL), ..old(self).regs },
            ),
    {
        self.regs.sp = self.regs.hl();
        8
    }

    // --- miscellaneous ---
    /// CCF: complement the carry flag; N and H clear, Z kept.
    pub fn ccf(&mut self) -> (t: u8)
        ensures
            t == 4,
            *final(self) == with_regs(
                *old(self),
                Registers {
                    f: spec_flags_nhc(
                        old(self).regs.f,
                        false,
                        false,
                        !old(self).regs.spec_flag(Flag::C),
                    ),
                    ..old(self).regs
                },
            ),
    {
        let c = self.regs.flag(Flag::C);
        self.set_flags_nhc(false, false, !c);
        4
    }

    /// SCF: set the carry flag; N and H clear, Z kept.
    pub fn scf(&mut self) -> (t: u8)
        ensures
            t == 4,
            *final(self) == with_regs(
                *old(self),
                Registers {
                    f: spec_flags_nhc(old(self).regs.f, false, false, true),
                    ..old(self).regs
                },
            ),
    {
        self.set_flags_nhc(false, false, true);
        4
    }

    /// CPL: complement A; N and H set, Z and C kept.
    pub fn cpl(&mut self) -> (t: u8)
        ensures
            t == 4,
            *final(self) == with_regs(
                *old(self),
                Registers {
                    a: (255 - old(self).regs.a) as u8,
                    f: spec_flags_nhc(
                        old(self).regs.f,
                        true,
                        true,
                        old(self).regs.spec_flag(Flag::C),
                    ),
                    ..old(self).regs
                },
            ),
    {
        let a = self.regs.a;
        proof {
            assert(!a == 255 - a) by (bit_vector);
        }
        self.regs.a = !a;
        let c = self.regs.flag(Flag::C);
        self.set_flags_nhc(true, true, c);
        4
    }

    /// DAA: decimal-adjust A after a BCD addition or subtraction.
    #[verifier::rlimit(100)]
    #[verifier::spinoff_prover]
    pub fn daa(&mut self) -> (t: u8)
        ensures
            t == 4,
            *final(self) == with_regs(*old(self), spec_daa(old(self).regs)),
    {
        let a = self.regs.a;
        let nf = self.regs.flag(Flag::N);
        let adj_low = self.regs.flag(Flag::H) || (!nf && a % 16 > 9);
        let adj_high = self.regs.flag(Flag::C) || (!nf && a > 0x99);
        let adjust: u8 = (if adj_low {
            6
        } else {
            0
        }) + (if adj_high {
            0x60
        } else {
            0
        });
        let result = if nf {
            ((a as u16 + 256 - adjust as u16) % 256) as u8
        } else {
            ((a as u16 + adjust as u16) % 256) as u8
        };
        proof {
            let ai = a as int;
            let di = adjust as int;
            assert((ai + 256 - di) % 256 == ((ai - di) % 256 + 256) % 256);
        }
        self.regs.a = result;
        self.set_flags_zhc(result == 0, false, adj_high);
        4
    }

    /// DI: disable interrupts at once.
    pub fn di(&mut self) -> (t: u8)
        ensures
            t == 4,
            *final(self) == (Cpu { ime: ImeState::Disabled, ..*old(self) }),
    {
        self.ime = ImeState::Disabled;
        4
    }

    /// EI: interrupts turn on only after the next instruction retires.
    pub fn ei(&mut self) -> (t: u8)
        ensures
            t == 4,
            *final(self) == (Cpu { ime: ImeState::PendingEnable, ..*old(self) }),
    {
        self.ime = ImeState::PendingEnable;
        4
    }

    /// HALT: stop executing until an interrupt is pending.
    pub fn halt(&mut self) -> (t: u8)
        ensures
            t == 4,
            *final(self) == (Cpu { is_halted: true, ..*old(self) }),
    {
        self.is_halted = true;
        4
    }

    /// NOP
    pub fn nop(&self) -> (t: u8)
        ensures
            t == 4,
    {
        4
    }

    /// STOP: treated as fatal by this core.
    pub fn stop(&mut self) -> (t: Result<u8, CpuFault>)
        ensures
            t == Err::<u8, CpuFault>(CpuFault::Stop),
            *final(self) == *old(self),
    {
        Err(CpuFault::Stop)
    }
}


// ---------------------------------------------------------------------------
// What each opcode does: the decode table as a specification
// ---------------------------------------------------------------------------
/// An instruction that only rewrites the register file: it returns the
/// given T-cycle count and leaves the rest of the core alone.
pub open spec fn effect_regs(pre: Cpu, post: Cpu, r: Result<u8, CpuFault>, regs2: Registers, t: u8) -> bool {
    r == Ok::<u8, CpuFault>(t) && post == with_regs(pre, regs2)
}

/// An instruction that faulted on a prohibited read: nothing changes.
pub open spec fn effect_fault(pre: Cpu, post: Cpu, r: Result<u8, CpuFault>, addr: u16) -> bool {
    r == Err::<u8, CpuFault>(CpuFault::ProhibitedMemoryRead(addr)) && post == pre
}

/// An instruction that rewrites the register file and writes one byte onto
/// the bus.
pub open spec fn effect_write(pre: Cpu, post: Cpu, r: Result<u8, CpuFault>, regs2: Registers, addr: u16, val: u8, t: u8) -> bool {
    r == Ok::<u8, CpuFault>(t) && regs_and_write(pre, post, regs2, addr, val)
}
/// The CB-prefixed rotates, shifts and swaps, opcode by opcode.
pub open spec fn spec_cb_effect_rot(pre: Cpu, opcode: u8, post: Cpu, r: Result<u8, CpuFault>) -> bool {
    if opcode == 0x00 {
        ({ let up = spec_alu_rlc(pre.regs.f, pre.regs.spec_r8(R8::B)); effect_regs(pre, post, r, (Registers { f: up.1, ..pre.regs.spec_with_r8(R8::B, up.0) }), 8) })
    } else if opcode == 0x01 {
        ({ let up = spec_alu_rlc(pre.regs.f, pre.regs.spec_r8(R8::C)); effect_regs(pre, post, r, (Registers { f: up.1, ..pre.regs.spec_with_r8(R8::C, up.0) }), 8) })
    } else if opcode == 0x02 {
        ({ let up = spec_alu_rlc(pre.regs.f, pre.regs.spec_r8(R8::D)); effect_regs(pre, post, r, (Registers { f: up.1, ..pre.regs.spec_with_r8(R8::D, up.0) }), 8) })
    } else if opcode == 0x03 {
        ({ let up = spec_alu_rlc(pre.regs.f, pre.regs.spec_r8(R8::E)); effect_regs(pre, post, r, (Registers { f: up.1, ..pre.regs.spec_with_r8(R8::E, up.0) }), 8) })
    } else if opcode == 0x04 {
        ({ let up = spec_alu_rlc(pre.regs.f, pre.regs.spec_r8(R8::H)); effect_regs(pre, post, r, (Registers { f: up.1, ..pre.regs.spec_with_r8(R8::H, up.0) }), 8) })
    } else if opcode == 0x05 {
        ({ let up = spec_alu_rlc(pre.regs.f, pre.regs.spec_r8(R8::L)); effect_regs(pre, post, r, (Registers { f: up.1, ..pre.regs.spec_with_r8(R8::L, up.0) }), 8) })
    } else if opcode == 0x06 {
        ({ let hl = pre.regs.spec_r16(R16::HL); let v = spec_read_byte(pre.mmu, hl); let up = spec_alu_rlc(pre.regs.f, v); if !spec_addr_prohibited(hl) { effect_write(pre, post, r, (Registers { f: up.1, ..pre.regs }), hl, up.0, 16) } else { effect_fault(pre, post, r, hl) } })
    } else if opcode == 0x07 {
        ({ let up = spec_alu_rlc(pre.regs.f, pre.regs.spec_r8(R8::A)); effect_regs(pre, post, r, (Registers { f: up.1, ..pre.regs.spec_with_r8(R8::A, up.0) }), 8) })
    } else if opcode == 0x08 {
        ({ let up = spec_alu_rrc(pre.regs.f, pre.regs.spec_r8(R8::B)); effect_regs(pre, post, r, (Registers { f: up.1, ..pre.regs.spec_with_r8(R8::B, up.0) }), 8) })
    } else if opcode == 0x09 {
        ({ let up = spec_alu_rrc(pre.regs.f, pre.regs.spec_r8(R8::C)); effect_regs(pre, post, r, (Registers { f: up.1, ..pre.regs.spec_with_r8(R8::C, up.0) }), 8) })
    } else if opcode == 0x0a {
        ({ let up = spec_alu_rrc(pre.regs.f, pre.regs.spec_r8(R8::D)); effect_regs(pre, post, r, (Registers { f: up.1, ..pre.regs.spec_with_r8(R8::D, up.0) }), 8) })
    } else if opcode == 0x0b {
        ({ let up = spec_alu_rrc(pre.regs.f, pre.regs.spec_r8(R8::E)); effect_regs(pre, post, r, (Registers { f: up.1, ..pre.regs.spec_with_r8(R8::E, up.0) }), 8) })
    } else if opcode == 0x0c {
        ({ let up = spec_alu_rrc(pre.regs.f, pre.regs.spec_r8(R8::H)); effect_regs(pre, post, r, (Registers { f: up.1, ..pre.regs.spec_with_r8(R8::H, up.0) }), 8) })
    } else if opcode == 0x0d {
        ({ let up = spec_alu_rrc(pre.regs.f, pre.regs.spec_r8(R8::L)); effect_regs(pre, post, r, (Registers { f: up.1, ..pre.regs.spec_with_r8(R8::L, up.0) }), 8) })
    } else if opcode == 0x0e {
        ({ let hl = pre.regs.spec_r16(R16::HL); let v = spec_read_byte(pre.mmu, hl); let up = spec_alu_rrc(pre.regs.f, v); if !spec_addr_prohibited(hl) { effect_write(pre, post, r, (Registers { f: up.1, ..pre.regs }), hl, up.0, 16) } else { effect_fault(pre, post, r, hl) } })
    } else if opcode == 0x0f {
        ({ let up = spec_alu_rrc(pre.regs.f, pre.regs.spec_r8(R8::A)); effect_regs(pre, post, r, (Registers { f: up.1, ..pre.regs.spec_with_r8(R8::A, up.0) }), 8) })
    } else if opcode == 0x10 {
        ({ let up = spec_alu_rl(pre.regs.f, pre.regs.spec_r8(R8::B), pre.regs.spec_flag(Flag::C)); effect_regs(pre, post, r, (Registers { f: up.1, ..pre.regs.spec_with_r8(R8::B, up.0) }), 8) })
    } else if opcode == 0x11 {
        ({ let up = spec_alu_rl(pre.regs.f, pre.regs.spec_r8(R8::C), pre.regs.spec_flag(Flag::C)); effect_regs(pre, post, r, (Registers { f: up.1, ..pre.regs.spec_with_r8(R8::C, up.0) }), 8) })
    } else if opcode == 0x12 {
        ({ let up = spec_alu_rl(pre.regs.f, pre.regs.spec_r8(R8::D), pre.regs.spec_flag(Flag::C)); effect_regs(pre, post, r, (Registers { f: up.1, ..pre.regs.spec_with_r8(R8::D, up.0) }), 8) })
    } else if opcode == 0x13 {
        ({ let up = spec_alu_rl(pre.regs.f, pre.regs.spec_r8(R8::E), pre.regs.spec_flag(Flag::C)); effect_regs(pre, post, r, (Registers { f: up.1, ..pre.regs.spec_with_r8(R8::E, up.0) }), 8) })
    } else if opcode == 0x14 {
        ({ let up = spec_alu_rl(pre.regs.f, pre.regs.spec_r8(R8::H), pre.regs.spec_flag(Flag::C)); effect_regs(pre, post, r, (Registers { f: up.1, ..pre.regs.spec_with_r8(R8::H, up.0) }), 8) })
    } else if opcode == 0x15 {
        ({ let up = spec_alu_rl(pre.regs.f, pre.regs.spec_r8(R8::L), pre.regs.spec_flag(Flag::C)); effect_regs(pre, post, r, (Registers { f: up.1, ..pre.regs.spec_with_r8(R8::L, up.0) }), 8) })
    } else if opcode == 0x16 {
        ({ let hl = pre.regs.spec_r16(R16::HL); let v = spec_read_byte(pre.mmu, hl); let up = spec_alu_rl(pre.regs.f, v, pre.regs.spec_flag(Flag::C)); if !spec_addr_prohibited(hl) { effect_write(pre, post, r, (Registers { f: up.1, ..pre.regs }), hl, up.0, 16) } else { effect_fault(pre, post, r, hl) } })
    } else if opcode == 0x17 {
        ({ let up = spec_alu_rl(pre.regs.f, pre.regs.spec_r8(R8::A), pre.regs.spec_flag(Flag::C)); effect_regs(pre, post, r, (Registers { f: up.1, ..pre.regs.spec_with_r8(R8::A, up.0) }), 8) })
    } else if opcode == 0x18 {
        ({ let up = spec_alu_rr(pre.regs.f, pre.regs.spec_r8(R8::B), pre.regs.spec_flag(Flag::C)); effect_regs(pre, post, r, (Registers { f: up.1, ..pre.regs.spec_with_r8(R8::B, up.0) }), 8) })
    } else if opcode == 0x19 {
        ({ let up = spec_alu_rr(pre.regs.f, pre.regs.spec_r8(R8::C), pre.regs.spec_flag(Flag::C)); effect_regs(pre, post, r, (Registers { f: up.1, ..pre.regs.spec_with_r8(R8::C, up.0) }), 8) })
    } else if opcode == 0x1a {
        ({ let up = spec_alu_rr(pre.regs.f, pre.regs.spec_r8(R8::D), pre.regs.spec_flag(Flag::C)); effect_regs(pre, post, r, (Registers { f: up.1, ..pre.regs.spec_with_r8(R8::D, up.0) }), 8) })
    } else if opcode == 0x1b {
        ({ let up = spec_alu_rr(pre.regs.f, pre.regs.spec_r8(R8::E), pre.regs.spec_flag(Flag::C)); effect_regs(pre, post, r, (Registers { f: up.1, ..pre.regs.spec_with_r8(R8::E, up.0) }), 8) })
    } else if opcode == 0x1c {
        ({ let up = spec_alu_rr(pre.regs.f, pre.regs.spec_r8(R8::H), pre.regs.spec_flag(Flag::C)); effect_regs(pre, post, r, (Registers { f: up.1, ..pre.regs.spec_with_r8(R8::H, up.0) }), 8) })
    } else if opcode == 0x1d {
        ({ let up = spec_alu_rr(pre.regs.f, pre.regs.spec_r8(R8::L), pre.regs.spec_flag(Flag::C)); effect_regs(pre, post, r, (Registers { f: up.1, ..pre.regs.spec_with_r8(R8::L, up.0) }), 8) })
    } else if opcode == 0x1e {
        ({ let hl = pre.regs.spec_r16(R16::HL); let v = spec_read_byte(pre.mmu, hl); let up = spec_alu_rr(pre.regs.f, v, pre.regs.spec_flag(Flag::C)); if !spec_addr_prohibited(hl) { effect_write(pre, post, r, (Registers { f: up.1, ..pre.regs }), hl, up.0, 16) } else { effect_fault(pre, post, r, hl) } })
    } else if opcode == 0x1f {
        ({ let up = spec_alu_rr(pre.regs.f, pre.regs.spec_r8(R8::A), pre.regs.spec_flag(Flag::C)); effect_regs(pre, post, r, (Registers { f: up.1, ..pre.regs.spec_with_r8(R8::A, up.0) }), 8) })
    } else if opcode == 0x20 {
        ({ let up = spec_alu_sla(pre.regs.f, pre.regs.spec_r8(R8::B)); effect_regs(pre, post, r, (Registers { f: up.1, ..pre.regs.spec_with_r8(R8::B, up.0) }), 8) })
    } else if opcode == 0x21 {
        ({ let up = spec_alu_sla(pre.regs.f, pre.regs.spec_r8(R8::C)); effect_regs(pre, post, r, (Registers { f: up.1, ..pre.regs.spec_with_r8(R8::C, up.0) }), 8) })
    } else if opcode == 0x22 {
        ({ let up = spec_alu_sla(pre.regs.f, pre.regs.spec_r8(R8::D)); effect_regs(pre, post, r, (Registers { f: up.1, ..pre.regs.spec_with_r8(R8::D, up.0) }), 8) })
    } else if opcode == 0x23 {
        ({ let up = spec_alu_sla(pre.regs.f, pre.regs.spec_r8(R8::E)); effect_regs(pre, post, r, (Registers { f: up.1, ..pre.regs.spec_with_r8(R8::E, up.0) }), 8) })
    } else if opcode == 0x24 {
        ({ let up = spec_alu_sla(pre.regs.f, pre.regs.spec_r8(R8::H)); effect_regs(pre, post, r, (Registers { f: up.1, ..pre.regs.spec_with_r8(R8::H, up.0) }), 8) })
    } else if opcode == 0x25 {
        ({ let up = spec_alu_sla(pre.regs.f, pre.regs.spec_r8(R8::L)); effect_regs(pre, post, r, (Registers { f: up.1, ..pre.regs.spec_with_r8(R8::L, up.0) }), 8) })
    } else if opcode == 0x26 {
        ({ let hl = pre.regs.spec_r16(R16::HL); let v = spec_read_byte(pre.mmu, hl); let up = spec_alu_sla(pre.regs.f, v); if !spec_addr_prohibited(hl) { effect_write(pre, post, r, (Registers { f: up.1, ..pre.regs }), hl, up.0, 16) } else { effect_fault(pre, post, r, hl) } })
    } else if opcode == 0x27 {
        ({ let up = spec_alu_sla(pre.regs.f, pre.regs.spec_r8(R8::A)); effect_regs(pre, post, r, (Registers { f: up.1, ..pre.regs.spec_with_r8(R8::A, up.0) }), 8) })
    } else if opcode == 0x28 {
        ({ let up = spec_alu_sra(pre.regs.f, pre.regs.spec_r8(R8::B)); effect_regs(pre, post, r, (Registers { f: up.1, ..pre.regs.spec_with_r8(R8::B, up.0) }), 8) })
    } else if opcode == 0x29 {
        ({ let up = spec_alu_sra(pre.regs.f, pre.regs.spec_r8(R8::C)); effect_regs(pre, post, r, (Registers { f: up.1, ..pre.regs.spec_with_r8(R8::C, up.0) }), 8) })
    } else if opcode == 0x2a {
        ({ let up = spec_alu_sra(pre.regs.f, pre.regs.spec_r8(R8::D)); effect_regs(pre, post, r, (Registers { f: up.1, ..pre.regs.spec_with_r8(R8::D, up.0) }), 8) })
    } else if opcode == 0x2b {
        ({ let up = spec_alu_sra(pre.regs.f, pre.regs.spec_r8(R8::E)); effect_regs(pre, post, r, (Registers { f: up.1, ..pre.regs.spec_with_r8(R8::E, up.0) }), 8) })
    } else if opcode == 0x2c {
        ({ let up = spec_alu_sra(pre.regs.f, pre.regs.spec_r8(R8::H)); effect_regs(pre, post, r, (Registers { f: up.1, ..pre.regs.spec_with_r8(R8::H, up.0) }), 8) })
    } else if opcode == 0x2d {
        ({ let up = spec_alu_sra(pre.regs.f, pre.regs.spec_r8(R8::L)); effect_regs(pre, post, r, (Registers { f: up.1, ..pre.regs.spec_with_r8(R8::L, up.0) }), 8) })
    } else if opcode == 0x2e {
        ({ let hl = pre.regs.spec_r16(R16::HL); let v = spec_read_byte(pre.mmu, hl); let up = spec_alu_sra(pre.regs.f, v); if !spec_addr_prohibited(hl) { effect_write(pre, post, r, (Registers { f: up.1, ..pre.regs }), hl, up.0, 16) } else { effect_fault(pre, post, r, hl) } })
    } else if opcode == 0x2f {
        ({ let up = spec_alu_sra(pre.regs.f, pre.regs.spec_r8(R8::A)); effect_regs(pre, post, r, (Registers { f: up.1, ..pre.regs.spec_with_r8(R8::A, up.0) }), 8) })
    } else if opcode == 0x30 {
        ({ let up = spec_alu_swap(pre.regs.f, pre.regs.spec_r8(R8::B)); effect_regs(pre, post, r, (Registers { f: up.1, ..pre.regs.spec_with_r8(R8::B, up.0) }), 8) })
    } else if opcode == 0x31 {
        ({ let up = spec_alu_swap(pre.regs.f, pre.regs.spec_r8(R8::C)); effect_regs(pre, post, r, (Registers { f: up.1, ..pre.regs.spec_with_r8(R8::C, up.0) }), 8) })
    } else if opcode == 0x32 {
        ({ let up = spec_alu_swap(pre.regs.f, pre.regs.spec_r8(R8::D)); effect_regs(pre, post, r, (Registers { f: up.1, ..pre.regs.spec_with_r8(R8::D, up.0) }), 8) })
    } else if opcode == 0x33 {
        ({ let up = spec_alu_swap(pre.regs.f, pre.regs.spec_r8(R8::E)); effect_regs(pre, post, r, (Registers { f: up.1, ..pre.regs.spec_with_r8(R8::E, up.0) }), 8) })
    } else if opcode == 0x34 {
        ({ let up = spec_alu_swap(pre.regs.f, pre.regs.spec_r8(R8::H)); effect_regs(pre, post, r, (Registers { f: up.1, ..pre.regs.spec_with_r8(R8::H, up.0) }), 8) })
    } else if opcode == 0x35 {
        ({ let up = spec_alu_swap(pre.regs.f, pre.regs.spec_r8(R8::L)); effect_regs(pre, post, r, (Registers { f: up.1, ..pre.regs.spec_with_r8(R8::L, up.0) }), 8) })
    } else if opcode == 0x36 {
        ({ let hl = pre.regs.spec_r16(R16::HL); let v = spec_read_byte(pre.mmu, hl); let up = spec_alu_swap(pre.regs.f, v); if !spec_addr_prohibited(hl) { effect_write(pre, post, r, (Registers { f: up.1, ..pre.regs }), hl, up.0, 16) } else { effect_fault(pre, post, r, hl) } })
    } else if opcode == 0x37 {
        ({ let up = spec_alu_swap(pre.regs.f, pre.regs.spec_r8(R8::A)); effect_regs(pre, post, r, (Registers { f: up.1, ..pre.regs.spec_with_r8(R8::A, up.0) }), 8) })
    } else if opcode == 0x38 {
        ({ let up = spec_alu_srl(pre.regs.f, pre.regs.spec_r8(R8::B)); effect_regs(pre, post, r, (Registers { f: up.1, ..pre.regs.spec_with_r8(R8::B, up.0) }), 8) })
    } else if opcode == 0x39 {
        ({ let up = spec_alu_srl(pre.regs.f, pre.regs.spec_r8(R8::C)); effect_regs(pre, post, r, (Registers { f: up.1, ..pre.regs.spec_with_r8(R8::C, up.0) }), 8) })
    } else if opcode == 0x3a {
        ({ let up = spec_alu_srl(pre.regs.f, pre.regs.spec_r8(R8::D)); effect_regs(pre, post, r, (Registers { f: up.1, ..pre.regs.spec_with_r8(R8::D, up.0) }), 8) })
    } else if opcode == 0x3b {
        ({ let up = spec_alu_srl(pre.regs.f, pre.regs.spec_r8(R8::E)); effect_regs(pre, post, r, (Registers { f: up.1, ..pre.regs.spec_with_r8(R8::E, up.0) }), 8) })
    } else if opcode == 0x3c {
        ({ let up = spec_alu_srl(pre.regs.f, pre.regs.spec_r8(R8::H)); effect_regs(pre, post, r, (Registers { f: up.1, ..pre.regs.spec_with_r8(R8::H, up.0) }), 8) })
    } else if opcode == 0x3d {
        ({ let up = spec_alu_srl(pre.regs.f, pre.regs.spec_r8(R8::L)); effect_regs(pre, post, r, (Registers { f: up.1, ..pre.regs.spec_with_r8(R8::L, up.0) }), 8) })
    } else if opcode == 0x3e {
        ({ let hl = pre.regs.spec_r16(R16::HL); let v = spec_read_byte(pre.mmu, hl); let up = spec_alu_srl(pre.regs.f, v); if !spec_addr_prohibited(hl) { effect_write(pre, post, r, (Registers { f: up.1, ..pre.regs }), hl, up.0, 16) } else { effect_fault(pre, post, r, hl) } })
    } else if opcode == 0x3f {
        ({ let up = spec_alu_srl(pre.regs.f, pre.regs.spec_r8(R8::A)); effect_regs(pre, post, r, (Registers { f: up.1, ..pre.regs.spec_with_r8(R8::A, up.0) }), 8) })
    } else {
        r == Err::<u8, CpuFault>(CpuFault::IllegalOpcode(opcode)) && post == pre
    }
}
/// The CB-prefixed bit tests, opcode by opcode.
pub open spec fn spec_cb_effect_bit(pre: Cpu, opcode: u8, post: Cpu, r: Result<u8, CpuFault>) -> bool {
    if opcode == 0x40 {
        effect_regs(pre, post, r, (Registers { f: spec_alu_bit(pre.regs.f, 0, pre.regs.spec_r8(R8::B)), ..pre.regs }), 8)
    } else if opcode == 0x41 {
        effect_regs(pre, post, r, (Registers { f: spec_alu_bit(pre.regs.f, 0, pre.regs.spec_r8(R8::C)), ..pre.regs }), 8)
    } else if opcode == 0x42 {
        effect_regs(pre, post, r, (Registers { f: spec_alu_bit(pre.regs.f, 0, pre.regs.spec_r8(R8::D)), ..pre.regs }), 8)
    } else if opcode == 0x43 {
        effect_regs(pre, post, r, (Registers { f: spec_alu_bit(pre.regs.f, 0, pre.regs.spec_r8(R8::E)), ..pre.regs }), 8)
    } else if opcode == 0x44 {
        effect_regs(pre, post, r, (Registers { f: spec_alu_bit(pre.regs.f, 0, pre.regs.spec_r8(R8::H)), ..pre.regs }), 8)
    } else if opcode == 0x45 {
        effect_regs(pre, post, r, (Registers { f: spec_alu_bit(pre.regs.f, 0, pre.regs.spec_r8(R8::L)), ..pre.regs }), 8)
    } else if opcode == 0x46 {
        ({ let hl = pre.regs.spec_r16(R16::HL); let v = spec_read_byte(pre.mmu, hl); if !spec_addr_prohibited(hl) { effect_regs(pre, post, r, (Registers { f: spec_alu_bit(pre.regs.f, 0, v), ..pre.regs }), 12) } else { effect_fault(pre, post, r, hl) } })
    } else if opcode == 0x47 {
        effect_regs(pre, post, r, (Registers { f: spec_alu_bit(pre.regs.f, 0, pre.regs.a), ..pre.regs }), 8)
    } else if opcode == 0x48 {
        effect_regs(pre, post, r, (Registers { f: spec_alu_bit(pre.regs.f, 1, pre.regs.spec_r8(R8::B)), ..pre.regs }), 8)
    } else if opcode == 0x49 {
        effect_regs(pre, post, r, (Registers { f: spec_alu_bit(pre.regs.f, 1, pre.regs.spec_r8(R8::C)), ..pre.regs }), 8)
    } else if opcode == 0x4a {
        effect_regs(pre, post, r, (Registers { f: spec_alu_bit(pre.regs.f, 1, pre.regs.spec_r8(R8::D)), ..pre.regs }), 8)
    } else if opcode == 0x4b {
        effect_regs(pre, post, r, (Registers { f: spec_alu_bit(pre.regs.f, 1, pre.regs.spec_r8(R8::E)), ..pre.regs }), 8)
    } else if opcode == 0x4c {
        effect_regs(pre, post, r, (Registers { f: spec_alu_bit(pre.regs.f, 1, pre.regs.spec_r8(R8::H)), ..pre.regs }), 8)
    } else if opcode == 0x4d {
        effect_regs(pre, post, r, (Registers { f: spec_alu_bit(pre.regs.f, 1, pre.regs.spec_r8(R8::L)), ..pre.regs }), 8)
    } else if opcode == 0x4e {
        ({ let hl = pre.regs.spec_r16(R16::HL); let v = spec_read_byte(pre.mmu, hl); if !spec_addr_prohibited(hl) { effect_regs(pre, post, r, (Registers { f: spec_alu_bit(pre.regs.f, 1, v), ..pre.regs }), 12) } else { effect_fault(pre, post, r, hl) } })
    } else if opcode == 0x4f {
        effect_regs(pre, post, r, (Registers { f: spec_alu_bit(pre.regs.f, 1, pre.regs.a), ..pre.regs }), 8)
    } else if opcode == 0x50 {
        effect_regs(pre, post, r, (Registers { f: spec_alu_bit(pre.regs.f, 2, pre.regs.spec_r8(R8::B)), ..pre.regs }), 8)
    } else if opcode == 0x51 {
        effect_regs(pre, post, r, (Registers { f: spec_alu_bit(pre.regs.f, 2, pre.regs.spec_r8(R8::C)), ..pre.regs }), 8)
    } else if opcode == 0x52 {
        effect_regs(pre, post, r, (Registers { f: spec_alu_bit(pre.regs.f, 2, pre.regs.spec_r8(R8::D)), ..pre.regs }), 8)
    } else if opcode == 0x53 {
        effect_regs(pre, post, r, (Registers { f: spec_alu_bit(pre.regs.f, 2, pre.regs.spec_r8(R8::E)), ..pre.regs }), 8)
    } else if opcode == 0x54 {
        effect_regs(pre, post, r, (Registers { f: spec_alu_bit(pre.regs.f, 2, pre.regs.spec_r8(R8::H)), ..pre.regs }), 8)
    } else if opcode == 0x55 {
        effect_regs(pre, post, r, (Registers { f: spec_alu_bit(pre.regs.f, 2, pre.regs.spec_r8(R8::L)), ..pre.regs }), 8)
    } else if opcode == 0x56 {
        ({ let hl = pre.regs.spec_r16(R16::HL); let v = spec_read_byte(pre.mmu, hl); if !spec_addr_prohibited(hl) { effect_regs(pre, post, r, (Registers { f: spec_alu_bit(pre.regs.f, 2, v), ..pre.regs }), 12) } else { effect_fault(pre, post, r, hl) } })
    } else if opcode == 0x57 {
        effect_regs(pre, post, r, (Registers { f: spec_alu_bit(pre.regs.f, 2, pre.regs.a), ..pre.regs }), 8)
    } else if opcode == 0x58 {
        effect_regs(pre, post, r, (Registers { f: spec_alu_bit(pre.regs.f, 3, pre.regs.spec_r8(R8::B)), ..pre.regs }), 8)
    } else if opcode == 0x59 {
        effect_regs(pre, post, r, (Registers { f: spec_alu_bit(pre.regs.f, 3, pre.regs.spec_r8(R8::C)), ..pre.regs }), 8)
    } else if opcode == 0x5a {
        effect_regs(pre, post, r, (Registers { f: spec_alu_bit(pre.regs.f, 3, pre.regs.spec_r8(R8::D)), ..pre.regs }), 8)
    } else if opcode == 0x5b {
        effect_regs(pre, post, r, (Registers { f: spec_alu_bit(pre.regs.f, 3, pre.regs.spec_r8(R8::E)), ..pre.regs }), 8)
    } else if opcode == 0x5c {
        effect_regs(pre, post, r, (Registers { f: spec_alu_bit(pre.regs.f, 3, pre.regs.spec_r8(R8::H)), ..pre.regs }), 8)
    } else if opcode == 0x5d {
        effect_regs(pre, post, r, (Registers { f: spec_alu_bit(pre.regs.f, 3, pre.regs.spec_r8(R8::L)), ..pre.regs }), 8)
    } else if opcode == 0x5e {
        ({ let hl = pre.regs.spec_r16(R16::HL); let v = spec_read_byte(pre.mmu, hl); if !spec_addr_prohibited(hl) { effect_regs(pre, post, r, (Registers { f: spec_alu_bit(pre.regs.f, 3, v), ..pre.regs }), 12) } else { effect_fault(pre, post, r, hl) } })
    } else if opcode == 0x5f {
        effect_regs(pre, post, r, (Registers { f: spec_alu_bit(pre.regs.f, 3, pre.regs.a), ..pre.regs }), 8)
    } else if opcode == 0x60 {
        effect_regs(pre, post, r, (Registers { f: spec_alu_bit(pre.regs.f, 4, pre.regs.spec_r8(R8::B)), ..pre.regs }), 8)
    } else if opcode == 0x61 {
        effect_regs(pre, post, r, (Registers { f: spec_alu_bit(pre.regs.f, 4, pre.regs.spec_r8(R8::C)), ..pre.regs }), 8)
    } else if opcode == 0x62 {
        effect_regs(pre, post, r, (Registers { f: spec_alu_bit(pre.regs.f, 4, pre.regs.spec_r8(R8::D)), ..pre.regs }), 8)
    } else if opcode == 0x63 {
        effect_regs(pre, post, r, (Registers { f: spec_alu_bit(pre.regs.f, 4, pre.regs.spec_r8(R8::E)), ..pre.regs }), 8)
    } else if opcode == 0x64 {
        effect_regs(pre, post, r, (Registers { f: spec_alu_bit(pre.regs.f, 4, pre.regs.spec_r8(R8::H)), ..pre.regs }), 8)
    } else if opcode == 0x65 {
        effect_regs(pre, post, r, (Registers { f: spec_alu_bit(pre.regs.f, 4, pre.regs.spec_r8(R8::L)), ..pre.regs }), 8)
    } else if opcode == 0x66 {
        ({ let hl = pre.regs.spec_r16(R16::HL); let v = spec_read_byte(pre.mmu, hl); if !spec_addr_prohibited(hl) { effect_regs(pre, post, r, (Registers { f: spec_alu_bit(pre.regs.f, 4, v), ..pre.regs }), 12) } else { effect_fault(pre, post, r, hl) } })
    } else if opcode == 0x67 {
        effect_regs(pre, post, r, (Registers { f: spec_alu_bit(pre.regs.f, 4, pre.regs.a), ..pre.regs }), 8)
    } else if opcode == 0x68 {
        effect_regs(pre, post, r, (Registers { f: spec_alu_bit(pre.regs.f, 5, pre.regs.spec_r8(R8::B)), ..pre.regs }), 8)
    } else if opcode == 0x69 {
        effect_regs(pre, post, r, (Registers { f: spec_alu_bit(pre.regs.f, 5, pre.regs.spec_r8(R8::C)), ..pre.regs }), 8)
    } else if opcode == 0x6a {
        effect_regs(pre, post, r, (Registers { f: spec_alu_bit(pre.regs.f, 5, pre.regs.spec_r8(R8::D)), ..pre.regs }), 8)
    } else if opcode == 0x6b {
        effect_regs(pre, post, r, (Registers { f: spec_alu_bit(pre.regs.f, 5, pre.regs.spec_r8(R8::E)), ..pre.regs }), 8)
    } else if opcode == 0x6c {
        effect_regs(pre, post, r, (Registers { f: spec_alu_bit(pre.regs.f, 5, pre.regs.spec_r8(R8::H)), ..pre.regs }), 8)
    } else if opcode == 0x6d {
        effect_regs(pre, post, r, (Registers { f: spec_alu_bit(pre.regs.f, 5, pre.regs.spec_r8(R8::L)), ..pre.regs }), 8)
    } else if opcode == 0x6e {
        ({ let hl = pre.regs.spec_r16(R16::HL); let v = spec_read_byte(pre.mmu, hl); if !spec_addr_prohibited(hl) { effect_regs(pre, post, r, (Registers { f: spec_alu_bit(pre.regs.f, 5, v), ..pre.regs }), 12) } else { effect_fault(pre, post, r, hl) } })
    } else if opcode == 0x6f {
        effect_regs(pre, post, r, (Registers { f: spec_alu_bit(pre.regs.f, 5, pre.regs.a), ..pre.regs }), 8)
    } else if opcode == 0x70 {
        effect_regs(pre, post, r, (Registers { f: spec_alu_bit(pre.regs.f, 6, pre.regs.spec_r8(R8::B)), ..pre.regs }), 8)
    } else if opcode == 0x71 {
        effect_regs(pre, post, r, (Registers { f: spec_alu_bit(pre.regs.f, 6, pre.regs.spec_r8(R8::C)), ..pre.regs }), 8)
    } else if opcode == 0x72 {
        effect_regs(pre, post, r, (Registers { f: spec_alu_bit(pre.regs.f, 6, pre.regs.spec_r8(R8::D)), ..pre.regs }), 8)
    } else if opcode == 0x73 {
        effect_regs(pre, post, r, (Registers { f: spec_alu_bit(pre.regs.f, 6, pre.regs.spec_r8(R8::E)), ..pre.regs }), 8)
    } else if opcode == 0x74 {
        effect_regs(pre, post, r, (Registers { f: spec_alu_bit(pre.regs.f, 6, pre.regs.spec_r8(R8::H)), ..pre.regs }), 8)
    } else if opcode == 0x75 {
        effect_regs(pre, post, r, (Registers { f: spec_alu_bit(pre.regs.f, 6, pre.regs.spec_r8(R8::L)), ..pre.regs }), 8)
    } else if opcode == 0x76 {
        ({ let hl = pre.regs.spec_r16(R16::HL); let v = spec_read_byte(pre.mmu, hl); if !spec_addr_prohibited(hl) { effect_regs(pre, post, r, (Registers { f: spec_alu_bit(pre.regs.f, 6, v), ..pre.regs }), 12) } else { effect_fault(pre, post, r, hl) } })
    } else if opcode == 0x77 {
        effect_regs(pre, post, r, (Registers { f: spec_alu_bit(pre.regs.f, 6, pre.regs.a), ..pre.regs }), 8)
    } else if opcode == 0x78 {
        effect_regs(pre, post, r, (Registers { f: spec_alu_bit(pre.regs.f, 7, pre.regs.spec_r8(R8::B)), ..pre.regs }), 8)
    } else if opcode == 0x79 {
        effect_regs(pre, post, r, (Registers { f: spec_alu_bit(pre.regs.f, 7, pre.regs.spec_r8(R8::C)), ..pre.regs }), 8)
    } else if opcode == 0x7a {
        effect_regs(pre, post, r, (Registers { f: spec_alu_bit(pre.regs.f, 7, pre.regs.spec_r8(R8::D)), ..pre.regs }), 8)
    } else if opcode == 0x7b {
        effect_regs(pre, post, r, (Registers { f: spec_alu_bit(pre.regs.f, 7, pre.regs.spec_r8(R8::E)), ..pre.regs }), 8)
    } else if opcode == 0x7c {
        effect_regs(pre, post, r, (Registers { f: spec_alu_bit(pre.regs.f, 7, pre.regs.spec_r8(R8::H)), ..pre.regs }), 8)
    } else if opcode == 0x7d {
        effect_regs(pre, post, r, (Registers { f: spec_alu_bit(pre.regs.f, 7, pre.regs.spec_r8(R8::L)), ..pre.regs }), 8)
    } else if opcode == 0x7e {
        ({ let hl = pre.regs.spec_r16(R16::HL); let v = spec_read_byte(pre.mmu, hl); if !spec_addr_prohibited(hl) { effect_regs(pre, post, r, (Registers { f: spec_alu_bit(pre.regs.f, 7, v), ..pre.regs }), 12) } else { effect_fault(pre, post, r, hl) } })
    } else if opcode == 0x7f {
        effect_regs(pre, post, r, (Registers { f: spec_alu_bit(pre.regs.f, 7, pre.regs.a), ..pre.regs }), 8)
    } else {
        r == Err::<u8, CpuFault>(CpuFault::IllegalOpcode(opcode)) && post == pre
    }
}
/// The CB-prefixed bit clears, opcode by opcode.
pub open spec fn spec_cb_effect_res(pre: Cpu, opcode: u8, post: Cpu, r: Result<u8, CpuFault>) -> bool {
    if opcode == 0x80 {
        effect_regs(pre, post, r, pre.regs.spec_with_r8(R8::B, pre.regs.spec_r8(R8::B) & !(1u8 << 0u8)), 8)
    } else if opcode == 0x81 {
        effect_regs(pre, post, r, pre.regs.spec_with_r8(R8::C, pre.regs.spec_r8(R8::C) & !(1u8 << 0u8)), 8)
    } else if opcode == 0x82 {
        effect_regs(pre, post, r, pre.regs.spec_with_r8(R8::D, pre.regs.spec_r8(R8::D) & !(1u8 << 0u8)), 8)
    } else if opcode == 0x83 {
        effect_regs(pre, post, r, pre.regs.spec_with_r8(R8::E, pre.regs.spec_r8(R8::E) & !(1u8 << 0u8)), 8)
    } else if opcode == 0x84 {
        effect_regs(pre, post, r, pre.regs.spec_with_r8(R8::H, pre.regs.spec_r8(R8::H) & !(1u8 << 0u8)), 8)
    } else if opcode == 0x85 {
        effect_regs(pre, post, r, pre.regs.spec_with_r8(R8::L, pre.regs.spec_r8(R8::L) & !(1u8 << 0u8)), 8)
    } else if opcode == 0x86 {
        ({ let hl = pre.regs.spec_r16(R16::HL); let v = spec_read_byte(pre.mmu, hl); if !spec_addr_prohibited(hl) { effect_write(pre, post, r, pre.regs, hl, v & !(1u8 << 0u8), 16) } else { effect_fault(pre, post, r, hl) } })
    } else if opcode == 0x87 {
        effect_regs(pre, post, r, pre.regs.spec_with_r8(R8::A, pre.regs.a & !(1u8 << 0u8)), 8)
    } else if opcode == 0x88 {
        effect_regs(pre, post, r, pre.regs.spec_with_r8(R8::B, pre.regs.spec_r8(R8::B) & !(1u8 << 1u8)), 8)
    } else if opcode == 0x89 {
        effect_regs(pre, post, r, pre.regs.spec_with_r8(R8::C, pre.regs.spec_r8(R8::C) & !(1u8 << 1u8)), 8)
    } else if opcode == 0x8a {
        effect_regs(pre, post, r, pre.regs.spec_with_r8(R8::D, pre.regs.spec_r8(R8::D) & !(1u8 << 1u8)), 8)
    } else if opcode == 0x8b {
        effect_regs(pre, post, r, pre.regs.spec_with_r8(R8::E, pre.regs.spec_r8(R8::E) & !(1u8 << 1u8)), 8)
    } else if opcode == 0x8c {
        effect_regs(pre, post, r, pre.regs.spec_with_r8(R8::H, pre.regs.spec_r8(R8::H) & !(1u8 << 1u8)), 8)
    } else if opcode == 0x8d {
        effect_regs(pre, post, r, pre.regs.spec_with_r8(R8::L, pre.regs.spec_r8(R8::L) & !(1u8 << 1u8)), 8)
    } else if opcode == 0x8e {
        ({ let hl = pre.regs.spec_r16(R16::HL); let v = spec_read_byte(pre.mmu, hl); if !spec_addr_prohibited(hl) { effect_write(pre, post, r, pre.regs, hl, v & !(1u8 << 1u8), 16) } else { effect_fault(pre, post, r, hl) } })
    } else if opcode == 0x8f {
        effect_regs(pre, post, r, pre.regs.spec_with_r8(R8::A, pre.regs.a & !(1u8 << 1u8)), 8)
    } else if opcode == 0x90 {
        effect_regs(pre, post, r, pre.regs.spec_with_r8(R8::B, pre.regs.spec_r8(R8::B) & !(1u8 << 2u8)), 8)
    } else if opcode == 0x91 {
        effect_regs(pre, post, r, pre.regs.spec_with_r8(R8::C, pre.regs.spec_r8(R8::C) & !(1u8 << 2u8)), 8)
    } else if opcode == 0x92 {
        effect_regs(pre, post, r, pre.regs.spec_with_r8(R8::D, pre.regs.spec_r8(R8::D) & !(1u8 << 2u8)), 8)
    } else if opcode == 0x93 {
        effect_regs(pre, post, r, pre.regs.spec_with_r8(R8::E, pre.regs.spec_r8(R8::E) & !(1u8 << 2u8)), 8)
    } else if opcode == 0x94 {
        effect_regs(pre, post, r, pre.regs.spec_with_r8(R8::H, pre.regs.spec_r8(R8::H) & !(1u8 << 2u8)), 8)
    } else if opcode == 0x95 {
        effect_regs(pre, post, r, pre.regs.spec_with_r8(R8::L, pre.regs.spec_r8(R8::L) & !(1u8 << 2u8)), 8)
    } else if opcode == 0x96 {
        ({ let hl = pre.regs.spec_r16(R16::HL); let v = spec_read_byte(pre.mmu, hl); if !spec_addr_prohibited(hl) { effect_write(pre, post, r, pre.regs, hl, v & !(1u8 << 2u8), 16) } else { effect_fault(pre, post, r, hl) } })
    } else if opcode == 0x97 {
        effect_regs(pre, post, r, pre.regs.spec_with_r8(R8::A, pre.regs.a & !(1u8 << 2u8)), 8)
    } else if opcode == 0x98 {
        effect_regs(pre, post, r, pre.regs.spec_with_r8(R8::B, pre.regs.spec_r8(R8::B) & !(1u8 << 3u8)), 8)
    } else if opcode == 0x99 {
        effect_regs(pre, post, r, pre.regs.spec_with_r8(R8::C, pre.regs.spec_r8(R8::C) & !(1u8 << 3u8)), 8)
    } else if opcode == 0x9a {
        effect_regs(pre, post, r, pre.regs.spec_with_r8(R8::D, pre.regs.spec_r8(R8::D) & !(1u8 << 3u8)), 8)
    } else if opcode == 0x9b {
        effect_regs(pre, post, r, pre.regs.spec_with_r8(R8::E, pre.regs.spec_r8(R8::E) & !(1u8 << 3u8)), 8)
    } else if opcode == 0x9c {
        effect_regs(pre, post, r, pre.regs.spec_with_r8(R8::H, pre.regs.spec_r8(R8::H) & !(1u8 << 3u8)), 8)
    } else if opcode == 0x9d {
        effect_regs(pre, post, r, pre.regs.spec_with_r8(R8::L, pre.regs.spec_r8(R8::L) & !(1u8 << 3u8)), 8)
    } else if opcode == 0x9e {
        ({ let hl = pre.regs.spec_r16(R16::HL); let v = spec_read_byte(pre.mmu, hl); if !spec_addr_prohibited(hl) { effect_write(pre, post, r, pre.regs, hl, v & !(1u8 << 3u8), 16) } else { effect_fault(pre, post, r, hl) } })
    } else if opcode == 0x9f {
        effect_regs(pre, post, r, pre.regs.spec_with_r8(R8::A, pre.regs.a & !(1u8 << 3u8)), 8)
    } else if opcode == 0xa0 {
        effect_regs(pre, post, r, pre.regs.spec_with_r8(R8::B, pre.regs.spec_r8(R8::B) & !(1u8 << 4u8)), 8)
    } else if opcode == 0xa1 {
        effect_regs(pre, post, r, pre.regs.spec_with_r8(R8::C, pre.regs.spec_r8(R8::C) & !(1u8 << 4u8)), 8)
    } else if opcode == 0xa2 {
        effect_regs(pre, post, r, pre.regs.spec_with_r8(R8::D, pre.regs.spec_r8(R8::D) & !(1u8 << 4u8)), 8)
    } else if opcode == 0xa3 {
        effect_regs(pre, post, r, pre.regs.spec_with_r8(R8::E, pre.regs.spec_r8(R8::E) & !(1u8 << 4u8)), 8)
    } else if opcode == 0xa4 {
        effect_regs(pre, post, r, pre.regs.spec_with_r8(R8::H, pre.regs.spec_r8(R8::H) & !(1u8 << 4u8)), 8)
    } else if opcode == 0xa5 {
        effect_regs(pre, post, r, pre.regs.spec_with_r8(R8::L, pre.regs.spec_r8(R8::L) & !(1u8 << 4u8)), 8)
    } else if opcode == 0xa6 {
        ({ let hl = pre.regs.spec_r16(R16::HL); let v = spec_read_byte(pre.mmu, hl); if !spec_addr_prohibited(hl) { effect_write(pre, post, r, pre.regs, hl, v & !(1u8 << 4u8), 16) } else { effect_fault(pre, post, r, hl) } })
    } else if opcode == 0xa7 {
        effect_regs(pre, post, r, pre.regs.spec_with_r8(R8::A, pre.regs.a & !(1u8 << 4u8)), 8)
    } else if opcode == 0xa8 {
        effect_regs(pre, post, r, pre.regs.spec_with_r8(R8::B, pre.regs.spec_r8(R8::B) & !(1u8 << 5u8)), 8)
    } else if opcode == 0xa9 {
        effect_regs(pre, post, r, pre.regs.spec_with_r8(R8::C, pre.regs.spec_r8(R8::C) & !(1u8 << 5u8)), 8)
    } else if opcode == 0xaa {
        effect_regs(pre, post, r, pre.regs.spec_with_r8(R8::D, pre.regs.spec_r8(R8::D) & !(1u8 << 5u8)), 8)
    } else if opcode == 0xab {
        effect_regs(pre, post, r, pre.regs.spec_with_r8(R8::E, pre.regs.spec_r8(R8::E) & !(1u8 << 5u8)), 8)
    } else if opcode == 0xac {
        effect_regs(pre, post, r, pre.regs.spec_with_r8(R8::H, pre.regs.spec_r8(R8::H) & !(1u8 << 5u8)), 8)
    } else if opcode == 0xad {
        effect_regs(pre, post, r, pre.regs.spec_with_r8(R8::L, pre.regs.spec_r8(R8::L) & !(1u8 << 5u8)), 8)
    } else if opcode == 0xae {
        ({ let hl = pre.regs.spec_r16(R16::HL); let v = spec_read_byte(pre.mmu, hl); if !spec_addr_prohibited(hl) { effect_write(pre, post, r, pre.regs, hl, v & !(1u8 << 5u8), 16) } else { effect_fault(pre, post, r, hl) } })
    } else if opcode == 0xaf {
        effect_regs(pre, post, r, pre.regs.spec_with_r8(R8::A, pre.regs.a & !(1u8 << 5u8)), 8)
    } else if opcode == 0xb0 {
        effect_regs(pre, post, r, pre.regs.spec_with_r8(R8::B, pre.regs.spec_r8(R8::B) & !(1u8 << 6u8)), 8)
    } else if opcode == 0xb1 {
        effect_regs(pre, post, r, pre.regs.spec_with_r8(R8::C, pre.regs.spec_r8(R8::C) & !(1u8 << 6u8)), 8)
    } else if opcode == 0xb2 {
        effect_regs(pre, post, r, pre.regs.spec_with_r8(R8::D, pre.regs.spec_r8(R8::D) & !(1u8 << 6u8)), 8)
    } else if opcode == 0xb3 {
        effect_regs(pre, post, r, pre.regs.spec_with_r8(R8::E, pre.regs.spec_r8(R8::E) & !(1u8 << 6u8)), 8)
    } else if opcode == 0xb4 {
        effect_regs(pre, post, r, pre.regs.spec_with_r8(R8::H, pre.regs.spec_r8(R8::H) & !(1u8 << 6u8)), 8)
    } else if opcode == 0xb5 {
        effect_regs(pre, post, r, pre.regs.spec_with_r8(R8::L, pre.regs.spec_r8(R8::L) & !(1u8 << 6u8)), 8)
    } else if opcode == 0xb6 {
        ({ let hl = pre.regs.spec_r16(R16::HL); let v = spec_read_byte(pre.mmu, hl); if !spec_addr_prohibited(hl) { effect_write(pre, post, r, pre.regs, hl, v & !(1u8 << 6u8), 16) } else { effect_fault(pre, post, r, hl) } })
    } else if opcode == 0xb7 {
        effect_regs(pre, post, r, pre.regs.spec_with_r8(R8::A, pre.regs.a & !(1u8 << 6u8)), 8)
    } else if opcode == 0xb8 {
        effect_regs(pre, post, r, pre.regs.spec_with_r8(R8::B, pre.regs.spec_r8(R8::B) & !(1u8 << 7u8)), 8)
    } else if opcode == 0xb9 {
        effect_regs(pre, post, r, pre.regs.spec_with_r8(R8::C, pre.regs.spec_r8(R8::C) & !(1u8 << 7u8)), 8)
    } else if opcode == 0xba {
        effect_regs(pre, post, r, pre.regs.spec_with_r8(R8::D, pre.regs.spec_r8(R8::D) & !(1u8 << 7u8)), 8)
    } else if opcode == 0xbb {
        effect_regs(pre, post, r, pre.regs.spec_with_r8(R8::E, pre.regs.spec_r8(R8::E) & !(1u8 << 7u8)), 8)
    } else if opcode == 0xbc {
        effect_regs(pre, post, r, pre.regs.spec_with_r8(R8::H, pre.regs.spec_r8(R8::H) & !(1u8 << 7u8)), 8)
    } else if opcode == 0xbd {
        effect_regs(pre, post, r, pre.regs.spec_with_r8(R8::L, pre.regs.spec_r8(R8::L) & !(1u8 << 7u8)), 8)
    } else if opcode == 0xbe {
        ({ let hl = pre.regs.spec_r16(R16::HL); let v = spec_read_byte(pre.mmu, hl); if !spec_addr_prohibited(hl) { effect_write(pre, post, r, pre.regs, hl, v & !(1u8 << 7u8), 16) } else { effect_fault(pre, post, r, hl) } })
    } else if opcode == 0xbf {
        effect_regs(pre, post, r, pre.regs.spec_with_r8(R8::A, pre.regs.a & !(1u8 << 7u8)), 8)
    } else {
        r == Err::<u8, CpuFault>(CpuFault::IllegalOpcode(opcode)) && post == pre
    }
}
/// The CB-prefixed bit sets, opcode by opcode.
pub open spec fn spec_cb_effect_set(pre: Cpu, opcode: u8, post: Cpu, r: Result<u8, CpuFault>) -> bool {
    if opcode == 0xc0 {
        effect_regs(pre, post, r, pre.regs.spec_with_r8(R8::B, pre.regs.spec_r8(R8::B) | (1u8 << 0u8)), 8)
    } else if opcode == 0xc1 {
        effect_regs(pre, post, r, pre.regs.spec_with_r8(R8::C, pre.regs.spec_r8(R8::C) | (1u8 << 0u8)), 8)
    } else if opcode == 0xc2 {
        effect_regs(pre, post, r, pre.regs.spec_with_r8(R8::D, pre.regs.spec_r8(R8::D) | (1u8 << 0u8)), 8)
    } else if opcode == 0xc3 {
        effect_regs(pre, post, r, pre.regs.spec_with_r8(R8::E, pre.regs.spec_r8(R8::E) | (1u8 << 0u8)), 8)
    } else if opcode == 0xc4 {
        effect_regs(pre, post, r, pre.regs.spec_with_r8(R8::H, pre.regs.spec_r8(R8::H) | (1u8 << 0u8)), 8)
    } else if opcode == 0xc5 {
        effect_regs(pre, post, r, pre.regs.spec_with_r8(R8::L, pre.regs.spec_r8(R8::L) | (1u8 << 0u8)), 8)
    } else if opcode == 0xc6 {
        ({ let hl = pre.regs.spec_r16(R16::HL); let v = spec_read_byte(pre.mmu, hl); if !spec_addr_prohibited(hl) { effect_write(pre, post, r, pre.regs, hl, v | (1u8 << 0u8), 16) } else { effect_fault(pre, post, r, hl) } })
    } else if opcode == 0xc7 {
        effect_regs(pre, post, r, pre.regs.spec_with_r8(R8::A, pre.regs.a | (1u8 << 0u8)), 8)
    } else if opcode == 0xc8 {
        effect_regs(pre, post, r, pre.regs.spec_with_r8(R8::B, pre.regs.spec_r8(R8::B) | (1u8 << 1u8)), 8)
    } else if opcode == 0xc9 {
        effect_regs(pre, post, r, pre.regs.spec_with_r8(R8::C, pre.regs.spec_r8(R8::C) | (1u8 << 1u8)), 8)
    } else if opcode == 0xca {
        effect_regs(pre, post, r, pre.regs.spec_with_r8(R8::D, pre.regs.spec_r8(R8::D) | (1u8 << 1u8)), 8)
    } else if opcode == 0xcb {
        effect_regs(pre, post, r, pre.regs.spec_with_r8(R8::E, pre.regs.spec_r8(R8::E) | (1u8 << 1u8)), 8)
    } else if opcode == 0xcc {
        effect_regs(pre, post, r, pre.regs.spec_with_r8(R8::H, pre.regs.spec_r8(R8::H) | (1u8 << 1u8)), 8)
    } else if opcode == 0xcd {
        effect_regs(pre, post, r, pre.regs.spec_with_r8(R8::L, pre.regs.spec_r8(R8::L) | (1u8 << 1u8)), 8)
    } else if opcode == 0xce {
        ({ let hl = pre.regs.spec_r16(R16::HL); let v = spec_read_byte(pre.mmu, hl); if !spec_addr_prohibited(hl) { effect_write(pre, post, r, pre.regs, hl, v | (1u8 << 1u8), 16) } else { effect_fault(pre, post, r, hl) } })
    } else if opcode == 0xcf {
        effect_regs(pre, post, r, pre.regs.spec_with_r8(R8::A, pre.regs.a | (1u8 << 1u8)), 8)
    } else if opcode == 0xd0 {
        effect_regs(pre, post, r, pre.regs.spec_with_r8(R8::B, pre.regs.spec_r8(R8::B) | (1u8 << 2u8)), 8)
    } else if opcode == 0xd1 {
        effect_regs(pre, post, r, pre.regs.spec_with_r8(R8::C, pre.regs.spec_r8(R8::C) | (1u8 << 2u8)), 8)
    } else if opcode == 0xd2 {
        effect_regs(pre, post, r, pre.regs.spec_with_r8(R8::D, pre.regs.spec_r8(R8::D) | (1u8 << 2u8)), 8)
    } else if opcode == 0xd3 {
        effect_regs(pre, post, r, pre.regs.spec_with_r8(R8::E, pre.regs.spec_r8(R8::E) | (1u8 << 2u8)), 8)
    } else if opcode == 0xd4 {
        effect_regs(pre, post, r, pre.regs.spec_with_r8(R8::H, pre.regs.spec_r8(R8::H) | (1u8 << 2u8)), 8)
    } else if opcode == 0xd5 {
        effect_regs(pre, post, r, pre.regs.spec_with_r8(R8::L, pre.regs.spec_r8(R8::L) | (1u8 << 2u8)), 8)
    } else if opcode == 0xd6 {
        ({ let hl = pre.regs.spec_r16(R16::HL); let v = spec_read_byte(pre.mmu, hl); if !spec_addr_prohibited(hl) { effect_write(pre, post, r, pre.regs, hl, v | (1u8 << 2u8), 16) } else { effect_fault(pre, post, r, hl) } })
    } else if opcode == 0xd7 {
        effect_regs(pre, post, r, pre.regs.spec_with_r8(R8::A, pre.regs.a | (1u8 << 2u8)), 8)
    } else if opcode == 0xd8 {
        effect_regs(pre, post, r, pre.regs.spec_with_r8(R8::B, pre.regs.spec_r8(R8::B) | (1u8 << 3u8)), 8)
    } else if opcode == 0xd9 {
        effect_regs(pre, post, r, pre.regs.spec_with_r8(R8::C, pre.regs.spec_r8(R8::C) | (1u8 << 3u8)), 8)
    } else if opcode == 0xda {
        effect_regs(pre, post, r, pre.regs.spec_with_r8(R8::D, pre.regs.spec_r8(R8::D) | (1u8 << 3u8)), 8)
    } else if opcode == 0xdb {
        effect_regs(pre, post, r, pre.regs.spec_with_r8(R8::E, pre.regs.spec_r8(R8::E) | (1u8 << 3u8)), 8)
    } else if opcode == 0xdc {
        effect_regs(pre, post, r, pre.regs.spec_with_r8(R8::H, pre.regs.spec_r8(R8::H) | (1u8 << 3u8)), 8)
    } else if opcode == 0xdd {
        effect_regs(pre, post, r, pre.regs.spec_with_r8(R8::L, pre.regs.spec_r8(R8::L) | (1u8 << 3u8)), 8)
    } else if opcode == 0xde {
        ({ let hl = pre.regs.spec_r16(R16::HL); let v = spec_read_byte(pre.mmu, hl); if !spec_addr_prohibited(hl) { effect_write(pre, post, r, pre.regs, hl, v | (1u8 << 3u8), 16) } else { effect_fault(pre, post, r, hl) } })
    } else if opcode == 0xdf {
        effect_regs(pre, post, r, pre.regs.spec_with_r8(R8::A, pre.regs.a | (1u8 << 3u8)), 8)
    } else if opcode == 0xe0 {
        effect_regs(pre, post, r, pre.regs.spec_with_r8(R8::B, pre.regs.spec_r8(R8::B) | (1u8 << 4u8)), 8)
    } else if opcode == 0xe1 {
        effect_regs(pre, post, r, pre.regs.spec_with_r8(R8::C, pre.regs.spec_r8(R8::C) | (1u8 << 4u8)), 8)
    } else if opcode == 0xe2 {
        effect_regs(pre, post, r, pre.regs.spec_with_r8(R8::D, pre.regs.spec_r8(R8::D) | (1u8 << 4u8)), 8)
    } else if opcode == 0xe3 {
        effect_regs(pre, post, r, pre.regs.spec_with_r8(R8::E, pre.regs.spec_r8(R8::E) | (1u8 << 4u8)), 8)
    } else if opcode == 0xe4 {
        effect_regs(pre, post, r, pre.regs.spec_with_r8(R8::H, pre.regs.spec_r8(R8::H) | (1u8 << 4u8)), 8)
    } else if opcode == 0xe5 {
        effect_regs(pre, post, r, pre.regs.spec_with_r8(R8::L, pre.regs.spec_r8(R8::L) | (1u8 << 4u8)), 8)
    } else if opcode == 0xe6 {
        ({ let hl = pre.regs.spec_r16(R16::HL); let v = spec_read_byte(pre.mmu, hl); if !spec_addr_prohibited(hl) { effect_write(pre, post, r, pre.regs, hl, v | (1u8 << 4u8), 16) } else { effect_fault(pre, post, r, hl) } })
    } else if opcode == 0xe7 {
        effect_regs(pre, post, r, pre.regs.spec_with_r8(R8::A, pre.regs.a | (1u8 << 4u8)), 8)
    } else if opcode == 0xe8 {
        effect_regs(pre, post, r, pre.regs.spec_with_r8(R8::B, pre.regs.spec_r8(R8::B) | (1u8 << 5u8)), 8)
    } else if opcode == 0xe9 {
        effect_regs(pre, post, r, pre.regs.spec_with_r8(R8::C, pre.regs.spec_r8(R8::C) | (1u8 << 5u8)), 8)
    } else if opcode == 0xea {
        effect_regs(pre, post, r, pre.regs.spec_with_r8(R8::D, pre.regs.spec_r8(R8::D) | (1u8 << 5u8)), 8)
    } else if opcode == 0xeb {
        effect_regs(pre, post, r, pre.regs.spec_with_r8(R8::E, pre.regs.spec_r8(R8::E) | (1u8 << 5u8)), 8)
    } else if opcode == 0xec {
        effect_regs(pre, post, r, pre.regs.spec_with_r8(R8::H, pre.regs.spec_r8(R8::H) | (1u8 << 5u8)), 8)
    } else if opcode == 0xed {
        effect_regs(pre, post, r, pre.regs.spec_with_r8(R8::L, pre.regs.spec_r8(R8::L) | (1u8 << 5u8)), 8)
    } else if opcode == 0xee {
        ({ let hl = pre.regs.spec_r16(R16::HL); let v = spec_read_byte(pre.mmu, hl); if !spec_addr_prohibited(hl) { effect_write(pre, post, r, pre.regs, hl, v | (1u8 << 5u8), 16) } else { effect_fault(pre, post, r, hl) } })
    } else if opcode == 0xef {
        effect_regs(pre, post, r, pre.regs.spec_with_r8(R8::A, pre.regs.a | (1u8 << 5u8)), 8)
    } else if opcode == 0xf0 {
        effect_regs(pre, post, r, pre.regs.spec_with_r8(R8::B, pre.regs.spec_r8(R8::B) | (1u8 << 6u8)), 8)
    } else if opcode == 0xf1 {
        effect_regs(pre, post, r, pre.regs.spec_with_r8(R8::C, pre.regs.spec_r8(R8::C) | (1u8 << 6u8)), 8)
    } else if opcode == 0xf2 {
        effect_regs(pre, post, r, pre.regs.spec_with_r8(R8::D, pre.regs.spec_r8(R8::D) | (1u8 << 6u8)), 8)
    } else if opcode == 0xf3 {
        effect_regs(pre, post, r, pre.regs.spec_with_r8(R8::E, pre.regs.spec_r8(R8::E) | (1u8 << 6u8)), 8)
    } else if opcode == 0xf4 {
        effect_regs(pre, post, r, pre.regs.spec_with_r8(R8::H, pre.regs.spec_r8(R8::H) | (1u8 << 6u8)), 8)
    } else if opcode == 0xf5 {
        effect_regs(pre, post, r, pre.regs.spec_with_r8(R8::L, pre.regs.spec_r8(R8::L) | (1u8 << 6u8)), 8)
    } else if opcode == 0xf6 {
        ({ let hl = pre.regs.spec_r16(R16::HL); let v = spec_read_byte(pre.mmu, hl); if !spec_addr_prohibited(hl) { effect_write(pre, post, r, pre.regs, hl, v | (1u8 << 6u8), 16) } else { effect_fault(pre, post, r, hl) } })
    } else if opcode == 0xf7 {
        effect_regs(pre, post, r, pre.regs.spec_with_r8(R8::A, pre.regs.a | (1u8 << 6u8)), 8)
    } else if opcode == 0xf8 {
        effect_regs(pre, post, r, pre.regs.spec_with_r8(R8::B, pre.regs.spec_r8(R8::B) | (1u8 << 7u8)), 8)
    } else if opcode == 0xf9 {
        effect_regs(pre, post, r, pre.regs.spec_with_r8(R8::C, pre.regs.spec_r8(R8::C) | (1u8 << 7u8)), 8)
    } else if opcode == 0xfa {
        effect_regs(pre, post, r, pre.regs.spec_with_r8(R8::D, pre.regs.spec_r8(R8::D) | (1u8 << 7u8)), 8)
    } else if opcode == 0xfb {
        effect_regs(pre, post, r, pre.regs.spec_with_r8(R8::E, pre.regs.spec_r8(R8::E) | (1u8 << 7u8)), 8)
    } else if opcode == 0xfc {
        effect_regs(pre, post, r, pre.regs.spec_with_r8(R8::H, pre.regs.spec_r8(R8::H) | (1u8 << 7u8)), 8)
    } else if opcode == 0xfd {
        effect_regs(pre, post, r, pre.regs.spec_with_r8(R8::L, pre.regs.spec_r8(R8::L) | (1u8 << 7u8)), 8)
    } else if opcode == 0xfe {
        ({ let hl = pre.regs.spec_r16(R16::HL); let v = spec_read_byte(pre.mmu, hl); if !spec_addr_prohibited(hl) { effect_write(pre, post, r, pre.regs, hl, v | (1u8 << 7u8), 16) } else { effect_fault(pre, post, r, hl) } })
    } else if opcode == 0xff {
        effect_regs(pre, post, r, pre.regs.spec_with_r8(R8::A, pre.regs.a | (1u8 << 7u8)), 8)
    } else {
        r == Err::<u8, CpuFault>(CpuFault::IllegalOpcode(opcode)) && post == pre
    }
}
/// What executing a CB-prefixed opcode does, the second fetch already done.
#[verifier::opaque]
pub open spec fn spec_execute_cb_effect(pre: Cpu, opcode: u8, post: Cpu, r: Result<u8, CpuFault>) -> bool {
    if opcode < 0x40 {
        spec_cb_effect_rot(pre, opcode, post, r)
    } else if opcode < 0x80 {
        spec_cb_effect_bit(pre, opcode, post, r)
    } else if opcode < 0xC0 {
        spec_cb_effect_res(pre, opcode, post, r)
    } else {
        spec_cb_effect_set(pre, opcode, post, r)
    }
}

/// The first opcode quadrant: loads, 16-bit arithmetic, relative jumps and the miscellaneous instructions.
pub open spec fn spec_effect_misc_ld(pre: Cpu, opcode: u8, post: Cpu, r: Result<u8, CpuFault>) -> bool {
    if opcode == 0x00 {
        r == Ok::<u8, CpuFault>(4) && post == pre
    } else if opcode == 0x01 {
        (r is Ok <==> spec_imm16_ok(pre)) && (r is Ok ==> effect_regs(pre, post, r, (Registers { pc: wrap16(pre.regs.pc + 2), ..pre.regs }).spec_with_r16(R16::BC, crate::mmu::spec_read_word(pre.mmu, pre.regs.pc)), 12))
    } else if opcode == 0x02 {
        effect_write(pre, post, r, pre.regs, pre.regs.spec_r16(R16::BC), pre.regs.a, 8)
    } else if opcode == 0x03 {
        effect_regs(pre, post, r, pre.regs.spec_with_r16(R16::BC, wrap16(pre.regs.spec_r16(R16::BC) + 1)), 8)
    } else if opcode == 0x04 {
        effect_regs(pre, post, r, (Registers { f: spec_alu_inc(pre.regs.f, pre.regs.spec_r8(R8::B)).1, ..pre.regs.spec_with_r8(R8::B, spec_alu_inc(pre.regs.f, pre.regs.spec_r8(R8::B)).0) }), 4)
    } else if opcode == 0x05 {
        effect_regs(pre, post, r, (Registers { f: spec_alu_dec(pre.regs.f, pre.regs.spec_r8(R8::B)).1, ..pre.regs.spec_with_r8(R8::B, spec_alu_dec(pre.regs.f, pre.regs.spec_r8(R8::B)).0) }), 4)
    } else if opcode == 0x06 {
        ({ let pc = pre.regs.pc; let v = spec_read_byte(pre.mmu, pc); if !spec_addr_prohibited(pc) { effect_regs(pre, post, r, (Registers { pc: wrap16(pre.regs.pc + 1), ..pre.regs.spec_with_r8(R8::B, v) }), 8) } else { effect_fault(pre, post, r, pc) } })
    } else if opcode == 0x07 {
        effect_regs(pre, post, r, (Registers { a: spec_alu_rlc(pre.regs.f, pre.regs.a).0, f: spec_flags(pre.regs.f, false, false, false, pre.regs.a >= 0x80), ..pre.regs }), 4)
    } else if opcode == 0x08 {
        (r is Ok <==> spec_imm16_ok(pre)) && (r is Ok ==> r == Ok::<u8, CpuFault>(20) && post.regs == (Registers { pc: wrap16(pre.regs.pc + 2), ..pre.regs }) && post.ime == pre.ime && post.is_halted == pre.is_halted && (exists|mid: Mmu| #[trigger] spec_write_effect(pre.mmu, mid, crate::mmu::spec_read_word(pre.mmu, pre.regs.pc), (pre.regs.sp % 256) as u8) && spec_write_effect(mid, post.mmu, wrap16(crate::mmu::spec_read_word(pre.mmu, pre.regs.pc) + 1), (pre.regs.sp / 256) as u8)))
    } else if opcode == 0x09 {
        effect_regs(pre, post, r, spec_add_hl(pre.regs, pre.regs.spec_r16(R16::BC)), 8)
    } else if opcode == 0x0a {
        ({ let addr = pre.regs.spec_r16(R16::BC); if !spec_addr_prohibited(addr) { effect_regs(pre, post, r, (Registers { a: spec_read_byte(pre.mmu, addr), ..pre.regs }), 8) } else { effect_fault(pre, post, r, addr) } })
    } else if opcode == 0x0b {
        effect_regs(pre, post, r, pre.regs.spec_with_r16(R16::BC, wrap16(pre.regs.spec_r16(R16::BC) - 1)), 8)
    } else if opcode == 0x0c {
        effect_regs(pre, post, r, (Registers { f: spec_alu_inc(pre.regs.f, pre.regs.spec_r8(R8::C)).1, ..pre.regs.spec_with_r8(R8::C, spec_alu_inc(pre.regs.f, pre.regs.spec_r8(R8::C)).0) }), 4)
    } else if opcode == 0x0d {
        effect_regs(pre, post, r, (Registers { f: spec_alu_dec(pre.regs.f, pre.regs.spec_r8(R8::C)).1, ..pre.regs.spec_with_r8(R8::C, spec_alu_dec(pre.regs.f, pre.regs.spec_r8(R8::C)).0) }), 4)
    } else if opcode == 0x0e {
        ({ let pc = pre.regs.pc; let v = spec_read_byte(pre.mmu, pc); if !spec_addr_prohibited(pc) { effect_regs(pre, post, r, (Registers { pc: wrap16(pre.regs.pc + 1), ..pre.regs.spec_with_r8(R8::C, v) }), 8) } else { effect_fault(pre, post, r, pc) } })
    } else if opcode == 0x0f {
        effect_regs(pre, post, r, (Registers { a: spec_alu_rrc(pre.regs.f, pre.regs.a).0, f: spec_flags(pre.regs.f, false, false, false, pre.regs.a % 2 == 1), ..pre.regs }), 4)
    } else if opcode == 0x10 {
        r == Err::<u8, CpuFault>(CpuFault::Stop) && post == pre
    } else if opcode == 0x11 {
        (r is Ok <==> spec_imm16_ok(pre)) && (r is Ok ==> effect_regs(pre, post, r, (Registers { pc: wrap16(pre.regs.pc + 2), ..pre.regs }).spec_with_r16(R16::DE, crate::mmu::spec_read_word(pre.mmu, pre.regs.pc)), 12))
    } else if opcode == 0x12 {
        effect_write(pre, post, r, pre.regs, pre.regs.spec_r16(R16::DE), pre.regs.a, 8)
    } else if opcode == 0x13 {
        effect_regs(pre, post, r, pre.regs.spec_with_r16(R16::DE, wrap16(pre.regs.spec_r16(R16::DE) + 1)), 8)
    } else if opcode == 0x14 {
        effect_regs(pre, post, r, (Registers { f: spec_alu_inc(pre.regs.f, pre.regs.spec_r8(R8::D)).1, ..pre.regs.spec_with_r8(R8::D, spec_alu_inc(pre.regs.f, pre.regs.spec_r8(R8::D)).0) }), 4)
    } else if opcode == 0x15 {
        effect_regs(pre, post, r, (Registers { f: spec_alu_dec(pre.regs.f, pre.regs.spec_r8(R8::D)).1, ..pre.regs.spec_with_r8(R8::D, spec_alu_dec(pre.regs.f, pre.regs.spec_r8(R8::D)).0) }), 4)
    } else if opcode == 0x16 {
        ({ let pc = pre.regs.pc; let v = spec_read_byte(pre.mmu, pc); if !spec_addr_prohibited(pc) { effect_regs(pre, post, r, (Registers { pc: wrap16(pre.regs.pc + 1), ..pre.regs.spec_with_r8(R8::D, v) }), 8) } else { effect_fault(pre, post, r, pc) } })
    } else if opcode == 0x17 {
        ({ let up = spec_alu_rl(pre.regs.f, pre.regs.a, pre.regs.spec_flag(Flag::C)); effect_regs(pre, post, r, (Registers { a: up.0, f: spec_flags(pre.regs.f, false, false, false, pre.regs.a >= 0x80), ..pre.regs }), 4) })
    } else if opcode == 0x18 {
        ({ let pc = pre.regs.pc; if !spec_addr_prohibited(pc) { effect_regs(pre, post, r, (Registers { pc: wrap16(pc + 1 + spec_i8(spec_read_byte(pre.mmu, pc))), ..pre.regs }), 12) } else { effect_fault(pre, post, r, pc) } })
    } else if opcode == 0x19 {
        effect_regs(pre, post, r, spec_add_hl(pre.regs, pre.regs.spec_r16(R16::DE)), 8)
    } else if opcode == 0x1a {
        ({ let addr = pre.regs.spec_r16(R16::DE); if !spec_addr_prohibited(addr) { effect_regs(pre, post, r, (Registers { a: spec_read_byte(pre.mmu, addr), ..pre.regs }), 8) } else { effect_fault(pre, post, r, addr) } })
    } else if opcode == 0x1b {
        effect_regs(pre, post, r, pre.regs.spec_with_r16(R16::DE, wrap16(pre.regs.spec_r16(R16::DE) - 1)), 8)
    } else if opcode == 0x1c {
        effect_regs(pre, post, r, (Registers { f: spec_alu_inc(pre.regs.f, pre.regs.spec_r8(R8::E)).1, ..pre.regs.spec_with_r8(R8::E, spec_alu_inc(pre.regs.f, pre.regs.spec_r8(R8::E)).0) }), 4)
    } else if opcode == 0x1d {
        effect_regs(pre, post, r, (Registers { f: spec_alu_dec(pre.regs.f, pre.regs.spec_r8(R8::E)).1, ..pre.regs.spec_with_r8(R8::E, spec_alu_dec(pre.regs.f, pre.regs.spec_r8(R8::E)).0) }), 4)
    } else if opcode == 0x1e {
        ({ let pc = pre.regs.pc; let v = spec_read_byte(pre.mmu, pc); if !spec_addr_prohibited(pc) { effect_regs(pre, post, r, (Registers { pc: wrap16(pre.regs.pc + 1), ..pre.regs.spec_with_r8(R8::E, v) }), 8) } else { effect_fault(pre, post, r, pc) } })
    } else if opcode == 0x1f {
        ({ let up = spec_alu_rr(pre.regs.f, pre.regs.a, pre.regs.spec_flag(Flag::C)); effect_regs(pre, post, r, (Registers { a: up.0, f: spec_flags(pre.regs.f, false, false, false, pre.regs.a % 2 == 1), ..pre.regs }), 4) })
    } else if opcode == 0x20 {
        ({ let pc = pre.regs.pc; if !spec_addr_prohibited(pc) { effect_regs(pre, post, r, (Registers { pc: if spec_cc(pre.regs, CC::NZ) { wrap16(pc + 1 + spec_i8(spec_read_byte(pre.mmu, pc))) } else { wrap16(pc + 1) }, ..pre.regs }), if spec_cc(pre.regs, CC::NZ) { 12 } else { 8 }) } else { effect_fault(pre, post, r, pc) } })
    } else if opcode == 0x21 {
        (r is Ok <==> spec_imm16_ok(pre)) && (r is Ok ==> effect_regs(pre, post, r, (Registers { pc: wrap16(pre.regs.pc + 2), ..pre.regs }).spec_with_r16(R16::HL, crate::mmu::spec_read_word(pre.mmu, pre.regs.pc)), 12))
    } else if opcode == 0x22 {
        effect_write(pre, post, r, pre.regs.spec_with_r16(R16::HL, wrap16(pre.regs.spec_r16(R16::HL) + 1)), pre.regs.spec_r16(R16::HL), pre.regs.a, 8)
    } else if opcode == 0x23 {
        effect_regs(pre, post, r, pre.regs.spec_with_r16(R16::HL, wrap16(pre.regs.spec_r16(R16::HL) + 1)), 8)
    } else if opcode == 0x24 {
        effect_regs(pre, post, r, (Registers { f: spec_alu_inc(pre.regs.f, pre.regs.spec_r8(R8::H)).1, ..pre.regs.spec_with_r8(R8::H, spec_alu_inc(pre.regs.f, pre.regs.spec_r8(R8::H)).0) }), 4)
    } else if opcode == 0x25 {
        effect_regs(pre, post, r, (Registers { f: spec_alu_dec(pre.regs.f, pre.regs.spec_r8(R8::H)).1, ..pre.regs.spec_with_r8(R8::H, spec_alu_dec(pre.regs.f, pre.regs.spec_r8(R8::H)).0) }), 4)
    } else if opcode == 0x26 {
        ({ let pc = pre.regs.pc; let v = spec_read_byte(pre.mmu, pc); if !spec_addr_prohibited(pc) { effect_regs(pre, post, r, (Registers { pc: wrap16(pre.regs.pc + 1), ..pre.regs.spec_with_r8(R8::H, v) }), 8) } else { effect_fault(pre, post, r, pc) } })
    } else if opcode == 0x27 {
        effect_regs(pre, post, r, spec_daa(pre.regs), 4)
    } else if opcode == 0x28 {
        ({ let pc = pre.regs.pc; if !spec_addr_prohibited(pc) { effect_regs(pre, post, r, (Registers { pc: if spec_cc(pre.regs, CC::Z) { wrap16(pc + 1 + spec_i8(spec_read_byte(pre.mmu, pc))) } else { wrap16(pc + 1) }, ..pre.regs }), if spec_cc(pre.regs, CC::Z) { 12 } else { 8 }) } else { effect_fault(pre, post, r, pc) } })
    } else if opcode == 0x29 {
        effect_regs(pre, post, r, spec_add_hl(pre.regs, pre.regs.spec_r16(R16::HL)), 8)
    } else if opcode == 0x2a {
        ({ let hl = pre.regs.spec_r16(R16::HL); let v = spec_read_byte(pre.mmu, hl); if !spec_addr_prohibited(hl) { effect_regs(pre, post, r, (Registers { a: v, ..pre.regs }).spec_with_r16(R16::HL, wrap16(pre.regs.spec_r16(R16::HL) + 1)), 8) } else { effect_fault(pre, post, r, hl) } })
    } else if opcode == 0x2b {
        effect_regs(pre, post, r, pre.regs.spec_with_r16(R16::HL, wrap16(pre.regs.spec_r16(R16::HL) - 1)), 8)
    } else if opcode == 0x2c {
        effect_regs(pre, post, r, (Registers { f: spec_alu_inc(pre.regs.f, pre.regs.spec_r8(R8::L)).1, ..pre.regs.spec_with_r8(R8::L, spec_alu_inc(pre.regs.f, pre.regs.spec_r8(R8::L)).0) }), 4)
    } else if opcode == 0x2d {
        effect_regs(pre, post, r, (Registers { f: spec_alu_dec(pre.regs.f, pre.regs.spec_r8(R8::L)).1, ..pre.regs.spec_with_r8(R8::L, spec_alu_dec(pre.regs.f, pre.regs.spec_r8(R8::L)).0) }), 4)
    } else if opcode == 0x2e {
        ({ let pc = pre.regs.pc; let v = spec_read_byte(pre.mmu, pc); if !spec_addr_prohibited(pc) { effect_regs(pre, post, r, (Registers { pc: wrap16(pre.regs.pc + 1), ..pre.regs.spec_with_r8(R8::L, v) }), 8) } else { effect_fault(pre, post, r, pc) } })
    } else if opcode == 0x2f {
        effect_regs(pre, post, r, (Registers { a: (255 - pre.regs.a) as u8, f: spec_flags_nhc(pre.regs.f, true, true, pre.regs.spec_flag(Flag::C)), ..pre.regs }), 4)
    } else if opcode == 0x30 {
        ({ let pc = pre.regs.pc; if !spec_addr_prohibited(pc) { effect_regs(pre, post, r, (Registers { pc: if spec_cc(pre.regs, CC::NC) { wrap16(pc + 1 + spec_i8(spec_read_byte(pre.mmu, pc))) } else { wrap16(pc + 1) }, ..pre.regs }), if spec_cc(pre.regs, CC::NC) { 12 } else { 8 }) } else { effect_fault(pre, post, r, pc) } })
    } else if opcode == 0x31 {
        (r is Ok <==> spec_imm16_ok(pre)) && (r is Ok ==> effect_regs(pre, post, r, (Registers { pc: wrap16(pre.regs.pc + 2), ..pre.regs }).spec_with_r16(R16::SP, crate::mmu::spec_read_word(pre.mmu, pre.regs.pc)), 12))
    } else if opcode == 0x32 {
        effect_write(pre, post, r, pre.regs.spec_with_r16(R16::HL, wrap16(pre.regs.spec_r16(R16::HL) - 1)), pre.regs.spec_r16(R16::HL), pre.regs.a, 8)
    } else if opcode == 0x33 {
        effect_regs(pre, post, r, pre.regs.spec_with_r16(R16::SP, wrap16(pre.regs.spec_r16(R16::SP) + 1)), 8)
    } else if opcode == 0x34 {
        ({ let hl = pre.regs.spec_r16(R16::HL); let v = spec_read_byte(pre.mmu, hl); if !spec_addr_prohibited(hl) { effect_write(pre, post, r, (Registers { f: spec_alu_inc(pre.regs.f, v).1, ..pre.regs }), hl, spec_alu_inc(pre.regs.f, v).0, 12) } else { effect_fault(pre, post, r, hl) } })
    } else if opcode == 0x35 {
        ({ let hl = pre.regs.spec_r16(R16::HL); let v = spec_read_byte(pre.mmu, hl); if !spec_addr_prohibited(hl) { effect_write(pre, post, r, (Registers { f: spec_alu_dec(pre.regs.f, v).1, ..pre.regs }), hl, spec_alu_dec(pre.regs.f, v).0, 12) } else { effect_fault(pre, post, r, hl) } })
    } else if opcode == 0x36 {
        ({ let pc = pre.regs.pc; let v = spec_read_byte(pre.mmu, pc); if !spec_addr_prohibited(pc) { effect_write(pre, post, r, (Registers { pc: wrap16(pc + 1), ..pre.regs }), pre.regs.spec_r16(R16::HL), v, 12) } else { effect_fault(pre, post, r, pc) } })
    } else if opcode == 0x37 {
        effect_regs(pre, post, r, (Registers { f: spec_flags_nhc(pre.regs.f, false, false, true), ..pre.regs }), 4)
    } else if opcode == 0x38 {
        ({ let pc = pre.regs.pc; if !spec_addr_prohibited(pc) { effect_regs(pre, post, r, (Registers { pc: if spec_cc(pre.regs, CC::C) { wrap16(pc + 1 + spec_i8(spec_read_byte(pre.mmu, pc))) } else { wrap16(pc + 1) }, ..pre.regs }), if spec_cc(pre.regs, CC::C) { 12 } else { 8 }) } else { effect_fault(pre, post, r, pc) } })
    } else if opcode == 0x39 {
        effect_regs(pre, post, r, spec_add_hl(pre.regs, pre.regs.spec_r16(R16::SP)), 8)
    } else if opcode == 0x3a {
        ({ let hl = pre.regs.spec_r16(R16::HL); let v = spec_read_byte(pre.mmu, hl); if !spec_addr_prohibited(hl) { effect_regs(pre, post, r, (Registers { a: v, ..pre.regs }).spec_with_r16(R16::HL, wrap16(pre.regs.spec_r16(R16::HL) - 1)), 8) } else { effect_fault(pre, post, r, hl) } })
    } else if opcode == 0x3b {
        effect_regs(pre, post, r, pre.regs.spec_with_r16(R16::SP, wrap16(pre.regs.spec_r16(R16::SP) - 1)), 8)
    } else if opcode == 0x3c {
        effect_regs(pre, post, r, (Registers { f: spec_alu_inc(pre.regs.f, pre.regs.spec_r8(R8::A)).1, ..pre.regs.spec_with_r8(R8::A, spec_alu_inc(pre.regs.f, pre.regs.spec_r8(R8::A)).0) }), 4)
    } else if opcode == 0x3d {
        effect_regs(pre, post, r, (Registers { f: spec_alu_dec(pre.regs.f, pre.regs.spec_r8(R8::A)).1, ..pre.regs.spec_with_r8(R8::A, spec_alu_dec(pre.regs.f, pre.regs.spec_r8(R8::A)).0) }), 4)
    } else if opcode == 0x3e {
        ({ let pc = pre.regs.pc; let v = spec_read_byte(pre.mmu, pc); if !spec_addr_prohibited(pc) { effect_regs(pre, post, r, (Registers { pc: wrap16(pre.regs.pc + 1), ..pre.regs.spec_with_r8(R8::A, v) }), 8) } else { effect_fault(pre, post, r, pc) } })
    } else if opcode == 0x3f {
        effect_regs(pre, post, r, (Registers { f: spec_flags_nhc(pre.regs.f, false, false, !pre.regs.spec_flag(Flag::C)), ..pre.regs }), 4)
    } else {
        r == Err::<u8, CpuFault>(CpuFault::IllegalOpcode(opcode)) && post == pre
    }
}
/// The register-to-register load block, the [HL] loads and HALT.
pub open spec fn spec_effect_ld_block(pre: Cpu, opcode: u8, post: Cpu, r: Result<u8, CpuFault>) -> bool {
    if opcode == 0x40 {
        effect_regs(pre, post, r, pre.regs.spec_with_r8(R8::B, pre.regs.spec_r8(R8::B)), 4)
    } else if opcode == 0x41 {
        effect_regs(pre, post, r, pre.regs.spec_with_r8(R8::B, pre.regs.spec_r8(R8::C)), 4)
    } else if opcode == 0x42 {
        effect_regs(pre, post, r, pre.regs.spec_with_r8(R8::B, pre.regs.spec_r8(R8::D)), 4)
    } else if opcode == 0x43 {
        effect_regs(pre, post, r, pre.regs.spec_with_r8(R8::B, pre.regs.spec_r8(R8::E)), 4)
    } else if opcode == 0x44 {
        effect_regs(pre, post, r, pre.regs.spec_with_r8(R8::B, pre.regs.spec_r8(R8::H)), 4)
    } else if opcode == 0x45 {
        effect_regs(pre, post, r, pre.regs.spec_with_r8(R8::B, pre.regs.spec_r8(R8::L)), 4)
    } else if opcode == 0x46 {
        ({ let hl = pre.regs.spec_r16(R16::HL); let v = spec_read_byte(pre.mmu, hl); if !spec_addr_prohibited(hl) { effect_regs(pre, post, r, pre.regs.spec_with_r8(R8::B, v), 8) } else { effect_fault(pre, post, r, hl) } })
    } else if opcode == 0x47 {
        effect_regs(pre, post, r, pre.regs.spec_with_r8(R8::B, pre.regs.a), 4)
    } else if opcode == 0x48 {
        effect_regs(pre, post, r, pre.regs.spec_with_r8(R8::C, pre.regs.spec_r8(R8::B)), 4)
    } else if opcode == 0x49 {
        effect_regs(pre, post, r, pre.regs.spec_with_r8(R8::C, pre.regs.spec_r8(R8::C)), 4)
    } else if opcode == 0x4a {
        effect_regs(pre, post, r, pre.regs.spec_with_r8(R8::C, pre.regs.spec_r8(R8::D)), 4)
    } else if opcode == 0x4b {
        effect_regs(pre, post, r, pre.regs.spec_with_r8(R8::C, pre.regs.spec_r8(R8::E)), 4)
    } else if opcode == 0x4c {
        effect_regs(pre, post, r, pre.regs.spec_with_r8(R8::C, pre.regs.spec_r8(R8::H)), 4)
    } else if opcode == 0x4d {
        effect_regs(pre, post, r, pre.regs.spec_with_r8(R8::C, pre.regs.spec_r8(R8::L)), 4)
    } else if opcode == 0x4e {
        ({ let hl = pre.regs.spec_r16(R16::HL); let v = spec_read_byte(pre.mmu, hl); if !spec_addr_prohibited(hl) { effect_regs(pre, post, r, pre.regs.spec_with_r8(R8::C, v), 8) } else { effect_fault(pre, post, r, hl) } })
    } else if opcode == 0x4f {
        effect_regs(pre, post, r, pre.regs.spec_with_r8(R8::C, pre.regs.a), 4)
    } else if opcode == 0x50 {
        effect_regs(pre, post, r, pre.regs.spec_with_r8(R8::D, pre.regs.spec_r8(R8::B)), 4)
    } else if opcode == 0x51 {
        effect_regs(pre, post, r, pre.regs.spec_with_r8(R8::D, pre.regs.spec_r8(R8::C)), 4)
    } else if opcode == 0x52 {
        effect_regs(pre, post, r, pre.regs.spec_with_r8(R8::D, pre.regs.spec_r8(R8::D)), 4)
    } else if opcode == 0x53 {
        effect_regs(pre, post, r, pre.regs.spec_with_r8(R8::D, pre.regs.spec_r8(R8::E)), 4)
    } else if opcode == 0x54 {
        effect_regs(pre, post, r, pre.regs.spec_with_r8(R8::D, pre.regs.spec_r8(R8::H)), 4)
    } else if opcode == 0x55 {
        effect_regs(pre, post, r, pre.regs.spec_with_r8(R8::D, pre.regs.spec_r8(R8::L)), 4)
    } else if opcode == 0x56 {
        ({ let hl = pre.regs.spec_r16(R16::HL); let v = spec_read_byte(pre.mmu, hl); if !spec_addr_prohibited(hl) { effect_regs(pre, post, r, pre.regs.spec_with_r8(R8::D, v), 8) } else { effect_fault(pre, post, r, hl) } })
    } else if opcode == 0x57 {
        effect_regs(pre, post, r, pre.regs.spec_with_r8(R8::D, pre.regs.a), 4)
    } else if opcode == 0x58 {
        effect_regs(pre, post, r, pre.regs.spec_with_r8(R8::E, pre.regs.spec_r8(R8::B)), 4)
    } else if opcode == 0x59 {
        effect_regs(pre, post, r, pre.regs.spec_with_r8(R8::E, pre.regs.spec_r8(R8::C)), 4)
    } else if opcode == 0x5a {
        effect_regs(pre, post, r, pre.regs.spec_with_r8(R8::E, pre.regs.spec_r8(R8::D)), 4)
    } else if opcode == 0x5b {
        effect_regs(pre, post, r, pre.regs.spec_with_r8(R8::E, pre.regs.spec_r8(R8::E)), 4)
    } else if opcode == 0x5c {
        effect_regs(pre, post, r, pre.regs.spec_with_r8(R8::E, pre.regs.spec_r8(R8::H)), 4)
    } else if opcode == 0x5d {
        effect_regs(pre, post, r, pre.regs.spec_with_r8(R8::E, pre.regs.spec_r8(R8::L)), 4)
    } else if opcode == 0x5e {
        ({ let hl = pre.regs.spec_r16(R16::HL); let v = spec_read_byte(pre.mmu, hl); if !spec_addr_prohibited(hl) { effect_regs(pre, post, r, pre.regs.spec_with_r8(R8::E, v), 8) } else { effect_fault(pre, post, r, hl) } })
    } else if opcode == 0x5f {
        effect_regs(pre, post, r, pre.regs.spec_with_r8(R8::E, pre.regs.a), 4)
    } else if opcode == 0x60 {
        effect_regs(pre, post, r, pre.regs.spec_with_r8(R8::H, pre.regs.spec_r8(R8::B)), 4)
    } else if opcode == 0x61 {
        effect_regs(pre, post, r, pre.regs.spec_with_r8(R8::H, pre.regs.spec_r8(R8::C)), 4)
    } else if opcode == 0x62 {
        effect_regs(pre, post, r, pre.regs.spec_with_r8(R8::H, pre.regs.spec_r8(R8::D)), 4)
    } else if opcode == 0x63 {
        effect_regs(pre, post, r, pre.regs.spec_with_r8(R8::H, pre.regs.spec_r8(R8::E)), 4)
    } else if opcode == 0x64 {
        effect_regs(pre, post, r, pre.regs.spec_with_r8(R8::H, pre.regs.spec_r8(R8::H)), 4)
    } else if opcode == 0x65 {
        effect_regs(pre, post, r, pre.regs.spec_with_r8(R8::H, pre.regs.spec_r8(R8::L)), 4)
    } else if opcode == 0x66 {
        ({ let hl = pre.regs.spec_r16(R16::HL); let v = spec_read_byte(pre.mmu, hl); if !spec_addr_prohibited(hl) { effect_regs(pre, post, r, pre.regs.spec_with_r8(R8::H, v), 8) } else { effect_fault(pre, post, r, hl) } })
    } else if opcode == 0x67 {
        effect_regs(pre, post, r, pre.regs.spec_with_r8(R8::H, pre.regs.a), 4)
    } else if opcode == 0x68 {
        effect_regs(pre, post, r, pre.regs.spec_with_r8(R8::L, pre.regs.spec_r8(R8::B)), 4)
    } else if opcode == 0x69 {
        effect_regs(pre, post, r, pre.regs.spec_with_r8(R8::L, pre.regs.spec_r8(R8::C)), 4)
    } else if opcode == 0x6a {
        effect_regs(pre, post, r, pre.regs.spec_with_r8(R8::L, pre.regs.spec_r8(R8::D)), 4)
    } else if opcode == 0x6b {
        effect_regs(pre, post, r, pre.regs.spec_with_r8(R8::L, pre.regs.spec_r8(R8::E)), 4)
    } else if opcode == 0x6c {
        effect_regs(pre, post, r, pre.regs.spec_with_r8(R8::L, pre.regs.spec_r8(R8::H)), 4)
    } else if opcode == 0x6d {
        effect_regs(pre, post, r, pre.regs.spec_with_r8(R8::L, pre.regs.spec_r8(R8::L)), 4)
    } else if opcode == 0x6e {
        ({ let hl = pre.regs.spec_r16(R16::HL); let v = spec_read_byte(pre.mmu, hl); if !spec_addr_prohibited(hl) { effect_regs(pre, post, r, pre.regs.spec_with_r8(R8::L, v), 8) } else { effect_fault(pre, post, r, hl) } })
    } else if opcode == 0x6f {
        effect_regs(pre, post, r, pre.regs.spec_with_r8(R8::L, pre.regs.a), 4)
    } else if opcode == 0x70 {
        effect_write(pre, post, r, pre.regs, pre.regs.spec_r16(R16::HL), pre.regs.spec_r8(R8::B), 8)
    } else if opcode == 0x71 {
        effect_write(pre, post, r, pre.regs, pre.regs.spec_r16(R16::HL), pre.regs.spec_r8(R8::C), 8)
    } else if opcode == 0x72 {
        effect_write(pre, post, r, pre.regs, pre.regs.spec_r16(R16::HL), pre.regs.spec_r8(R8::D), 8)
    } else if opcode == 0x73 {
        effect_write(pre, post, r, pre.regs, pre.regs.spec_r16(R16::HL), pre.regs.spec_r8(R8::E), 8)
    } else if opcode == 0x74 {
        effect_write(pre, post, r, pre.regs, pre.regs.spec_r16(R16::HL), pre.regs.spec_r8(R8::H), 8)
    } else if opcode == 0x75 {
        effect_write(pre, post, r, pre.regs, pre.regs.spec_r16(R16::HL), pre.regs.spec_r8(R8::L), 8)
    } else if opcode == 0x76 {
        r == Ok::<u8, CpuFault>(4) && post == (Cpu { is_halted: true, ..pre })
    } else if opcode == 0x77 {
        effect_write(pre, post, r, pre.regs, pre.regs.spec_r16(R16::HL), pre.regs.a, 8)
    } else if opcode == 0x78 {
        effect_regs(pre, post, r, pre.regs.spec_with_r8(R8::A, pre.regs.spec_r8(R8::B)), 4)
    } else if opcode == 0x79 {
        effect_regs(pre, post, r, pre.regs.spec_with_r8(R8::A, pre.regs.spec_r8(R8::C)), 4)
    } else if opcode == 0x7a {
        effect_regs(pre, post, r, pre.regs.spec_with_r8(R8::A, pre.regs.spec_r8(R8::D)), 4)
    } else if opcode == 0x7b {
        effect_regs(pre, post, r, pre.regs.spec_with_r8(R8::A, pre.regs.spec_r8(R8::E)), 4)
    } else if opcode == 0x7c {
        effect_regs(pre, post, r, pre.regs.spec_with_r8(R8::A, pre.regs.spec_r8(R8::H)), 4)
    } else if opcode == 0x7d {
        effect_regs(pre, post, r, pre.regs.spec_with_r8(R8::A, pre.regs.spec_r8(R8::L)), 4)
    } else if opcode == 0x7e {
        ({ let hl = pre.regs.spec_r16(R16::HL); let v = spec_read_byte(pre.mmu, hl); if !spec_addr_prohibited(hl) { effect_regs(pre, post, r, pre.regs.spec_with_r8(R8::A, v), 8) } else { effect_fault(pre, post, r, hl) } })
    } else if opcode == 0x7f {
        effect_regs(pre, post, r, pre.regs.spec_with_r8(R8::A, pre.regs.a), 4)
    } else {
        r == Err::<u8, CpuFault>(CpuFault::IllegalOpcode(opcode)) && post == pre
    }
}
/// The 8-bit arithmetic and logic block.
pub open spec fn spec_effect_alu_block(pre: Cpu, opcode: u8, post: Cpu, r: Result<u8, CpuFault>) -> bool {
    if opcode == 0x80 {
        effect_regs(pre, post, r, spec_alu_add(pre.regs, pre.regs.spec_r8(R8::B), false), 4)
    } else if opcode == 0x81 {
        effect_regs(pre, post, r, spec_alu_add(pre.regs, pre.regs.spec_r8(R8::C), false), 4)
    } else if opcode == 0x82 {
        effect_regs(pre, post, r, spec_alu_add(pre.regs, pre.regs.spec_r8(R8::D), false), 4)
    } else if opcode == 0x83 {
        effect_regs(pre, post, r, spec_alu_add(pre.regs, pre.regs.spec_r8(R8::E), false), 4)
    } else if opcode == 0x84 {
        effect_regs(pre, post, r, spec_alu_add(pre.regs, pre.regs.spec_r8(R8::H), false), 4)
    } else if opcode == 0x85 {
        effect_regs(pre, post, r, spec_alu_add(pre.regs, pre.regs.spec_r8(R8::L), false), 4)
    } else if opcode == 0x86 {
        ({ let hl = pre.regs.spec_r16(R16::HL); let v = spec_read_byte(pre.mmu, hl); if !spec_addr_prohibited(hl) { effect_regs(pre, post, r, spec_alu_add(pre.regs, v, false), 8) } else { effect_fault(pre, post, r, hl) } })
    } else if opcode == 0x87 {
        effect_regs(pre, post, r, spec_alu_add(pre.regs, pre.regs.a, false), 4)
    } else if opcode == 0x88 {
        effect_regs(pre, post, r, spec_alu_add(pre.regs, pre.regs.spec_r8(R8::B), pre.regs.spec_flag(Flag::C)), 4)
    } else if opcode == 0x89 {
        effect_regs(pre, post, r, spec_alu_add(pre.regs, pre.regs.spec_r8(R8::C), pre.regs.spec_flag(Flag::C)), 4)
    } else if opcode == 0x8a {
        effect_regs(pre, post, r, spec_alu_add(pre.regs, pre.regs.spec_r8(R8::D), pre.regs.spec_flag(Flag::C)), 4)
    } else if opcode == 0x8b {
        effect_regs(pre, post, r, spec_alu_add(pre.regs, pre.regs.spec_r8(R8::E), pre.regs.spec_flag(Flag::C)), 4)
    } else if opcode == 0x8c {
        effect_regs(pre, post, r, spec_alu_add(pre.regs, pre.regs.spec_r8(R8::H), pre.regs.spec_flag(Flag::C)), 4)
    } else if opcode == 0x8d {
        effect_regs(pre, post, r, spec_alu_add(pre.regs, pre.regs.spec_r8(R8::L), pre.regs.spec_flag(Flag::C)), 4)
    } else if opcode == 0x8e {
        ({ let hl = pre.regs.spec_r16(R16::HL); let v = spec_read_byte(pre.mmu, hl); if !spec_addr_prohibited(hl) { effect_regs(pre, post, r, spec_alu_add(pre.regs, v, pre.regs.spec_flag(Flag::C)), 8) } else { effect_fault(pre, post, r, hl) } })
    } else if opcode == 0x8f {
        effect_regs(pre, post, r, spec_alu_add(pre.regs, pre.regs.a, pre.regs.spec_flag(Flag::C)), 4)
    } else if opcode == 0x90 {
        effect_regs(pre, post, r, spec_alu_sub(pre.regs, pre.regs.spec_r8(R8::B), false), 4)
    } else if opcode == 0x91 {
        effect_regs(pre, post, r, spec_alu_sub(pre.regs, pre.regs.spec_r8(R8::C), false), 4)
    } else if opcode == 0x92 {
        effect_regs(pre, post, r, spec_alu_sub(pre.regs, pre.regs.spec_r8(R8::D), false), 4)
    } else if opcode == 0x93 {
        effect_regs(pre, post, r, spec_alu_sub(pre.regs, pre.regs.spec_r8(R8::E), false), 4)
    } else if opcode == 0x94 {
        effect_regs(pre, post, r, spec_alu_sub(pre.regs, pre.regs.spec_r8(R8::H), false), 4)
    } else if opcode == 0x95 {
        effect_regs(pre, post, r, spec_alu_sub(pre.regs, pre.regs.spec_r8(R8::L), false), 4)
    } else if opcode == 0x96 {
        ({ let hl = pre.regs.spec_r16(R16::HL); let v = spec_read_byte(pre.mmu, hl); if !spec_addr_prohibited(hl) { effect_regs(pre, post, r, spec_alu_sub(pre.regs, v, false), 8) } else { effect_fault(pre, post, r, hl) } })
    } else if opcode == 0x97 {
        effect_regs(pre, post, r, spec_alu_sub(pre.regs, pre.regs.a, false), 4)
    } else if opcode == 0x98 {
        effect_regs(pre, post, r, spec_alu_sub(pre.regs, pre.regs.spec_r8(R8::B), pre.regs.spec_flag(Flag::C)), 4)
    } else if opcode == 0x99 {
        effect_regs(pre, post, r, spec_alu_sub(pre.regs, pre.regs.spec_r8(R8::C), pre.regs.spec_flag(Flag::C)), 4)
    } else if opcode == 0x9a {
        effect_regs(pre, post, r, spec_alu_sub(pre.regs, pre.regs.spec_r8(R8::D), pre.regs.spec_flag(Flag::C)), 4)
    } else if opcode == 0x9b {
        effect_regs(pre, post, r, spec_alu_sub(pre.regs, pre.regs.spec_r8(R8::E), pre.regs.spec_flag(Flag::C)), 4)
    } else if opcode == 0x9c {
        effect_regs(pre, post, r, spec_alu_sub(pre.regs, pre.regs.spec_r8(R8::H), pre.regs.spec_flag(Flag::C)), 4)
    } else if opcode == 0x9d {
        effect_regs(pre, post, r, spec_alu_sub(pre.regs, pre.regs.spec_r8(R8::L), pre.regs.spec_flag(Flag::C)), 4)
    } else if opcode == 0x9e {
        ({ let hl = pre.regs.spec_r16(R16::HL); let v = spec_read_byte(pre.mmu, hl); if !spec_addr_prohibited(hl) { effect_regs(pre, post, r, spec_alu_sub(pre.regs, v, pre.regs.spec_flag(Flag::C)), 8) } else { effect_fault(pre, post, r, hl) } })
    } else if opcode == 0x9f {
        effect_regs(pre, post, r, spec_alu_sub(pre.regs, pre.regs.a, pre.regs.spec_flag(Flag::C)), 4)
    } else if opcode == 0xa0 {
        effect_regs(pre, post, r, spec_alu_and(pre.regs, pre.regs.spec_r8(R8::B)), 4)
    } else if opcode == 0xa1 {
        effect_regs(pre, post, r, spec_alu_and(pre.regs, pre.regs.spec_r8(R8::C)), 4)
    } else if opcode == 0xa2 {
        effect_regs(pre, post, r, spec_alu_and(pre.regs, pre.regs.spec_r8(R8::D)), 4)
    } else if opcode == 0xa3 {
        effect_regs(pre, post, r, spec_alu_and(pre.regs, pre.regs.spec_r8(R8::E)), 4)
    } else if opcode == 0xa4 {
        effect_regs(pre, post, r, spec_alu_and(pre.regs, pre.regs.spec_r8(R8::H)), 4)
    } else if opcode == 0xa5 {
        effect_regs(pre, post, r, spec_alu_and(pre.regs, pre.regs.spec_r8(R8::L)), 4)
    } else if opcode == 0xa6 {
        ({ let hl = pre.regs.spec_r16(R16::HL); let v = spec_read_byte(pre.mmu, hl); if !spec_addr_prohibited(hl) { effect_regs(pre, post, r, spec_alu_and(pre.regs, v), 8) } else { effect_fault(pre, post, r, hl) } })
    } else if opcode == 0xa7 {
        effect_regs(pre, post, r, spec_alu_and(pre.regs, pre.regs.a), 4)
    } else if opcode == 0xa8 {
        effect_regs(pre, post, r, spec_alu_xor(pre.regs, pre.regs.spec_r8(R8::B)), 4)
    } else if opcode == 0xa9 {
        effect_regs(pre, post, r, spec_alu_xor(pre.regs, pre.regs.spec_r8(R8::C)), 4)
    } else if opcode == 0xaa {
        effect_regs(pre, post, r, spec_alu_xor(pre.regs, pre.regs.spec_r8(R8::D)), 4)
    } else if opcode == 0xab {
        effect_regs(pre, post, r, spec_alu_xor(pre.regs, pre.regs.spec_r8(R8::E)), 4)
    } else if opcode == 0xac {
        effect_regs(pre, post, r, spec_alu_xor(pre.regs, pre.regs.spec_r8(R8::H)), 4)
    } else if opcode == 0xad {
        effect_regs(pre, post, r, spec_alu_xor(pre.regs, pre.regs.spec_r8(R8::L)), 4)
    } else if opcode == 0xae {
        ({ let hl = pre.regs.spec_r16(R16::HL); let v = spec_read_byte(pre.mmu, hl); if !spec_addr_prohibited(hl) { effect_regs(pre, post, r, spec_alu_xor(pre.regs, v), 8) } else { effect_fault(pre, post, r, hl) } })
    } else if opcode == 0xaf {
        effect_regs(pre, post, r, spec_alu_xor(pre.regs, pre.regs.a), 4)
    } else if opcode == 0xb0 {
        effect_regs(pre, post, r, spec_alu_or(pre.regs, pre.regs.spec_r8(R8::B)), 4)
    } else if opcode == 0xb1 {
        effect_regs(pre, post, r, spec_alu_or(pre.regs, pre.regs.spec_r8(R8::C)), 4)
    } else if opcode == 0xb2 {
        effect_regs(pre, post, r, spec_alu_or(pre.regs, pre.regs.spec_r8(R8::D)), 4)
    } else if opcode == 0xb3 {
        effect_regs(pre, post, r, spec_alu_or(pre.regs, pre.regs.spec_r8(R8::E)), 4)
    } else if opcode == 0xb4 {
        effect_regs(pre, post, r, spec_alu_or(pre.regs, pre.regs.spec_r8(R8::H)), 4)
    } else if opcode == 0xb5 {
        effect_regs(pre, post, r, spec_alu_or(pre.regs, pre.regs.spec_r8(R8::L)), 4)
    } else if opcode == 0xb6 {
        ({ let hl = pre.regs.spec_r16(R16::HL); let v = spec_read_byte(pre.mmu, hl); if !spec_addr_prohibited(hl) { effect_regs(pre, post, r, spec_alu_or(pre.regs, v), 8) } else { effect_fault(pre, post, r, hl) } })
    } else if opcode == 0xb7 {
        effect_regs(pre, post, r, spec_alu_or(pre.regs, pre.regs.a), 4)
    } else if opcode == 0xb8 {
        effect_regs(pre, post, r, spec_alu_cp(pre.regs, pre.regs.spec_r8(R8::B)), 4)
    } else if opcode == 0xb9 {
        effect_regs(pre, post, r, spec_alu_cp(pre.regs, pre.regs.spec_r8(R8::C)), 4)
    } else if opcode == 0xba {
        effect_regs(pre, post, r, spec_alu_cp(pre.regs, pre.regs.spec_r8(R8::D)), 4)
    } else if opcode == 0xbb {
        effect_regs(pre, post, r, spec_alu_cp(pre.regs, pre.regs.spec_r8(R8::E)), 4)
    } else if opcode == 0xbc {
        effect_regs(pre, post, r, spec_alu_cp(pre.regs, pre.regs.spec_r8(R8::H)), 4)
    } else if opcode == 0xbd {
        effect_regs(pre, post, r, spec_alu_cp(pre.regs, pre.regs.spec_r8(R8::L)), 4)
    } else if opcode == 0xbe {
        ({ let hl = pre.regs.spec_r16(R16::HL); let v = spec_read_byte(pre.mmu, hl); if !spec_addr_prohibited(hl) { effect_regs(pre, post, r, spec_alu_cp(pre.regs, v), 8) } else { effect_fault(pre, post, r, hl) } })
    } else if opcode == 0xbf {
        effect_regs(pre, post, r, spec_alu_cp(pre.regs, pre.regs.a), 4)
    } else {
        r == Err::<u8, CpuFault>(CpuFault::IllegalOpcode(opcode)) && post == pre
    }
}
/// The zero-conditioned return, the first pop and jumps.
pub open spec fn spec_effect_grp_c0(pre: Cpu, opcode: u8, post: Cpu, r: Result<u8, CpuFault>) -> bool {
    if opcode == 0xc0 {
        (r is Ok <==> (!spec_cc(pre.regs, CC::NZ) || spec_pop_ok(pre))) && (r is Err ==> post == pre) && (!spec_cc(pre.regs, CC::NZ) ==> r == Ok::<u8, CpuFault>(8) && post == pre) && (r is Ok && spec_cc(pre.regs, CC::NZ) ==> effect_regs(pre, post, r, (Registers { pc: crate::mmu::spec_read_word(pre.mmu, pre.regs.sp), sp: wrap16(pre.regs.sp + 2), ..pre.regs }), 20))
    } else if opcode == 0xc1 {
        (r is Ok <==> spec_pop_ok(pre)) && (r is Err ==> post == pre) && (r is Ok ==> effect_regs(pre, post, r, (Registers { sp: wrap16(pre.regs.sp + 2), ..pre.regs }).spec_with_r16(R16::BC, crate::mmu::spec_read_word(pre.mmu, pre.regs.sp)), 12))
    } else if opcode == 0xc2 {
        (r is Ok <==> spec_imm16_ok(pre)) && (r is Ok ==> effect_regs(pre, post, r, (Registers { pc: if spec_cc(pre.regs, CC::NZ) { crate::mmu::spec_read_word(pre.mmu, pre.regs.pc) } else { wrap16(pre.regs.pc + 2) }, ..pre.regs }), if spec_cc(pre.regs, CC::NZ) { 16 } else { 12 }))
    } else if opcode == 0xc3 {
        (r is Ok <==> spec_imm16_ok(pre)) && (r is Ok ==> effect_regs(pre, post, r, (Registers { pc: crate::mmu::spec_read_word(pre.mmu, pre.regs.pc), ..pre.regs }), 16))
    } else {
        r == Err::<u8, CpuFault>(CpuFault::IllegalOpcode(opcode)) && post == pre
    }
}
/// The zero-conditioned call, the first push, immediate add and restart.
pub open spec fn spec_effect_grp_c4(pre: Cpu, opcode: u8, post: Cpu, r: Result<u8, CpuFault>) -> bool {
    if opcode == 0xc4 {
        (r is Ok <==> spec_imm16_ok(pre)) && (r is Ok && spec_cc(pre.regs, CC::NZ) ==> r == Ok::<u8, CpuFault>(24) && post.regs == (Registers { pc: crate::mmu::spec_read_word(pre.mmu, pre.regs.pc), sp: wrap16(pre.regs.sp - 2), ..pre.regs }) && post.ime == pre.ime && post.is_halted == pre.is_halted) && (r is Ok && !spec_cc(pre.regs, CC::NZ) ==> effect_regs(pre, post, r, (Registers { pc: wrap16(pre.regs.pc + 2), ..pre.regs }), 12))
    } else if opcode == 0xc5 {
        r == Ok::<u8, CpuFault>(16) && post.regs == (Registers { sp: wrap16(pre.regs.sp - 2), ..pre.regs }) && post.ime == pre.ime && post.is_halted == pre.is_halted && (exists|mid: Mmu| #[trigger] spec_write_effect(pre.mmu, mid, wrap16(pre.regs.sp - 1), (pre.regs.spec_r16(R16::BC) / 256) as u8) && spec_write_effect(mid, post.mmu, wrap16(pre.regs.sp - 2), (pre.regs.spec_r16(R16::BC) % 256) as u8))
    } else if opcode == 0xc6 {
        ({ let pc = pre.regs.pc; let v = spec_read_byte(pre.mmu, pc); if !spec_addr_prohibited(pc) { effect_regs(pre, post, r, (Registers { pc: wrap16(pre.regs.pc + 1), ..spec_alu_add(pre.regs, v, false) }), 8) } else { effect_fault(pre, post, r, pc) } })
    } else if opcode == 0xc7 {
        r == Ok::<u8, CpuFault>(16) && post.regs == (Registers { pc: spec_rst_addr(RstVec::X00), sp: wrap16(pre.regs.sp - 2), ..pre.regs }) && post.ime == pre.ime && post.is_halted == pre.is_halted
    } else {
        r == Err::<u8, CpuFault>(CpuFault::IllegalOpcode(opcode)) && post == pre
    }
}
/// The zero-set return, plain return, conditional jump and the CB prefix.
pub open spec fn spec_effect_grp_c8(pre: Cpu, opcode: u8, post: Cpu, r: Result<u8, CpuFault>) -> bool {
    if opcode == 0xc8 {
        (r is Ok <==> (!spec_cc(pre.regs, CC::Z) || spec_pop_ok(pre))) && (r is Err ==> post == pre) && (!spec_cc(pre.regs, CC::Z) ==> r == Ok::<u8, CpuFault>(8) && post == pre) && (r is Ok && spec_cc(pre.regs, CC::Z) ==> effect_regs(pre, post, r, (Registers { pc: crate::mmu::spec_read_word(pre.mmu, pre.regs.sp), sp: wrap16(pre.regs.sp + 2), ..pre.regs }), 20))
    } else if opcode == 0xc9 {
        (r is Ok <==> spec_pop_ok(pre)) && (r is Err ==> post == pre) && (r is Ok ==> effect_regs(pre, post, r, (Registers { pc: crate::mmu::spec_read_word(pre.mmu, pre.regs.sp), sp: wrap16(pre.regs.sp + 2), ..pre.regs }), 16))
    } else if opcode == 0xca {
        (r is Ok <==> spec_imm16_ok(pre)) && (r is Ok ==> effect_regs(pre, post, r, (Registers { pc: if spec_cc(pre.regs, CC::Z) { crate::mmu::spec_read_word(pre.mmu, pre.regs.pc) } else { wrap16(pre.regs.pc + 2) }, ..pre.regs }), if spec_cc(pre.regs, CC::Z) { 16 } else { 12 }))
    } else if opcode == 0xcb {
        ({ let pc = pre.regs.pc; if spec_addr_prohibited(pc) { effect_fault(pre, post, r, pc) } else { spec_execute_cb_effect((Cpu { regs: Registers { pc: wrap16(pc + 1), ..pre.regs }, ..pre }), spec_read_byte(pre.mmu, pc), post, r) } })
    } else {
        r == Err::<u8, CpuFault>(CpuFault::IllegalOpcode(opcode)) && post == pre
    }
}
/// The zero-set call, plain call, immediate add-with-carry and restart.
pub open spec fn spec_effect_grp_cc(pre: Cpu, opcode: u8, post: Cpu, r: Result<u8, CpuFault>) -> bool {
    if opcode == 0xcc {
        (r is Ok <==> spec_imm16_ok(pre)) && (r is Ok && spec_cc(pre.regs, CC::Z) ==> r == Ok::<u8, CpuFault>(24) && post.regs == (Registers { pc: crate::mmu::spec_read_word(pre.mmu, pre.regs.pc), sp: wrap16(pre.regs.sp - 2), ..pre.regs }) && post.ime == pre.ime && post.is_halted == pre.is_halted) && (r is Ok && !spec_cc(pre.regs, CC::Z) ==> effect_regs(pre, post, r, (Registers { pc: wrap16(pre.regs.pc + 2), ..pre.regs }), 12))
    } else if opcode == 0xcd {
        (r is Ok <==> spec_imm16_ok(pre)) && (r is Ok ==> r == Ok::<u8, CpuFault>(24) && post.regs == (Registers { pc: crate::mmu::spec_read_word(pre.mmu, pre.regs.pc), sp: wrap16(pre.regs.sp - 2), ..pre.regs }) && post.ime == pre.ime && post.is_halted == pre.is_halted)
    } else if opcode == 0xce {
        ({ let pc = pre.regs.pc; let v = spec_read_byte(pre.mmu, pc); if !spec_addr_prohibited(pc) { effect_regs(pre, post, r, (Registers { pc: wrap16(pre.regs.pc + 1), ..spec_alu_add(pre.regs, v, pre.regs.spec_flag(Flag::C)) }), 8) } else { effect_fault(pre, post, r, pc) } })
    } else if opcode == 0xcf {
        r == Ok::<u8, CpuFault>(16) && post.regs == (Registers { pc: spec_rst_addr(RstVec::X08), sp: wrap16(pre.regs.sp - 2), ..pre.regs }) && post.ime == pre.ime && post.is_halted == pre.is_halted
    } else {
        r == Err::<u8, CpuFault>(CpuFault::IllegalOpcode(opcode)) && post == pre
    }
}
/// The carry-cleared return, pop and jump, and an illegal opcode.
pub open spec fn spec_effect_grp_d0(pre: Cpu, opcode: u8, post: Cpu, r: Result<u8, CpuFault>) -> bool {
    if opcode == 0xd0 {
        (r is Ok <==> (!spec_cc(pre.regs, CC::NC) || spec_pop_ok(pre))) && (r is Err ==> post == pre) && (!spec_cc(pre.regs, CC::NC) ==> r == Ok::<u8, CpuFault>(8) && post == pre) && (r is Ok && spec_cc(pre.regs, CC::NC) ==> effect_regs(pre, post, r, (Registers { pc: crate::mmu::spec_read_word(pre.mmu, pre.regs.sp), sp: wrap16(pre.regs.sp + 2), ..pre.regs }), 20))
    } else if opcode == 0xd1 {
        (r is Ok <==> spec_pop_ok(pre)) && (r is Err ==> post == pre) && (r is Ok ==> effect_regs(pre, post, r, (Registers { sp: wrap16(pre.regs.sp + 2), ..pre.regs }).spec_with_r16(R16::DE, crate::mmu::spec_read_word(pre.mmu, pre.regs.sp)), 12))
    } else if opcode == 0xd2 {
        (r is Ok <==> spec_imm16_ok(pre)) && (r is Ok ==> effect_regs(pre, post, r, (Registers { pc: if spec_cc(pre.regs, CC::NC) { crate::mmu::spec_read_word(pre.mmu, pre.regs.pc) } else { wrap16(pre.regs.pc + 2) }, ..pre.regs }), if spec_cc(pre.regs, CC::NC) { 16 } else { 12 }))
    } else if opcode == 0xd3 {
        r == Err::<u8, CpuFault>(CpuFault::IllegalOpcode(opcode)) && post == pre
    } else {
        r == Err::<u8, CpuFault>(CpuFault::IllegalOpcode(opcode)) && post == pre
    }
}
/// The carry-cleared call, push, immediate subtract and restart.
pub open spec fn spec_effect_grp_d4(pre: Cpu, opcode: u8, post: Cpu, r: Result<u8, CpuFault>) -> bool {
    if opcode == 0xd4 {
        (r is Ok <==> spec_imm16_ok(pre)) && (r is Ok && spec_cc(pre.regs, CC::NC) ==> r == Ok::<u8, CpuFault>(24) && post.regs == (Registers { pc: crate::mmu::spec_read_word(pre.mmu, pre.regs.pc), sp: wrap16(pre.regs.sp - 2), ..pre.regs }) && post.ime == pre.ime && post.is_halted == pre.is_halted) && (r is Ok && !spec_cc(pre.regs, CC::NC) ==> effect_regs(pre, post, r, (Registers { pc: wrap16(pre.regs.pc + 2), ..pre.regs }), 12))
    } else if opcode == 0xd5 {
        r == Ok::<u8, CpuFault>(16) && post.regs == (Registers { sp: wrap16(pre.regs.sp - 2), ..pre.regs }) && post.ime == pre.ime && post.is_halted == pre.is_halted && (exists|mid: Mmu| #[trigger] spec_write_effect(pre.mmu, mid, wrap16(pre.regs.sp - 1), (pre.regs.spec_r16(R16::DE) / 256) as u8) && spec_write_effect(mid, post.mmu, wrap16(pre.regs.sp - 2), (pre.regs.spec_r16(R16::DE) % 256) as u8))
    } else if opcode == 0xd6 {
        ({ let pc = pre.regs.pc; let v = spec_read_byte(pre.mmu, pc); if !spec_addr_prohibited(pc) { effect_regs(pre, post, r, (Registers { pc: wrap16(pre.regs.pc + 1), ..spec_alu_sub(pre.regs, v, false) }), 8) } else { effect_fault(pre, post, r, pc) } })
    } else if opcode == 0xd7 {
        r == Ok::<u8, CpuFault>(16) && post.regs == (Registers { pc: spec_rst_addr(RstVec::X10), sp: wrap16(pre.regs.sp - 2), ..pre.regs }) && post.ime == pre.ime && post.is_halted == pre.is_halted
    } else {
        r == Err::<u8, CpuFault>(CpuFault::IllegalOpcode(opcode)) && post == pre
    }
}
/// The carry-set return, return-with-enable and jump, and an illegal opcode.
pub open spec fn spec_effect_grp_d8(pre: Cpu, opcode: u8, post: Cpu, r: Result<u8, CpuFault>) -> bool {
    if opcode == 0xd8 {
        (r is Ok <==> (!spec_cc(pre.regs, CC::C) || spec_pop_ok(pre))) && (r is Err ==> post == pre) && (!spec_cc(pre.regs, CC::C) ==> r == Ok::<u8, CpuFault>(8) && post == pre) && (r is Ok && spec_cc(pre.regs, CC::C) ==> effect_regs(pre, post, r, (Registers { pc: crate::mmu::spec_read_word(pre.mmu, pre.regs.sp), sp: wrap16(pre.regs.sp + 2), ..pre.regs }), 20))
    } else if opcode == 0xd9 {
        (r is Ok <==> spec_pop_ok(pre)) && (r is Err ==> post == pre) && (r is Ok ==> r == Ok::<u8, CpuFault>(16) && post == (Cpu { regs: Registers { pc: crate::mmu::spec_read_word(pre.mmu, pre.regs.sp), sp: wrap16(pre.regs.sp + 2), ..pre.regs }, ime: ImeState::Enabled, ..pre }))
    } else if opcode == 0xda {
        (r is Ok <==> spec_imm16_ok(pre)) && (r is Ok ==> effect_regs(pre, post, r, (Registers { pc: if spec_cc(pre.regs, CC::C) { crate::mmu::spec_read_word(pre.mmu, pre.regs.pc) } else { wrap16(pre.regs.pc + 2) }, ..pre.regs }), if spec_cc(pre.regs, CC::C) { 16 } else { 12 }))
    } else if opcode == 0xdb {
        r == Err::<u8, CpuFault>(CpuFault::IllegalOpcode(opcode)) && post == pre
    } else {
        r == Err::<u8, CpuFault>(CpuFault::IllegalOpcode(opcode)) && post == pre
    }
}
/// The carry-set call, immediate subtract-with-carry, restart and illegal opcodes.
pub open spec fn spec_effect_grp_dc(pre: Cpu, opcode: u8, post: Cpu, r: Result<u8, CpuFault>) -> bool {
    if opcode == 0xdc {
        (r is Ok <==> spec_imm16_ok(pre)) && (r is Ok && spec_cc(pre.regs, CC::C) ==> r == Ok::<u8, CpuFault>(24) && post.regs == (Registers { pc: crate::mmu::spec_read_word(pre.mmu, pre.regs.pc), sp: wrap16(pre.regs.sp - 2), ..pre.regs }) && post.ime == pre.ime && post.is_halted == pre.is_halted) && (r is Ok && !spec_cc(pre.regs, CC::C) ==> effect_regs(pre, post, r, (Registers { pc: wrap16(pre.regs.pc + 2), ..pre.regs }), 12))
    } else if opcode == 0xdd {
        r == Err::<u8, CpuFault>(CpuFault::IllegalOpcode(opcode)) && post == pre
    } else if opcode == 0xde {
        ({ let pc = pre.regs.pc; let v = spec_read_byte(pre.mmu, pc); if !spec_addr_prohibited(pc) { effect_regs(pre, post, r, (Registers { pc: wrap16(pre.regs.pc + 1), ..spec_alu_sub(pre.regs, v, pre.regs.spec_flag(Flag::C)) }), 8) } else { effect_fault(pre, post, r, pc) } })
    } else if opcode == 0xdf {
        r == Ok::<u8, CpuFault>(16) && post.regs == (Registers { pc: spec_rst_addr(RstVec::X18), sp: wrap16(pre.regs.sp - 2), ..pre.regs }) && post.ime == pre.ime && post.is_halted == pre.is_halted
    } else {
        r == Err::<u8, CpuFault>(CpuFault::IllegalOpcode(opcode)) && post == pre
    }
}
/// Returns, pops, pushes, jumps and calls of the first control half.
pub open spec fn spec_effect_control_lo(pre: Cpu, opcode: u8, post: Cpu, r: Result<u8, CpuFault>) -> bool {
    if opcode < 0xC4 {
        spec_effect_grp_c0(pre, opcode, post, r)
    } else if opcode < 0xC8 {
        spec_effect_grp_c4(pre, opcode, post, r)
    } else if opcode < 0xCC {
        spec_effect_grp_c8(pre, opcode, post, r)
    } else if opcode < 0xD0 {
        spec_effect_grp_cc(pre, opcode, post, r)
    } else if opcode < 0xD4 {
        spec_effect_grp_d0(pre, opcode, post, r)
    } else if opcode < 0xD8 {
        spec_effect_grp_d4(pre, opcode, post, r)
    } else if opcode < 0xDC {
        spec_effect_grp_d8(pre, opcode, post, r)
    } else {
        spec_effect_grp_dc(pre, opcode, post, r)
    }
}
/// The high-page loads, SP arithmetic, interrupt switches, restarts and the illegal opcodes, opcode by opcode.
pub open spec fn spec_effect_control_hi(pre: Cpu, opcode: u8, post: Cpu, r: Result<u8, CpuFault>) -> bool {
    if opcode == 0xe0 {
        ({ let pc = pre.regs.pc; let v = spec_read_byte(pre.mmu, pc); if !spec_addr_prohibited(pc) { effect_write(pre, post, r, (Registers { pc: wrap16(pc + 1), ..pre.regs }), (0xFF00 + v) as u16, pre.regs.a, 12) } else { effect_fault(pre, post, r, pc) } })
    } else if opcode == 0xe1 {
        (r is Ok <==> spec_pop_ok(pre)) && (r is Err ==> post == pre) && (r is Ok ==> effect_regs(pre, post, r, (Registers { sp: wrap16(pre.regs.sp + 2), ..pre.regs }).spec_with_r16(R16::HL, crate::mmu::spec_read_word(pre.mmu, pre.regs.sp)), 12))
    } else if opcode == 0xe2 {
        effect_write(pre, post, r, pre.regs, (0xFF00 + pre.regs.c) as u16, pre.regs.a, 8)
    } else if opcode == 0xe3 {
        r == Err::<u8, CpuFault>(CpuFault::IllegalOpcode(opcode)) && post == pre
    } else if opcode == 0xe4 {
        r == Err::<u8, CpuFault>(CpuFault::IllegalOpcode(opcode)) && post == pre
    } else if opcode == 0xe5 {
        r == Ok::<u8, CpuFault>(16) && post.regs == (Registers { sp: wrap16(pre.regs.sp - 2), ..pre.regs }) && post.ime == pre.ime && post.is_halted == pre.is_halted && (exists|mid: Mmu| #[trigger] spec_write_effect(pre.mmu, mid, wrap16(pre.regs.sp - 1), (pre.regs.spec_r16(R16::HL) / 256) as u8) && spec_write_effect(mid, post.mmu, wrap16(pre.regs.sp - 2), (pre.regs.spec_r16(R16::HL) % 256) as u8))
    } else if opcode == 0xe6 {
        ({ let pc = pre.regs.pc; let v = spec_read_byte(pre.mmu, pc); if !spec_addr_prohibited(pc) { effect_regs(pre, post, r, (Registers { pc: wrap16(pre.regs.pc + 1), ..spec_alu_and(pre.regs, v) }), 8) } else { effect_fault(pre, post, r, pc) } })
    } else if opcode == 0xe7 {
        r == Ok::<u8, CpuFault>(16) && post.regs == (Registers { pc: spec_rst_addr(RstVec::X20), sp: wrap16(pre.regs.sp - 2), ..pre.regs }) && post.ime == pre.ime && post.is_halted == pre.is_halted
    } else if opcode == 0xe8 {
        ({ let pc = pre.regs.pc; let up = spec_add_sp(pre.regs.f, pre.regs.sp, spec_read_byte(pre.mmu, pc)); if !spec_addr_prohibited(pc) { effect_regs(pre, post, r, (Registers { sp: up.0, f: up.1, pc: wrap16(pc + 1), ..pre.regs }), 16) } else { effect_fault(pre, post, r, pc) } })
    } else if opcode == 0xe9 {
        effect_regs(pre, post, r, (Registers { pc: pre.regs.spec_r16(R16::HL), ..pre.regs }), 4)
    } else if opcode == 0xea {
        (r is Ok <==> spec_imm16_ok(pre)) && (r is Ok ==> effect_write(pre, post, r, (Registers { pc: wrap16(pre.regs.pc + 2), ..pre.regs }), crate::mmu::spec_read_word(pre.mmu, pre.regs.pc), pre.regs.a, 16))
    } else if opcode == 0xeb {
        r == Err::<u8, CpuFault>(CpuFault::IllegalOpcode(opcode)) && post == pre
    } else if opcode == 0xec {
        r == Err::<u8, CpuFault>(CpuFault::IllegalOpcode(opcode)) && post == pre
    } else if opcode == 0xed {
        r == Err::<u8, CpuFault>(CpuFault::IllegalOpcode(opcode)) && post == pre
    } else if opcode == 0xee {
        ({ let pc = pre.regs.pc; let v = spec_read_byte(pre.mmu, pc); if !spec_addr_prohibited(pc) { effect_regs(pre, post, r, (Registers { pc: wrap16(pre.regs.pc + 1), ..spec_alu_xor(pre.regs, v) }), 8) } else { effect_fault(pre, post, r, pc) } })
    } else if opcode == 0xef {
        r == Ok::<u8, CpuFault>(16) && post.regs == (Registers { pc: spec_rst_addr(RstVec::X28), sp: wrap16(pre.regs.sp - 2), ..pre.regs }) && post.ime == pre.ime && post.is_halted == pre.is_halted
    } else if opcode == 0xf0 {
        ({ let pc = pre.regs.pc; let v = spec_read_byte(pre.mmu, pc); if !spec_addr_prohibited(pc) { effect_regs(pre, post, r, (Registers { a: spec_read_byte(pre.mmu, (0xFF00 + v) as u16), pc: wrap16(pre.regs.pc + 1), ..pre.regs }), 12) } else { effect_fault(pre, post, r, pc) } })
    } else if opcode == 0xf1 {
        (r is Ok <==> spec_pop_ok(pre)) && (r is Err ==> post == pre) && (r is Ok ==> effect_regs(pre, post, r, (Registers { sp: wrap16(pre.regs.sp + 2), ..pre.regs }).spec_with_r16(R16::AF, crate::mmu::spec_read_word(pre.mmu, pre.regs.sp)), 12))
    } else if opcode == 0xf2 {
        effect_regs(pre, post, r, (Registers { a: spec_read_byte(pre.mmu, (0xFF00 + pre.regs.c) as u16), ..pre.regs }), 8)
    } else if opcode == 0xf3 {
        r == Ok::<u8, CpuFault>(4) && post == (Cpu { ime: ImeState::Disabled, ..pre })
    } else if opcode == 0xf4 {
        r == Err::<u8, CpuFault>(CpuFault::IllegalOpcode(opcode)) && post == pre
    } else if opcode == 0xf5 {
        r == Ok::<u8, CpuFault>(16) && post.regs == (Registers { sp: wrap16(pre.regs.sp - 2), ..pre.regs }) && post.ime == pre.ime && post.is_halted == pre.is_halted && (exists|mid: Mmu| #[trigger] spec_write_effect(pre.mmu, mid, wrap16(pre.regs.sp - 1), (pre.regs.spec_r16(R16::AF) / 256) as u8) && spec_write_effect(mid, post.mmu, wrap16(pre.regs.sp - 2), (pre.regs.spec_r16(R16::AF) % 256) as u8))
    } else if opcode == 0xf6 {
        ({ let pc = pre.regs.pc; let v = spec_read_byte(pre.mmu, pc); if !spec_addr_prohibited(pc) { effect_regs(pre, post, r, (Registers { pc: wrap16(pre.regs.pc + 1), ..spec_alu_or(pre.regs, v) }), 8) } else { effect_fault(pre, post, r, pc) } })
    } else if opcode == 0xf7 {
        r == Ok::<u8, CpuFault>(16) && post.regs == (Registers { pc: spec_rst_addr(RstVec::X30), sp: wrap16(pre.regs.sp - 2), ..pre.regs }) && post.ime == pre.ime && post.is_halted == pre.is_halted
    } else if opcode == 0xf8 {
        ({ let pc = pre.regs.pc; let up = spec_add_sp(pre.regs.f, pre.regs.sp, spec_read_byte(pre.mmu, pc)); if !spec_addr_prohibited(pc) { effect_regs(pre, post, r, (Registers { f: up.1, pc: wrap16(pc + 1), ..pre.regs }).spec_with_r16(R16::HL, up.0), 12) } else { effect_fault(pre, post, r, pc) } })
    } else if opcode == 0xf9 {
        effect_regs(pre, post, r, (Registers { sp: pre.regs.spec_r16(R16::HL), ..pre.regs }), 8)
    } else if opcode == 0xfa {
        (r is Ok <==> spec_imm16_ok(pre) && !spec_addr_prohibited(crate::mmu::spec_read_word(pre.mmu, pre.regs.pc))) && (r is Ok ==> effect_regs(pre, post, r, (Registers { a: spec_read_byte(pre.mmu, crate::mmu::spec_read_word(pre.mmu, pre.regs.pc)), pc: wrap16(pre.regs.pc + 2), ..pre.regs }), 16))
    } else if opcode == 0xfb {
        r == Ok::<u8, CpuFault>(4) && post == (Cpu { ime: ImeState::PendingEnable, ..pre })
    } else if opcode == 0xfc {
        r == Err::<u8, CpuFault>(CpuFault::IllegalOpcode(opcode)) && post == pre
    } else if opcode == 0xfd {
        r == Err::<u8, CpuFault>(CpuFault::IllegalOpcode(opcode)) && post == pre
    } else if opcode == 0xfe {
        ({ let pc = pre.regs.pc; let v = spec_read_byte(pre.mmu, pc); if !spec_addr_prohibited(pc) { effect_regs(pre, post, r, (Registers { pc: wrap16(pre.regs.pc + 1), ..spec_alu_cp(pre.regs, v) }), 8) } else { effect_fault(pre, post, r, pc) } })
    } else if opcode == 0xff {
        r == Ok::<u8, CpuFault>(16) && post.regs == (Registers { pc: spec_rst_addr(RstVec::X38), sp: wrap16(pre.regs.sp - 2), ..pre.regs }) && post.ime == pre.ime && post.is_halted == pre.is_halted
    } else {
        r == Err::<u8, CpuFault>(CpuFault::IllegalOpcode(opcode)) && post == pre
    }
}
/// Jumps, calls, returns, stack operations, immediate arithmetic, the CB
/// prefix and the illegal opcodes.
pub open spec fn spec_effect_control(pre: Cpu, opcode: u8, post: Cpu, r: Result<u8, CpuFault>) -> bool {
    if opcode < 0xE0 {
        spec_effect_control_lo(pre, opcode, post, r)
    } else {
        spec_effect_control_hi(pre, opcode, post, r)
    }
}
/// What executing one opcode does to the whole core: the decode table as a
/// relation between the state before, the state after, and the returned
/// T-cycle count or fault. An instruction faults exactly when it is one of
/// the eleven opcodes the hardware does not have, it is STOP, or one of its
/// operand reads lands in prohibited memory.
#[verifier::opaque]
pub open spec fn spec_execute_effect(pre: Cpu, opcode: u8, post: Cpu, r: Result<u8, CpuFault>) -> bool {
    if opcode < 0x40 {
        spec_effect_misc_ld(pre, opcode, post, r)
    } else if opcode < 0x80 {
        spec_effect_ld_block(pre, opcode, post, r)
    } else if opcode < 0xC0 {
        spec_effect_alu_block(pre, opcode, post, r)
    } else {
        spec_effect_control(pre, opcode, post, r)
    }
}


impl Cpu {
    /// CB-prefixed rotates, shifts and swaps.
    #[verifier::rlimit(100)]
    #[verifier::spinoff_prover]
    fn execute_cb_rot(&mut self, opcode: u8) -> (r: Result<u8, CpuFault>)
        requires
            old(self).wf(),
            0x00 <= opcode <= 0x3f,
        ensures
            final(self).wf(),
            r is Ok ==> (r->Ok_0 % 4 == 0 && 8 <= r->Ok_0 <= 16),
            spec_cb_effect_rot(*old(self), opcode, *final(self), r),
    {
        match opcode {
            0x00 => Ok(self.rlc_r8(R8::B)),
            0x01 => Ok(self.rlc_r8(R8::C)),
            0x02 => Ok(self.rlc_r8(R8::D)),
            0x03 => Ok(self.rlc_r8(R8::E)),
            0x04 => Ok(self.rlc_r8(R8::H)),
            0x05 => Ok(self.rlc_r8(R8::L)),
            0x06 => self.rlc_ref_hl(),
            0x07 => Ok(self.rlc_r8(R8::A)),
            0x08 => Ok(self.rrc_r8(R8::B)),
            0x09 => Ok(self.rrc_r8(R8::C)),
            0x0a => Ok(self.rrc_r8(R8::D)),
            0x0b => Ok(self.rrc_r8(R8::E)),
            0x0c => Ok(self.rrc_r8(R8::H)),
            0x0d => Ok(self.rrc_r8(R8::L)),
            0x0e => self.rrc_ref_hl(),
            0x0f => Ok(self.rrc_r8(R8::A)),
            0x10 => Ok(self.rl_r8(R8::B)),
            0x11 => Ok(self.rl_r8(R8::C)),
            0x12 => Ok(self.rl_r8(R8::D)),
            0x13 => Ok(self.rl_r8(R8::E)),
            0x14 => Ok(self.rl_r8(R8::H)),
            0x15 => Ok(self.rl_r8(R8::L)),
            0x16 => self.rl_ref_hl(),
            0x17 => Ok(self.rl_r8(R8::A)),
            0x18 => Ok(self.rr_r8(R8::B)),
            0x19 => Ok(self.rr_r8(R8::C)),
            0x1a => Ok(self.rr_r8(R8::D)),
            0x1b => Ok(self.rr_r8(R8::E)),
            0x1c => Ok(self.rr_r8(R8::H)),
            0x1d => Ok(self.rr_r8(R8::L)),
            0x1e => self.rr_ref_hl(),
            0x1f => Ok(self.rr_r8(R8::A)),
            0x20 => Ok(self.sla_r8(R8::B)),
            0x21 => Ok(self.sla_r8(R8::C)),
            0x22 => Ok(self.sla_r8(R8::D)),
            0x23 => Ok(self.sla_r8(R8::E)),
            0x24 => Ok(self.sla_r8(R8::H)),
            0x25 => Ok(self.sla_r8(R8::L)),
            0x26 => self.sla_ref_hl(),
            0x27 => Ok(self.sla_r8(R8::A)),
            0x28 => Ok(self.sra_r8(R8::B)),
            0x29 => Ok(self.sra_r8(R8::C)),
            0x2a => Ok(self.sra_r8(R8::D)),
            0x2b => Ok(self.sra_r8(R8::E)),
            0x2c => Ok(self.sra_r8(R8::H)),
            0x2d => Ok(self.sra_r8(R8::L)),
            0x2e => self.sra_ref_hl(),
            0x2f => Ok(self.sra_r8(R8::A)),
            0x30 => Ok(self.swap_r8(R8::B)),
            0x31 => Ok(self.swap_r8(R8::C)),
            0x32 => Ok(self.swap_r8(R8::D)),
            0x33 => Ok(self.swap_r8(R8::E)),
            0x34 => Ok(self.swap_r8(R8::H)),
            0x35 => Ok(self.swap_r8(R8::L)),
            0x36 => self.swap_ref_hl(),
            0x37 => Ok(self.swap_r8(R8::A)),
            0x38 => Ok(self.srl_r8(R8::B)),
            0x39 => Ok(self.srl_r8(R8::C)),
            0x3a => Ok(self.srl_r8(R8::D)),
            0x3b => Ok(self.srl_r8(R8::E)),
            0x3c => Ok(self.srl_r8(R8::H)),
            0x3d => Ok(self.srl_r8(R8::L)),
            0x3e => self.srl_ref_hl(),
            0x3f => Ok(self.srl_r8(R8::A)),
            _ => Err(CpuFault::IllegalOpcode(opcode)),
        }
    }
}

impl Cpu {
    /// CB-prefixed bit tests.
    #[verifier::rlimit(100)]
    #[verifier::spinoff_prover]
    fn execute_cb_bit(&mut self, opcode: u8) -> (r: Result<u8, CpuFault>)
        requires
            old(self).wf(),
            0x40 <= opcode <= 0x7f,
        ensures
            final(self).wf(),
            r is Ok ==> (r->Ok_0 % 4 == 0 && 8 <= r->Ok_0 <= 12),
            spec_cb_effect_bit(*old(self), opcode, *final(self), r),
    {
        match opcode {
            0x40 => Ok(self.bit_u3_r8(0, R8::B)),
            0x41 => Ok(self.bit_u3_r8(0, R8::C)),
            0x42 => Ok(self.bit_u3_r8(0, R8::D)),
            0x43 => Ok(self.bit_u3_r8(0, R8::E)),
            0x44 => Ok(self.bit_u3_r8(0, R8::H)),
            0x45 => Ok(self.bit_u3_r8(0, R8::L)),
            0x46 => self.bit_u3_ref_hl(0),
            0x47 => Ok(self.bit_u3_r8(0, R8::A)),
            0x48 => Ok(self.bit_u3_r8(1, R8::B)),
            0x49 => Ok(self.bit_u3_r8(1, R8::C)),
            0x4a => Ok(self.bit_u3_r8(1, R8::D)),
            0x4b => Ok(self.bit_u3_r8(1, R8::E)),
            0x4c => Ok(self.bit_u3_r8(1, R8::H)),
            0x4d => Ok(self.bit_u3_r8(1, R8::L)),
            0x4e => self.bit_u3_ref_hl(1),
            0x4f => Ok(self.bit_u3_r8(1, R8::A)),
            0x50 => Ok(self.bit_u3_r8(2, R8::B)),
            0x51 => Ok(self.bit_u3_r8(2, R8::C)),
            0x52 => Ok(self.bit_u3_r8(2, R8::D)),
            0x53 => Ok(self.bit_u3_r8(2, R8::E)),
            0x54 => Ok(self.bit_u3_r8(2, R8::H)),
            0x55 => Ok(self.bit_u3_r8(2, R8::L)),
            0x56 => self.bit_u3_ref_hl(2),
            0x57 => Ok(self.bit_u3_r8(2, R8::A)),
            0x58 => Ok(self.bit_u3_r8(3, R8::B)),
            0x59 => Ok(self.bit_u3_r8(3, R8::C)),
            0x5a => Ok(self.bit_u3_r8(3, R8::D)),
            0x5b => Ok(self.bit_u3_r8(3, R8::E)),
            0x5c => Ok(self.bit_u3_r8(3, R8::H)),
            0x5d => Ok(self.bit_u3_r8(3, R8::L)),
            0x5e => self.bit_u3_ref_hl(3),
            0x5f => Ok(self.bit_u3_r8(3, R8::A)),
            0x60 => Ok(self.bit_u3_r8(4, R8::B)),
            0x61 => Ok(self.bit_u3_r8(4, R8::C)),
            0x62 => Ok(self.bit_u3_r8(4, R8::D)),
            0x63 => Ok(self.bit_u3_r8(4, R8::E)),
            0x64 => Ok(self.bit_u3_r8(4, R8::H)),
            0x65 => Ok(self.bit_u3_r8(4, R8::L)),
            0x66 => self.bit_u3_ref_hl(4),
            0x67 => Ok(self.bit_u3_r8(4, R8::A)),
            0x68 => Ok(self.bit_u3_r8(5, R8::B)),
            0x69 => Ok(self.bit_u3_r8(5, R8::C)),
            0x6a => Ok(self.bit_u3_r8(5, R8::D)),
            0x6b => Ok(self.bit_u3_r8(5, R8::E)),
            0x6c => Ok(self.bit_u3_r8(5, R8::H)),
            0x6d => Ok(self.bit_u3_r8(5, R8::L)),
            0x6e => self.bit_u3_ref_hl(5),
            0x6f => Ok(self.bit_u3_r8(5, R8::A)),
            0x70 => Ok(self.bit_u3_r8(6, R8::B)),
            0x71 => Ok(self.bit_u3_r8(6, R8::C)),
            0x72 => Ok(self.bit_u3_r8(6, R8::D)),
            0x73 => Ok(self.bit_u3_r8(6, R8::E)),
            0x74 => Ok(self.bit_u3_r8(6, R8::H)),
            0x75 => Ok(self.bit_u3_r8(6, R8::L)),
            0x76 => self.bit_u3_ref_hl(6),
            0x77 => Ok(self.bit_u3_r8(6, R8::A)),
            0x78 => Ok(self.bit_u3_r8(7, R8::B)),
            0x79 => Ok(self.bit_u3_r8(7, R8::C)),
            0x7a => Ok(self.bit_u3_r8(7, R8::D)),
            0x7b => Ok(self.bit_u3_r8(7, R8::E)),
            0x7c => Ok(self.bit_u3_r8(7, R8::H)),
            0x7d => Ok(self.bit_u3_r8(7, R8::L)),
            0x7e => self.bit_u3_ref_hl(7),
            0x7f => Ok(self.bit_u3_r8(7, R8::A)),
            _ => Err(CpuFault::IllegalOpcode(opcode)),
        }
    }
}

impl Cpu {
    /// CB-prefixed bit clears.
    #[verifier::rlimit(100)]
    #[verifier::spinoff_prover]
    fn execute_cb_res(&mut self, opcode: u8) -> (r: Result<u8, CpuFault>)
        requires
            old(self).wf(),
            0x80 <= opcode <= 0xbf,
        ensures
            final(self).wf(),
            r is Ok ==> (r->Ok_0 % 4 == 0 && 8 <= r->Ok_0 <= 16),
            spec_cb_effect_res(*old(self), opcode, *final(self), r),
    {
        match opcode {
            0x80 => Ok(self.res_u3_r8(0, R8::B)),
            0x81 => Ok(self.res_u3_r8(0, R8::C)),
            0x82 => Ok(self.res_u3_r8(0, R8::D)),
            0x83 => Ok(self.res_u3_r8(0, R8::E)),
            0x84 => Ok(self.res_u3_r8(0, R8::H)),
            0x85 => Ok(self.res_u3_r8(0, R8::L)),
            0x86 => self.res_u3_ref_hl(0),
            0x87 => Ok(self.res_u3_r8(0, R8::A)),
            0x88 => Ok(self.res_u3_r8(1, R8::B)),
            0x89 => Ok(self.res_u3_r8(1, R8::C)),
            0x8a => Ok(self.res_u3_r8(1, R8::D)),
            0x8b => Ok(self.res_u3_r8(1, R8::E)),
            0x8c => Ok(self.res_u3_r8(1, R8::H)),
            0x8d => Ok(self.res_u3_r8(1, R8::L)),
            0x8e => self.res_u3_ref_hl(1),
            0x8f => Ok(self.res_u3_r8(1, R8::A)),
            0x90 => Ok(self.res_u3_r8(2, R8::B)),
            0x91 => Ok(self.res_u3_r8(2, R8::C)),
            0x92 => Ok(self.res_u3_r8(2, R8::D)),
            0x93 => Ok(self.res_u3_r8(2, R8::E)),
            0x94 => Ok(self.res_u3_r8(2, R8::H)),
            0x95 => Ok(self.res_u3_r8(2, R8::L)),
            0x96 => self.res_u3_ref_hl(2),
            0x97 => Ok(self.res_u3_r8(2, R8::A)),
            0x98 => Ok(self.res_u3_r8(3, R8::B)),
            0x99 => Ok(self.res_u3_r8(3, R8::C)),
            0x9a => Ok(self.res_u3_r8(3, R8::D)),
            0x9b => Ok(self.res_u3_r8(3, R8::E)),
            0x9c => Ok(self.res_u3_r8(3, R8::H)),
            0x9d => Ok(self.res_u3_r8(3, R8::L)),
            0x9e => self.res_u3_ref_hl(3),
            0x9f => Ok(self.res_u3_r8(3, R8::A)),
            0xa0 => Ok(self.res_u3_r8(4, R8::B)),
            0xa1 => Ok(self.res_u3_r8(4, R8::C)),
            0xa2 => Ok(self.res_u3_r8(4, R8::D)),
            0xa3 => Ok(self.res_u3_r8(4, R8::E)),
            0xa4 => Ok(self.res_u3_r8(4, R8::H)),
            0xa5 => Ok(self.res_u3_r8(4, R8::L)),
            0xa6 => self.res_u3_ref_hl(4),
            0xa7 => Ok(self.res_u3_r8(4, R8::A)),
            0xa8 => Ok(self.res_u3_r8(5, R8::B)),
            0xa9 => Ok(self.res_u3_r8(5, R8::C)),
            0xaa => Ok(self.res_u3_r8(5, R8::D)),
            0xab => Ok(self.res_u3_r8(5, R8::E)),
            0xac => Ok(self.res_u3_r8(5, R8::H)),
            0xad => Ok(self.res_u3_r8(5, R8::L)),
            0xae => self.res_u3_ref_hl(5),
            0xaf => Ok(self.res_u3_r8(5, R8::A)),
            0xb0 => Ok(self.res_u3_r8(6, R8::B)),
            0xb1 => Ok(self.res_u3_r8(6, R8::C)),
            0xb2 => Ok(self.res_u3_r8(6, R8::D)),
            0xb3 => Ok(self.res_u3_r8(6, R8::E)),
            0xb4 => Ok(self.res_u3_r8(6, R8::H)),
            0xb5 => Ok(self.res_u3_r8(6, R8::L)),
            0xb6 => self.res_u3_ref_hl(6),
            0xb7 => Ok(self.res_u3_r8(6, R8::A)),
            0xb8 => Ok(self.res_u3_r8(7, R8::B)),
            0xb9 => Ok(self.res_u3_r8(7, R8::C)),
            0xba => Ok(self.res_u3_r8(7, R8::D)),
            0xbb => Ok(self.res_u3_r8(7, R8::E)),
            0xbc => Ok(self.res_u3_r8(7, R8::H)),
            0xbd => Ok(self.res_u3_r8(7, R8::L)),
            0xbe => self.res_u3_ref_hl(7),
            0xbf => Ok(self.res_u3_r8(7, R8::A)),
            _ => Err(CpuFault::IllegalOpcode(opcode)),
        }
    }
}

impl Cpu {
    /// CB-prefixed bit sets.
    #[verifier::rlimit(100)]
    #[verifier::spinoff_prover]
    fn execute_cb_set(&mut self, opcode: u8) -> (r: Result<u8, CpuFault>)
        requires
            old(self).wf(),
            0xc0 <= opcode <= 0xff,
        ensures
            final(self).wf(),
            r is Ok ==> (r->Ok_0 % 4 == 0 && 8 <= r->Ok_0 <= 16),
            spec_cb_effect_set(*old(self), opcode, *final(self), r),
    {
        match opcode {
            0xc0 => Ok(self.set_u3_r8(0, R8::B)),
            0xc1 => Ok(self.set_u3_r8(0, R8::C)),
            0xc2 => Ok(self.set_u3_r8(0, R8::D)),
            0xc3 => Ok(self.set_u3_r8(0, R8::E)),
            0xc4 => Ok(self.set_u3_r8(0, R8::H)),
            0xc5 => Ok(self.set_u3_r8(0, R8::L)),
            0xc6 => self.set_u3_ref_hl(0),
            0xc7 => Ok(self.set_u3_r8(0, R8::A)),
            0xc8 => Ok(self.set_u3_r8(1, R8::B)),
            0xc9 => Ok(self.set_u3_r8(1, R8::C)),
            0xca => Ok(self.set_u3_r8(1, R8::D)),
            0xcb => Ok(self.set_u3_r8(1, R8::E)),
            0xcc => Ok(self.set_u3_r8(1, R8::H)),
            0xcd => Ok(self.set_u3_r8(1, R8::L)),
            0xce => self.set_u3_ref_hl(1),
            0xcf => Ok(self.set_u3_r8(1, R8::A)),
            0xd0 => Ok(self.set_u3_r8(2, R8::B)),
            0xd1 => Ok(self.set_u3_r8(2, R8::C)),
            0xd2 => Ok(self.set_u3_r8(2, R8::D)),
            0xd3 => Ok(self.set_u3_r8(2, R8::E)),
            0xd4 => Ok(self.set_u3_r8(2, R8::H)),
            0xd5 => Ok(self.set_u3_r8(2, R8::L)),
            0xd6 => self.set_u3_ref_hl(2),
            0xd7 => Ok(self.set_u3_r8(2, R8::A)),
            0xd8 => Ok(self.set_u3_r8(3, R8::B)),
            0xd9 => Ok(self.set_u3_r8(3, R8::C)),
            0xda => Ok(self.set_u3_r8(3, R8::D)),
            0xdb => Ok(self.set_u3_r8(3, R8::E)),
            0xdc => Ok(self.set_u3_r8(3, R8::H)),
            0xdd => Ok(self.set_u3_r8(3, R8::L)),
            0xde => self.set_u3_ref_hl(3),
            0xdf => Ok(self.set_u3_r8(3, R8::A)),
            0xe0 => Ok(self.set_u3_r8(4, R8::B)),
            0xe1 => Ok(self.set_u3_r8(4, R8::C)),
            0xe2 => Ok(self.set_u3_r8(4, R8::D)),
            0xe3 => Ok(self.set_u3_r8(4, R8::E)),
            0xe4 => Ok(self.set_u3_r8(4, R8::H)),
            0xe5 => Ok(self.set_u3_r8(4, R8::L)),
            0xe6 => self.set_u3_ref_hl(4),
            0xe7 => Ok(self.set_u3_r8(4, R8::A)),
            0xe8 => Ok(self.set_u3_r8(5, R8::B)),
            0xe9 => Ok(self.set_u3_r8(5, R8::C)),
            0xea => Ok(self.set_u3_r8(5, R8::D)),
            0xeb => Ok(self.set_u3_r8(5, R8::E)),
            0xec => Ok(self.set_u3_r8(5, R8::H)),
            0xed => Ok(self.set_u3_r8(5, R8::L)),
            0xee => self.set_u3_ref_hl(5),
            0xef => Ok(self.set_u3_r8(5, R8::A)),
            0xf0 => Ok(self.set_u3_r8(6, R8::B)),
            0xf1 => Ok(self.set_u3_r8(6, R8::C)),
            0xf2 => Ok(self.set_u3_r8(6, R8::D)),
            0xf3 => Ok(self.set_u3_r8(6, R8::E)),
            0xf4 => Ok(self.set_u3_r8(6, R8::H)),
            0xf5 => Ok(self.set_u3_r8(6, R8::L)),
            0xf6 => self.set_u3_ref_hl(6),
            0xf7 => Ok(self.set_u3_r8(6, R8::A)),
            0xf8 => Ok(self.set_u3_r8(7, R8::B)),
            0xf9 => Ok(self.set_u3_r8(7, R8::C)),
            0xfa => Ok(self.set_u3_r8(7, R8::D)),
            0xfb => Ok(self.set_u3_r8(7, R8::E)),
            0xfc => Ok(self.set_u3_r8(7, R8::H)),
            0xfd => Ok(self.set_u3_r8(7, R8::L)),
            0xfe => self.set_u3_ref_hl(7),
            0xff => Ok(self.set_u3_r8(7, R8::A)),
            _ => Err(CpuFault::IllegalOpcode(opcode)),
        }
    }
}

impl Cpu {
    /// Execute the instruction of a CB-prefixed opcode (rotates, shifts and
    /// bit operations) and return the T-cycles it takes, the prefix fetch
    /// included.
    pub fn execute_cb(&mut self, opcode: u8) -> (r: Result<u8, CpuFault>)
        requires
            old(self).wf(),
        ensures
            final(self).wf(),
            r is Ok ==> (r->Ok_0 % 4 == 0 && 8 <= r->Ok_0 <= 16),
            spec_execute_cb_effect(*old(self), opcode, *final(self), r),
    {
        proof {
            reveal(spec_execute_cb_effect);
        }
        if opcode < 0x40 {
            self.execute_cb_rot(opcode)
        } else if opcode < 0x80 {
            self.execute_cb_bit(opcode)
        } else if opcode < 0xC0 {
            self.execute_cb_res(opcode)
        } else {
            self.execute_cb_set(opcode)
        }
    }
}

impl Cpu {
    /// Loads, 16-bit arithmetic, relative jumps and the miscellaneous instructions of the first opcode quadrant.
    #[verifier::rlimit(100)]
    #[verifier::spinoff_prover]
    fn execute_misc_ld(&mut self, opcode: u8) -> (r: Result<u8, CpuFault>)
        requires
            old(self).wf(),
            0x00 <= opcode <= 0x3f,
        ensures
            final(self).wf(),
            r is Ok ==> (r->Ok_0 % 4 == 0 && 4 <= r->Ok_0 <= 24),
            spec_effect_misc_ld(*old(self), opcode, *final(self), r),
    {
        match opcode {
            0x00 => Ok(self.nop()),
            0x01 => self.ld_r16_n16(R16::BC),
            0x02 => Ok(self.ld_ref_r16_a(R16::BC)),
            0x03 => Ok(self.inc_r16(R16::BC)),
            0x04 => Ok(self.inc_r8(R8::B)),
            0x05 => Ok(self.dec_r8(R8::B)),
            0x06 => self.ld_r8_n8(R8::B),
            0x07 => Ok(self.rlca()),
            0x08 => self.ld_n16_sp(),
            0x09 => Ok(self.add_hl_r16(R16::BC)),
            0x0a => self.ld_a_ref_r16(R16::BC),
            0x0b => Ok(self.dec_r16(R16::BC)),
            0x0c => Ok(self.inc_r8(R8::C)),
            0x0d => Ok(self.dec_r8(R8::C)),
            0x0e => self.ld_r8_n8(R8::C),
            0x0f => Ok(self.rrca()),
            0x10 => self.stop(),
            0x11 => self.ld_r16_n16(R16::DE),
            0x12 => Ok(self.ld_ref_r16_a(R16::DE)),
            0x13 => Ok(self.inc_r16(R16::DE)),
            0x14 => Ok(self.inc_r8(R8::D)),
            0x15 => Ok(self.dec_r8(R8::D)),
            0x16 => self.ld_r8_n8(R8::D),
            0x17 => Ok(self.rla()),
            0x18 => self.jr_e8(),
            0x19 => Ok(self.add_hl_r16(R16::DE)),
            0x1a => self.ld_a_ref_r16(R16::DE),
            0x1b => Ok(self.dec_r16(R16::DE)),
            0x1c => Ok(self.inc_r8(R8::E)),
            0x1d => Ok(self.dec_r8(R8::E)),
            0x1e => self.ld_r8_n8(R8::E),
            0x1f => Ok(self.rra()),
            0x20 => self.jr_cc_e8(CC::NZ),
            0x21 => self.ld_r16_n16(R16::HL),
            0x22 => Ok(self.ld_ref_hli_a()),
            0x23 => Ok(self.inc_r16(R16::HL)),
            0x24 => Ok(self.inc_r8(R8::H)),
            0x25 => Ok(self.dec_r8(R8::H)),
            0x26 => self.ld_r8_n8(R8::H),
            0x27 => Ok(self.daa()),
            0x28 => self.jr_cc_e8(CC::Z),
            0x29 => Ok(self.add_hl_r16(R16::HL)),
            0x2a => self.ld_a_ref_hli(),
            0x2b => Ok(self.dec_r16(R16::HL)),
            0x2c => Ok(self.inc_r8(R8::L)),
            0x2d => Ok(self.dec_r8(R8::L)),
            0x2e => self.ld_r8_n8(R8::L),
            0x2f => Ok(self.cpl()),
            0x30 => self.jr_cc_e8(CC::NC),
            0x31 => self.ld_r16_n16(R16::SP),
            0x32 => Ok(self.ld_ref_hld_a()),
            0x33 => Ok(self.inc_r16(R16::SP)),
            0x34 => self.inc_ref_hl(),
            0x35 => self.dec_ref_hl(),
            0x36 => self.ld_ref_hl_n8(),
            0x37 => Ok(self.scf()),
            0x38 => self.jr_cc_e8(CC::C),
            0x39 => Ok(self.add_hl_r16(R16::SP)),
            0x3a => self.ld_a_ref_hld(),
            0x3b => Ok(self.dec_r16(R16::SP)),
            0x3c => Ok(self.inc_r8(R8::A)),
            0x3d => Ok(self.dec_r8(R8::A)),
            0x3e => self.ld_r8_n8(R8::A),
            0x3f => Ok(self.ccf()),
            _ => Err(CpuFault::IllegalOpcode(opcode)),
        }
    }
}

impl Cpu {
    /// The register-to-register load block, [HL] loads and HALT.
    #[verifier::rlimit(100)]
    #[verifier::spinoff_prover]
    fn execute_ld_block(&mut self, opcode: u8) -> (r: Result<u8, CpuFault>)
        requires
            old(self).wf(),
            0x40 <= opcode <= 0x7f,
        ensures
            final(self).wf(),
            r is Ok ==> (r->Ok_0 % 4 == 0 && 4 <= r->Ok_0 <= 24),
            spec_effect_ld_block(*old(self), opcode, *final(self), r),
    {
        match opcode {
            0x40 => Ok(self.ld_r8_r8(R8::B, R8::B)),
            0x41 => Ok(self.ld_r8_r8(R8::B, R8::C)),
            0x42 => Ok(self.ld_r8_r8(R8::B, R8::D)),
            0x43 => Ok(self.ld_r8_r8(R8::B, R8::E)),
            0x44 => Ok(self.ld_r8_r8(R8::B, R8::H)),
            0x45 => Ok(self.ld_r8_r8(R8::B, R8::L)),
            0x46 => self.ld_r8_ref_hl(R8::B),
            0x47 => Ok(self.ld_r8_r8(R8::B, R8::A)),
            0x48 => Ok(self.ld_r8_r8(R8::C, R8::B)),
            0x49 => Ok(self.ld_r8_r8(R8::C, R8::C)),
            0x4a => Ok(self.ld_r8_r8(R8::C, R8::D)),
            0x4b => Ok(self.ld_r8_r8(R8::C, R8::E)),
            0x4c => Ok(self.ld_r8_r8(R8::C, R8::H)),
            0x4d => Ok(self.ld_r8_r8(R8::C, R8::L)),
            0x4e => self.ld_r8_ref_hl(R8::C),
            0x4f => Ok(self.ld_r8_r8(R8::C, R8::A)),
            0x50 => Ok(self.ld_r8_r8(R8::D, R8::B)),
            0x51 => Ok(self.ld_r8_r8(R8::D, R8::C)),
            0x52 => Ok(self.ld_r8_r8(R8::D, R8::D)),
            0x53 => Ok(self.ld_r8_r8(R8::D, R8::E)),
            0x54 => Ok(self.ld_r8_r8(R8::D, R8::H)),
            0x55 => Ok(self.ld_r8_r8(R8::D, R8::L)),
            0x56 => self.ld_r8_ref_hl(R8::D),
            0x57 => Ok(self.ld_r8_r8(R8::D, R8::A)),
            0x58 => Ok(self.ld_r8_r8(R8::E, R8::B)),
            0x59 => Ok(self.ld_r8_r8(R8::E, R8::C)),
            0x5a => Ok(self.ld_r8_r8(R8::E, R8::D)),
            0x5b => Ok(self.ld_r8_r8(R8::E, R8::E)),
            0x5c => Ok(self.ld_r8_r8(R8::E, R8::H)),
            0x5d => Ok(self.ld_r8_r8(R8::E, R8::L)),
            0x5e => self.ld_r8_ref_hl(R8::E),
            0x5f => Ok(self.ld_r8_r8(R8::E, R8::A)),
            0x60 => Ok(self.ld_r8_r8(R8::H, R8::B)),
            0x61 => Ok(self.ld_r8_r8(R8::H, R8::C)),
            0x62 => Ok(self.ld_r8_r8(R8::H, R8::D)),
            0x63 => Ok(self.ld_r8_r8(R8::H, R8::E)),
            0x64 => Ok(self.ld_r8_r8(R8::H, R8::H)),
            0x65 => Ok(self.ld_r8_r8(R8::H, R8::L)),
            0x66 => self.ld_r8_ref_hl(R8::H),
            0x67 => Ok(self.ld_r8_r8(R8::H, R8::A)),
            0x68 => Ok(self.ld_r8_r8(R8::L, R8::B)),
            0x69 => Ok(self.ld_r8_r8(R8::L, R8::C)),
            0x6a => Ok(self.ld_r8_r8(R8::L, R8::D)),
            0x6b => Ok(self.ld_r8_r8(R8::L, R8::E)),
            0x6c => Ok(self.ld_r8_r8(R8::L, R8::H)),
            0x6d => Ok(self.ld_r8_r8(R8::L, R8::L)),
            0x6e => self.ld_r8_ref_hl(R8::L),
            0x6f => Ok(self.ld_r8_r8(R8::L, R8::A)),
            0x70 => Ok(self.ld_ref_hl_r8(R8::B)),
            0x71 => Ok(self.ld_ref_hl_r8(R8::C)),
            0x72 => Ok(self.ld_ref_hl_r8(R8::D)),
            0x73 => Ok(self.ld_ref_hl_r8(R8::E)),
            0x74 => Ok(self.ld_ref_hl_r8(R8::H)),
            0x75 => Ok(self.ld_ref_hl_r8(R8::L)),
            0x76 => Ok(self.halt()),
            0x77 => Ok(self.ld_ref_hl_r8(R8::A)),
            0x78 => Ok(self.ld_r8_r8(R8::A, R8::B)),
            0x79 => Ok(self.ld_r8_r8(R8::A, R8::C)),
            0x7a => Ok(self.ld_r8_r8(R8::A, R8::D)),
            0x7b => Ok(self.ld_r8_r8(R8::A, R8::E)),
            0x7c => Ok(self.ld_r8_r8(R8::A, R8::H)),
            0x7d => Ok(self.ld_r8_r8(R8::A, R8::L)),
            0x7e => self.ld_r8_ref_hl(R8::A),
            0x7f => Ok(self.ld_r8_r8(R8::A, R8::A)),
            _ => Err(CpuFault::IllegalOpcode(opcode)),
        }
    }
}

impl Cpu {
    /// The 8-bit arithmetic and logic block.
    #[verifier::rlimit(100)]
    #[verifier::spinoff_prover]
    fn execute_alu_block(&mut self, opcode: u8) -> (r: Result<u8, CpuFault>)
        requires
            old(self).wf(),
            0x80 <= opcode <= 0xbf,
        ensures
            final(self).wf(),
            r is Ok ==> (r->Ok_0 % 4 == 0 && 4 <= r->Ok_0 <= 24),
            spec_effect_alu_block(*old(self), opcode, *final(self), r),
    {
        match opcode {
            0x80 => Ok(self.add_a_r8(R8::B)),
            0x81 => Ok(self.add_a_r8(R8::C)),
            0x82 => Ok(self.add_a_r8(R8::D)),
            0x83 => Ok(self.add_a_r8(R8::E)),
            0x84 => Ok(self.add_a_r8(R8::H)),
            0x85 => Ok(self.add_a_r8(R8::L)),
            0x86 => self.add_a_ref_hl(),
            0x87 => Ok(self.add_a_r8(R8::A)),
            0x88 => Ok(self.adc_a_r8(R8::B)),
            0x89 => Ok(self.adc_a_r8(R8::C)),
            0x8a => Ok(self.adc_a_r8(R8::D)),
            0x8b => Ok(self.adc_a_r8(R8::E)),
            0x8c => Ok(self.adc_a_r8(R8::H)),
            0x8d => Ok(self.adc_a_r8(R8::L)),
            0x8e => self.adc_a_ref_hl(),
            0x8f => Ok(self.adc_a_r8(R8::A)),
            0x90 => Ok(self.sub_a_r8(R8::B)),
            0x91 => Ok(self.sub_a_r8(R8::C)),
            0x92 => Ok(self.sub_a_r8(R8::D)),
            0x93 => Ok(self.sub_a_r8(R8::E)),
            0x94 => Ok(self.sub_a_r8(R8::H)),
            0x95 => Ok(self.sub_a_r8(R8::L)),
            0x96 => self.sub_a_ref_hl(),
            0x97 => Ok(self.sub_a_r8(R8::A)),
            0x98 => Ok(self.sbc_a_r8(R8::B)),
            0x99 => Ok(self.sbc_a_r8(R8::C)),
            0x9a => Ok(self.sbc_a_r8(R8::D)),
            0x9b => Ok(self.sbc_a_r8(R8::E)),
            0x9c => Ok(self.sbc_a_r8(R8::H)),
            0x9d => Ok(self.sbc_a_r8(R8::L)),
            0x9e => self.sbc_a_ref_hl(),
            0x9f => Ok(self.sbc_a_r8(R8::A)),
            0xa0 => Ok(self.and_a_r8(R8::B)),
            0xa1 => Ok(self.and_a_r8(R8::C)),
            0xa2 => Ok(self.and_a_r8(R8::D)),
            0xa3 => Ok(self.and_a_r8(R8::E)),
            0xa4 => Ok(self.and_a_r8(R8::H)),
            0xa5 => Ok(self.and_a_r8(R8::L)),
            0xa6 => self.and_a_ref_hl(),
            0xa7 => Ok(self.and_a_r8(R8::A)),
            0xa8 => Ok(self.xor_a_r8(R8::B)),
            0xa9 => Ok(self.xor_a_r8(R8::C)),
            0xaa => Ok(self.xor_a_r8(R8::D)),
            0xab => Ok(self.xor_a_r8(R8::E)),
            0xac => Ok(self.xor_a_r8(R8::H)),
            0xad => Ok(self.xor_a_r8(R8::L)),
            0xae => self.xor_a_ref_hl(),
            0xaf => Ok(self.xor_a_r8(R8::A)),
            0xb0 => Ok(self.or_a_r8(R8::B)),
            0xb1 => Ok(self.or_a_r8(R8::C)),
            0xb2 => Ok(self.or_a_r8(R8::D)),
            0xb3 => Ok(self.or_a_r8(R8::E)),
            0xb4 => Ok(self.or_a_r8(R8::H)),
            0xb5 => Ok(self.or_a_r8(R8::L)),
            0xb6 => self.or_a_ref_hl(),
            0xb7 => Ok(self.or_a_r8(R8::A)),
            0xb8 => Ok(self.cp_a_r8(R8::B)),
            0xb9 => Ok(self.cp_a_r8(R8::C)),
            0xba => Ok(self.cp_a_r8(R8::D)),
            0xbb => Ok(self.cp_a_r8(R8::E)),
            0xbc => Ok(self.cp_a_r8(R8::H)),
            0xbd => Ok(self.cp_a_r8(R8::L)),
            0xbe => self.cp_a_ref_hl(),
            0xbf => Ok(self.cp_a_r8(R8::A)),
            _ => Err(CpuFault::IllegalOpcode(opcode)),
        }
    }
}





impl Cpu {
    /// The high-page loads, SP arithmetic, interrupt switches and restarts.
    #[verifier::rlimit(100)]
    #[verifier::spinoff_prover]
    fn execute_control_hi(&mut self, opcode: u8) -> (r: Result<u8, CpuFault>)
        requires
            old(self).wf(),
            0xe0 <= opcode <= 0xff,
        ensures
            final(self).wf(),
            r is Ok ==> (r->Ok_0 % 4 == 0 && 4 <= r->Ok_0 <= 24),
            spec_effect_control_hi(*old(self), opcode, *final(self), r),
    {
        match opcode {
            0xe0 => self.ldh_ref_a8_a(),
            0xe1 => self.pop_r16(R16::HL),
            0xe2 => Ok(self.ldh_ref_c_a()),
            0xe5 => Ok(self.push_r16(R16::HL)),
            0xe6 => self.and_a_n8(),
            0xe7 => Ok(self.rst_vec(RstVec::X20)),
            0xe8 => self.add_sp_e8(),
            0xe9 => Ok(self.jp_hl()),
            0xea => self.ld_ref_n16_a(),
            0xee => self.xor_a_n8(),
            0xef => Ok(self.rst_vec(RstVec::X28)),
            0xf0 => self.ldh_a_ref_a8(),
            0xf1 => self.pop_r16(R16::AF),
            0xf2 => Ok(self.ldh_a_ref_c()),
            0xf3 => Ok(self.di()),
            0xf5 => Ok(self.push_r16(R16::AF)),
            0xf6 => self.or_a_n8(),
            0xf7 => Ok(self.rst_vec(RstVec::X30)),
            0xf8 => self.ld_hl_sp_e8(),
            0xf9 => Ok(self.ld_sp_hl()),
            0xfa => self.ld_a_ref_n16(),
            0xfb => Ok(self.ei()),
            0xfe => self.cp_a_n8(),
            0xff => Ok(self.rst_vec(RstVec::X38)),
            _ => Err(CpuFault::IllegalOpcode(opcode)),
        }
    }
}

impl Cpu {
    /// The zero-conditioned return, the first pop and jumps.
    #[verifier::rlimit(100)]
    #[verifier::spinoff_prover]
    fn execute_grp_c0(&mut self, opcode: u8) -> (r: Result<u8, CpuFault>)
        requires
            old(self).wf(),
            0xc0 <= opcode <= 0xc3,
        ensures
            final(self).wf(),
            r is Ok ==> (r->Ok_0 % 4 == 0 && 4 <= r->Ok_0 <= 24),
            spec_effect_grp_c0(*old(self), opcode, *final(self), r),
    {
        match opcode {
            0xc0 => self.ret_cc(CC::NZ),
            0xc1 => self.pop_r16(R16::BC),
            0xc2 => self.jp_cc_n16(CC::NZ),
            0xc3 => self.jp_n16(),
            _ => Err(CpuFault::IllegalOpcode(opcode)),
        }
    }
}
impl Cpu {
    /// The zero-conditioned call, the first push, immediate add and restart.
    #[verifier::rlimit(100)]
    #[verifier::spinoff_prover]
    fn execute_grp_c4(&mut self, opcode: u8) -> (r: Result<u8, CpuFault>)
        requires
            old(self).wf(),
            0xc4 <= opcode <= 0xc7,
        ensures
            final(self).wf(),
            r is Ok ==> (r->Ok_0 % 4 == 0 && 4 <= r->Ok_0 <= 24),
            spec_effect_grp_c4(*old(self), opcode, *final(self), r),
    {
        match opcode {
            0xc4 => self.call_cc_n16(CC::NZ),
            0xc5 => Ok(self.push_r16(R16::BC)),
            0xc6 => self.add_a_n8(),
            0xc7 => Ok(self.rst_vec(RstVec::X00)),
            _ => Err(CpuFault::IllegalOpcode(opcode)),
        }
    }
}
impl Cpu {
    /// The zero-set return, plain return, conditional jump and the CB prefix.
    #[verifier::rlimit(100)]
    #[verifier::spinoff_prover]
    fn execute_grp_c8(&mut self, opcode: u8) -> (r: Result<u8, CpuFault>)
        requires
            old(self).wf(),
            0xc8 <= opcode <= 0xcb,
        ensures
            final(self).wf(),
            r is Ok ==> (r->Ok_0 % 4 == 0 && 4 <= r->Ok_0 <= 24),
            spec_effect_grp_c8(*old(self), opcode, *final(self), r),
    {
        match opcode {
            0xc8 => self.ret_cc(CC::Z),
            0xc9 => self.ret(),
            0xca => self.jp_cc_n16(CC::Z),
            0xCB => {
                let cb_opcode = match self.fetch_imm8() {
                    Ok(b) => b,
                    Err(f) => {
                        return Err(f);
                    },
                };
                self.execute_cb(cb_opcode)
            },
            _ => Err(CpuFault::IllegalOpcode(opcode)),
        }
    }
}
impl Cpu {
    /// The zero-set call, plain call, immediate add-with-carry and restart.
    #[verifier::rlimit(100)]
    #[verifier::spinoff_prover]
    fn execute_grp_cc(&mut self, opcode: u8) -> (r: Result<u8, CpuFault>)
        requires
            old(self).wf(),
            0xcc <= opcode <= 0xcf,
        ensures
            final(self).wf(),
            r is Ok ==> (r->Ok_0 % 4 == 0 && 4 <= r->Ok_0 <= 24),
            spec_effect_grp_cc(*old(self), opcode, *final(self), r),
    {
        match opcode {
            0xcc => self.call_cc_n16(CC::Z),
            0xcd => self.call_n16(),
            0xce => self.adc_a_n8(),
            0xcf => Ok(self.rst_vec(RstVec::X08)),
            _ => Err(CpuFault::IllegalOpcode(opcode)),
        }
    }
}
impl Cpu {
    /// The carry-cleared return, pop and jump, and an illegal opcode.
    #[verifier::rlimit(100)]
    #[verifier::spinoff_prover]
    fn execute_grp_d0(&mut self, opcode: u8) -> (r: Result<u8, CpuFault>)
        requires
            old(self).wf(),
            0xd0 <= opcode <= 0xd3,
        ensures
            final(self).wf(),
            r is Ok ==> (r->Ok_0 % 4 == 0 && 4 <= r->Ok_0 <= 24),
            spec_effect_grp_d0(*old(self), opcode, *final(self), r),
    {
        match opcode {
            0xd0 => self.ret_cc(CC::NC),
            0xd1 => self.pop_r16(R16::DE),
            0xd2 => self.jp_cc_n16(CC::NC),
            _ => Err(CpuFault::IllegalOpcode(opcode)),
        }
    }
}
impl Cpu {
    /// The carry-cleared call, push, immediate subtract and restart.
    #[verifier::rlimit(100)]
    #[verifier::spinoff_prover]
    fn execute_grp_d4(&mut self, opcode: u8) -> (r: Result<u8, CpuFault>)
        requires
            old(self).wf(),
            0xd4 <= opcode <= 0xd7,
        ensures
            final(self).wf(),
            r is Ok ==> (r->Ok_0 % 4 == 0 && 4 <= r->Ok_0 <= 24),
            spec_effect_grp_d4(*old(self), opcode, *final(self), r),
    {
        match opcode {
            0xd4 => self.call_cc_n16(CC::NC),
            0xd5 => Ok(self.push_r16(R16::DE)),
            0xd6 => self.sub_a_n8(),
            0xd7 => Ok(self.rst_vec(RstVec::X10)),
            _ => Err(CpuFault::IllegalOpcode(opcode)),
        }
    }
}
impl Cpu {
    /// The carry-set return, return-with-enable and jump, and an illegal opcode.
    #[verifier::rlimit(100)]
    #[verifier::spinoff_prover]
    fn execute_grp_d8(&mut self, opcode: u8) -> (r: Result<u8, CpuFault>)
        requires
            old(self).wf(),
            0xd8 <= opcode <= 0xdb,
        ensures
            final(self).wf(),
            r is Ok ==> (r->Ok_0 % 4 == 0 && 4 <= r->Ok_0 <= 24),
            spec_effect_grp_d8(*old(self), opcode, *final(self), r),
    {
        match opcode {
            0xd8 => self.ret_cc(CC::C),
            0xd9 => self.reti(),
            0xda => self.jp_cc_n16(CC::C),
            _ => Err(CpuFault::IllegalOpcode(opcode)),
        }
    }
}
impl Cpu {
    /// The carry-set call, immediate subtract-with-carry, restart and illegal opcodes.
    #[verifier::rlimit(100)]
    #[verifier::spinoff_prover]
    fn execute_grp_dc(&mut self, opcode: u8) -> (r: Result<u8, CpuFault>)
        requires
            old(self).wf(),
            0xdc <= opcode <= 0xdf,
        ensures
            final(self).wf(),
            r is Ok ==> (r->Ok_0 % 4 == 0 && 4 <= r->Ok_0 <= 24),
            spec_effect_grp_dc(*old(self), opcode, *final(self), r),
    {
        match opcode {
            0xdc => self.call_cc_n16(CC::C),
            0xde => self.sbc_a_n8(),
            0xdf => Ok(self.rst_vec(RstVec::X18)),
            _ => Err(CpuFault::IllegalOpcode(opcode)),
        }
    }
}
impl Cpu {
    /// Returns, pops, pushes, jumps and calls of the first control half.
    fn execute_control_lo(&mut self, opcode: u8) -> (r: Result<u8, CpuFault>)
        requires
            old(self).wf(),
            0xc0 <= opcode <= 0xdf,
        ensures
            final(self).wf(),
            r is Ok ==> (r->Ok_0 % 4 == 0 && 4 <= r->Ok_0 <= 24),
            spec_effect_control_lo(*old(self), opcode, *final(self), r),
    {
        if opcode < 0xC4 {
            self.execute_grp_c0(opcode)
        } else if opcode < 0xC8 {
            self.execute_grp_c4(opcode)
        } else if opcode < 0xCC {
            self.execute_grp_c8(opcode)
        } else if opcode < 0xD0 {
            self.execute_grp_cc(opcode)
        } else if opcode < 0xD4 {
            self.execute_grp_d0(opcode)
        } else if opcode < 0xD8 {
            self.execute_grp_d4(opcode)
        } else if opcode < 0xDC {
            self.execute_grp_d8(opcode)
        } else {
            self.execute_grp_dc(opcode)
        }
    }
}

impl Cpu {
    /// Jumps, calls, returns, stack operations, immediate arithmetic and
    /// the CB prefix.
    fn execute_control(&mut self, opcode: u8) -> (r: Result<u8, CpuFault>)
        requires
            old(self).wf(),
            0xC0 <= opcode,
        ensures
            final(self).wf(),
            r is Ok ==> (r->Ok_0 % 4 == 0 && 4 <= r->Ok_0 <= 24),
            spec_effect_control(*old(self), opcode, *final(self), r),
    {
        if opcode < 0xE0 {
            self.execute_control_lo(opcode)
        } else {
            self.execute_control_hi(opcode)
        }
    }
}

impl Cpu {
    /// Execute a single instruction and return the number of T-cycles it
    /// takes. PC points at the byte after the opcode; evaluating the opcode
    /// advances PC further where the instruction has immediate bytes.
    /// Every instruction takes a whole number of machine cycles, between
    /// one and six of them. The opcodes the hardware does not have, and
    /// STOP, are surfaced as faults.
    pub fn execute(&mut self, opcode: u8) -> (r: Result<u8, CpuFault>)
        requires
            old(self).wf(),
        ensures
            final(self).wf(),
            r is Ok ==> (r->Ok_0 % 4 == 0 && 4 <= r->Ok_0 <= 24),
            spec_execute_effect(*old(self), opcode, *final(self), r),
    {
        proof {
            reveal(spec_execute_effect);
        }
        if opcode < 0x40 {
            self.execute_misc_ld(opcode)
        } else if opcode < 0x80 {
            self.execute_ld_block(opcode)
        } else if opcode < 0xC0 {
            self.execute_alu_block(opcode)
        } else {
            self.execute_control(opcode)
        }
    }
}

// ---------------------------------------------------------------------------
// Laws of the accumulator operations on A itself
// ---------------------------------------------------------------------------
/// Every fresh flag byte, of any of the four writing patterns, keeps a zero
/// low nibble of F zero.
pub proof fn lemma_flag_bytes_low_nibble(f0: u8, b1: bool, b2: bool, b3: bool, b4: bool)
    ensures
        f0 & 0x0F == 0 ==> spec_flags(f0, b1, b2, b3, b4) & 0x0F == 0,
        f0 & 0x0F == 0 ==> spec_flags_znh(f0, b1, b2, b3) & 0x0F == 0,
        f0 & 0x0F == 0 ==> spec_flags_zhc(f0, b1, b2, b3) & 0x0F == 0,
        f0 & 0x0F == 0 ==> spec_flags_nhc(f0, b1, b2, b3) & 0x0F == 0,
{
    let z8: u8 = if b1 {
        0x80
    } else {
        0
    };
    let n4: u8 = if b2 {
        0x40
    } else {
        0
    };
    let h2: u8 = if b3 {
        0x20
    } else {
        0
    };
    let c1: u8 = if b4 {
        0x10
    } else {
        0
    };
    let zhc_h: u8 = if b2 {
        0x20
    } else {
        0
    };
    let zhc_c: u8 = if b3 {
        0x10
    } else {
        0
    };
    let nhc_n: u8 = if b1 {
        0x40
    } else {
        0
    };
    let nhc_h: u8 = if b2 {
        0x20
    } else {
        0
    };
    assert(((z8 == 0x80 || z8 == 0) && (n4 == 0x40 || n4 == 0) && (h2 == 0x20 || h2 == 0) && (c1
        == 0x10 || c1 == 0) && (zhc_h == 0x20 || zhc_h == 0) && (zhc_c == 0x10 || zhc_c == 0) && (
    nhc_n == 0x40 || nhc_n == 0) && (nhc_h == 0x20 || nhc_h == 0) && f0 & 0x0F == 0) ==> {
        &&& ((f0 & 0x0F) + z8 + n4 + h2 + c1) as u8 & 0x0F == 0
        &&& ((f0 & 0x1F) + z8 + n4 + h2) as u8 & 0x0F == 0
        &&& ((f0 & 0x4F) + z8 + zhc_h + zhc_c) as u8 & 0x0F == 0
        &&& ((f0 & 0x8F) + nhc_n + nhc_h + zhc_c) as u8 & 0x0F == 0
    }) by (bit_vector);
}

/// SUB A,A leaves A = 0 with Z and N set and H and C clear, for every
/// initial A and flag state.
pub proof fn lemma_sub_a_a(regs: Registers)
    ensures
        spec_alu_sub(regs, regs.a, false).a == 0,
        spec_alu_sub(regs, regs.a, false).spec_flag(Flag::Z),
        spec_alu_sub(regs, regs.a, false).spec_flag(Flag::N),
        !spec_alu_sub(regs, regs.a, false).spec_flag(Flag::H),
        !spec_alu_sub(regs, regs.a, false).spec_flag(Flag::C),
{
    lemma_flags_readback(regs.f, true, true, false, false);
}

/// XOR A,A leaves A = 0 with Z set and N, H and C clear, for every initial
/// A and flag state.
pub proof fn lemma_xor_a_a(regs: Registers)
    ensures
        spec_alu_xor(regs, regs.a).a == 0,
        spec_alu_xor(regs, regs.a).spec_flag(Flag::Z),
        !spec_alu_xor(regs, regs.a).spec_flag(Flag::N),
        !spec_alu_xor(regs, regs.a).spec_flag(Flag::H),
        !spec_alu_xor(regs, regs.a).spec_flag(Flag::C),
{
    let a = regs.a;
    assert(a ^ a == 0) by (bit_vector);
    lemma_flags_readback(regs.f, true, false, false, false);
}

/// OR A,A leaves A unchanged, Z iff A is zero, and N, H and C clear, for
/// every initial A and flag state.
pub proof fn lemma_or_a_a(regs: Registers)
    ensures
        spec_alu_or(regs, regs.a).a == regs.a,
        spec_alu_or(regs, regs.a).spec_flag(Flag::Z) == (regs.a == 0),
        !spec_alu_or(regs, regs.a).spec_flag(Flag::N),
        !spec_alu_or(regs, regs.a).spec_flag(Flag::H),
        !spec_alu_or(regs, regs.a).spec_flag(Flag::C),
{
    let a = regs.a;
    assert(a | a == a) by (bit_vector);
    lemma_flags_readback(regs.f, regs.a == 0, false, false, false);
}

/// AND A,A leaves A unchanged, Z iff A is zero, N clear, H set and C clear,
/// for every initial A and flag state.
pub proof fn lemma_and_a_a(regs: Registers)
    ensures
        spec_alu_and(regs, regs.a).a == regs.a,
        spec_alu_and(regs, regs.a).spec_flag(Flag::Z) == (regs.a == 0),
        !spec_alu_and(regs, regs.a).spec_flag(Flag::N),
        spec_alu_and(regs, regs.a).spec_flag(Flag::H),
        !spec_alu_and(regs, regs.a).spec_flag(Flag::C),
{
    let a = regs.a;
    assert(a & a == a) by (bit_vector);
    lemma_flags_readback(regs.f, regs.a == 0, false, true, false);
}

/// CP A,A leaves A unchanged with Z and N set and H and C clear, for every
/// initial A and flag state.
pub proof fn lemma_cp_a_a(regs: Registers)
    ensures
        spec_alu_cp(regs, regs.a).a == regs.a,
        spec_alu_cp(regs, regs.a).spec_flag(Flag::Z),
        spec_alu_cp(regs, regs.a).spec_flag(Flag::N),
        !spec_alu_cp(regs, regs.a).spec_flag(Flag::H),
        !spec_alu_cp(regs, regs.a).spec_flag(Flag::C),
{
    lemma_flags_readback(regs.f, true, true, false, false);
}

} // verus!
