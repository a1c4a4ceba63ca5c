//! The CPU register file.
//!
//! There are 8 8-bit registers (A, F, B, C, D, E, H, L) and two 16-bit
//! registers (SP and PC). Some instructions pair the 8-bit registers up as
//! 16-bit virtual registers (AF, BC, DE, HL).
//!
//! The A register is the accumulator. The F register is the flags register:
//! its upper 4 bits store the Z, N, H and C flags and its low nibble is
//! always zero; every write that lands in F keeps it so.

use vstd::prelude::*;

verus! {

/// The state of the cpu registers.
#[derive(Debug, Clone, Copy)]
pub struct Registers {
    pub a: u8,
    pub f: u8,
    pub b: u8,
    pub c: u8,
    pub d: u8,
    pub e: u8,
    pub h: u8,
    pub l: u8,
    /// Stack pointer
    pub sp: u16,
    /// Program counter
    pub pc: u16,
}

/// Identifies one of the 8-bit registers
#[derive(Debug, Clone, Copy, PartialEq, Eq, Structural)]
pub enum R8 {
    A,
    B,
    C,
    D,
    E,
    H,
    L,
}

/// Identifies one of the 16-bit registers
#[derive(Debug, Clone, Copy, PartialEq, Eq, Structural)]
pub enum R16 {
    AF,
    BC,
    DE,
    /// Functions as a 16-bit register that can be used to point to addresses in memory.
    HL,
    SP,
}

#[derive(Debug, Clone, Copy, PartialEq, Eq, Structural)]
pub enum Flag {
    /// Set when the result of a math operation is 0, or when two values match while executing the CP instruction
    Z,
    /// Set if subtraction was performed by the last math instruction
    N,
    /// Set if a carry occured from the lower half-byte in the last math operation
    H,
    /// Set if a carry occured from the last math operation, or if register A is the smaller value while executing the CP instruction
    C,
}

/// The bit of the F register that carries the given flag.
pub open spec fn flag_mask(flag: Flag) -> u8 {
    match flag {
        Flag::Z => 0x80,
        Flag::N => 0x40,
        Flag::H => 0x20,
        Flag::C => 0x10,
    }
}

/// The word formed by a high and a low byte.
pub open spec fn word_of(hi: u8, lo: u8) -> u16 {
    (hi * 256 + lo) as u16
}

/// The high byte of a word.
pub open spec fn hi_byte(w: u16) -> u8 {
    (w / 256) as u8
}

/// The low byte of a word.
pub open spec fn lo_byte(w: u16) -> u8 {
    (w % 256) as u8
}

impl Registers {
    /// The value an 8-bit register holds.
    pub open spec fn spec_r8(self, r: R8) -> u8 {
        match r {
            R8::A => self.a,
            R8::B => self.b,
            R8::C => self.c,
            R8::D => self.d,
            R8::E => self.e,
            R8::H => self.h,
            R8::L => self.l,
        }
    }

    /// The register file after writing an 8-bit register.
    pub open spec fn spec_with_r8(self, r: R8, val: u8) -> Registers {
        match r {
            R8::A => Registers { a: val, ..self },
            R8::B => Registers { b: val, ..self },
            R8::C => Registers { c: val, ..self },
            R8::D => Registers { d: val, ..self },
            R8::E => Registers { e: val, ..self },
            R8::H => Registers { h: val, ..self },
            R8::L => Registers { l: val, ..self },
        }
    }

    /// The value a 16-bit register pair holds.
    pub open spec fn spec_r16(self, r: R16) -> u16 {
        match r {
            R16::AF => word_of(self.a, self.f),
            R16::BC => word_of(self.b, self.c),
            R16::DE => word_of(self.d, self.e),
            R16::HL => word_of(self.h, self.l),
            R16::SP => self.sp,
        }
    }

    /// The register file after writing a 16-bit register pair. A write that
    /// lands in F keeps its low nibble zero.
    pub open spec fn spec_with_r16(self, r: R16, word: u16) -> Registers {
        match r {
            R16::AF => Registers { a: hi_byte(word), f: lo_byte(word) & 0xF0, ..self },
            R16::BC => Registers { b: hi_byte(word), c: lo_byte(word), ..self },
            R16::DE => Registers { d: hi_byte(word), e: lo_byte(word), ..self },
            R16::HL => Registers { h: hi_byte(word), l: lo_byte(word), ..self },
            R16::SP => Registers { sp: word, ..self },
        }
    }

    /// Whether a flag is set in F.
    pub open spec fn spec_flag(self, flag: Flag) -> bool {
        self.f & flag_mask(flag) != 0
    }

    /// The F register after writing one flag.
    pub open spec fn spec_with_flag(self, flag: Flag, bit: bool) -> Registers {
        Registers {
            f: if bit {
                self.f | flag_mask(flag)
            } else {
                self.f & !flag_mask(flag)
            },
            ..self
        }
    }

    pub fn create() -> (r: Registers)
        ensures
            r == (Registers { a: 0, f: 0, b: 0, c: 0, d: 0, e: 0, h: 0, l: 0, sp: 0xFFFE, pc: 0 }),
    {
        Registers { a: 0, f: 0, b: 0, c: 0, d: 0, e: 0, h: 0, l: 0, sp: 0xFFFE, pc: 0x000 }
    }

    /// Read the value from an 8-bit register.
    pub fn r8(&self, reg: R8) -> (r: u8)
        ensures
            r == self.spec_r8(reg),
    {
        match reg {
            R8::A => self.a,
            R8::B => self.b,
            R8::C => self.c,
            R8::D => self.d,
            R8::E => self.e,
            R8::H => self.h,
            R8::L => self.l,
        }
    }

    /// Set the value of an 8-bit register.
    pub fn set_r8(&mut self, reg: R8, val: u8)
        ensures
            *final(self) == old(self).spec_with_r8(reg, val),
    {
        match reg {
            R8::A => self.a = val,
            R8::B => self.b = val,
            R8::C => self.c = val,
            R8::D => self.d = val,
            R8::E => self.e = val,
            R8::H => self.h = val,
            R8::L => self.l = val,
        }
    }

    pub fn af(&self) -> (r: u16)
        ensures
            r == self.spec_r16(R16::AF),
    {
        pack_word(self.a, self.f)
    }

    pub fn bc(&self) -> (r: u16)
        ensures
            r == self.spec_r16(R16::BC),
    {
        pack_word(self.b, self.c)
    }

    pub fn de(&self) -> (r: u16)
        ensures
            r == self.spec_r16(R16::DE),
    {
        pack_word(self.d, self.e)
    }

    pub fn hl(&self) -> (r: u16)
        ensures
            r == self.spec_r16(R16::HL),
    {
        pack_word(self.h, self.l)
    }

    pub fn r16(&self, r: R16) -> (w: u16)
        ensures
            w == self.spec_r16(r),
    {
        match r {
            R16::AF => self.af(),
            R16::BC => self.bc(),
            R16::DE => self.de(),
            R16::HL => self.hl(),
            R16::SP => self.sp,
        }
    }

    pub fn set_r16(&mut self, r: R16, word: u16)
        ensures
            *final(self) == old(self).spec_with_r16(r, word),
    {
        let hi = word_hi(word);
        let lo = word_lo(word);
        match r {
            R16::AF => {
                self.a = hi;
                self.f = lo & 0xF0;
            },
            R16::BC => {
                self.b = hi;
                self.c = lo;
            },
            R16::DE => {
                self.d = hi;
                self.e = lo;
            },
            R16::HL => {
                self.h = hi;
                self.l = lo;
            },
            R16::SP => self.sp = word,
        }
    }

    /// Write the AF pair; the low nibble of F is forced to zero.
    pub fn set_af(&mut self, word: u16)
        ensures
            *final(self) == old(self).spec_with_r16(R16::AF, word),
    {
        self.set_r16(R16::AF, word)
    }

    pub fn set_bc(&mut self, word: u16)
        ensures
            *final(self) == old(self).spec_with_r16(R16::BC, word),
    {
        self.set_r16(R16::BC, word)
    }

    pub fn set_de(&mut self, word: u16)
        ensures
            *final(self) == old(self).spec_with_r16(R16::DE, word),
    {
        self.set_r16(R16::DE, word)
    }

    pub fn set_hl(&mut self, word: u16)
        ensures
            *final(self) == old(self).spec_with_r16(R16::HL, word),
    {
        self.set_r16(R16::HL, word)
    }

    pub fn flag(&self, flag: Flag) -> (r: bool)
        ensures
            r == self.spec_flag(flag),
    {
        let mask: u8 = match flag {
            Flag::Z => 0x80,
            Flag::N => 0x40,
            Flag::H => 0x20,
            Flag::C => 0x10,
        };
        (self.f & mask) > 0
    }

    pub fn set_flag(&mut self, flag: Flag, bit: bool)
        ensures
            *final(self) == old(self).spec_with_flag(flag, bit),
    {
        let mask: u8 = match flag {
            Flag::Z => 0x80,
            Flag::N => 0x40,
            Flag::H => 0x20,
            Flag::C => 0x10,
        };
        if bit {
            self.f |= mask;
        } else {
            self.f &= !mask;
        }
    }
}

/// Pack a high and a low byte into a word.
pub fn pack_word(hi: u8, lo: u8) -> (r: u16)
    ensures
        r == word_of(hi, lo),
{
    assert(((hi as u16) << 8) | (lo as u16) == hi as u16 * 256 + lo as u16) by (bit_vector);
    ((hi as u16) << 8) | (lo as u16)
}

/// The high byte of a word.
pub fn word_hi(w: u16) -> (r: u8)
    ensures
        r == hi_byte(w),
{
    assert((w >> 8) == w / 256 && w / 256 < 256) by (bit_vector);
    (w >> 8) as u8
}

/// The low byte of a word.
pub fn word_lo(w: u16) -> (r: u8)
    ensures
        r == lo_byte(w),
{
    assert((w & 0xFF) == w % 256) by (bit_vector);
    (w & 0xFF) as u8
}

/// The low nibble of F is zero after any write that lands in F:
/// a 16-bit write to AF forces it to zero, and a single-flag write
/// only touches the flag's own bit, so a zero low nibble stays zero.
pub proof fn lemma_f_low_nibble_zero(regs: Registers, word: u16, flag: Flag, bit: bool)
    ensures
        regs.spec_with_r16(R16::AF, word).f & 0x0F == 0,
        regs.f & 0x0F == 0 ==> regs.spec_with_flag(flag, bit).f & 0x0F == 0,
        regs.spec_with_flag(flag, bit).f & 0x0F == regs.f & 0x0F,
{
    let lo = lo_byte(word);
    let m = flag_mask(flag);
    let f = regs.f;
    assert(lo & 0xF0 & 0x0F == 0 && (f | 0x80) & 0x0F == f & 0x0F && (f & !0x80) & 0x0F == f & 0x0F
        && (f | 0x40) & 0x0F == f & 0x0F && (f & !0x40) & 0x0F == f & 0x0F && (f | 0x20) & 0x0F == f
        & 0x0F && (f & !0x20) & 0x0F == f & 0x0F && (f | 0x10) & 0x0F == f & 0x0F && (f & !0x10)
        & 0x0F == f & 0x0F) by (bit_vector);
}

} // verus!
