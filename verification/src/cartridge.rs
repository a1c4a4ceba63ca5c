//! Cartridges: fixed-ROM carts and the MBC1 / MBC3 bank controllers, with
//! the MBC3 real-time clock. Writes into ROM space are never memory writes:
//! they are decoded as bank-control commands.

use vstd::prelude::*;

verus! {

/// A 16 KiB ROM bank.
#[derive(Clone)]
pub struct RomBank(pub [u8; 0x4000]);

/// An 8 KiB RAM bank.
#[derive(Clone)]
pub struct RamBank(pub [u8; 0x2000]);

impl RomBank {
    pub fn as_slice(&self) -> (r: &[u8])
        ensures
            r@ == self.0@,
    {
        self.0.as_slice()
    }
}

impl RamBank {
    pub fn as_slice(&self) -> (r: &[u8])
        ensures
            r@ == self.0@,
    {
        self.0.as_slice()
    }
}

/// The number of 16 KiB ROM banks the cartridge header names at offset
/// 0x148: two banks doubled per step.
pub open spec fn spec_num_banks(size_byte: u8) -> int {
    2 * vstd::arithmetic::power2::pow2(size_byte as nat) as int
}

/// The number of 8 KiB RAM banks the header names at offset 0x149.
pub open spec fn spec_num_ram_banks(ram_size_byte: u8) -> int {
    if ram_size_byte == 2 {
        1
    } else if ram_size_byte == 3 {
        4
    } else {
        0
    }
}

/// Whether a ROM image fits a cartridge without a bank controller:
/// exactly 32 KiB.
pub open spec fn spec_rom_ok_no_mbc(rom: Seq<u8>) -> bool {
    rom.len() == 0x8000
}

/// Whether a ROM image fits an MBC1 cartridge: a header the banking code
/// can read, at most 32 banks, and a known RAM size.
pub open spec fn spec_rom_ok_mbc1(rom: Seq<u8>) -> bool {
    &&& rom.len() >= 0x150
    &&& rom[0x148] <= 4
    &&& rom.len() == spec_num_banks(rom[0x148]) * 0x4000
    &&& rom[0x149] <= 3
}

/// Whether a ROM image fits an MBC3 cartridge: up to 2 MiB of ROM and a
/// known RAM size.
pub open spec fn spec_rom_ok_mbc3(rom: Seq<u8>) -> bool {
    &&& rom.len() >= 0x150
    &&& rom[0x148] <= 6
    &&& rom.len() == spec_num_banks(rom[0x148]) * 0x4000
    &&& rom[0x149] <= 3
}

/// Whether the core supports the ROM image: the MBC type byte at 0x147
/// names one of the implemented cartridge kinds and the image fits it.
pub open spec fn spec_rom_supported(rom: Seq<u8>) -> bool {
    &&& rom.len() >= 0x150
    &&& {
        let mbc = rom[0x147];
        if mbc == 0x00 || mbc == 0x08 || mbc == 0x09 {
            spec_rom_ok_no_mbc(rom)
        } else if 0x01 <= mbc <= 0x03 {
            spec_rom_ok_mbc1(rom)
        } else if 0x0F <= mbc <= 0x13 {
            spec_rom_ok_mbc3(rom)
        } else {
            false
        }
    }
}

/// Check whether the core supports a ROM image; `false` for images the
/// emulator would refuse to construct.
pub fn rom_supported(rom: &Vec<u8>) -> (r: bool)
    ensures
        r == spec_rom_supported(rom@),
{
    if rom.len() < 0x150 {
        return false;
    }
    let mbc = rom[0x147];
    if mbc == 0x00 || mbc == 0x08 || mbc == 0x09 {
        rom.len() == 0x8000
    } else if 0x01 <= mbc && mbc <= 0x03 {
        rom[0x148] <= 4 && rom_len_matches(rom) && rom[0x149] <= 3
    } else if 0x0F <= mbc && mbc <= 0x13 {
        rom[0x148] <= 6 && rom_len_matches(rom) && rom[0x149] <= 3
    } else {
        false
    }
}

/// Whether the image's length is what its header's bank count asks for.
fn rom_len_matches(rom: &Vec<u8>) -> (r: bool)
    requires
        rom@.len() >= 0x150,
        rom@[0x148] <= 6,
    ensures
        r == (rom@.len() == spec_num_banks(rom@[0x148]) * 0x4000),
{
    let sz = rom[0x148];
    let banks: usize = 2usize << sz;
    proof {
        let s = sz;
        assert(s <= 6 ==> (2usize << s) == 2 * (if s == 0 {
            1int
        } else if s == 1 {
            2int
        } else if s == 2 {
            4int
        } else if s == 3 {
            8int
        } else if s == 4 {
            16int
        } else if s == 5 {
            32int
        } else {
            64int
        })) by (bit_vector);
        vstd::arithmetic::power2::lemma2_to64();
    }
    rom.len() == banks * 0x4000
}

/// Split a ROM image into its 16 KiB banks.
fn parse_banks(rom: &Vec<u8>) -> (r: Vec<RomBank>)
    requires
        rom@.len() >= 0x150,
        rom@[0x148] <= 6,
        rom@.len() == spec_num_banks(rom@[0x148]) * 0x4000,
    ensures
        r@.len() == spec_num_banks(rom@[0x148]),
        forall|b: int, j: int|
            0 <= b < r@.len() && 0 <= j < 0x4000 ==> #[trigger] r@[b].0[j] == rom@[b * 0x4000 + j],
{
    let sz = rom[0x148];
    let banks: usize = 2usize << sz;
    proof {
        let s = sz;
        assert(s <= 6 ==> (2usize << s) == 2 * (if s == 0 {
            1int
        } else if s == 1 {
            2int
        } else if s == 2 {
            4int
        } else if s == 3 {
            8int
        } else if s == 4 {
            16int
        } else if s == 5 {
            32int
        } else {
            64int
        })) by (bit_vector);
        vstd::arithmetic::power2::lemma2_to64();
    }
    let mut r: Vec<RomBank> = Vec::new();
    let mut b: usize = 0;
    while b < banks
        invariant
            b <= banks,
            banks <= 128,
            banks == spec_num_banks(rom@[0x148]),
            rom@.len() == banks * 0x4000,
            r@.len() == b,
            forall|i: int, j: int|
                0 <= i < b && 0 <= j < 0x4000 ==> #[trigger] r@[i].0[j] == rom@[i * 0x4000 + j],
        decreases banks - b,
    {
        let mut bank = [0u8; 0x4000];
        let mut j: usize = 0;
        while j < 0x4000
            invariant
                j <= 0x4000,
                b < banks,
                banks <= 128,
                rom@.len() == banks * 0x4000,
                forall|k: int| 0 <= k < j ==> #[trigger] bank[k] == rom@[b * 0x4000 + k],
            decreases 0x4000 - j,
        {
            proof {
                assert(b * 0x4000 + j < banks * 0x4000) by (nonlinear_arith)
                    requires
                        b < banks,
                        j < 0x4000,
                        0 <= b,
                        0 <= j,
                ;
            }
            bank[j] = rom[b * 0x4000 + j];
            j += 1;
        }
        r.push(RomBank(bank));
        b += 1;
    }
    r
}

/// The fresh RAM banks a header's RAM-size byte asks for, zero-filled.
fn make_ram_banks(ram_size_byte: u8) -> (r: Vec<RamBank>)
    requires
        ram_size_byte <= 3,
    ensures
        r@.len() == spec_num_ram_banks(ram_size_byte),
        forall|i: int, j: int|
            0 <= i < r@.len() && 0 <= j < 0x2000 ==> #[trigger] r@[i].0[j] == 0,
{
    let n: usize = if ram_size_byte == 2 {
        1
    } else if ram_size_byte == 3 {
        4
    } else {
        0
    };
    let mut r: Vec<RamBank> = Vec::new();
    let mut i: usize = 0;
    while i < n
        invariant
            i <= n,
            r@.len() == i,
            forall|a: int, j: int|
                0 <= a < i && 0 <= j < 0x2000 ==> #[trigger] r@[a].0[j] == 0,
        decreases n - i,
    {
        r.push(RamBank([0; 0x2000]));
        i += 1;
    }
    r
}

// ---------------------------------------------------------------------------
// No MBC
// ---------------------------------------------------------------------------
/// Small games of not more than 32 KiB ROM do not require an MBC chip for
/// ROM banking: the ROM is directly mapped at 0x0000-0x7FFF, and up to
/// 8 KiB of RAM may sit at 0xA000-0xBFFF.
pub struct NoMbc {
    pub rom: [u8; 0x8000],
    pub ext_ram: [u8; 0x2000],
}

/// What a read from a NoMbc cartridge returns.
pub open spec fn spec_no_mbc_read(c: NoMbc, addr: u16) -> u8 {
    if addr < 0x8000 {
        c.rom[addr as int]
    } else {
        c.ext_ram[addr - 0xA000]
    }
}

/// What a write to a NoMbc cartridge does: writes to the ROM range are
/// ignored, writes to the RAM range land in RAM.
pub open spec fn spec_no_mbc_write_effect(c: NoMbc, d: NoMbc, addr: u16, byte: u8) -> bool {
    if addr < 0x8000 {
        d == c
    } else {
        d.rom == c.rom && d.ext_ram@ == c.ext_ram@.update(addr - 0xA000, byte)
    }
}

impl NoMbc {
    pub fn from_game_rom(rom: &Vec<u8>) -> (r: NoMbc)
        requires
            spec_rom_ok_no_mbc(rom@),
        ensures
            forall|j: int| 0 <= j < 0x8000 ==> #[trigger] r.rom[j] == rom@[j],
            forall|j: int| 0 <= j < 0x2000 ==> #[trigger] r.ext_ram[j] == 0,
    {
        let mut cart_rom = [0u8; 0x8000];
        let mut j: usize = 0;
        while j < 0x8000
            invariant
                j <= 0x8000,
                rom@.len() == 0x8000,
                forall|k: int| 0 <= k < j ==> #[trigger] cart_rom[k] == rom@[k],
            decreases 0x8000 - j,
        {
            cart_rom[j] = rom[j];
            j += 1;
        }
        NoMbc { rom: cart_rom, ext_ram: [0; 0x2000] }
    }

}

// ---------------------------------------------------------------------------
// MBC1
// ---------------------------------------------------------------------------
/// MBC1: up to 32 banks of 16 KiB ROM and up to 4 banks of 8 KiB RAM, with
/// a RAM-enable latch and selected bank indices.
pub struct Mbc1 {
    pub rom_banks: Vec<RomBank>,
    pub rom_bank_idx: usize,
    pub ram_banks: Vec<RamBank>,
    pub ram_bank_idx: usize,
    pub ram_enable: bool,
}

impl Mbc1 {
    /// The banks exist and the selected indices lie in the ranges their
    /// 5-bit and 2-bit select registers allow.
    pub open spec fn wf(self) -> bool {
        &&& 2 <= self.rom_banks@.len() <= 64
        &&& 1 <= self.rom_bank_idx < 32
        &&& self.ram_bank_idx < 4
        &&& self.ram_banks@.len() <= 4
    }
}

/// What a read from an MBC1 cartridge returns. Reads below 0x4000 always
/// return bank 0; reads in [0x4000, 0x8000) return the selected bank, the
/// bank number reduced modulo the bank count as the hardware masks it; RAM
/// reads with RAM disabled or an absent bank return 0xFF.
pub open spec fn spec_mbc1_read(c: Mbc1, addr: u16) -> u8 {
    if addr < 0x4000 {
        c.rom_banks@[0].0[addr as int]
    } else if addr < 0x8000 {
        c.rom_banks@[c.rom_bank_idx as int % c.rom_banks@.len() as int].0[addr - 0x4000]
    } else {
        if c.ram_enable && c.ram_bank_idx < c.ram_banks@.len() {
            c.ram_banks@[c.ram_bank_idx as int].0[addr - 0xA000]
        } else {
            0xFF
        }
    }
}

/// What a write to an MBC1 cartridge does. Writes below 0x8000 are bank
/// control commands: [0x0000, 0x2000) sets the RAM-enable latch iff the low
/// nibble is 0xA; [0x2000, 0x4000) selects the ROM bank as
/// `max(byte & 0x1F, 1)`; [0x4000, 0x6000) selects the 2-bit RAM bank;
/// [0x6000, 0x8000) is the banking-mode select, which this core leaves
/// unimplemented and ignores. RAM writes with RAM disabled or an absent
/// bank are suppressed.
pub open spec fn spec_mbc1_write_effect(c: Mbc1, d: Mbc1, addr: u16, byte: u8) -> bool {
    if addr < 0x2000 {
        d == Mbc1 { ram_enable: byte & 0xF == 0xA, ..c }
    } else if addr < 0x4000 {
        let idx = byte & 0x1F;
        d == Mbc1 {
            rom_bank_idx: if idx == 0 {
                1
            } else {
                idx as usize
            },
            ..c
        }
    } else if addr < 0x6000 {
        d == Mbc1 { ram_bank_idx: (byte & 0x3) as usize, ..c }
    } else if addr < 0x8000 {
        d == c
    } else {
        if c.ram_enable && c.ram_bank_idx < c.ram_banks@.len() {
            &&& d == Mbc1 { ram_banks: d.ram_banks, ..c }
            &&& d.ram_banks@.len() == c.ram_banks@.len()
            &&& forall|i: int|
                0 <= i < c.ram_banks@.len() && i != c.ram_bank_idx
                    ==> #[trigger] d.ram_banks@[i].0 == c.ram_banks@[i].0
            &&& d.ram_banks@[c.ram_bank_idx as int].0@ == c.ram_banks@[c.ram_bank_idx as int].0@.update(
                addr - 0xA000,
                byte,
            )
        } else {
            d == c
        }
    }
}

impl Mbc1 {
    pub fn from_game_rom(rom: &Vec<u8>) -> (r: Mbc1)
        requires
            spec_rom_ok_mbc1(rom@),
        ensures
            r.wf(),
            r.rom_bank_idx == 1,
            r.ram_bank_idx == 0,
            !r.ram_enable,
            r.rom_banks@.len() == spec_num_banks(rom@[0x148]),
            forall|b: int, j: int|
                0 <= b < r.rom_banks@.len() && 0 <= j < 0x4000 ==> #[trigger] r.rom_banks@[b].0[j]
                    == rom@[b * 0x4000 + j],
            r.ram_banks@.len() == spec_num_ram_banks(rom@[0x149]),
            forall|i: int, j: int|
                0 <= i < r.ram_banks@.len() && 0 <= j < 0x2000 ==> #[trigger] r.ram_banks@[i].0[j]
                    == 0,
    {
        let rom_banks = parse_banks(rom);
        let ram_banks = make_ram_banks(rom[0x149]);
        proof {
            vstd::arithmetic::power2::lemma2_to64();
        }
        Mbc1 { rom_banks, ram_banks, rom_bank_idx: 1, ram_bank_idx: 0, ram_enable: false }
    }

}

// ---------------------------------------------------------------------------
// MBC3 and its real-time clock
// ---------------------------------------------------------------------------
/// What the 0x4000-0x5FFF select register of an MBC3 has mounted at the
/// external RAM range: a RAM bank or one of the five clock registers.
#[derive(Debug, Clone, Copy, PartialEq, Eq, Structural)]
pub enum RamBankOrRtcSelect {
    Ram { idx: u8 },
    Seconds,
    Minutes,
    Hours,
    DayCounterLoBits,
    DayCounterHiBits,
}

/// The two steps of the clock latch: writing 0 stages it, writing 1 to a
/// staged latch updates the clock registers from the wall clock.
#[derive(Debug, Clone, Copy, PartialEq, Eq, Structural)]
pub enum LatchState {
    Latched,
    Staged,
}

/// The MBC3 clock registers. The wall clock is carried as whole seconds
/// since the Unix epoch, so that the elapsed time between two latches can
/// be propagated through seconds, minutes, hours and the 512-day counter.
#[derive(Debug, Clone, Copy, PartialEq, Eq, Structural)]
pub struct RealTimeClockRegisters {
    /// 0-59
    pub seconds: u8,
    /// 0-59
    pub minutes: u8,
    /// 0-23
    pub hours: u8,
    /// Lower 8 bits of the day counter
    pub days_low: u8,
    pub days_hi_bit: bool,
    /// Sticky: set when the day counter passes 511 days, cleared only by a
    /// write to the high day register.
    pub day_counter_carry: bool,
    /// The wall clock, in seconds since the Unix epoch, at the last update.
    pub last_update_secs: u64,
}

/// An elapsed time longer than this is cut off before it is added to the
/// clock (it is over half a million millennia; the cut keeps the addition
/// below the integer limit).
pub open spec fn spec_rtc_elapsed_cap() -> u64 {
    0xFFFF_FFFF_FFFF_FF00
}

impl RealTimeClockRegisters {
    /// The second, minute and hour fields hold calendar values.
    pub open spec fn wf(self) -> bool {
        self.seconds < 60 && self.minutes < 60 && self.hours < 24
    }

    /// The clock as an update at wall time `now` leaves it: the whole
    /// seconds since the previous update (none if the clock ran backwards)
    /// are propagated through seconds, minutes, hours and days; the day
    /// counter wraps at 512 days and sets the sticky carry when it passes
    /// 511.
    pub open spec fn spec_update(self, now: u64) -> RealTimeClockRegisters {
        let since = if now > self.last_update_secs {
            now - self.last_update_secs
        } else {
            0
        };
        let elapsed = if since > spec_rtc_elapsed_cap() {
            spec_rtc_elapsed_cap() as int
        } else {
            since
        };
        if elapsed == 0 {
            self
        } else {
            let total_seconds = self.seconds + elapsed;
            let total_minutes = self.minutes + total_seconds / 60;
            let total_hours = self.hours + total_minutes / 60;
            let total_days = (if self.days_hi_bit {
                256int
            } else {
                0int
            }) + self.days_low + total_hours / 24;
            RealTimeClockRegisters {
                seconds: (total_seconds % 60) as u8,
                minutes: (total_minutes % 60) as u8,
                hours: (total_hours % 24) as u8,
                days_low: (total_days % 256) as u8,
                days_hi_bit: (total_days % 512) >= 256,
                day_counter_carry: self.day_counter_carry || total_days > 511,
                last_update_secs: now,
            }
        }
    }

    /// Propagate the wall-clock time since the last update into the clock
    /// registers.
    pub fn update(&mut self, now: u64)
        ensures
            *final(self) == old(self).spec_update(now),
            old(self).wf() ==> final(self).wf(),
    {
        let since = if now > self.last_update_secs {
            now - self.last_update_secs
        } else {
            0
        };
        let elapsed = if since > 0xFFFF_FFFF_FFFF_FF00 {
            0xFFFF_FFFF_FFFF_FF00
        } else {
            since
        };
        if elapsed == 0 {
            return ;
        }
        let total_seconds = self.seconds as u64 + elapsed;
        self.seconds = (total_seconds % 60) as u8;
        let total_minutes = self.minutes as u64 + total_seconds / 60;
        self.minutes = (total_minutes % 60) as u8;
        let total_hours = self.hours as u64 + total_minutes / 60;
        self.hours = (total_hours % 24) as u8;
        let total_days = (if self.days_hi_bit {
            256u64
        } else {
            0u64
        }) + self.days_low as u64 + total_hours / 24;
        if total_days > 511 {
            self.day_counter_carry = true;
        }
        self.days_low = (total_days % 256) as u8;
        self.days_hi_bit = (total_days % 512) >= 256;
        self.last_update_secs = now;
    }
}

/// Relies on std::time::SystemTime::now for the wall clock; the rest of the
/// body converts its result to whole seconds since the Unix epoch. Nothing
/// can be promised of the clock's value: the caller states what holds of
/// every outcome.
#[verifier::external_body]
fn wall_clock_seconds() -> u64 {
    std::time::SystemTime::now().duration_since(std::time::UNIX_EPOCH).map(
        |d| d.as_secs(),
    ).unwrap_or(0)
}

/// MBC3: up to 128 banks of 16 KiB ROM, up to 4 banks of 8 KiB RAM, and a
/// real-time clock behind a two-step latch.
pub struct Mbc3 {
    pub rom_banks: Vec<RomBank>,
    pub rom_bank_idx: usize,
    pub ram_banks: Vec<RamBank>,
    pub enable_ram_and_rtc: bool,
    pub ram_bank_or_rtc_select: RamBankOrRtcSelect,
    pub clock_registers: RealTimeClockRegisters,
    pub latch_state: LatchState,
}

impl Mbc3 {
    /// The banks exist, the selected index lies in its 7-bit range and the
    /// clock registers hold calendar values.
    pub open spec fn wf(self) -> bool {
        &&& 2 <= self.rom_banks@.len() <= 128
        &&& 1 <= self.rom_bank_idx < 128
        &&& self.ram_banks@.len() <= 4
        &&& self.clock_registers.wf()
    }
}

/// The byte the high day-counter register reads as: bit 0 the day counter's
/// ninth bit, bit 7 the sticky carry.
pub open spec fn spec_rtc_days_hi_byte(r: RealTimeClockRegisters) -> u8 {
    ((if r.days_hi_bit {
        1u8
    } else {
        0u8
    }) + (if r.day_counter_carry {
        0x80u8
    } else {
        0u8
    })) as u8
}

/// What a read from an MBC3 cartridge returns. ROM reads behave as on
/// MBC1; the external RAM range reads the mounted RAM bank or clock
/// register, and 0xFF when RAM and clock are disabled or the bank is
/// absent.
pub open spec fn spec_mbc3_read(c: Mbc3, addr: u16) -> u8 {
    if addr < 0x4000 {
        c.rom_banks@[0].0[addr as int]
    } else if addr < 0x8000 {
        c.rom_banks@[c.rom_bank_idx as int % c.rom_banks@.len() as int].0[addr - 0x4000]
    } else {
        if c.enable_ram_and_rtc {
            match c.ram_bank_or_rtc_select {
                RamBankOrRtcSelect::Ram { idx } => if idx < c.ram_banks@.len() {
                    c.ram_banks@[idx as int].0[addr - 0xA000]
                } else {
                    0xFF
                },
                RamBankOrRtcSelect::Seconds => c.clock_registers.seconds,
                RamBankOrRtcSelect::Minutes => c.clock_registers.minutes,
                RamBankOrRtcSelect::Hours => c.clock_registers.hours,
                RamBankOrRtcSelect::DayCounterLoBits => c.clock_registers.days_low,
                RamBankOrRtcSelect::DayCounterHiBits => spec_rtc_days_hi_byte(c.clock_registers),
            }
        } else {
            0xFF
        }
    }
}

/// What a write to an MBC3 cartridge does. [0x0000, 0x2000): nibble 0xA
/// enables RAM and clock, 0x0 disables them. [0x2000, 0x4000): selects the
/// ROM bank as `max(byte & 0x7F, 1)`. [0x4000, 0x6000): bytes 0-3 mount a
/// RAM bank, 0x8-0xC mount a clock register, anything else is ignored.
/// [0x6000, 0x8000): drives the two-step latch; completing it reads the
/// wall clock, so the new clock state is an update of the old one at some
/// wall time. RAM-range writes land in the mounted bank or clock register.
pub open spec fn spec_mbc3_write_effect(c: Mbc3, d: Mbc3, addr: u16, byte: u8) -> bool {
    if addr < 0x2000 {
        if byte & 0xF == 0xA {
            d == Mbc3 { enable_ram_and_rtc: true, ..c }
        } else if byte & 0xF == 0 {
            d == Mbc3 { enable_ram_and_rtc: false, ..c }
        } else {
            d == c
        }
    } else if addr < 0x4000 {
        let idx = byte & 0x7F;
        d == Mbc3 {
            rom_bank_idx: if idx == 0 {
                1
            } else {
                idx as usize
            },
            ..c
        }
    } else if addr < 0x6000 {
        if byte <= 0x3 {
            d == Mbc3 { ram_bank_or_rtc_select: RamBankOrRtcSelect::Ram { idx: byte }, ..c }
        } else if byte == 0x8 {
            d == Mbc3 { ram_bank_or_rtc_select: RamBankOrRtcSelect::Seconds, ..c }
        } else if byte == 0x9 {
            d == Mbc3 { ram_bank_or_rtc_select: RamBankOrRtcSelect::Minutes, ..c }
        } else if byte == 0xA {
            d == Mbc3 { ram_bank_or_rtc_select: RamBankOrRtcSelect::Hours, ..c }
        } else if byte == 0xB {
            d == Mbc3 { ram_bank_or_rtc_select: RamBankOrRtcSelect::DayCounterLoBits, ..c }
        } else if byte == 0xC {
            d == Mbc3 { ram_bank_or_rtc_select: RamBankOrRtcSelect::DayCounterHiBits, ..c }
        } else {
            d == c
        }
    } else if addr < 0x8000 {
        if byte == 0 {
            d == Mbc3 { latch_state: LatchState::Staged, ..c }
        } else if byte == 1 && c.latch_state == LatchState::Staged {
            exists|now: u64|
                d == (Mbc3 {
                    latch_state: LatchState::Latched,
                    clock_registers: c.clock_registers.spec_update(now),
                    ..c
                })
        } else {
            d == c
        }
    } else {
        if c.enable_ram_and_rtc {
            match c.ram_bank_or_rtc_select {
                RamBankOrRtcSelect::Ram { idx } => if idx < c.ram_banks@.len() {
                    &&& d == Mbc3 { ram_banks: d.ram_banks, ..c }
                    &&& d.ram_banks@.len() == c.ram_banks@.len()
                    &&& forall|i: int|
                        0 <= i < c.ram_banks@.len() && i != idx ==> #[trigger] d.ram_banks@[i].0
                            == c.ram_banks@[i].0
                    &&& d.ram_banks@[idx as int].0@ == c.ram_banks@[idx as int].0@.update(
                        addr - 0xA000,
                        byte,
                    )
                } else {
                    d == c
                },
                RamBankOrRtcSelect::Seconds => d == Mbc3 {
                    clock_registers: RealTimeClockRegisters {
                        seconds: (byte % 60) as u8,
                        ..c.clock_registers
                    },
                    ..c
                },
                RamBankOrRtcSelect::Minutes => d == Mbc3 {
                    clock_registers: RealTimeClockRegisters {
                        minutes: (byte % 60) as u8,
                        ..c.clock_registers
                    },
                    ..c
                },
                RamBankOrRtcSelect::Hours => d == Mbc3 {
                    clock_registers: RealTimeClockRegisters {
                        hours: (byte % 24) as u8,
                        ..c.clock_registers
                    },
                    ..c
                },
                RamBankOrRtcSelect::DayCounterLoBits => d == Mbc3 {
                    clock_registers: RealTimeClockRegisters {
                        days_low: byte,
                        ..c.clock_registers
                    },
                    ..c
                },
                RamBankOrRtcSelect::DayCounterHiBits => d == Mbc3 {
                    clock_registers: RealTimeClockRegisters {
                        days_hi_bit: byte & 0x01 != 0,
                        day_counter_carry: byte & 0x80 != 0,
                        ..c.clock_registers
                    },
                    ..c
                },
            }
        } else {
            d == c
        }
    }
}

impl Mbc3 {
    pub fn from_game_rom(rom: &Vec<u8>) -> (r: Mbc3)
        requires
            spec_rom_ok_mbc3(rom@),
        ensures
            r.wf(),
            r.rom_bank_idx == 1,
            !r.enable_ram_and_rtc,
            r.latch_state == LatchState::Latched,
            r.ram_bank_or_rtc_select == (RamBankOrRtcSelect::Ram { idx: 0 }),
            r.rom_banks@.len() == spec_num_banks(rom@[0x148]),
            forall|b: int, j: int|
                0 <= b < r.rom_banks@.len() && 0 <= j < 0x4000 ==> #[trigger] r.rom_banks@[b].0[j]
                    == rom@[b * 0x4000 + j],
            r.ram_banks@.len() == spec_num_ram_banks(rom@[0x149]),
            forall|i: int, j: int|
                0 <= i < r.ram_banks@.len() && 0 <= j < 0x2000 ==> #[trigger] r.ram_banks@[i].0[j]
                    == 0,
            r.clock_registers == (RealTimeClockRegisters {
                seconds: 0,
                minutes: 0,
                hours: 0,
                days_low: 0,
                days_hi_bit: false,
                day_counter_carry: false,
                last_update_secs: r.clock_registers.last_update_secs,
            }),
    {
        let rom_banks = parse_banks(rom);
        let ram_banks = make_ram_banks(rom[0x149]);
        proof {
            vstd::arithmetic::power2::lemma2_to64();
        }
        Mbc3 {
            rom_banks,
            rom_bank_idx: 1,
            ram_banks,
            ram_bank_or_rtc_select: RamBankOrRtcSelect::Ram { idx: 0 },
            clock_registers: RealTimeClockRegisters {
                seconds: 0,
                minutes: 0,
                hours: 0,
                days_low: 0,
                days_hi_bit: false,
                day_counter_carry: false,
                last_update_secs: wall_clock_seconds(),
            },
            enable_ram_and_rtc: false,
            latch_state: LatchState::Latched,
        }
    }
}

// ---------------------------------------------------------------------------
// The cartridge interface and the tagged cartridge
// ---------------------------------------------------------------------------
/// The surface the memory bus consumes: byte reads and writes over the ROM
/// range [0x0000, 0x8000) and the external RAM range [0xA000, 0xC000), and
/// re-attaching the ROM after a saved state is loaded (the ROM itself is
/// not part of a save). What each operation means is given by the
/// implementation's own spec functions.
pub trait Cartridge: Sized {
    /// The implementation's internal invariant.
    spec fn inv(&self) -> bool;

    /// What `read` returns at each address.
    spec fn spec_read(&self, addr: u16) -> u8;

    /// How `write` relates the cartridge before and after.
    spec fn spec_write_effect(&self, post: Self, addr: u16, byte: u8) -> bool;

    /// Which ROM images `set_rom` accepts.
    spec fn spec_rom_ok(&self, rom: Seq<u8>) -> bool;

    fn read(&self, addr: u16) -> (r: u8)
        requires
            self.inv(),
            addr < 0x8000 || 0xA000 <= addr < 0xC000,
        ensures
            r == self.spec_read(addr),
    ;

    fn write(&mut self, addr: u16, byte: u8)
        requires
            old(self).inv(),
            addr < 0x8000 || 0xA000 <= addr < 0xC000,
        ensures
            final(self).inv(),
            old(self).spec_write_effect(*final(self), addr, byte),
    ;

    fn set_rom(&mut self, rom: &Vec<u8>)
        requires
            old(self).inv(),
            old(self).spec_rom_ok(rom@),
        ensures
            final(self).inv(),
    ;
}

impl Cartridge for NoMbc {
    open spec fn inv(&self) -> bool {
        true
    }

    open spec fn spec_read(&self, addr: u16) -> u8 {
        spec_no_mbc_read(*self, addr)
    }

    open spec fn spec_write_effect(&self, post: Self, addr: u16, byte: u8) -> bool {
        spec_no_mbc_write_effect(*self, post, addr, byte)
    }

    open spec fn spec_rom_ok(&self, rom: Seq<u8>) -> bool {
        spec_rom_ok_no_mbc(rom)
    }

    fn read(&self, addr: u16) -> (r: u8) {
        if addr < 0x8000 {
            self.rom[addr as usize]
        } else {
            self.ext_ram[(addr - 0xA000) as usize]
        }
    }

    fn write(&mut self, addr: u16, byte: u8) {
        if addr < 0x8000 {
            // a cartridge without an MBC ignores writes into ROM
        } else {
            self.ext_ram[(addr - 0xA000) as usize] = byte;
        }
    }

    fn set_rom(&mut self, rom: &Vec<u8>) {
        let mut cart_rom = [0u8; 0x8000];
        let mut j: usize = 0;
        while j < 0x8000
            invariant
                j <= 0x8000,
                rom@.len() == 0x8000,
                forall|k: int| 0 <= k < j ==> #[trigger] cart_rom[k] == rom@[k],
            decreases 0x8000 - j,
        {
            cart_rom[j] = rom[j];
            j += 1;
        }
        self.rom = cart_rom;
    }
}

impl Cartridge for Mbc1 {
    open spec fn inv(&self) -> bool {
        self.wf()
    }

    open spec fn spec_read(&self, addr: u16) -> u8 {
        spec_mbc1_read(*self, addr)
    }

    open spec fn spec_write_effect(&self, post: Self, addr: u16, byte: u8) -> bool {
        spec_mbc1_write_effect(*self, post, addr, byte)
    }

    open spec fn spec_rom_ok(&self, rom: Seq<u8>) -> bool {
        spec_rom_ok_mbc1(rom)
    }

    fn read(&self, addr: u16) -> (r: u8) {
        if addr < 0x4000 {
            self.rom_banks[0].0[addr as usize]
        } else if addr < 0x8000 {
            let idx = self.rom_bank_idx % self.rom_banks.len();
            self.rom_banks[idx].0[(addr - 0x4000) as usize]
        } else {
            if self.ram_enable && self.ram_bank_idx < self.ram_banks.len() {
                self.ram_banks[self.ram_bank_idx].0[(addr - 0xA000) as usize]
            } else {
                0xFF
            }
        }
    }

    fn write(&mut self, addr: u16, byte: u8) {
        if addr < 0x2000 {
            self.ram_enable = (byte & 0xF) == 0xA;
        } else if addr < 0x4000 {
            let idx = byte & 0x1F;
            proof {
                assert(byte & 0x1F < 32) by (bit_vector);
            }
            self.rom_bank_idx = if idx == 0 {
                1
            } else {
                idx as usize
            };
        } else if addr < 0x6000 {
            proof {
                assert(byte & 0x3 < 4) by (bit_vector);
            }
            self.ram_bank_idx = (byte & 0x3) as usize;
        } else if addr < 0x8000 {
            // banking-mode select: not implemented, the command is ignored
        } else {
            if self.ram_enable && self.ram_bank_idx < self.ram_banks.len() {
                let mut bank = self.ram_banks[self.ram_bank_idx].0;
                bank[(addr - 0xA000) as usize] = byte;
                self.ram_banks.set(self.ram_bank_idx, RamBank(bank));
            }
        }
    }

    fn set_rom(&mut self, rom: &Vec<u8>) {
        let banks = parse_banks(rom);
        proof {
            vstd::arithmetic::power2::lemma2_to64();
        }
        self.rom_banks = banks;
    }
}

impl Cartridge for Mbc3 {
    open spec fn inv(&self) -> bool {
        self.wf()
    }

    open spec fn spec_read(&self, addr: u16) -> u8 {
        spec_mbc3_read(*self, addr)
    }

    open spec fn spec_write_effect(&self, post: Self, addr: u16, byte: u8) -> bool {
        spec_mbc3_write_effect(*self, post, addr, byte)
    }

    open spec fn spec_rom_ok(&self, rom: Seq<u8>) -> bool {
        spec_rom_ok_mbc3(rom)
    }

    fn read(&self, addr: u16) -> (r: u8) {
        if addr < 0x4000 {
            self.rom_banks[0].0[addr as usize]
        } else if addr < 0x8000 {
            let idx = self.rom_bank_idx % self.rom_banks.len();
            self.rom_banks[idx].0[(addr - 0x4000) as usize]
        } else {
            if self.enable_ram_and_rtc {
                match self.ram_bank_or_rtc_select {
                    RamBankOrRtcSelect::Ram { idx } => if (idx as usize) < self.ram_banks.len() {
                        self.ram_banks[idx as usize].0[(addr - 0xA000) as usize]
                    } else {
                        0xFF
                    },
                    RamBankOrRtcSelect::Seconds => self.clock_registers.seconds,
                    RamBankOrRtcSelect::Minutes => self.clock_registers.minutes,
                    RamBankOrRtcSelect::Hours => self.clock_registers.hours,
                    RamBankOrRtcSelect::DayCounterLoBits => self.clock_registers.days_low,
                    RamBankOrRtcSelect::DayCounterHiBits => {
                        let mut value: u8 = 0;
                        if self.clock_registers.days_hi_bit {
                            value = 1;
                        }
                        if self.clock_registers.day_counter_carry {
                            value = value + 0x80;
                        }
                        value
                    },
                }
            } else {
                0xFF
            }
        }
    }

    fn write(&mut self, addr: u16, byte: u8) {
        if addr < 0x2000 {
            if (byte & 0xF) == 0xA {
                self.enable_ram_and_rtc = true;
            } else if (byte & 0xF) == 0x0 {
                self.enable_ram_and_rtc = false;
            }
        } else if addr < 0x4000 {
            let idx = byte & 0x7F;
            proof {
                assert(byte & 0x7F < 128) by (bit_vector);
            }
            self.rom_bank_idx = if idx == 0 {
                1
            } else {
                idx as usize
            };
        } else if addr < 0x6000 {
            if byte <= 0x3 {
                self.ram_bank_or_rtc_select = RamBankOrRtcSelect::Ram { idx: byte };
            } else if byte == 0x8 {
                self.ram_bank_or_rtc_select = RamBankOrRtcSelect::Seconds;
            } else if byte == 0x9 {
                self.ram_bank_or_rtc_select = RamBankOrRtcSelect::Minutes;
            } else if byte == 0xA {
                self.ram_bank_or_rtc_select = RamBankOrRtcSelect::Hours;
            } else if byte == 0xB {
                self.ram_bank_or_rtc_select = RamBankOrRtcSelect::DayCounterLoBits;
            } else if byte == 0xC {
                self.ram_bank_or_rtc_select = RamBankOrRtcSelect::DayCounterHiBits;
            }
        } else if addr < 0x8000 {
            if byte == 0 {
                self.latch_state = LatchState::Staged;
            } else if byte == 1 {
                match self.latch_state {
                    LatchState::Staged => {
                        let now = wall_clock_seconds();
                        self.clock_registers.update(now);
                        self.latch_state = LatchState::Latched;
                    },
                    LatchState::Latched => {},
                }
            }
        } else {
            if self.enable_ram_and_rtc {
                match self.ram_bank_or_rtc_select {
                    RamBankOrRtcSelect::Ram { idx } => {
                        if (idx as usize) < self.ram_banks.len() {
                            let mut bank = self.ram_banks[idx as usize].0;
                            bank[(addr - 0xA000) as usize] = byte;
                            self.ram_banks.set(idx as usize, RamBank(bank));
                        }
                    },
                    RamBankOrRtcSelect::Seconds => {
                        self.clock_registers.seconds = byte % 60;
                    },
                    RamBankOrRtcSelect::Minutes => {
                        self.clock_registers.minutes = byte % 60;
                    },
                    RamBankOrRtcSelect::Hours => {
                        self.clock_registers.hours = byte % 24;
                    },
                    RamBankOrRtcSelect::DayCounterLoBits => {
                        self.clock_registers.days_low = byte;
                    },
                    RamBankOrRtcSelect::DayCounterHiBits => {
                        self.clock_registers.days_hi_bit = (byte & 0x01) != 0;
                        self.clock_registers.day_counter_carry = (byte & 0x80) != 0;
                    },
                }
            }
        }
    }

    fn set_rom(&mut self, rom: &Vec<u8>) {
        let banks = parse_banks(rom);
        proof {
            vstd::arithmetic::power2::lemma2_to64();
        }
        self.rom_banks = banks;
    }
}

/// The cartridge a supported ROM image builds: the header-selected kind,
/// holding the image's banks, with banking at its reset state.
pub open spec fn spec_cart_built_from(c: Cart, rom: Seq<u8>) -> bool {
    let mbc = rom[0x147];
    if mbc == 0x00 || mbc == 0x08 || mbc == 0x09 {
        &&& c is NoMbc
        &&& forall|j: int| 0 <= j < 0x8000 ==> #[trigger] c->NoMbc_0.rom[j] == rom[j]
    } else if 0x01 <= mbc <= 0x03 {
        &&& c is Mbc1
        &&& c->Mbc1_0.rom_banks@.len() == spec_num_banks(rom[0x148])
        &&& forall|b: int, j: int|
            0 <= b < c->Mbc1_0.rom_banks@.len() && 0 <= j < 0x4000
                ==> #[trigger] c->Mbc1_0.rom_banks@[b].0[j] == rom[b * 0x4000 + j]
        &&& c->Mbc1_0.ram_banks@.len() == spec_num_ram_banks(rom[0x149])
        &&& c->Mbc1_0.rom_bank_idx == 1
        &&& !c->Mbc1_0.ram_enable
    } else {
        &&& c is Mbc3
        &&& c->Mbc3_0.rom_banks@.len() == spec_num_banks(rom[0x148])
        &&& forall|b: int, j: int|
            0 <= b < c->Mbc3_0.rom_banks@.len() && 0 <= j < 0x4000
                ==> #[trigger] c->Mbc3_0.rom_banks@[b].0[j] == rom[b * 0x4000 + j]
        &&& c->Mbc3_0.ram_banks@.len() == spec_num_ram_banks(rom[0x149])
        &&& c->Mbc3_0.rom_bank_idx == 1
        &&& !c->Mbc3_0.enable_ram_and_rtc
    }
}

/// What re-attaching a ROM does: the kind is kept, the ROM storage becomes
/// the image's banks, and everything else (RAM, banking registers, clock)
/// is untouched.
pub open spec fn spec_cart_set_rom_effect(c: Cart, d: Cart, rom: Seq<u8>) -> bool {
    match c {
        Cart::NoMbc(n) => {
            &&& d is NoMbc
            &&& forall|j: int| 0 <= j < 0x8000 ==> #[trigger] d->NoMbc_0.rom[j] == rom[j]
            &&& d->NoMbc_0.ext_ram == n.ext_ram
        },
        Cart::Mbc1(m) => {
            &&& d is Mbc1
            &&& d->Mbc1_0.rom_banks@.len() == spec_num_banks(rom[0x148])
            &&& forall|b: int, j: int|
                0 <= b < d->Mbc1_0.rom_banks@.len() && 0 <= j < 0x4000
                    ==> #[trigger] d->Mbc1_0.rom_banks@[b].0[j] == rom[b * 0x4000 + j]
            &&& d->Mbc1_0 == (Mbc1 { rom_banks: d->Mbc1_0.rom_banks, ..m })
        },
        Cart::Mbc3(m) => {
            &&& d is Mbc3
            &&& d->Mbc3_0.rom_banks@.len() == spec_num_banks(rom[0x148])
            &&& forall|b: int, j: int|
                0 <= b < d->Mbc3_0.rom_banks@.len() && 0 <= j < 0x4000
                    ==> #[trigger] d->Mbc3_0.rom_banks@[b].0[j] == rom[b * 0x4000 + j]
            &&& d->Mbc3_0 == (Mbc3 { rom_banks: d->Mbc3_0.rom_banks, ..m })
        },
    }
}

/// A cartridge of one of the three supported kinds, as the bus holds it.
pub enum Cart {
    NoMbc(NoMbc),
    Mbc1(Mbc1),
    Mbc3(Mbc3),
}

/// What a read from the cartridge returns, whichever kind it is.
pub open spec fn spec_cart_read(c: Cart, addr: u16) -> u8 {
    match c {
        Cart::NoMbc(n) => spec_no_mbc_read(n, addr),
        Cart::Mbc1(m) => spec_mbc1_read(m, addr),
        Cart::Mbc3(m) => spec_mbc3_read(m, addr),
    }
}

/// How a write relates the cartridge before and after: the kind never
/// changes, and the kind's own write rules apply.
pub open spec fn spec_cart_write_effect(c: Cart, d: Cart, addr: u16, byte: u8) -> bool {
    match c {
        Cart::NoMbc(n) => d is NoMbc && spec_no_mbc_write_effect(n, d->NoMbc_0, addr, byte),
        Cart::Mbc1(m) => d is Mbc1 && spec_mbc1_write_effect(m, d->Mbc1_0, addr, byte),
        Cart::Mbc3(m) => d is Mbc3 && spec_mbc3_write_effect(m, d->Mbc3_0, addr, byte),
    }
}

impl Cart {
    /// The held cartridge's own invariant.
    pub open spec fn inv(self) -> bool {
        match self {
            Cart::NoMbc(n) => true,
            Cart::Mbc1(m) => m.wf(),
            Cart::Mbc3(m) => m.wf(),
        }
    }

    /// Which ROM images fit the held cartridge kind.
    pub open spec fn spec_rom_ok(self, rom: Seq<u8>) -> bool {
        match self {
            Cart::NoMbc(n) => spec_rom_ok_no_mbc(rom),
            Cart::Mbc1(m) => spec_rom_ok_mbc1(rom),
            Cart::Mbc3(m) => spec_rom_ok_mbc3(rom),
        }
    }

    /// Build the cartridge kind the ROM header names at offset 0x147.
    pub fn from_game_rom(rom: &Vec<u8>) -> (r: Cart)
        requires
            spec_rom_supported(rom@),
        ensures
            r.inv(),
            spec_cart_built_from(r, rom@),
    {
        let mbc_type = rom[0x147];
        if mbc_type == 0x00 || mbc_type == 0x08 || mbc_type == 0x09 {
            Cart::NoMbc(NoMbc::from_game_rom(rom))
        } else if 0x01 <= mbc_type && mbc_type <= 0x03 {
            Cart::Mbc1(Mbc1::from_game_rom(rom))
        } else {
            Cart::Mbc3(Mbc3::from_game_rom(rom))
        }
    }

    /// Read a cartridge byte from the ROM or external RAM range.
    pub fn read(&self, addr: u16) -> (r: u8)
        requires
            self.inv(),
            addr < 0x8000 || 0xA000 <= addr < 0xC000,
        ensures
            r == spec_cart_read(*self, addr),
    {
        match self {
            Cart::NoMbc(n) => n.read(addr),
            Cart::Mbc1(m) => m.read(addr),
            Cart::Mbc3(m) => m.read(addr),
        }
    }

    /// Write a cartridge byte; writes below 0x8000 are bank control
    /// commands, never memory writes.
    pub fn write(&mut self, addr: u16, byte: u8)
        requires
            old(self).inv(),
            addr < 0x8000 || 0xA000 <= addr < 0xC000,
        ensures
            final(self).inv(),
            spec_cart_write_effect(*old(self), *final(self), addr, byte),
    {
        match self {
            Cart::NoMbc(n) => n.write(addr, byte),
            Cart::Mbc1(m) => m.write(addr, byte),
            Cart::Mbc3(m) => m.write(addr, byte),
        }
    }

    /// Re-attach the ROM bytes after loading a saved state: the kind and
    /// all its mutable state stay, only the ROM storage is replaced with
    /// the image's banks.
    pub fn set_rom(&mut self, rom: &Vec<u8>)
        requires
            old(self).inv(),
            old(self).spec_rom_ok(rom@),
        ensures
            final(self).inv(),
            spec_cart_set_rom_effect(*old(self), *final(self), rom@),
    {
        match self {
            Cart::NoMbc(n) => {
                let mut cart_rom = [0u8; 0x8000];
                let mut j: usize = 0;
                while j < 0x8000
                    invariant
                        j <= 0x8000,
                        rom@.len() == 0x8000,
                        forall|k: int| 0 <= k < j ==> #[trigger] cart_rom[k] == rom@[k],
                    decreases 0x8000 - j,
                {
                    cart_rom[j] = rom[j];
                    j += 1;
                }
                n.rom = cart_rom;
            },
            Cart::Mbc1(m) => {
                let banks = parse_banks(rom);
                proof {
                    vstd::arithmetic::power2::lemma2_to64();
                }
                m.rom_banks = banks;
            },
            Cart::Mbc3(m) => {
                let banks = parse_banks(rom);
                proof {
                    vstd::arithmetic::power2::lemma2_to64();
                }
                m.rom_banks = banks;
            },
        }
    }
}

} // verus!
