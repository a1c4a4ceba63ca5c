//! Saved states: the emulator minus the raw ROM, laid out as a flat byte
//! payload and compressed. The ROM itself is not serialized; a save carries
//! a 64-bit hash of it, and loading refuses a ROM whose hash differs.

use crate::cartridge::{Cart, LatchState, RamBank, RamBankOrRtcSelect};
use crate::cpu::{Cpu, ImeState};
use crate::mmu::{spec_read_byte, JoypadSelect, Mmu};
use crate::ppu::{spec_read_vram, Mode, TileMapArea};
use crate::timer::{Timer, TimerFrequency};
use vstd::prelude::*;

verus! {

// ---------------------------------------------------------------------------
// Trusted items: compression and hashing
// ---------------------------------------------------------------------------
/// The zstd frame that compressing a byte string yields.
pub uninterp spec fn zstd_frame(data: Seq<u8>) -> Seq<u8>;

/// What decompressing a byte string yields: the original of a valid frame,
/// nothing otherwise.
pub uninterp spec fn zstd_unframe(data: Seq<u8>) -> Option<Seq<u8>>;

/// Relies on zstd::encode_all: compression is lossless, so decompressing
/// the frame gives the input back.
#[verifier::external_body]
pub fn compress_payload(bytes: &Vec<u8>) -> (r: Vec<u8>)
    ensures
        r@ == zstd_frame(bytes@),
        zstd_unframe(r@) == Some(bytes@),
{
    zstd::encode_all(&bytes[..], 0).unwrap_or_default()
}

/// Relies on zstd::decode_all: a valid frame decompresses to its original
/// bytes; anything else is rejected.
#[verifier::external_body]
pub fn decompress_payload(bytes: &Vec<u8>) -> (r: Option<Vec<u8>>)
    ensures
        match r {
            Some(d) => zstd_unframe(bytes@) == Some(d@),
            None => zstd_unframe(bytes@) is None,
        },
{
    match zstd::decode_all(&bytes[..]) {
        Ok(d) => Some(d),
        Err(_) => None,
    }
}

/// The 64-bit XXH3 hash of a byte string; it depends on the bytes alone.
pub uninterp spec fn xxh3_64_of(data: Seq<u8>) -> u64;

/// Relies on twox_hash::XxHash3_64::oneshot, the 64-bit XXH3 digest with
/// the default seed.
#[verifier::external_body]
pub fn hash_rom(bytes: &Vec<u8>) -> (r: u64)
    ensures
        r == xxh3_64_of(bytes@),
{
    twox_hash::XxHash3_64::oneshot(&bytes[..])
}

// ---------------------------------------------------------------------------
// The payload layout
// ---------------------------------------------------------------------------
/// The little-endian bytes of a 64-bit value.
pub open spec fn spec_u64_le(v: u64) -> Seq<u8> {
    seq![
        (v % 256) as u8,
        ((v / 256) % 256) as u8,
        ((v / 0x10000) % 256) as u8,
        ((v / 0x1000000) % 256) as u8,
        ((v / 0x100000000) % 256) as u8,
        ((v / 0x10000000000) % 256) as u8,
        ((v / 0x1000000000000) % 256) as u8,
        ((v / 0x100000000000000) % 256) as u8,
    ]
}

/// The little-endian bytes of a 16-bit value.
pub open spec fn spec_u16_le(v: u16) -> Seq<u8> {
    seq![(v % 256) as u8, (v / 256) as u8]
}

/// A bool as one byte.
pub open spec fn bbyte(b: bool) -> u8 {
    if b {
        1
    } else {
        0
    }
}

/// The code of a timer frequency in a save.
pub open spec fn spec_freq_code(f: TimerFrequency) -> u8 {
    match f {
        TimerFrequency::F4KiHz => 0,
        TimerFrequency::F256KiHz => 1,
        TimerFrequency::F64KiHz => 2,
        TimerFrequency::F16KiHz => 3,
    }
}

/// The bytes of one counter in a save.
pub open spec fn spec_timer_bytes(t: Timer) -> Seq<u8> {
    seq![
        spec_freq_code(t.frequency),
        bbyte(t.enabled),
        t.tma,
        t.value,
        bbyte(t.reloads),
    ] + spec_u16_le(t.t_cycles_count)
}

/// The code of the joypad select mode in a save.
pub open spec fn spec_joypad_code(j: JoypadSelect) -> u8 {
    match j {
        JoypadSelect::All => 0,
        JoypadSelect::Buttons => 1,
        JoypadSelect::DPad => 2,
        JoypadSelect::Neither => 3,
    }
}

/// The code of a PPU mode in a save.
pub open spec fn spec_mode_code(m: Mode) -> u8 {
    match m {
        Mode::ScanlineOAM => 0,
        Mode::ScanlineVRAM => 1,
        Mode::HorizontalBlank => 2,
        Mode::VerticalBlank => 3,
    }
}

/// The code of the IME switch in a save.
pub open spec fn spec_ime_code(i: ImeState) -> u8 {
    match i {
        ImeState::Enabled => 0,
        ImeState::Disabled => 1,
        ImeState::PendingEnable => 2,
    }
}

/// The code of the MBC3 RAM/clock select in a save.
pub open spec fn spec_select_code(s: RamBankOrRtcSelect) -> u8 {
    match s {
        RamBankOrRtcSelect::Ram { idx } => idx,
        RamBankOrRtcSelect::Seconds => 8,
        RamBankOrRtcSelect::Minutes => 9,
        RamBankOrRtcSelect::Hours => 10,
        RamBankOrRtcSelect::DayCounterLoBits => 11,
        RamBankOrRtcSelect::DayCounterHiBits => 12,
    }
}

/// The contents of a list of RAM banks, one after the other.
pub open spec fn spec_ram_banks_bytes(banks: Seq<RamBank>) -> Seq<u8>
    decreases banks.len(),
{
    if banks.len() == 0 {
        Seq::empty()
    } else {
        banks[0].0@ + spec_ram_banks_bytes(banks.skip(1))
    }
}

/// The bytes of the cartridge's mutable state in a save: a kind tag, the
/// banking registers, the clock for MBC3, and the RAM banks. The ROM banks
/// are left out: they are large and reproducible from the ROM file.
pub open spec fn spec_cart_bytes(c: Cart) -> Seq<u8> {
    match c {
        Cart::NoMbc(n) => seq![0u8] + n.ext_ram@,
        Cart::Mbc1(m) => seq![
            1u8,
            m.rom_bank_idx as u8,
            m.ram_bank_idx as u8,
            bbyte(m.ram_enable),
            m.ram_banks@.len() as u8,
        ] + spec_ram_banks_bytes(m.ram_banks@),
        Cart::Mbc3(m) => seq![
            2u8,
            m.rom_bank_idx as u8,
            bbyte(m.enable_ram_and_rtc),
            spec_select_code(m.ram_bank_or_rtc_select),
            bbyte(m.latch_state == LatchState::Staged),
            m.clock_registers.seconds,
            m.clock_registers.minutes,
            m.clock_registers.hours,
            m.clock_registers.days_low,
            bbyte(m.clock_registers.days_hi_bit),
            bbyte(m.clock_registers.day_counter_carry),
        ] + spec_u64_le(m.clock_registers.last_update_secs) + seq![m.ram_banks@.len() as u8]
            + spec_ram_banks_bytes(m.ram_banks@),
    }
}

/// The full save payload of a CPU (and so of the whole core) and the hash
/// of its ROM: a version byte, the ROM hash, the register file and
/// interrupt state, the bus latches, the two counters, the PPU's control
/// state, the whole VRAM, OAM, work RAM, high RAM and boot ROM, and the
/// cartridge's mutable state. The display buffers are left out: the PPU
/// redraws them.
pub open spec fn spec_payload(cpu: Cpu, rom_hash: u64) -> Seq<u8> {
    let m = cpu.mmu;
    let p = m.ppu;
    spec_scalar_bytes(cpu, rom_hash) + Seq::new(
        0x2000,
        |i: int| spec_read_vram(p, (0x8000 + i) as u16),
    ) + Seq::new(160, |i: int| spec_read_byte(m, (0xFE00 + i) as u16)) + m.work_ram@ + m.high_ram@
        + m.boot_rom@ + spec_cart_bytes(m.cartridge)
}

/// The scalar prefix of a save payload: the version byte, the ROM hash,
/// the register file, the interrupt and bus latches, the two counters and
/// the PPU's control state.
pub open spec fn spec_scalar_bytes(cpu: Cpu, rom_hash: u64) -> Seq<u8> {
    spec_scalar_a(cpu, rom_hash) + spec_scalar_b(cpu) + spec_scalar_c(cpu.mmu.ppu)
}

/// The version byte, ROM hash and register file of a save payload.
pub open spec fn spec_scalar_a(cpu: Cpu, rom_hash: u64) -> Seq<u8> {
    seq![1u8] + spec_u64_le(rom_hash) + seq![
        cpu.regs.a,
        cpu.regs.f,
        cpu.regs.b,
        cpu.regs.c,
        cpu.regs.d,
        cpu.regs.e,
        cpu.regs.h,
        cpu.regs.l,
    ] + spec_u16_le(cpu.regs.sp) + spec_u16_le(cpu.regs.pc)
}

/// The interrupt state, bus latches and counters of a save payload.
pub open spec fn spec_scalar_b(cpu: Cpu) -> Seq<u8> {
    let m = cpu.mmu;
    seq![
        spec_ime_code(cpu.ime),
        bbyte(cpu.is_halted),
        bbyte(m.in_boot_rom),
        m.interrupts_enabled.bits,
        m.interrupts_requested.bits,
        spec_joypad_code(m.joypad_select),
        m.pressed_buttons.bits,
    ] + spec_timer_bytes(m.timer) + spec_timer_bytes(m.divider)
}

/// The PPU's control state in a save payload.
pub open spec fn spec_scalar_c(p: crate::ppu::Ppu) -> Seq<u8> {
    seq![p.line, spec_mode_code(p.mode)] + spec_u64_le(p.cycles_in_mode as u64) + seq![
        bbyte(p.lcd_enabled),
        bbyte(p.window_tile_map_select == TileMapArea::X9C00),
        bbyte(p.window_enabled),
        bbyte(p.bg_and_window_tile_data_select == crate::ppu::BgAndWindowTileDataArea::X8000),
        bbyte(p.bg_tile_map_select == TileMapArea::X9C00),
        bbyte(p.obj_size == crate::ppu::ObjSize::Dim8x16),
        bbyte(p.obj_enabled),
        bbyte(p.bg_enabled),
        crate::ppu::spec_palette_byte(p.bg_color_palette),
        crate::ppu::spec_palette_byte(p.obj_color_palettes[0]),
        crate::ppu::spec_palette_byte(p.obj_color_palettes[1]),
        p.viewport_offset.x,
        p.viewport_offset.y,
        p.window_top_left.x,
        p.window_top_left.y,
        p.lyc,
        bbyte(p.lcd_status.lyc_int_select),
        bbyte(p.lcd_status.mode_2_int_select),
        bbyte(p.lcd_status.mode_1_int_select),
        bbyte(p.lcd_status.mode_0_int_select),
    ]
}

// ---------------------------------------------------------------------------
// Encoding
// ---------------------------------------------------------------------------
/// Append a fixed-size byte array.
fn push_array<const N: usize>(out: &mut Vec<u8>, a: &[u8; N])
    ensures
        final(out)@ == old(out)@ + a@,
{
    let mut i: usize = 0;
    while i < N
        invariant
            i <= N,
            out@ == old(out)@ + a@.subrange(0, i as int),
        decreases N - i,
    {
        proof {
            assert(old(out)@ + a@.subrange(0, i + 1) =~= (old(out)@ + a@.subrange(
                0,
                i as int,
            )).push(a@[i as int]));
        }
        out.push(a[i]);
        i += 1;
    }
    proof {
        assert(a@.subrange(0, N as int) =~= a@);
    }
}

/// Append the little-endian bytes of a 64-bit value.
fn push_u64_le(out: &mut Vec<u8>, v: u64)
    ensures
        final(out)@ == old(out)@ + spec_u64_le(v),
{
    let b0 = (v % 256) as u8;
    let b1 = ((v / 256) % 256) as u8;
    let b2 = ((v / 0x10000) % 256) as u8;
    let b3 = ((v / 0x1000000) % 256) as u8;
    let b4 = ((v / 0x100000000) % 256) as u8;
    let b5 = ((v / 0x10000000000) % 256) as u8;
    let b6 = ((v / 0x1000000000000) % 256) as u8;
    let b7 = ((v / 0x100000000000000) % 256) as u8;
    out.push(b0);
    out.push(b1);
    out.push(b2);
    out.push(b3);
    out.push(b4);
    out.push(b5);
    out.push(b6);
    out.push(b7);
    proof {
        assert(final(out)@ =~= old(out)@ + spec_u64_le(v));
    }
}

/// Append the little-endian bytes of a 16-bit value.
fn push_u16_le(out: &mut Vec<u8>, v: u16)
    ensures
        final(out)@ == old(out)@ + spec_u16_le(v),
{
    out.push((v % 256) as u8);
    out.push((v / 256) as u8);
    proof {
        assert(final(out)@ =~= old(out)@ + spec_u16_le(v));
    }
}

/// Append one counter.
fn push_timer(out: &mut Vec<u8>, t: &Timer)
    ensures
        final(out)@ == old(out)@ + spec_timer_bytes(*t),
{
    let code: u8 = match t.frequency {
        TimerFrequency::F4KiHz => 0,
        TimerFrequency::F256KiHz => 1,
        TimerFrequency::F64KiHz => 2,
        TimerFrequency::F16KiHz => 3,
    };
    out.push(code);
    out.push(if t.enabled { 1 } else { 0 });
    out.push(t.tma);
    out.push(t.value);
    out.push(if t.reloads { 1 } else { 0 });
    push_u16_le(out, t.t_cycles_count);
    proof {
        assert(final(out)@ =~= old(out)@ + spec_timer_bytes(*t));
    }
}

/// Append the contents of the RAM banks, one after the other.
fn push_ram_banks(out: &mut Vec<u8>, banks: &Vec<RamBank>)
    ensures
        final(out)@ == old(out)@ + spec_ram_banks_bytes(banks@),
{
    proof {
        assert(banks@.skip(0) =~= banks@);
    }
    let mut i: usize = 0;
    while i < banks.len()
        invariant
            i <= banks@.len(),
            old(out)@ + spec_ram_banks_bytes(banks@) =~= out@ + spec_ram_banks_bytes(
                banks@.skip(i as int),
            ),
        decreases banks@.len() - i,
    {
        proof {
            let rest = banks@.skip(i as int);
            assert(rest[0] == banks@[i as int]);
            assert(rest.skip(1) =~= banks@.skip(i as int + 1));
        }
        push_array(out, &banks[i].0);
        i += 1;
    }
    proof {
        assert(spec_ram_banks_bytes(banks@.skip(banks@.len() as int)) =~= Seq::<u8>::empty());
        assert(out@ + Seq::<u8>::empty() =~= out@);
        assert(out@ =~= old(out)@ + spec_ram_banks_bytes(banks@));
    }
}

/// Append the cartridge's mutable state.
#[verifier::rlimit(100)]
#[verifier::spinoff_prover]
fn push_cart(out: &mut Vec<u8>, c: &Cart)
    requires
        c.inv(),
    ensures
        final(out)@ == old(out)@ + spec_cart_bytes(*c),
{
    match c {
        Cart::NoMbc(n) => {
            out.push(0);
            push_array(out, &n.ext_ram);
            proof {
                assert(final(out)@ =~= old(out)@ + spec_cart_bytes(*c));
            }
        },
        Cart::Mbc1(m) => {
            out.push(1);
            out.push((m.rom_bank_idx % 256) as u8);
            out.push((m.ram_bank_idx % 256) as u8);
            out.push(if m.ram_enable { 1 } else { 0 });
            out.push((m.ram_banks.len() % 256) as u8);
            push_ram_banks(out, &m.ram_banks);
            proof {
                assert(final(out)@ =~= old(out)@ + spec_cart_bytes(*c));
            }
        },
        Cart::Mbc3(m) => {
            out.push(2);
            out.push((m.rom_bank_idx % 256) as u8);
            out.push(if m.enable_ram_and_rtc { 1 } else { 0 });
            let sel: u8 = match m.ram_bank_or_rtc_select {
                RamBankOrRtcSelect::Ram { idx } => idx,
                RamBankOrRtcSelect::Seconds => 8,
                RamBankOrRtcSelect::Minutes => 9,
                RamBankOrRtcSelect::Hours => 10,
                RamBankOrRtcSelect::DayCounterLoBits => 11,
                RamBankOrRtcSelect::DayCounterHiBits => 12,
            };
            out.push(sel);
            out.push(match m.latch_state { LatchState::Staged => 1, LatchState::Latched => 0 });
            out.push(m.clock_registers.seconds);
            out.push(m.clock_registers.minutes);
            out.push(m.clock_registers.hours);
            out.push(m.clock_registers.days_low);
            out.push(if m.clock_registers.days_hi_bit { 1 } else { 0 });
            out.push(if m.clock_registers.day_counter_carry { 1 } else { 0 });
            push_u64_le(out, m.clock_registers.last_update_secs);
            out.push((m.ram_banks.len() % 256) as u8);
            push_ram_banks(out, &m.ram_banks);
            proof {
                assert(final(out)@ =~= old(out)@ + spec_cart_bytes(*c));
            }
        },
    }
}

/// Lay out the version byte, ROM hash and register file.
fn encode_scalar_a(cpu: &Cpu, rom_hash: u64) -> (r: Vec<u8>)
    ensures
        r@ == spec_scalar_a(*cpu, rom_hash),
{
    let mut out: Vec<u8> = Vec::new();
    out.push(1);
    push_u64_le(&mut out, rom_hash);
    out.push(cpu.regs.a);
    out.push(cpu.regs.f);
    out.push(cpu.regs.b);
    out.push(cpu.regs.c);
    out.push(cpu.regs.d);
    out.push(cpu.regs.e);
    out.push(cpu.regs.h);
    out.push(cpu.regs.l);
    push_u16_le(&mut out, cpu.regs.sp);
    push_u16_le(&mut out, cpu.regs.pc);
    proof {
        assert(out@ =~= spec_scalar_a(*cpu, rom_hash));
    }
    out
}

/// Lay out the interrupt state, bus latches and counters.
fn encode_scalar_b(cpu: &Cpu) -> (r: Vec<u8>)
    ensures
        r@ == spec_scalar_b(*cpu),
{
    let mut out: Vec<u8> = Vec::new();
    out.push(match cpu.ime {
        ImeState::Enabled => 0,
        ImeState::Disabled => 1,
        ImeState::PendingEnable => 2,
    });
    out.push(if cpu.is_halted { 1 } else { 0 });
    let m = &cpu.mmu;
    out.push(if m.in_boot_rom { 1 } else { 0 });
    out.push(m.interrupts_enabled.bits);
    out.push(m.interrupts_requested.bits);
    out.push(match m.joypad_select {
        JoypadSelect::All => 0,
        JoypadSelect::Buttons => 1,
        JoypadSelect::DPad => 2,
        JoypadSelect::Neither => 3,
    });
    out.push(m.pressed_buttons.bits);
    push_timer(&mut out, &m.timer);
    push_timer(&mut out, &m.divider);
    proof {
        assert(out@ =~= spec_scalar_b(*cpu));
    }
    out
}

/// Lay out the PPU's control state.
#[verifier::rlimit(100)]
#[verifier::spinoff_prover]
fn encode_scalar_c(p: &crate::ppu::Ppu) -> (r: Vec<u8>)
    ensures
        r@ == spec_scalar_c(*p),
{
    let mut out: Vec<u8> = Vec::new();
    out.push(p.line);
    out.push(match p.mode {
        Mode::ScanlineOAM => 0,
        Mode::ScanlineVRAM => 1,
        Mode::HorizontalBlank => 2,
        Mode::VerticalBlank => 3,
    });
    push_u64_le(&mut out, p.cycles_in_mode as u64);
    let tail: [u8; 20] = [
        if p.lcd_enabled { 1 } else { 0 },
        if p.window_tile_map_select.to_bit() { 1 } else { 0 },
        if p.window_enabled { 1 } else { 0 },
        if p.bg_and_window_tile_data_select.to_bit() { 1 } else { 0 },
        if p.bg_tile_map_select.to_bit() { 1 } else { 0 },
        if p.obj_size.to_bit() { 1 } else { 0 },
        if p.obj_enabled { 1 } else { 0 },
        if p.bg_enabled { 1 } else { 0 },
        p.bg_color_palette.to_byte(),
        p.obj_color_palettes[0].to_byte(),
        p.obj_color_palettes[1].to_byte(),
        p.viewport_offset.x,
        p.viewport_offset.y,
        p.window_top_left.x,
        p.window_top_left.y,
        p.lyc,
        if p.lcd_status.lyc_int_select { 1 } else { 0 },
        if p.lcd_status.mode_2_int_select { 1 } else { 0 },
        if p.lcd_status.mode_1_int_select { 1 } else { 0 },
        if p.lcd_status.mode_0_int_select { 1 } else { 0 },
    ];
    push_array(&mut out, &tail);
    proof {
        assert(out@ =~= spec_scalar_c(*p));
    }
    out
}

/// Lay out the scalar prefix of the save payload.
fn encode_scalars(cpu: &Cpu, rom_hash: u64) -> (r: Vec<u8>)
    ensures
        r@ == spec_scalar_bytes(*cpu, rom_hash),
{
    let mut out = encode_scalar_a(cpu, rom_hash);
    let mut b = encode_scalar_b(cpu);
    let mut c = encode_scalar_c(&cpu.mmu.ppu);
    out.append(&mut b);
    out.append(&mut c);
    out
}

/// Lay the core's state out as the flat save payload.
#[verifier::rlimit(100)]
#[verifier::spinoff_prover]
pub fn encode_payload(cpu: &Cpu, rom_hash: u64) -> (r: Vec<u8>)
    requires
        cpu.wf(),
    ensures
        r@ == spec_payload(*cpu, rom_hash),
{
    let mut out = encode_scalars(cpu, rom_hash);
    let ghost scalar_prefix = out@;
    let m = &cpu.mmu;
    let p = &m.ppu;
    // the whole of VRAM: tile data and the two maps
    let mut i: usize = 0;
    while i < 0x2000
        invariant
            i <= 0x2000,
            p == cpu.mmu.ppu,
            out@ =~= scalar_prefix + Seq::new(i as nat, |j: int| spec_read_vram(cpu.mmu.ppu, (0x8000 + j) as u16)),
        decreases 0x2000 - i,
    {
        proof {
            let f = |j: int| spec_read_vram(cpu.mmu.ppu, (0x8000 + j) as u16);
            assert(scalar_prefix + Seq::new((i + 1) as nat, f) =~= (scalar_prefix + Seq::new(
                i as nat,
                f,
            )).push(f(i as int)));
        }
        out.push(p.read_vram_byte(0x8000 + i as u16));
        i += 1;
    }
    let ghost vram_prefix = out@;
    // OAM
    let mut i: usize = 0;
    while i < 160
        invariant
            i <= 160,
            p == cpu.mmu.ppu,
            out@ =~= vram_prefix + Seq::new(i as nat, |j: int| spec_read_byte(cpu.mmu, (0xFE00 + j) as u16)),
        decreases 160 - i,
    {
        proof {
            let f = |j: int| spec_read_byte(cpu.mmu, (0xFE00 + j) as u16);
            assert(vram_prefix + Seq::new((i + 1) as nat, f) =~= (vram_prefix + Seq::new(
                i as nat,
                f,
            )).push(f(i as int)));
        }
        let o = p.obj_attribute_memory[i / 4];
        let bytes = o.as_bytes();
        out.push(bytes[i % 4]);
        i += 1;
    }
    push_array(&mut out, &m.work_ram);
    push_array(&mut out, &m.high_ram);
    push_array(&mut out, &m.boot_rom);
    push_cart(&mut out, &m.cartridge);
    proof {
        assert(out@ =~= spec_payload(*cpu, rom_hash));
    }
    out
}

// ---------------------------------------------------------------------------
// Decoding
// ---------------------------------------------------------------------------
/// Whether two byte vectors hold the same bytes.
fn bytes_eq(a: &Vec<u8>, b: &Vec<u8>) -> (r: bool)
    ensures
        r == (a@ == b@),
{
    if a.len() != b.len() {
        proof {
            assert(a@.len() != b@.len());
        }
        return false;
    }
    let mut i: usize = 0;
    while i < a.len()
        invariant
            i <= a@.len(),
            a@.len() == b@.len(),
            forall|j: int| 0 <= j < i ==> a@[j] == b@[j],
        decreases a@.len() - i,
    {
        if a[i] != b[i] {
            return false;
        }
        i += 1;
    }
    proof {
        assert(a@ =~= b@);
    }
    true
}

/// Whether the whole core is well formed, checked at run time; used to
/// validate a decoded save before it is accepted.
fn check_wf(cpu: &Cpu) -> (r: bool)
    ensures
        r == cpu.wf(),
{
    let m = &cpu.mmu;
    let cart_ok = match &m.cartridge {
        Cart::NoMbc(_) => true,
        Cart::Mbc1(c) => 2 <= c.rom_banks.len() && c.rom_banks.len() <= 64 && 1 <= c.rom_bank_idx
            && c.rom_bank_idx < 32 && c.ram_bank_idx < 4 && c.ram_banks.len() <= 4,
        Cart::Mbc3(c) => 2 <= c.rom_banks.len() && c.rom_banks.len() <= 128 && 1 <= c.rom_bank_idx
            && c.rom_bank_idx < 128 && c.ram_banks.len() <= 4 && c.clock_registers.seconds < 60
            && c.clock_registers.minutes < 60 && c.clock_registers.hours < 24,
    };
    let p = &m.ppu;
    let threshold: u32 = match p.mode {
        Mode::ScanlineOAM => 80,
        Mode::ScanlineVRAM => 172,
        Mode::HorizontalBlank => 204,
        Mode::VerticalBlank => 456,
    };
    let ppu_ok = p.cycles_in_mode < threshold && (match p.mode {
        Mode::VerticalBlank => p.line < 154,
        _ => p.line < 144,
    });
    let ie = m.interrupts_enabled.bits;
    let ifr = m.interrupts_requested.bits;
    proof {
        assert(((ie & 0x1F == ie) == (ie < 32)) && ((ifr & 0x1F == ifr) == (ifr < 32)))
            by (bit_vector);
    }
    cart_ok && ppu_ok && m.timer.t_cycles_count < 1024 && m.divider.t_cycles_count < 1024 && ie
        < 32 && ifr < 32
}

/// Read the little-endian 64-bit value at an offset.
fn read_u64_le(bytes: &Vec<u8>, off: usize) -> (r: u64)
    requires
        off + 8 <= bytes@.len(),
{
    let n = bytes.len();
    let mut v: u64 = 0;
    let mut i: usize = 8;
    while i > 0
        invariant
            i <= 8,
            off + 8 <= bytes@.len(),
            bytes@.len() <= usize::MAX,
        decreases i,
    {
        i -= 1;
        v = v.wrapping_mul(256).wrapping_add(bytes[off + i] as u64);
    }
    v
}

/// Rebuild a core from a save payload and its ROM. The payload is accepted
/// only if re-encoding the rebuilt core reproduces it byte for byte, so an
/// accepted result is exactly the state the payload describes.
#[verifier::rlimit(100)]
#[verifier::spinoff_prover]
pub fn decode_payload(bytes: &Vec<u8>, rom: &Vec<u8>) -> (r: Option<(Cpu, u64)>)
    requires
        crate::cartridge::spec_rom_supported(rom@),
    ensures
        match r {
            Some(p) => p.0.wf() && spec_payload(p.0, p.1) == bytes@,
            None => true,
        },
{
    if bytes.len() < 0x4268 + 1 {
        return None;
    }
    if bytes[0] != 1 {
        return None;
    }
    let hash = read_u64_le(bytes, 1);
    let mut cpu = Cpu::new(Mmu::new(rom));
    cpu.regs.a = bytes[9];
    cpu.regs.f = bytes[10];
    cpu.regs.b = bytes[11];
    cpu.regs.c = bytes[12];
    cpu.regs.d = bytes[13];
    cpu.regs.e = bytes[14];
    cpu.regs.h = bytes[15];
    cpu.regs.l = bytes[16];
    cpu.regs.sp = bytes[17] as u16 + bytes[18] as u16 * 256;
    cpu.regs.pc = bytes[19] as u16 + bytes[20] as u16 * 256;
    cpu.ime = if bytes[21] == 0 {
        ImeState::Enabled
    } else if bytes[21] == 1 {
        ImeState::Disabled
    } else {
        ImeState::PendingEnable
    };
    cpu.is_halted = bytes[22] != 0;
    cpu.mmu.in_boot_rom = bytes[23] != 0;
    cpu.mmu.interrupts_enabled = crate::mmu::InterruptSet { bits: bytes[24] };
    cpu.mmu.interrupts_requested = crate::mmu::InterruptSet { bits: bytes[25] };
    cpu.mmu.joypad_select = if bytes[26] == 0 {
        JoypadSelect::All
    } else if bytes[26] == 1 {
        JoypadSelect::Buttons
    } else if bytes[26] == 2 {
        JoypadSelect::DPad
    } else {
        JoypadSelect::Neither
    };
    cpu.mmu.pressed_buttons = crate::joypad::ButtonSet { bits: bytes[27] };
    cpu.mmu.timer = decode_timer(bytes, 28);
    cpu.mmu.divider = decode_timer(bytes, 35);
    cpu.mmu.ppu.line = bytes[42];
    cpu.mmu.ppu.mode = if bytes[43] == 0 {
        Mode::ScanlineOAM
    } else if bytes[43] == 1 {
        Mode::ScanlineVRAM
    } else if bytes[43] == 2 {
        Mode::HorizontalBlank
    } else {
        Mode::VerticalBlank
    };
    let cycles = read_u64_le(bytes, 44);
    if cycles > 0xFFFF_FFFF {
        return None;
    }
    cpu.mmu.ppu.cycles_in_mode = (cycles % 0x1_0000_0000) as u32;
    cpu.mmu.ppu.lcd_enabled = bytes[52] != 0;
    cpu.mmu.ppu.window_tile_map_select = crate::ppu::TileMapArea::from_bit(bytes[53] != 0);
    cpu.mmu.ppu.window_enabled = bytes[54] != 0;
    cpu.mmu.ppu.bg_and_window_tile_data_select = if bytes[55] != 0 {
        crate::ppu::BgAndWindowTileDataArea::X8000
    } else {
        crate::ppu::BgAndWindowTileDataArea::X8800
    };
    cpu.mmu.ppu.bg_tile_map_select = crate::ppu::TileMapArea::from_bit(bytes[56] != 0);
    cpu.mmu.ppu.obj_size = crate::ppu::ObjSize::from_bit(bytes[57] != 0);
    cpu.mmu.ppu.obj_enabled = bytes[58] != 0;
    cpu.mmu.ppu.bg_enabled = bytes[59] != 0;
    cpu.mmu.ppu.bg_color_palette = crate::ppu::ColorPalette::from_byte(bytes[60]);
    let obp0 = crate::ppu::ColorPalette::from_byte(bytes[61]);
    let obp1 = crate::ppu::ColorPalette::from_byte(bytes[62]);
    cpu.mmu.ppu.obj_color_palettes = [obp0, obp1];
    cpu.mmu.ppu.viewport_offset.x = bytes[63];
    cpu.mmu.ppu.viewport_offset.y = bytes[64];
    cpu.mmu.ppu.window_top_left.x = bytes[65];
    cpu.mmu.ppu.window_top_left.y = bytes[66];
    cpu.mmu.ppu.lyc = bytes[67];
    cpu.mmu.ppu.lcd_status = crate::ppu::LcdStatus {
        lyc_int_select: bytes[68] != 0,
        mode_2_int_select: bytes[69] != 0,
        mode_1_int_select: bytes[70] != 0,
        mode_0_int_select: bytes[71] != 0,
    };
    // VRAM
    let mut i: usize = 0;
    while i < 0x2000
        invariant
            bytes@.len() >= 0x4269,
            cpu.mmu.cartridge.inv(),
        decreases 0x2000 - i,
    {
        cpu.mmu.ppu.write_vram_byte(0x8000 + i as u16, bytes[72 + i]);
        i += 1;
    }
    // OAM: four bytes per entry
    let mut i: usize = 0;
    while i < 40
        invariant
            bytes@.len() >= 0x4269,
            cpu.mmu.cartridge.inv(),
        decreases 40 - i,
    {
        let base = 0x2048 + 4 * i;
        let b3 = bytes[base + 3];
        let o = crate::ppu::ObjectAttributes {
            y_pos: bytes[base],
            x_pos: bytes[base + 1],
            tile_idx: bytes[base + 2],
            bg_over_obj_priority: if b3 & 0x80 != 0 {
                crate::ppu::Priority::One
            } else {
                crate::ppu::Priority::Zero
            },
            y_flip: b3 & 0x40 != 0,
            x_flip: b3 & 0x20 != 0,
            palette: if b3 & 0x10 != 0 {
                crate::ppu::ObjColorPaletteIdx::One
            } else {
                crate::ppu::ObjColorPaletteIdx::Zero
            },
        };
        cpu.mmu.ppu.obj_attribute_memory[i] = o;
        i += 1;
    }
    let mut wram = [0u8; 0x2000];
    let mut i: usize = 0;
    while i < 0x2000
        invariant
            bytes@.len() >= 0x4269,
        decreases 0x2000 - i,
    {
        wram[i] = bytes[0x20E8 + i];
        i += 1;
    }
    cpu.mmu.work_ram = wram;
    let mut hram = [0u8; 0x80];
    let mut i: usize = 0;
    while i < 0x80
        invariant
            bytes@.len() >= 0x4269,
        decreases 0x80 - i,
    {
        hram[i] = bytes[0x40E8 + i];
        i += 1;
    }
    cpu.mmu.high_ram = hram;
    let mut boot = [0u8; 0x100];
    let mut i: usize = 0;
    while i < 0x100
        invariant
            bytes@.len() >= 0x4269,
        decreases 0x100 - i,
    {
        boot[i] = bytes[0x4168 + i];
        i += 1;
    }
    cpu.mmu.boot_rom = boot;
    // the cartridge's mutable state
    if !decode_cart(&mut cpu.mmu.cartridge, bytes, 0x4268) {
        return None;
    }
    if !check_wf(&cpu) {
        return None;
    }
    // accept the payload only if the rebuilt core reproduces it exactly
    let re = encode_payload(&cpu, hash);
    if !bytes_eq(&re, bytes) {
        return None;
    }
    Some((cpu, hash))
}

/// Read one counter at an offset.
fn decode_timer(bytes: &Vec<u8>, off: usize) -> (t: Timer)
    requires
        off + 7 <= bytes@.len(),
{
    let n = bytes.len();
    Timer {
        frequency: if bytes[off] == 0 {
            TimerFrequency::F4KiHz
        } else if bytes[off] == 1 {
            TimerFrequency::F256KiHz
        } else if bytes[off] == 2 {
            TimerFrequency::F64KiHz
        } else {
            TimerFrequency::F16KiHz
        },
        enabled: bytes[off + 1] != 0,
        tma: bytes[off + 2],
        value: bytes[off + 3],
        reloads: bytes[off + 4] != 0,
        t_cycles_count: bytes[off + 5] as u16 + bytes[off + 6] as u16 * 256,
    }
}

/// Read the cartridge's mutable state at an offset; the bank storage must
/// fit what the ROM header built. Returns false for a payload that does
/// not fit the cartridge.
fn decode_cart(cart: &mut Cart, bytes: &Vec<u8>, off: usize) -> (ok: bool)
    requires
        old(cart).inv(),
        bytes@.len() >= off,
    ensures
        ok ==> final(cart).inv(),
        !ok ==> *final(cart) == *old(cart),
{
    let blen = bytes.len();
    match cart {
        Cart::NoMbc(n) => {
            if blen - off < 1 + 0x2000 || bytes[off] != 0 {
                return false;
            }
            let mut ram = [0u8; 0x2000];
            let mut i: usize = 0;
            while i < 0x2000
                invariant
                    bytes@.len() >= off + 1 + 0x2000,
                    bytes@.len() <= usize::MAX,
                decreases 0x2000 - i,
            {
                ram[i] = bytes[off + 1 + i];
                i += 1;
            }
            n.ext_ram = ram;
            true
        },
        Cart::Mbc1(m) => {
            if blen - off < 5 || bytes[off] != 1 {
                return false;
            }
            let idx = bytes[off + 1];
            if idx < 1 || idx >= 32 {
                return false;
            }
            let ram_idx = bytes[off + 2];
            if ram_idx >= 4 {
                return false;
            }
            let n_banks = bytes[off + 3 + 1];
            if n_banks as usize != m.ram_banks.len() {
                return false;
            }
            if (blen - off - 5) / 0x2000 < m.ram_banks.len() {
                return false;
            }
            proof {
                assert(off + 5 + m.ram_banks@.len() * 0x2000 <= blen) by (nonlinear_arith)
                    requires
                        (blen - off - 5) / 0x2000 >= m.ram_banks@.len(),
                        blen >= off + 5,
                        m.ram_banks@.len() >= 0,
                ;
            }
            let ghost len0 = m.ram_banks@.len();
            m.rom_bank_idx = idx as usize;
            m.ram_bank_idx = ram_idx as usize;
            m.ram_enable = bytes[off + 3] != 0;
            let mut b: usize = 0;
            while b < m.ram_banks.len()
                invariant
                    m.ram_banks@.len() == len0,
                    len0 <= 4,
                    bytes@.len() >= off + 5 + len0 * 0x2000,
                    bytes@.len() <= usize::MAX,
                    m.wf(),
                decreases m.ram_banks@.len() - b,
            {
                let mut bank = [0u8; 0x2000];
                let mut i: usize = 0;
                while i < 0x2000
                    invariant
                        b < len0,
                        len0 <= 4,
                        bytes@.len() >= off + 5 + len0 * 0x2000,
                    bytes@.len() <= usize::MAX,
                    decreases 0x2000 - i,
                {
                    bank[i] = bytes[off + 5 + b * 0x2000 + i];
                    i += 1;
                }
                m.ram_banks.set(b, crate::cartridge::RamBank(bank));
                b += 1;
            }
            true
        },
        Cart::Mbc3(m) => {
            if blen - off < 20 || bytes[off] != 2 {
                return false;
            }
            let idx = bytes[off + 1];
            if idx < 1 || idx >= 128 {
                return false;
            }
            let sel = bytes[off + 3];
            if sel > 12 || (sel > 3 && sel < 8) {
                return false;
            }
            let n_banks = bytes[off + 19];
            if n_banks as usize != m.ram_banks.len() {
                return false;
            }
            if (blen - off - 20) / 0x2000 < m.ram_banks.len() {
                return false;
            }
            proof {
                assert(off + 20 + m.ram_banks@.len() * 0x2000 <= blen) by (nonlinear_arith)
                    requires
                        (blen - off - 20) / 0x2000 >= m.ram_banks@.len(),
                        blen >= off + 20,
                        m.ram_banks@.len() >= 0,
                ;
            }
            if bytes[off + 5] >= 60 || bytes[off + 6] >= 60 || bytes[off + 7] >= 24 {
                return false;
            }
            let ghost len0 = m.ram_banks@.len();
            m.rom_bank_idx = idx as usize;
            m.enable_ram_and_rtc = bytes[off + 2] != 0;
            m.ram_bank_or_rtc_select = if sel <= 3 {
                RamBankOrRtcSelect::Ram { idx: sel }
            } else if sel == 8 {
                RamBankOrRtcSelect::Seconds
            } else if sel == 9 {
                RamBankOrRtcSelect::Minutes
            } else if sel == 10 {
                RamBankOrRtcSelect::Hours
            } else if sel == 11 {
                RamBankOrRtcSelect::DayCounterLoBits
            } else {
                RamBankOrRtcSelect::DayCounterHiBits
            };
            m.latch_state = if bytes[off + 4] != 0 {
                LatchState::Staged
            } else {
                LatchState::Latched
            };
            m.clock_registers.seconds = bytes[off + 5];
            m.clock_registers.minutes = bytes[off + 6];
            m.clock_registers.hours = bytes[off + 7];
            m.clock_registers.days_low = bytes[off + 8];
            m.clock_registers.days_hi_bit = bytes[off + 9] != 0;
            m.clock_registers.day_counter_carry = bytes[off + 10] != 0;
            m.clock_registers.last_update_secs = read_u64_le(bytes, off + 11);
            let mut b: usize = 0;
            while b < m.ram_banks.len()
                invariant
                    m.ram_banks@.len() == len0,
                    len0 <= 4,
                    bytes@.len() >= off + 20 + len0 * 0x2000,
                    bytes@.len() <= usize::MAX,
                    m.wf(),
                decreases m.ram_banks@.len() - b,
            {
                let mut bank = [0u8; 0x2000];
                let mut i: usize = 0;
                while i < 0x2000
                    invariant
                        b < len0,
                        len0 <= 4,
                        bytes@.len() >= off + 20 + len0 * 0x2000,
                    bytes@.len() <= usize::MAX,
                    decreases 0x2000 - i,
                {
                    bank[i] = bytes[off + 20 + b * 0x2000 + i];
                    i += 1;
                }
                m.ram_banks.set(b, crate::cartridge::RamBank(bank));
                b += 1;
            }
            true
        },
    }
}

} // verus!
