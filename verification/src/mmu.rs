//! The memory-mapped bus: 16-bit address decode over boot ROM, cartridge,
//! VRAM, WRAM, OAM, I/O registers, HRAM and the interrupt latches, plus the
//! step that advances timer, PPU and divider by the T-cycles the CPU reports.

use crate::cartridge::{spec_cart_read, spec_cart_write_effect, spec_rom_supported, Cart};
use crate::joypad::{Button, ButtonSet};
use crate::ppu::{
    spec_attr_byte, spec_palette_byte, spec_palette_of_byte, spec_read_vram, spec_step_effect,
    spec_vram_write_effect, BgAndWindowTileDataArea, ColorPalette, LcdStatus, Mode,
    ObjColorPaletteIdx, ObjSize, ObjectAttributes, Ppu, Priority, TileMapArea,
};
use crate::timer::{Timer, TimerFrequency};
use vstd::prelude::*;

verus! {


/// One of the five interrupt sources. Its bit in the IE and IF registers is
/// given by `interrupt_mask`.
#[derive(Debug, Clone, Copy, PartialEq, Eq, Structural)]
pub enum InterruptKind {
    Vblank,
    LcdStat,
    Timer,
    Serial,
    Joypad,
}

/// The bit of the IE / IF byte that carries the given interrupt.
pub open spec fn interrupt_mask(k: InterruptKind) -> u8 {
    match k {
        InterruptKind::Vblank => 0x01,
        InterruptKind::LcdStat => 0x02,
        InterruptKind::Timer => 0x04,
        InterruptKind::Serial => 0x08,
        InterruptKind::Joypad => 0x10,
    }
}

/// A set of interrupt sources: the low five bits of an IE / IF byte.
/// The upper three bits are always zero.
#[derive(Debug, Clone, Copy, PartialEq, Eq, Structural)]
pub struct InterruptSet {
    pub bits: u8,
}

impl InterruptSet {
    /// Whether the set holds the interrupt.
    pub open spec fn spec_contains(self, k: InterruptKind) -> bool {
        self.bits & interrupt_mask(k) != 0
    }

    /// The upper three bits of the byte are zero.
    pub open spec fn wf(self) -> bool {
        self.bits & 0x1F == self.bits
    }

    pub fn empty() -> (r: InterruptSet)
        ensures
            r.bits == 0,
            r.wf(),
    {
        proof {
            assert(0u8 & 0x1F == 0u8) by (bit_vector);
        }
        InterruptSet { bits: 0 }
    }

    /// The set a byte written to IE or IF leaves there: the upper three bits
    /// are dropped.
    pub fn from_byte(byte: u8) -> (r: InterruptSet)
        ensures
            r.bits == byte & 0x1F,
            r.wf(),
    {
        proof {
            assert((byte & 0x1F) & 0x1F == byte & 0x1F) by (bit_vector);
        }
        InterruptSet { bits: byte & 0x1F }
    }

    /// The byte that a read of IE or IF returns; its upper three bits read
    /// as zero.
    pub fn as_u8(&self) -> (r: u8)
        ensures
            r == self.bits & 0x1F,
    {
        self.bits & 0x1F
    }

    pub fn contains(&self, k: InterruptKind) -> (r: bool)
        ensures
            r == self.spec_contains(k),
    {
        (self.bits & interrupt_mask_of(k)) != 0
    }

    pub fn insert(&mut self, k: InterruptKind)
        ensures
            final(self).bits == old(self).bits | interrupt_mask(k),
            old(self).wf() ==> final(self).wf(),
    {
        let m = interrupt_mask_of(k);
        proof {
            let b = old(self).bits;
            assert(b & 0x1F == b && (m == 0x01 || m == 0x02 || m == 0x04 || m == 0x08 || m == 0x10)
                ==> ((b | m) & 0x1F == (b | m))) by (bit_vector);
        }
        self.bits = self.bits | m;
    }

    pub fn remove(&mut self, k: InterruptKind)
        ensures
            final(self).bits == old(self).bits & !interrupt_mask(k),
            old(self).wf() ==> final(self).wf(),
    {
        let m = interrupt_mask_of(k);
        proof {
            let b = old(self).bits;
            assert(b & 0x1F == b ==> ((b & !m) & 0x1F == (b & !m))) by (bit_vector);
        }
        self.bits = self.bits & !m;
    }

    /// The union of two sets.
    pub fn union(&mut self, other: InterruptSet)
        ensures
            final(self).bits == old(self).bits | other.bits,
            old(self).wf() && other.wf() ==> final(self).wf(),
    {
        proof {
            let b = old(self).bits;
            let c = other.bits;
            assert((b & 0x1F == b && c & 0x1F == c) ==> ((b | c) & 0x1F == (b | c)))
                by (bit_vector);
        }
        self.bits = self.bits | other.bits;
    }

    /// The intersection of two sets.
    pub fn intersect(&self, other: InterruptSet) -> (r: InterruptSet)
        ensures
            r.bits == self.bits & other.bits,
    {
        InterruptSet { bits: self.bits & other.bits }
    }

    pub fn is_empty(&self) -> (r: bool)
        ensures
            r == (self.bits == 0),
    {
        self.bits == 0
    }
}

/// The bit of the IE / IF byte that carries the given interrupt.
pub fn interrupt_mask_of(k: InterruptKind) -> (r: u8)
    ensures
        r == interrupt_mask(k),
{
    match k {
        InterruptKind::Vblank => 0x01,
        InterruptKind::LcdStat => 0x02,
        InterruptKind::Timer => 0x04,
        InterruptKind::Serial => 0x08,
        InterruptKind::Joypad => 0x10,
    }
}

/// Configures whether the joypad register returns the state of the buttons
/// or of the direction keys, selected by bits 5 and 4 of a write to it.
#[derive(Debug, Clone, Copy, PartialEq, Eq, Structural)]
pub enum JoypadSelect {
    All,
    Buttons,
    DPad,
    Neither,
}

/// The joypad select mode bits 5 and 4 of a written byte choose: both high
/// selects nothing, bit 5 low the buttons' group... bit 4 low the d-pad,
/// both low both groups.
pub open spec fn spec_joypad_select_of_byte(byte: u8) -> JoypadSelect {
    let hi = byte & 0x20 != 0;
    let lo = byte & 0x10 != 0;
    if !hi && !lo {
        JoypadSelect::All
    } else if !hi && lo {
        JoypadSelect::Buttons
    } else if hi && !lo {
        JoypadSelect::DPad
    } else {
        JoypadSelect::Neither
    }
}

/// The active-low bit for one button: 0 when pressed.
pub open spec fn spec_btn_bit(pressed: ButtonSet, b: Button) -> u8 {
    if pressed.spec_contains(b) {
        0
    } else {
        1
    }
}

/// The active-low bit for a pair of buttons selected together: 0 when
/// either is pressed.
pub open spec fn spec_btn_bit2(pressed: ButtonSet, a: Button, b: Button) -> u8 {
    if pressed.spec_contains(a) || pressed.spec_contains(b) {
        0
    } else {
        1
    }
}

/// What a read of the joypad register returns: the select bits plus the
/// inverted (active-low) state of the selected group; with nothing
/// selected the low nibble reads 0xF.
pub open spec fn spec_joypad_byte(sel: JoypadSelect, pressed: ButtonSet) -> u8 {
    match sel {
        JoypadSelect::Buttons => (0xD0 + spec_btn_bit(pressed, Button::Start) * 8 + spec_btn_bit(
            pressed,
            Button::Select,
        ) * 4 + spec_btn_bit(pressed, Button::B) * 2 + spec_btn_bit(pressed, Button::A)) as u8,
        JoypadSelect::DPad => (0xE0 + spec_btn_bit(pressed, Button::Down) * 8 + spec_btn_bit(
            pressed,
            Button::Up,
        ) * 4 + spec_btn_bit(pressed, Button::Left) * 2 + spec_btn_bit(
            pressed,
            Button::Right,
        )) as u8,
        JoypadSelect::Neither => 0xFF,
        JoypadSelect::All => (0xC0 + spec_btn_bit2(pressed, Button::Start, Button::Down) * 8
            + spec_btn_bit2(pressed, Button::Select, Button::Up) * 4 + spec_btn_bit2(
            pressed,
            Button::B,
            Button::Left,
        ) * 2 + spec_btn_bit2(pressed, Button::A, Button::Right)) as u8,
    }
}

/// The OAM entry an attribute byte describes, together with the three
/// position/tile bytes: bit 7 the priority, bit 6 the vertical flip, bit 5
/// the horizontal flip, bit 4 the palette; the low four bits are dropped.
pub open spec fn spec_obj_from_bytes(b0: u8, b1: u8, b2: u8, b3: u8) -> ObjectAttributes {
    ObjectAttributes {
        y_pos: b0,
        x_pos: b1,
        tile_idx: b2,
        bg_over_obj_priority: if b3 & 0x80 != 0 {
            Priority::One
        } else {
            Priority::Zero
        },
        y_flip: b3 & 0x40 != 0,
        x_flip: b3 & 0x20 != 0,
        palette: if b3 & 0x10 != 0 {
            ObjColorPaletteIdx::One
        } else {
            ObjColorPaletteIdx::Zero
        },
    }
}

/// The byte a read of the LCD control register returns.
pub open spec fn spec_lcdc_byte(p: Ppu) -> u8 {
    ((if p.lcd_enabled {
        0x80u8
    } else {
        0u8
    }) + (if p.window_tile_map_select == TileMapArea::X9C00 {
        0x40u8
    } else {
        0u8
    }) + (if p.window_enabled {
        0x20u8
    } else {
        0u8
    }) + (if p.bg_and_window_tile_data_select == BgAndWindowTileDataArea::X8000 {
        0x10u8
    } else {
        0u8
    }) + (if p.bg_tile_map_select == TileMapArea::X9C00 {
        0x08u8
    } else {
        0u8
    }) + (if p.obj_size == ObjSize::Dim8x16 {
        0x04u8
    } else {
        0u8
    }) + (if p.obj_enabled {
        0x02u8
    } else {
        0u8
    }) + (if p.bg_enabled {
        0x01u8
    } else {
        0u8
    })) as u8
}

/// The two mode bits of the LCD status register.
pub open spec fn spec_mode_bits(m: Mode) -> u8 {
    match m {
        Mode::HorizontalBlank => 0,
        Mode::VerticalBlank => 1,
        Mode::ScanlineOAM => 2,
        Mode::ScanlineVRAM => 3,
    }
}

/// The byte a read of the LCD status register returns: bit 7 reads high,
/// bits 6 to 3 the interrupt selects, bit 2 the LYC = LY comparison, bits
/// 1 and 0 the mode.
pub open spec fn spec_stat_byte(p: Ppu) -> u8 {
    (0x80 + (if p.lcd_status.lyc_int_select {
        0x40u8
    } else {
        0u8
    }) + (if p.lcd_status.mode_2_int_select {
        0x20u8
    } else {
        0u8
    }) + (if p.lcd_status.mode_1_int_select {
        0x10u8
    } else {
        0u8
    }) + (if p.lcd_status.mode_0_int_select {
        0x08u8
    } else {
        0u8
    }) + (if p.line == p.lyc {
        0x04u8
    } else {
        0u8
    }) + spec_mode_bits(p.mode)) as u8
}

/// The byte a read of the timer control register returns: the upper five
/// bits read high, bit 2 is the enable, bits 1 and 0 encode the frequency.
pub open spec fn spec_tac_byte(t: Timer) -> u8 {
    (0xF8 + (if t.enabled {
        4u8
    } else {
        0u8
    }) + match t.frequency {
        TimerFrequency::F4KiHz => 0u8,
        TimerFrequency::F256KiHz => 1u8,
        TimerFrequency::F64KiHz => 2u8,
        TimerFrequency::F16KiHz => 3u8,
    }) as u8
}

/// The memory bus.
pub struct Mmu {
    pub cartridge: Cart,
    pub work_ram: [u8; 0x2000],
    pub high_ram: [u8; 0x80],
    pub boot_rom: [u8; 0x100],
    pub in_boot_rom: bool,
    pub ppu: Ppu,
    /// IE: whether the interrupt handler for each source may be called.
    pub interrupts_enabled: InterruptSet,
    /// IF: which interrupts are being requested; they run only when IME and
    /// the corresponding IE bit allow it.
    pub interrupts_requested: InterruptSet,
    pub timer: Timer,
    /// Always enabled, ticks at 16 KiHz, resets to 0 on any write.
    pub divider: Timer,
    pub joypad_select: JoypadSelect,
    pub pressed_buttons: ButtonSet,
}

/// Reads of this range fail: it is prohibited memory.
pub open spec fn spec_addr_prohibited(addr: u16) -> bool {
    0xFEA0 <= addr < 0xFF00
}

/// What a read of the bus returns at each readable address.
pub open spec fn spec_read_byte(m: Mmu, addr: u16) -> u8 {
    if addr < 0x8000 {
        if m.in_boot_rom && addr < 0x100 {
            m.boot_rom[addr as int]
        } else {
            spec_cart_read(m.cartridge, addr)
        }
    } else if addr < 0xA000 {
        spec_read_vram(m.ppu, addr)
    } else if addr < 0xC000 {
        spec_cart_read(m.cartridge, addr)
    } else if addr < 0xFE00 {
        m.work_ram[(addr - 0xC000) % 0x2000]
    } else if addr < 0xFEA0 {
        let o = m.ppu.obj_attribute_memory[(addr - 0xFE00) / 4];
        let k = (addr - 0xFE00) % 4;
        if k == 0 {
            o.y_pos
        } else if k == 1 {
            o.x_pos
        } else if k == 2 {
            o.tile_idx
        } else {
            spec_attr_byte(o)
        }
    } else if addr < 0xFF00 {
        0xFF  // prohibited; reads are excluded by precondition
    } else if addr == 0xFF00 {
        spec_joypad_byte(m.joypad_select, m.pressed_buttons)
    } else if addr == 0xFF04 {
        m.divider.value
    } else if addr == 0xFF05 {
        m.timer.value
    } else if addr == 0xFF06 {
        m.timer.tma
    } else if addr == 0xFF07 {
        spec_tac_byte(m.timer)
    } else if addr == 0xFF0F {
        m.interrupts_requested.bits & 0x1F
    } else if addr == 0xFF40 {
        spec_lcdc_byte(m.ppu)
    } else if addr == 0xFF41 {
        spec_stat_byte(m.ppu)
    } else if addr == 0xFF42 {
        m.ppu.viewport_offset.y
    } else if addr == 0xFF43 {
        m.ppu.viewport_offset.x
    } else if addr == 0xFF44 {
        m.ppu.line
    } else if addr == 0xFF45 {
        m.ppu.lyc
    } else if addr == 0xFF47 {
        spec_palette_byte(m.ppu.bg_color_palette)
    } else if addr == 0xFF48 {
        spec_palette_byte(m.ppu.obj_color_palettes[0])
    } else if addr == 0xFF49 {
        spec_palette_byte(m.ppu.obj_color_palettes[1])
    } else if addr == 0xFF4A {
        m.ppu.window_top_left.y
    } else if addr == 0xFF4B {
        m.ppu.window_top_left.x
    } else if 0xFF80 <= addr < 0xFFFF {
        m.high_ram[addr - 0xFF80]
    } else if addr == 0xFFFF {
        m.interrupts_enabled.bits & 0x1F
    } else {
        // unmapped or write-only I/O (audio, CGB-only, serial data, DMA)
        0xFF
    }
}

/// The little-endian word at an address: the low byte first, the high byte
/// at the next address, wrapping at the top of the address space.
pub open spec fn spec_read_word(m: Mmu, addr: u16) -> u16 {
    (spec_read_byte(m, addr) + spec_read_byte(m, ((addr + 1) % 0x10000) as u16) * 256) as u16
}

/// What a write to the bus does: relates the bus before and after. Writes
/// below 0x8000 are never memory writes: they are cartridge bank-control
/// commands. A write to the divider clears it; a write to LY is ignored; a
/// write to the DMA register copies 160 bytes into OAM; writes to
/// prohibited or unmapped addresses are absorbed.
pub open spec fn spec_write_effect(m: Mmu, m2: Mmu, addr: u16, byte: u8) -> bool {
    if addr < 0x8000 || 0xA000 <= addr < 0xC000 {
        &&& m2 == Mmu { cartridge: m2.cartridge, ..m }
        &&& spec_cart_write_effect(m.cartridge, m2.cartridge, addr, byte)
    } else if addr < 0xA000 {
        &&& m2 == Mmu { ppu: m2.ppu, ..m }
        &&& spec_vram_write_effect(m.ppu, m2.ppu, addr, byte)
    } else if addr < 0xFE00 {
        &&& m2 == Mmu { work_ram: m2.work_ram, ..m }
        &&& m2.work_ram@ == m.work_ram@.update((addr - 0xC000) % 0x2000, byte)
    } else if addr < 0xFEA0 {
        let i = (addr - 0xFE00) / 4;
        let k = (addr - 0xFE00) % 4;
        let o2 = spec_oam_byte_write(m.ppu.obj_attribute_memory[i], k, byte);
        &&& m2 == Mmu { ppu: m2.ppu, ..m }
        &&& m2.ppu == Ppu { obj_attribute_memory: m2.ppu.obj_attribute_memory, ..m.ppu }
        &&& m2.ppu.obj_attribute_memory@ == m.ppu.obj_attribute_memory@.update(i, o2)
    } else if addr < 0xFF00 {
        m2 == m  // prohibited: the write is ignored
    } else if addr == 0xFF00 {
        m2 == Mmu { joypad_select: spec_joypad_select_of_byte(byte), ..m }
    } else if addr == 0xFF04 {
        &&& m2 == Mmu { divider: m2.divider, ..m }
        &&& m2.divider == Timer { value: 0, ..m.divider }
    } else if addr == 0xFF05 {
        &&& m2 == Mmu { timer: m2.timer, ..m }
        &&& m2.timer == Timer { value: byte, ..m.timer }
    } else if addr == 0xFF06 {
        &&& m2 == Mmu { timer: m2.timer, ..m }
        &&& m2.timer == Timer { tma: byte, ..m.timer }
    } else if addr == 0xFF07 {
        let freq = if byte & 3 == 0 {
            TimerFrequency::F4KiHz
        } else if byte & 3 == 1 {
            TimerFrequency::F256KiHz
        } else if byte & 3 == 2 {
            TimerFrequency::F64KiHz
        } else {
            TimerFrequency::F16KiHz
        };
        &&& m2 == Mmu { timer: m2.timer, ..m }
        &&& m2.timer == Timer { enabled: byte & 4 != 0, frequency: freq, ..m.timer }
    } else if addr == 0xFF0F {
        m2 == Mmu { interrupts_requested: InterruptSet { bits: byte & 0x1F }, ..m }
    } else if addr == 0xFF40 {
        let off = byte & 0x80 == 0;
        &&& m2 == Mmu { ppu: m2.ppu, ..m }
        &&& m2.ppu == Ppu {
            lcd_enabled: byte & 0x80 != 0,
            window_tile_map_select: if byte & 0x40 != 0 {
                TileMapArea::X9C00
            } else {
                TileMapArea::X9800
            },
            window_enabled: byte & 0x20 != 0,
            bg_and_window_tile_data_select: if byte & 0x10 != 0 {
                BgAndWindowTileDataArea::X8000
            } else {
                BgAndWindowTileDataArea::X8800
            },
            bg_tile_map_select: if byte & 0x08 != 0 {
                TileMapArea::X9C00
            } else {
                TileMapArea::X9800
            },
            obj_size: if byte & 0x04 != 0 {
                ObjSize::Dim8x16
            } else {
                ObjSize::Dim8x8
            },
            obj_enabled: byte & 0x02 != 0,
            bg_enabled: byte & 0x01 != 0,
            line: if off {
                0
            } else {
                m.ppu.line
            },
            mode: if off {
                Mode::HorizontalBlank
            } else {
                m.ppu.mode
            },
            cycles_in_mode: if off {
                0
            } else {
                m.ppu.cycles_in_mode
            },
            ..m.ppu
        }
    } else if addr == 0xFF41 {
        &&& m2 == Mmu { ppu: m2.ppu, ..m }
        &&& m2.ppu == Ppu {
            lcd_status: LcdStatus {
                lyc_int_select: byte & 0x40 != 0,
                mode_2_int_select: byte & 0x20 != 0,
                mode_1_int_select: byte & 0x10 != 0,
                mode_0_int_select: byte & 0x08 != 0,
            },
            ..m.ppu
        }
    } else if addr == 0xFF42 {
        &&& m2 == Mmu { ppu: m2.ppu, ..m }
        &&& m2.ppu == Ppu {
            viewport_offset: crate::ppu::Position { y: byte, ..m.ppu.viewport_offset },
            ..m.ppu
        }
    } else if addr == 0xFF43 {
        &&& m2 == Mmu { ppu: m2.ppu, ..m }
        &&& m2.ppu == Ppu {
            viewport_offset: crate::ppu::Position { x: byte, ..m.ppu.viewport_offset },
            ..m.ppu
        }
    } else if addr == 0xFF44 {
        m2 == m  // LY is read-only; ROM misbehavior, the write is ignored
    } else if addr == 0xFF45 {
        &&& m2 == Mmu { ppu: m2.ppu, ..m }
        &&& m2.ppu == Ppu { lyc: byte, ..m.ppu }
    } else if addr == 0xFF46 {
        // OAM DMA: copy 160 bytes from byte * 0x100 into OAM
        &&& m2 == Mmu { ppu: m2.ppu, ..m }
        &&& m2.ppu == Ppu { obj_attribute_memory: m2.ppu.obj_attribute_memory, ..m.ppu }
        &&& forall|i: int|
            0 <= i < 40 ==> #[trigger] m2.ppu.obj_attribute_memory[i] == spec_obj_from_bytes(
                spec_read_byte(m, (byte * 0x100 + 4 * i) as u16),
                spec_read_byte(m, (byte * 0x100 + 4 * i + 1) as u16),
                spec_read_byte(m, (byte * 0x100 + 4 * i + 2) as u16),
                spec_read_byte(m, (byte * 0x100 + 4 * i + 3) as u16),
            )
    } else if addr == 0xFF47 {
        &&& m2 == Mmu { ppu: m2.ppu, ..m }
        &&& m2.ppu == Ppu { bg_color_palette: spec_palette_of_byte(byte), ..m.ppu }
    } else if addr == 0xFF48 || addr == 0xFF49 {
        &&& m2 == Mmu { ppu: m2.ppu, ..m }
        &&& m2.ppu == Ppu { obj_color_palettes: m2.ppu.obj_color_palettes, ..m.ppu }
        &&& m2.ppu.obj_color_palettes@ == m.ppu.obj_color_palettes@.update(
            if addr == 0xFF48 {
                0int
            } else {
                1int
            },
            spec_palette_of_byte(byte),
        )
    } else if addr == 0xFF4A {
        &&& m2 == Mmu { ppu: m2.ppu, ..m }
        &&& m2.ppu == Ppu {
            window_top_left: crate::ppu::Position { y: byte, ..m.ppu.window_top_left },
            ..m.ppu
        }
    } else if addr == 0xFF4B {
        &&& m2 == Mmu { ppu: m2.ppu, ..m }
        &&& m2.ppu == Ppu {
            window_top_left: crate::ppu::Position { x: byte, ..m.ppu.window_top_left },
            ..m.ppu
        }
    } else if addr == 0xFF50 {
        if byte != 0 {
            m2 == Mmu { in_boot_rom: false, ..m }
        } else {
            m2 == m
        }
    } else if 0xFF80 <= addr < 0xFFFF {
        &&& m2 == Mmu { high_ram: m2.high_ram, ..m }
        &&& m2.high_ram@ == m.high_ram@.update(addr - 0xFF80, byte)
    } else if addr == 0xFFFF {
        m2 == Mmu { interrupts_enabled: InterruptSet { bits: byte & 0x1F }, ..m }
    } else {
        m2 == m  // unmapped or audio I/O: the write is absorbed
    }
}

/// What one bus step does: the timer advances and raises the timer
/// interrupt on overflow, the PPU advances and its interrupts are latched,
/// and the divider advances.
pub open spec fn spec_mmu_step_effect(m: Mmu, m2: Mmu, t_cycles: u8) -> bool {
    let timer_up = m.timer.spec_update(t_cycles);
    let if1 = if timer_up.1 {
        m.interrupts_requested.bits | 0x04
    } else {
        m.interrupts_requested.bits
    };
    &&& m2 == Mmu {
        timer: timer_up.0,
        divider: m.divider.spec_update(t_cycles).0,
        ppu: m2.ppu,
        interrupts_requested: m2.interrupts_requested,
        ..m
    }
    &&& exists|ppu_bits: u8|
        spec_step_effect(m.ppu, t_cycles, m2.ppu, ppu_bits) && m2.interrupts_requested.bits == (
        if1 | ppu_bits)
}

impl Mmu {
    /// The bus invariant: the cartridge, PPU, counters and interrupt
    /// latches are each well formed.
    pub open spec fn wf(self) -> bool {
        &&& self.cartridge.inv()
        &&& self.ppu.wf()
        &&& self.timer.wf()
        &&& self.divider.wf()
        &&& self.interrupts_enabled.wf()
        &&& self.interrupts_requested.wf()
    }

    /// Build the bus for a ROM image: the header picks the cartridge kind.
    /// The boot ROM starts mapped and zero-filled; the host supplies its
    /// bytes through `set_boot_rom`.
    pub fn new(rom: &Vec<u8>) -> (r: Mmu)
        requires
            spec_rom_supported(rom@),
        ensures
            r.wf(),
            crate::cartridge::spec_cart_built_from(r.cartridge, rom@),
            r.in_boot_rom,
            r.interrupts_enabled.bits == 0,
            r.interrupts_requested.bits == 0,
            r.ppu.wf(),
            !r.ppu.lcd_enabled,
            r.ppu.line == 0,
            r.ppu.mode == Mode::ScanlineOAM,
            r.ppu.cycles_in_mode == 0,
            forall|j: int| 0 <= j < 0x2000 ==> #[trigger] r.work_ram[j] == 0,
            forall|j: int| 0 <= j < 0x80 ==> #[trigger] r.high_ram[j] == 0,
            forall|j: int| 0 <= j < 0x100 ==> #[trigger] r.boot_rom[j] == 0,
            !r.timer.enabled,
            r.timer.reloads,
            r.divider.enabled,
            !r.divider.reloads,
            r.divider.frequency == TimerFrequency::F16KiHz,
            r.joypad_select == JoypadSelect::Neither,
            r.pressed_buttons.bits == 0,
    {
        let mut divider = Timer::new(TimerFrequency::F16KiHz);
        divider.enabled = true;
        divider.reloads = false;
        Mmu {
            cartridge: Cart::from_game_rom(rom),
            work_ram: [0; 0x2000],
            high_ram: [0; 0x80],
            ppu: Ppu::new(),
            interrupts_enabled: InterruptSet::empty(),
            interrupts_requested: InterruptSet::empty(),
            timer: Timer::new(TimerFrequency::F4KiHz),
            divider,
            boot_rom: [0; 0x100],
            in_boot_rom: true,
            joypad_select: JoypadSelect::Neither,
            pressed_buttons: ButtonSet::empty(),
        }
    }

    /// Install the host-provided 256-byte boot ROM, mapped at [0, 0xFF]
    /// until a non-zero write to 0xFF50.
    pub fn set_boot_rom(&mut self, data: &[u8; 0x100])
        ensures
            *final(self) == (Mmu { boot_rom: *data, ..*old(self) }),
    {
        self.boot_rom = *data;
    }
}

impl Mmu {
    /// Read one byte off the bus. Reads of the prohibited range
    /// [0xFEA0, 0xFF00) are programmer errors and are excluded.
    pub fn read_byte(&self, addr: u16) -> (r: u8)
        requires
            self.wf(),
            !spec_addr_prohibited(addr),
        ensures
            r == spec_read_byte(*self, addr),
    {
        if addr < 0x8000 {
            if self.in_boot_rom && addr < 0x100 {
                self.boot_rom[addr as usize]
            } else {
                self.cartridge.read(addr)
            }
        } else if addr < 0xA000 {
            self.ppu.read_vram_byte(addr)
        } else if addr < 0xC000 {
            self.cartridge.read(addr)
        } else if addr < 0xFE00 {
            self.work_ram[((addr - 0xC000) % 0x2000) as usize]
        } else if addr < 0xFEA0 {
            let o = self.ppu.obj_attribute_memory[((addr - 0xFE00) / 4) as usize];
            let k = (addr - 0xFE00) % 4;
            let bytes = o.as_bytes();
            bytes[k as usize]
        } else if addr == 0xFF00 {
            self.joypad_byte()
        } else if addr == 0xFF04 {
            self.divider.value
        } else if addr == 0xFF05 {
            self.timer.value
        } else if addr == 0xFF06 {
            self.timer.tma
        } else if addr == 0xFF07 {
            let freq_bits: u8 = match self.timer.frequency {
                TimerFrequency::F4KiHz => 0,
                TimerFrequency::F256KiHz => 1,
                TimerFrequency::F64KiHz => 2,
                TimerFrequency::F16KiHz => 3,
            };
            0xF8 + (if self.timer.enabled {
                4
            } else {
                0
            }) + freq_bits
        } else if addr == 0xFF0F {
            self.interrupts_requested.as_u8()
        } else if addr == 0xFF40 {
            self.lcdc_byte()
        } else if addr == 0xFF41 {
            self.stat_byte()
        } else if addr == 0xFF42 {
            self.ppu.viewport_offset.y
        } else if addr == 0xFF43 {
            self.ppu.viewport_offset.x
        } else if addr == 0xFF44 {
            self.ppu.line
        } else if addr == 0xFF45 {
            self.ppu.lyc
        } else if addr == 0xFF47 {
            self.ppu.bg_color_palette.to_byte()
        } else if addr == 0xFF48 {
            self.ppu.obj_color_palettes[0].to_byte()
        } else if addr == 0xFF49 {
            self.ppu.obj_color_palettes[1].to_byte()
        } else if addr == 0xFF4A {
            self.ppu.window_top_left.y
        } else if addr == 0xFF4B {
            self.ppu.window_top_left.x
        } else if 0xFF80 <= addr && addr < 0xFFFF {
            self.high_ram[(addr - 0xFF80) as usize]
        } else if addr == 0xFFFF {
            self.interrupts_enabled.as_u8()
        } else {
            // unmapped or write-only I/O (audio, CGB-only, serial data, DMA)
            0xFF
        }
    }

    /// The joypad register: the select bits plus the active-low state of
    /// the selected button group.
    fn joypad_byte(&self) -> (r: u8)
        ensures
            r == spec_joypad_byte(self.joypad_select, self.pressed_buttons),
    {
        match self.joypad_select {
            JoypadSelect::Buttons => {
                let b3: u8 = if self.pressed_buttons.contains(Button::Start) {
                    0
                } else {
                    8
                };
                let b2: u8 = if self.pressed_buttons.contains(Button::Select) {
                    0
                } else {
                    4
                };
                let b1: u8 = if self.pressed_buttons.contains(Button::B) {
                    0
                } else {
                    2
                };
                let b0: u8 = if self.pressed_buttons.contains(Button::A) {
                    0
                } else {
                    1
                };
                0xD0 + b3 + b2 + b1 + b0
            },
            JoypadSelect::DPad => {
                let b3: u8 = if self.pressed_buttons.contains(Button::Down) {
                    0
                } else {
                    8
                };
                let b2: u8 = if self.pressed_buttons.contains(Button::Up) {
                    0
                } else {
                    4
                };
                let b1: u8 = if self.pressed_buttons.contains(Button::Left) {
                    0
                } else {
                    2
                };
                let b0: u8 = if self.pressed_buttons.contains(Button::Right) {
                    0
                } else {
                    1
                };
                0xE0 + b3 + b2 + b1 + b0
            },
            JoypadSelect::Neither => 0xFF,
            JoypadSelect::All => {
                let b3: u8 = if self.pressed_buttons.contains(Button::Start)
                    || self.pressed_buttons.contains(Button::Down) {
                    0
                } else {
                    8
                };
                let b2: u8 = if self.pressed_buttons.contains(Button::Select)
                    || self.pressed_buttons.contains(Button::Up) {
                    0
                } else {
                    4
                };
                let b1: u8 = if self.pressed_buttons.contains(Button::B)
                    || self.pressed_buttons.contains(Button::Left) {
                    0
                } else {
                    2
                };
                let b0: u8 = if self.pressed_buttons.contains(Button::A)
                    || self.pressed_buttons.contains(Button::Right) {
                    0
                } else {
                    1
                };
                0xC0 + b3 + b2 + b1 + b0
            },
        }
    }

    /// The LCD control register byte.
    fn lcdc_byte(&self) -> (r: u8)
        ensures
            r == spec_lcdc_byte(self.ppu),
    {
        let b7: u8 = if self.ppu.lcd_enabled {
            0x80
        } else {
            0
        };
        let b6: u8 = if self.ppu.window_tile_map_select.to_bit() {
            0x40
        } else {
            0
        };
        let b5: u8 = if self.ppu.window_enabled {
            0x20
        } else {
            0
        };
        let b4: u8 = if self.ppu.bg_and_window_tile_data_select.to_bit() {
            0x10
        } else {
            0
        };
        let b3: u8 = if self.ppu.bg_tile_map_select.to_bit() {
            0x08
        } else {
            0
        };
        let b2: u8 = if self.ppu.obj_size.to_bit() {
            0x04
        } else {
            0
        };
        let b1: u8 = if self.ppu.obj_enabled {
            0x02
        } else {
            0
        };
        let b0: u8 = if self.ppu.bg_enabled {
            0x01
        } else {
            0
        };
        b7 + b6 + b5 + b4 + b3 + b2 + b1 + b0
    }

    /// The LCD status register byte.
    fn stat_byte(&self) -> (r: u8)
        ensures
            r == spec_stat_byte(self.ppu),
    {
        let mode_bits: u8 = match self.ppu.mode {
            Mode::HorizontalBlank => 0,
            Mode::VerticalBlank => 1,
            Mode::ScanlineOAM => 2,
            Mode::ScanlineVRAM => 3,
        };
        let stat = self.ppu.lcd_status;
        0x80 + (if stat.lyc_int_select {
            0x40
        } else {
            0
        }) + (if stat.mode_2_int_select {
            0x20
        } else {
            0
        }) + (if stat.mode_1_int_select {
            0x10
        } else {
            0
        }) + (if stat.mode_0_int_select {
            0x08
        } else {
            0
        }) + (if self.ppu.line == self.ppu.lyc {
            0x04
        } else {
            0
        }) + mode_bits
    }

    /// Read the little-endian word at an address; the high byte wraps at
    /// the top of the address space.
    pub fn read_word(&self, addr: u16) -> (r: u16)
        requires
            self.wf(),
            !spec_addr_prohibited(addr),
            !spec_addr_prohibited(((addr + 1) % 0x10000) as u16),
        ensures
            r == spec_read_word(*self, addr),
    {
        let lo = self.read_byte(addr);
        let hi = self.read_byte(addr.wrapping_add(1));
        crate::cpu::register_file::pack_word(hi, lo)
    }
}

/// One OAM entry after writing byte `k` of its four bytes.
pub open spec fn spec_oam_byte_write(o: ObjectAttributes, k: int, byte: u8) -> ObjectAttributes {
    if k == 0 {
        ObjectAttributes { y_pos: byte, ..o }
    } else if k == 1 {
        ObjectAttributes { x_pos: byte, ..o }
    } else if k == 2 {
        ObjectAttributes { tile_idx: byte, ..o }
    } else {
        spec_obj_from_bytes(o.y_pos, o.x_pos, o.tile_idx, byte)
    }
}

impl Mmu {
    /// Write one byte to the bus.
    #[verifier::rlimit(100)]
    #[verifier::spinoff_prover]
    pub fn write_byte(&mut self, addr: u16, byte: u8)
        requires
            old(self).wf(),
        ensures
            final(self).wf(),
            spec_write_effect(*old(self), *final(self), addr, byte),
    {
        if addr < 0x8000 {
            self.cartridge.write(addr, byte);
        } else if addr < 0xA000 {
            self.ppu.write_vram_byte(addr, byte);
        } else if addr < 0xC000 {
            self.cartridge.write(addr, byte);
        } else if addr < 0xFE00 {
            self.work_ram[((addr - 0xC000) % 0x2000) as usize] = byte;
        } else if addr < 0xFEA0 {
            self.write_oam_byte(addr, byte);
        } else if addr < 0xFF00 {
            // prohibited: the write is ignored
        } else {
            self.write_io_byte(addr, byte);
        }
    }

    /// Write one byte into the I/O register range [0xFF00, 0xFFFF].
    #[verifier::rlimit(100)]
    #[verifier::spinoff_prover]
    fn write_io_byte(&mut self, addr: u16, byte: u8)
        requires
            old(self).wf(),
            addr >= 0xFF00,
        ensures
            final(self).wf(),
            spec_write_effect(*old(self), *final(self), addr, byte),
    {
        if 0xFF40 <= addr && addr <= 0xFF7F {
            self.write_ppu_io_byte(addr, byte);
        } else {
            self.write_misc_io_byte(addr, byte);
        }
    }

    /// Write one byte into the non-PPU I/O registers.
    #[verifier::rlimit(100)]
    #[verifier::spinoff_prover]
    fn write_misc_io_byte(&mut self, addr: u16, byte: u8)
        requires
            old(self).wf(),
            addr >= 0xFF00,
            !(0xFF40 <= addr <= 0xFF7F),
        ensures
            final(self).wf(),
            spec_write_effect(*old(self), *final(self), addr, byte),
    {
        if addr == 0xFF00 {
            let hi = byte & 0x20 != 0;
            let lo = byte & 0x10 != 0;
            self.joypad_select = if !hi && !lo {
                JoypadSelect::All
            } else if !hi && lo {
                JoypadSelect::Buttons
            } else if hi && !lo {
                JoypadSelect::DPad
            } else {
                JoypadSelect::Neither
            };
        } else if addr == 0xFF04 {
            self.divider.value = 0;
        } else if addr == 0xFF05 {
            self.timer.value = byte;
        } else if addr == 0xFF06 {
            self.timer.tma = byte;
        } else if addr == 0xFF07 {
            let sel = byte & 3;
            self.timer.frequency = if sel == 0 {
                TimerFrequency::F4KiHz
            } else if sel == 1 {
                TimerFrequency::F256KiHz
            } else if sel == 2 {
                TimerFrequency::F64KiHz
            } else {
                TimerFrequency::F16KiHz
            };
            self.timer.enabled = byte & 4 != 0;
        } else if addr == 0xFF0F {
            self.interrupts_requested = InterruptSet::from_byte(byte);
        } else if 0xFF80 <= addr && addr < 0xFFFF {
            self.high_ram[(addr - 0xFF80) as usize] = byte;
        } else if addr == 0xFFFF {
            self.interrupts_enabled = InterruptSet::from_byte(byte);
        } else {
            // unmapped or audio I/O: the write is absorbed
        }
    }

    /// Write one byte into the PPU's I/O registers, [0xFF40, 0xFF7F].
    #[verifier::rlimit(100)]
    #[verifier::spinoff_prover]
    fn write_ppu_io_byte(&mut self, addr: u16, byte: u8)
        requires
            old(self).wf(),
            0xFF40 <= addr <= 0xFF7F,
        ensures
            final(self).wf(),
            spec_write_effect(*old(self), *final(self), addr, byte),
    {
        if addr == 0xFF40 {
            let lcd_enable = byte & 0x80 != 0;
            if !lcd_enable {
                // turning the LCD off resets the scan position
                self.ppu.line = 0;
                self.ppu.mode = Mode::HorizontalBlank;
                self.ppu.cycles_in_mode = 0;
            }
            self.ppu.lcd_enabled = lcd_enable;
            self.ppu.window_tile_map_select = TileMapArea::from_bit(byte & 0x40 != 0);
            self.ppu.window_enabled = byte & 0x20 != 0;
            self.ppu.bg_and_window_tile_data_select = if byte & 0x10 != 0 {
                BgAndWindowTileDataArea::X8000
            } else {
                BgAndWindowTileDataArea::X8800
            };
            self.ppu.bg_tile_map_select = TileMapArea::from_bit(byte & 0x08 != 0);
            self.ppu.obj_size = ObjSize::from_bit(byte & 0x04 != 0);
            self.ppu.obj_enabled = byte & 0x02 != 0;
            self.ppu.bg_enabled = byte & 0x01 != 0;
        } else if addr == 0xFF41 {
            self.ppu.lcd_status = LcdStatus {
                lyc_int_select: byte & 0x40 != 0,
                mode_2_int_select: byte & 0x20 != 0,
                mode_1_int_select: byte & 0x10 != 0,
                mode_0_int_select: byte & 0x08 != 0,
            };
        } else if addr == 0xFF42 {
            self.ppu.viewport_offset.y = byte;
        } else if addr == 0xFF43 {
            self.ppu.viewport_offset.x = byte;
        } else if addr == 0xFF44 {
            // LY is read-only: ROM misbehavior, the write is ignored
        } else if addr == 0xFF45 {
            self.ppu.lyc = byte;
        } else if addr == 0xFF46 {
            self.oam_dma(byte);
        } else if addr == 0xFF47 {
            self.ppu.bg_color_palette = ColorPalette::from_byte(byte);
        } else if addr == 0xFF48 {
            let p = ColorPalette::from_byte(byte);
            self.ppu.obj_color_palettes[0] = p;
        } else if addr == 0xFF49 {
            let p = ColorPalette::from_byte(byte);
            self.ppu.obj_color_palettes[1] = p;
        } else if addr == 0xFF4A {
            self.ppu.window_top_left.y = byte;
        } else if addr == 0xFF4B {
            self.ppu.window_top_left.x = byte;
        } else if addr == 0xFF50 {
            // any non-zero write unmaps the boot ROM
            if byte != 0 {
                self.in_boot_rom = false;
            }
        } else {
            // CGB-only or unmapped I/O: the write is absorbed
        }
    }

    /// Write one byte of an OAM entry: bytes 0 to 2 are the positions and
    /// the tile index; byte 3 packs the four attribute flags.
    fn write_oam_byte(&mut self, addr: u16, byte: u8)
        requires
            0xFE00 <= addr < 0xFEA0,
        ensures
            *final(self) == (Mmu { ppu: final(self).ppu, ..*old(self) }),
            final(self).ppu == (Ppu {
                obj_attribute_memory: final(self).ppu.obj_attribute_memory,
                ..old(self).ppu
            }),
            final(self).ppu.obj_attribute_memory@ == old(self).ppu.obj_attribute_memory@.update(
                ((addr - 0xFE00) / 4) as int,
                spec_oam_byte_write(
                    old(self).ppu.obj_attribute_memory[((addr - 0xFE00) / 4) as int],
                    ((addr - 0xFE00) % 4) as int,
                    byte,
                ),
            ),
    {
        let i = ((addr - 0xFE00) / 4) as usize;
        let k = (addr - 0xFE00) % 4;
        let mut o = self.ppu.obj_attribute_memory[i];
        if k == 0 {
            o.y_pos = byte;
        } else if k == 1 {
            o.x_pos = byte;
        } else if k == 2 {
            o.tile_idx = byte;
        } else {
            o.bg_over_obj_priority = if byte & 0x80 != 0 {
                Priority::One
            } else {
                Priority::Zero
            };
            o.y_flip = byte & 0x40 != 0;
            o.x_flip = byte & 0x20 != 0;
            o.palette = if byte & 0x10 != 0 {
                ObjColorPaletteIdx::One
            } else {
                ObjColorPaletteIdx::Zero
            };
        }
        self.ppu.obj_attribute_memory[i] = o;
    }

    /// OAM DMA: copy the 160 bytes starting at `src_hi * 0x100` into OAM.
    /// The source bytes are gathered first, so the copy reads what stood on
    /// the bus when the transfer began.
    fn oam_dma(&mut self, src_hi: u8)
        requires
            old(self).wf(),
        ensures
            final(self).wf(),
            *final(self) == (Mmu { ppu: final(self).ppu, ..*old(self) }),
            final(self).ppu == (Ppu {
                obj_attribute_memory: final(self).ppu.obj_attribute_memory,
                ..old(self).ppu
            }),
            forall|i: int|
                0 <= i < 40 ==> #[trigger] final(self).ppu.obj_attribute_memory[i]
                    == spec_obj_from_bytes(
                    spec_read_byte(*old(self), (src_hi * 0x100 + 4 * i) as u16),
                    spec_read_byte(*old(self), (src_hi * 0x100 + 4 * i + 1) as u16),
                    spec_read_byte(*old(self), (src_hi * 0x100 + 4 * i + 2) as u16),
                    spec_read_byte(*old(self), (src_hi * 0x100 + 4 * i + 3) as u16),
                ),
    {
        let src: u16 = (src_hi as u16) << 8;
        proof {
            let h = src_hi;
            assert((h as u16) << 8 == h as u16 * 0x100 && (h as u16) << 8 <= 0xFF00)
                by (bit_vector);
        }
        let mut buffer: [u8; 160] = [0; 160];
        let mut j: usize = 0;
        while j < 160
            invariant
                j <= 160,
                src == src_hi * 0x100,
                src <= 0xFF00,
                self == old(self),
                self.wf(),
                forall|k: int|
                    0 <= k < j ==> #[trigger] buffer[k] == spec_read_byte(*self, (src + k) as u16),
            decreases 160 - j,
        {
            buffer[j] = self.read_byte(src + j as u16);
            j += 1;
        }
        let mut i: usize = 0;
        while i < 40
            invariant
                i <= 40,
                src == src_hi * 0x100,
                forall|k: int|
                    0 <= k < 160 ==> #[trigger] buffer[k] == spec_read_byte(
                        *old(self),
                        (src + k) as u16,
                    ),
                self.wf(),
                *self == (Mmu { ppu: self.ppu, ..*old(self) }),
                self.ppu == (Ppu { obj_attribute_memory: self.ppu.obj_attribute_memory, ..old(
                    self,
                ).ppu }),
                forall|k: int|
                    0 <= k < i ==> #[trigger] self.ppu.obj_attribute_memory[k]
                        == spec_obj_from_bytes(
                        buffer[4 * k],
                        buffer[4 * k + 1],
                        buffer[4 * k + 2],
                        buffer[4 * k + 3],
                    ),
                forall|k: int|
                    i <= k < 40 ==> #[trigger] self.ppu.obj_attribute_memory[k] == old(
                        self,
                    ).ppu.obj_attribute_memory[k],
            decreases 40 - i,
        {
            let o = ObjectAttributes {
                y_pos: buffer[4 * i],
                x_pos: buffer[4 * i + 1],
                tile_idx: buffer[4 * i + 2],
                bg_over_obj_priority: if buffer[4 * i + 3] & 0x80 != 0 {
                    Priority::One
                } else {
                    Priority::Zero
                },
                y_flip: buffer[4 * i + 3] & 0x40 != 0,
                x_flip: buffer[4 * i + 3] & 0x20 != 0,
                palette: if buffer[4 * i + 3] & 0x10 != 0 {
                    ObjColorPaletteIdx::One
                } else {
                    ObjColorPaletteIdx::Zero
                },
            };
            self.ppu.obj_attribute_memory[i] = o;
            i += 1;
        }
    }

    /// Write the little-endian word at an address: the low byte first, the
    /// high byte at the next address, wrapping at the top of the address
    /// space.
    pub fn write_word(&mut self, addr: u16, word: u16)
        requires
            old(self).wf(),
        ensures
            final(self).wf(),
            exists|mid: Mmu|
                #[trigger] spec_write_effect(*old(self), mid, addr, (word % 256) as u8)
                    && spec_write_effect(
                    mid,
                    *final(self),
                    ((addr + 1) % 0x10000) as u16,
                    (word / 256) as u8,
                ),
    {
        let lo = crate::cpu::register_file::word_lo(word);
        let hi = crate::cpu::register_file::word_hi(word);
        self.write_byte(addr, lo);
        let ghost mid = *self;
        self.write_byte(addr.wrapping_add(1), hi);
        proof {
            assert(spec_write_effect(*old(self), mid, addr, (word % 256) as u8));
        }
    }

    /// Advance the bus by the T-cycles the CPU just consumed: the timer
    /// first (raising the timer interrupt on overflow), then the PPU
    /// (latching the interrupts it raises), then the divider.
    pub fn step(&mut self, t_cycles: u8)
        requires
            old(self).wf(),
            t_cycles <= 24,
        ensures
            final(self).wf(),
            spec_mmu_step_effect(*old(self), *final(self), t_cycles),
    {
        let overflowed = self.timer.update(t_cycles);
        if overflowed {
            self.interrupts_requested.insert(InterruptKind::Timer);
        }
        let ppu_interrupts = self.ppu.step(t_cycles);
        let ghost ppu_bits = ppu_interrupts.bits;
        self.interrupts_requested.union(ppu_interrupts);
        self.divider.update(t_cycles);
        proof {
            assert(spec_step_effect(old(self).ppu, t_cycles, self.ppu, ppu_bits));
        }
    }

    pub fn interrupts_enabled(&self) -> (r: InterruptSet)
        ensures
            r == self.interrupts_enabled,
    {
        self.interrupts_enabled
    }

    pub fn interrupts_requested(&self) -> (r: InterruptSet)
        ensures
            r == self.interrupts_requested,
    {
        self.interrupts_requested
    }

    pub fn clear_requested_interrupt(&mut self, interrupt: InterruptKind)
        ensures
            *final(self) == (Mmu { interrupts_requested: final(self).interrupts_requested, ..*old(
                self,
            ) }),
            final(self).interrupts_requested.bits == old(self).interrupts_requested.bits
                & !interrupt_mask(interrupt),
            old(self).wf() ==> final(self).wf(),
    {
        self.interrupts_requested.remove(interrupt);
    }

    pub fn pressed_buttons(&self) -> (r: ButtonSet)
        ensures
            r == self.pressed_buttons,
    {
        self.pressed_buttons
    }

    pub fn set_pressed_buttons(&mut self, buttons: ButtonSet)
        ensures
            *final(self) == (Mmu { pressed_buttons: buttons, ..*old(self) }),
    {
        self.pressed_buttons = buttons;
    }

    pub fn in_boot_rom(&self) -> (r: bool)
        ensures
            r == self.in_boot_rom,
    {
        self.in_boot_rom
    }

    pub fn set_not_in_boot_rom(&mut self)
        ensures
            *final(self) == (Mmu { in_boot_rom: false, ..*old(self) }),
    {
        self.in_boot_rom = false;
    }

    pub fn ppu_as_ref(&self) -> (r: &Ppu)
        ensures
            r == self.ppu,
    {
        &self.ppu
    }

    /// Re-attach the cartridge ROM after a saved state is loaded.
    pub fn set_cart_rom(&mut self, rom: &Vec<u8>)
        requires
            old(self).wf(),
            old(self).cartridge.spec_rom_ok(rom@),
        ensures
            final(self).wf(),
            *final(self) == (Mmu { cartridge: final(self).cartridge, ..*old(self) }),
    {
        self.cartridge.set_rom(rom);
    }
}

} // verus!
