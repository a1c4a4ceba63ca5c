//! Core of a Game Boy (DMG) emulator: a cycle-timed SM83 CPU, a scanline
//! PPU, a memory-mapped bus with cartridge banking, and timer hardware.

pub mod cartridge;
pub mod cpu;
pub mod joypad;
pub mod mmu;
pub mod ppu;
pub mod savestate;
pub mod timer;
pub mod util;

use cartridge::{spec_cart_built_from, spec_rom_supported};
use cpu::{spec_cpu_step_effect, Cpu, CpuFault};
use joypad::ButtonSet;
use mmu::Mmu;
use ppu::{spec_dbg_bg_pixel, spec_dbg_obj_pixel, spec_full_win_pixel, spec_pixel, Color};
use savestate::{spec_payload, xxh3_64_of, zstd_frame, zstd_unframe};
use vstd::prelude::*;

verus! {

/// Why loading a saved state was refused: a ROM the core does not support,
/// a save that does not parse, or a ROM whose hash differs from the one the
/// save was taken with.
#[derive(Debug, Clone, Copy, PartialEq, Eq, Structural)]
pub enum SaveStateError {
    UnsupportedRom,
    Corrupt,
    RomMismatch,
}

/// The whole core: the CPU, which owns the bus, and the hash of the ROM it
/// runs, carried into saved states.
pub struct Emulator {
    pub cpu: Cpu,
    pub rom_hash: u64,
}

impl Emulator {
    /// The emulator is well formed when its CPU and bus are.
    pub open spec fn wf(self) -> bool {
        self.cpu.wf()
    }

    /// The hash of the ROM the emulator runs.
    pub open spec fn spec_rom_hash(self) -> u64 {
        self.rom_hash
    }

    /// Build an emulator for a ROM image; the header picks the cartridge
    /// kind. Execution starts at address 0 in the (host-supplied) boot ROM.
    pub fn for_rom(rom: &Vec<u8>) -> (r: Emulator)
        requires
            spec_rom_supported(rom@),
        ensures
            r.wf(),
            r.spec_rom_hash() == xxh3_64_of(rom@),
            spec_cart_built_from(r.cpu.mmu.cartridge, rom@),
            r.cpu.regs.pc == 0,
            r.cpu.regs.sp == 0xFFFE,
            r.cpu.ime == cpu::ImeState::Disabled,
            !r.cpu.is_halted,
    {
        Emulator { cpu: Cpu::new(Mmu::new(rom)), rom_hash: savestate::hash_rom(rom) }
    }

    /// Install the host-provided 256-byte boot ROM; nothing else changes.
    pub fn set_boot_rom(&mut self, data: &[u8; 0x100])
        requires
            old(self).wf(),
        ensures
            final(self).wf(),
            final(self).rom_hash == old(self).rom_hash,
            final(self).cpu == (Cpu { mmu: final(self).cpu.mmu, ..old(self).cpu }),
            final(self).cpu.mmu == (Mmu { boot_rom: *data, ..old(self).cpu.mmu }),
    {
        self.cpu.mmu.set_boot_rom(data);
    }

    /// Fetch, decode, and execute a single instruction. Returns the number
    /// of T-cycles (at 4 MiHz) the instruction took; NOP takes 4. A fatal
    /// condition (an illegal opcode, a prohibited memory read, STOP) is
    /// surfaced instead of executed.
    pub fn step(&mut self) -> (r: Result<u8, CpuFault>)
        requires
            old(self).wf(),
        ensures
            final(self).wf(),
            final(self).spec_rom_hash() == old(self).spec_rom_hash(),
            r is Ok ==> (r->Ok_0 % 4 == 0 && 4 <= r->Ok_0 <= 44),
            spec_cpu_step_effect(old(self).cpu, final(self).cpu, r),
    {
        self.cpu.step()
    }

    /// Latch which buttons are held down; nothing else changes.
    pub fn set_pressed_buttons(&mut self, pressed: ButtonSet)
        requires
            old(self).wf(),
        ensures
            final(self).wf(),
            final(self).rom_hash == old(self).rom_hash,
            final(self).cpu == (Cpu { mmu: final(self).cpu.mmu, ..old(self).cpu }),
            final(self).cpu.mmu == (Mmu { pressed_buttons: pressed, ..old(self).cpu.mmu }),
    {
        self.cpu.mmu.set_pressed_buttons(pressed);
    }

    /// The last frame the PPU completed, 144 lines of 160 pixels.
    pub fn resolve_display(&self) -> (r: Vec<Vec<Color>>)
        ensures
            r@.len() == 144,
            forall|i: int, j: int|
                0 <= i < 144 && 0 <= j < 160 ==> #[trigger] r@[i]@[j] == spec_pixel(
                    self.cpu.mmu.ppu.last_full_frame[i],
                    j,
                ),
    {
        let mut rows: Vec<Vec<Color>> = Vec::new();
        let mut i: usize = 0;
        while i < 144
            invariant
                i <= 144,
                rows@.len() == i,
                forall|a: int, j: int|
                    0 <= a < i && 0 <= j < 160 ==> #[trigger] rows@[a]@[j] == spec_pixel(
                        self.cpu.mmu.ppu.last_full_frame[a],
                        j,
                    ),
            decreases 144 - i,
        {
            let line = &self.cpu.mmu.ppu.last_full_frame[i];
            let mut row: Vec<Color> = Vec::new();
            let mut j: u8 = 0;
            while j < 160
                invariant
                    j <= 160,
                    row@.len() == j,
                    forall|c: int|
                        0 <= c < j ==> #[trigger] row@[c] == spec_pixel(
                            self.cpu.mmu.ppu.last_full_frame[i as int],
                            c,
                        ),
                    i < 144,
                    line == self.cpu.mmu.ppu.last_full_frame[i as int],
                decreases 160 - j,
            {
                row.push(line.pixel_at(j));
                j += 1;
            }
            rows.push(row);
            i += 1;
        }
        rows
    }

    /// The full 256x256 background with the viewport outlined in black, for
    /// a front end's diagnostics.
    pub fn dbg_resolve_background(&self) -> (r: Vec<Vec<Color>>)
        ensures
            r@.len() == 256,
            forall|y: int, x: int|
                0 <= y < 256 && 0 <= x < 256 ==> #[trigger] r@[y]@[x] == spec_dbg_bg_pixel(
                    self.cpu.mmu.ppu,
                    y,
                    x,
                ),
    {
        self.cpu.mmu.ppu.dbg_resolve_background()
    }

    /// The full 256x256 window layer, for a front end's diagnostics.
    pub fn dbg_resolve_window(&self) -> (r: Vec<Vec<Color>>)
        ensures
            r@.len() == 256,
            forall|y: int, x: int|
                0 <= y < 256 && 0 <= x < 256 ==> #[trigger] r@[y]@[x] == spec_full_win_pixel(
                    self.cpu.mmu.ppu,
                    y,
                    x,
                ),
    {
        self.cpu.mmu.ppu.dbg_resolve_window()
    }

    /// The 176x176 object layer with the LCD's bounds framed in black, for
    /// a front end's diagnostics.
    pub fn dbg_resolve_obj_layer(&self) -> (r: Vec<Vec<Color>>)
        ensures
            r@.len() == 176,
            forall|y: int, x: int|
                0 <= y < 176 && 0 <= x < 176 ==> #[trigger] r@[y]@[x] == spec_dbg_obj_pixel(
                    self.cpu.mmu.ppu,
                    y,
                    x,
                ),
    {
        self.cpu.mmu.ppu.dbg_resolve_objects()
    }

    /// Serialize the core, minus the raw ROM, and compress it. The save
    /// carries the hash of the ROM; loading verifies it.
    pub fn dump_save_state(&self) -> (r: Vec<u8>)
        requires
            self.wf(),
        ensures
            r@ == zstd_frame(spec_payload(self.cpu, self.spec_rom_hash())),
            zstd_unframe(r@) == Some(spec_payload(self.cpu, self.spec_rom_hash())),
    {
        let payload = savestate::encode_payload(&self.cpu, self.rom_hash);
        savestate::compress_payload(&payload)
    }

    /// Rebuild an emulator from a save and the ROM it was taken with. The
    /// save must decompress, parse back to exactly the payload it came
    /// from, and carry the hash of the given ROM.
    pub fn load_save_state(rom: &Vec<u8>, save_state: &Vec<u8>) -> (r: Result<
        Emulator,
        SaveStateError,
    >)
        ensures
            r is Ok ==> spec_rom_supported(rom@) && r->Ok_0.wf() && r->Ok_0.spec_rom_hash()
                == xxh3_64_of(rom@) && zstd_unframe(save_state@) == Some(
                spec_payload(r->Ok_0.cpu, xxh3_64_of(rom@)),
            ),
            r == Err::<Emulator, SaveStateError>(SaveStateError::UnsupportedRom)
                <==> !spec_rom_supported(rom@),
            spec_rom_supported(rom@) && zstd_unframe(save_state@) is None ==> r == Err::<
                Emulator,
                SaveStateError,
            >(SaveStateError::Corrupt),
            r == Err::<Emulator, SaveStateError>(SaveStateError::RomMismatch) ==> (exists|
                c: Cpu,
                h: u64,
            |
                zstd_unframe(save_state@) == Some(#[trigger] spec_payload(c, h)) && c.wf() && h
                    != xxh3_64_of(rom@)),
    {
        if !cartridge::rom_supported(rom) {
            return Err(SaveStateError::UnsupportedRom);
        }
        let payload = match savestate::decompress_payload(save_state) {
            Some(p) => p,
            None => {
                return Err(SaveStateError::Corrupt);
            },
        };
        let (cpu, stored_hash) = match savestate::decode_payload(&payload, rom) {
            Some(p) => p,
            None => {
                return Err(SaveStateError::Corrupt);
            },
        };
        let rom_hash = savestate::hash_rom(rom);
        if stored_hash != rom_hash {
            return Err(SaveStateError::RomMismatch);
        }
        Ok(Emulator { cpu, rom_hash })
    }
}

} // verus!
