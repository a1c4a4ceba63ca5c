use gbrs::cpu::register_file::{Flag, Registers};
use gbrs::cpu::ImeState;
use gbrs::ppu::{
    BgAndWindowTileDataArea, Color, ColorId, ColorPalette, DisplayLine, LineBytes,
    ObjColorPaletteIdx, ObjSize, ObjectAttributes, Position, Ppu, Priority, Tile, TileByteIdx,
    TileLine, TileMapArea,
};
use gbrs::mmu::{InterruptKind, InterruptSet};
use gbrs::util::U8Ext;
use gbrs::ppu::ColorId::{Id0, Id1, Id2, Id3};
use gbrs::ppu::Color::{DarkGray, LightGray, White};

#[test]
fn u8_to_bits() {
    assert_eq!(
        3u8.bits(),
        [false, false, false, false, false, false, true, true],
    );
}

#[test]
fn u8_from_bits() {
    assert_eq!(
        u8::from_bits([false, false, false, false, false, false, true, true]),
        3
    );
}

#[test]
fn u8_bits_round_trip() {
    for i in 0..=u8::MAX {
        assert_eq!(i, u8::from_bits(i.bits()));
    }
}

#[test]
fn get_bit_by_idx() {
    assert_eq!(3u8.bit(0), true);
    assert_eq!(3u8.bit(1), true);
    for i in 2..8 {
        assert_eq!(3u8.bit(i), false);
    }
}

#[test]
fn test_flags() {
    let mut regs = Registers::create();
    for flag in [Flag::Z, Flag::N, Flag::H, Flag::C] {
        assert!(!regs.flag(flag));
        regs.set_flag(flag, true);
        assert!(regs.flag(flag));
        regs.set_flag(flag, false);
        assert!(!regs.flag(flag));
    }
}

#[test]
fn tile_idx_calculation() {
    assert_eq!(
        TileByteIdx::from_addr(0x8000),
        TileByteIdx {
            block_idx: 0,
            tile_idx: 0,
            byte_idx: 0,
            line_idx: 0,
        }
    );
    assert_eq!(
        TileByteIdx::from_addr(0x8490),
        TileByteIdx {
            block_idx: 0,
            tile_idx: 0x49,
            byte_idx: 0,
            line_idx: 0,
        }
    );
    assert_eq!(
        TileByteIdx::from_addr(0x8B80),
        TileByteIdx {
            block_idx: 1,
            tile_idx: 0x38,
            byte_idx: 0,
            line_idx: 0,
        }
    );
    assert_eq!(
        TileByteIdx::from_addr(0x95A0),
        TileByteIdx {
            block_idx: 2,
            tile_idx: 0x5A,
            byte_idx: 0,
            line_idx: 0,
        }
    );
}

#[test]
fn ppu_tile_idx_calculation() {
    assert_eq!(
        TileByteIdx::from_addr(0x8000),
        TileByteIdx {
            block_idx: 0,
            tile_idx: 0,
            byte_idx: 0,
            line_idx: 0,
        }
    );
    assert_eq!(
        TileByteIdx::from_addr(0x8490),
        TileByteIdx {
            block_idx: 0,
            tile_idx: 0x49,
            byte_idx: 0,
            line_idx: 0,
        }
    );
    assert_eq!(
        TileByteIdx::from_addr(0x8B80),
        TileByteIdx {
            block_idx: 1,
            tile_idx: 0x38,
            byte_idx: 0,
            line_idx: 0,
        }
    );
    assert_eq!(
        TileByteIdx::from_addr(0x95A0),
        TileByteIdx {
            block_idx: 2,
            tile_idx: 0x5A,
            byte_idx: 0,
            line_idx: 0,
        }
    );
}

#[test]
fn tile_line_byte_conversion() {
    // MSBS: 0010 0011, LSBS: 0100 1111
    // Pixel ids from left to right: 00, 01, 10, 00, 01, 01, 11, 11
    let bytes = LineBytes {
        msbs: 0x23,
        lsbs: 0x4f,
    };
    let line = TileLine::from_bytes(bytes);
    assert_eq!(line.color_ids(), [Id0, Id1, Id2, Id0, Id1, Id1, Id3, Id3]);
    assert_eq!(line.as_bytes(), bytes);
    assert_eq!(line, TileLine::from_bytes(line.as_bytes()))
}

#[test]
fn rw_vram_tile_data() {
    let initial_ppu = Ppu::new();
    assert_eq!(initial_ppu.read_vram_byte(0x8000), 0x00);
    assert_eq!(initial_ppu.read_vram_byte(0x8800), 0x00);
    assert_eq!(initial_ppu.read_vram_byte(0x9000), 0x00);
    for addr in [0x8000, 0x8800, 0x9000] {
        let mut ppu = Ppu::new();
        let line = TileLine {
            msbs: 0x23,
            lsbs: 0x4f,
        };
        ppu.write_vram_byte(addr, line.lsbs);
        ppu.write_vram_byte(addr + 1, line.msbs);
        assert_eq!(ppu.read_vram_byte(addr), line.lsbs);
        assert_eq!(ppu.read_vram_byte(addr + 1), line.msbs);
    }
}

#[test]
fn ppu_rw_vram_tile_data() {
    let initial_ppu = Ppu::new();
    assert_eq!(initial_ppu.read_vram_byte(0x8000), 0x00);
    assert_eq!(initial_ppu.read_vram_byte(0x8800), 0x00);
    assert_eq!(initial_ppu.read_vram_byte(0x9000), 0x00);
    for addr in [0x8000, 0x8800, 0x9000] {
        let mut ppu = Ppu::new();
        let line = LineBytes {
            msbs: 0x23,
            lsbs: 0x4f,
        };
        ppu.write_vram_byte(addr, line.lsbs);
        ppu.write_vram_byte(addr + 1, line.msbs);
        assert_eq!(ppu.read_vram_byte(addr), line.lsbs);
        assert_eq!(ppu.read_vram_byte(addr + 1), line.msbs);
    }
}

#[test]
fn rw_vram_tile_maps() {
    let initial_ppu = Ppu::new();
    assert_eq!(initial_ppu.read_vram_byte(0x9800), 0x00);
    assert_eq!(initial_ppu.read_vram_byte(0x9C00), 0x00);

    let byte = 0x4A;

    let mut ppu = Ppu::new();
    ppu.write_vram_byte(0x9800, byte);
    assert_eq!(ppu.read_vram_byte(0x9800), byte);
    assert_eq!(ppu.lo_tile_map.tile_indices[0][0], byte);

    let mut ppu = Ppu::new();
    ppu.write_vram_byte(0x9C00, byte);
    assert_eq!(ppu.read_vram_byte(0x9C00), byte);
    assert_eq!(ppu.hi_tile_map.tile_indices[0][0], byte);

    let addr = 0x9800 + 32 + 3;
    let mut ppu = Ppu::new();
    ppu.write_vram_byte(addr, byte);
    assert_eq!(ppu.read_vram_byte(addr), byte);
    assert_eq!(ppu.lo_tile_map.tile_indices[1][3], byte);
}

#[test]
fn ppu_rw_vram_tile_maps() {
    let initial_ppu = Ppu::new();
    assert_eq!(initial_ppu.read_vram_byte(0x9800), 0x00);
    assert_eq!(initial_ppu.read_vram_byte(0x9C00), 0x00);
    let byte = 0x4A;
    let mut ppu = Ppu::new();
    ppu.write_vram_byte(0x9800 + 32 + 3, byte);
    assert_eq!(ppu.read_vram_byte(0x9800 + 32 + 3), byte);
    assert_eq!(ppu.lo_tile_map.tile_indices[1][3], byte);
}

#[test]
fn display_line_round_trip() {
    let mut line = DisplayLine([0xFF; 40]);
    line.set_pixel(0, LightGray);
    line.set_pixel(1, DarkGray);
    line.set_pixel(2, White);
    assert_eq!(line.pixel_at(0), LightGray);
    assert_eq!(line.pixel_at(1), DarkGray);
    assert_eq!(line.pixel_at(2), White);
}

fn mono_color_tile(color_id: ColorId) -> Tile {
    Tile {
        lines: [TileLine::from_color_ids([color_id; 8]); 8],
    }
}

#[test]
fn draw_bg_only() {
    let mut ppu = Ppu::new();

    ppu.bg_enabled = true;
    ppu.window_enabled = false;
    ppu.obj_enabled = false;
    ppu.viewport_offset = Position { x: 0, y: 0 };
    ppu.line = 0;
    ppu.bg_and_window_tile_data_select = BgAndWindowTileDataArea::X8000;
    ppu.bg_tile_map_select = TileMapArea::X9800;
    ppu.vram_tile_data.tile_data_blocks[0][0] = mono_color_tile(ColorId::Id0);
    ppu.vram_tile_data.tile_data_blocks[0][1] = mono_color_tile(ColorId::Id1);
    ppu.vram_tile_data.tile_data_blocks[0][2] = mono_color_tile(ColorId::Id2);
    ppu.vram_tile_data.tile_data_blocks[0][3] = mono_color_tile(ColorId::Id3);
    ppu.bg_color_palette = ColorPalette(
        Color::White,
        Color::LightGray,
        Color::DarkGray,
        Color::Black,
    );

    // first map row: one white tile, then 31 light gray tiles
    ppu.lo_tile_map.tile_indices[0][0] = 0;
    for c in 1..32 {
        ppu.lo_tile_map.tile_indices[0][c] = 1;
    }

    let lcd_row = ppu.draw_scan_line();
    assert_eq!(lcd_row.colors()[..8], [Color::White; 8]);
    assert_eq!(lcd_row.colors()[8..], [Color::LightGray; 152]);

    // move the viewport right by one pixel
    ppu.viewport_offset.x = 1;
    let lcd_row = ppu.draw_scan_line();
    assert_eq!(lcd_row.colors()[..7], [Color::White; 7]);
    assert_eq!(lcd_row.colors()[7..], [Color::LightGray; 153]);

    for y_offset in 1..7 {
        let lcd_row = ppu.draw_scan_line();
        ppu.viewport_offset.y = y_offset;
        assert_eq!(lcd_row.colors()[..7], [Color::White; 7]);
        assert_eq!(lcd_row.colors()[7..], [Color::LightGray; 153]);
    }

    // second map row: one dark gray tile, then 31 black tiles
    ppu.lo_tile_map.tile_indices[1][0] = 2;
    for c in 1..32 {
        ppu.lo_tile_map.tile_indices[1][c] = 3;
    }
    ppu.viewport_offset = Position { x: 0, y: 3 };
    ppu.line = 5;
    let lcd_row = ppu.draw_scan_line();
    assert_eq!(lcd_row.colors()[..8], [Color::DarkGray; 8]);
    assert_eq!(lcd_row.colors()[8..], [Color::Black; 152]);
}

#[test]
fn ppu_draw_bg_only() {
    let mut ppu = Ppu::new();
    ppu.bg_enabled = true;
    ppu.line = 0;
    ppu.bg_and_window_tile_data_select = BgAndWindowTileDataArea::X8000;
    ppu.bg_tile_map_select = TileMapArea::X9800;
    ppu.vram_tile_data.tile_data_blocks[0][0] = mono_color_tile(ColorId::Id0);
    ppu.vram_tile_data.tile_data_blocks[0][1] = mono_color_tile(ColorId::Id1);
    ppu.bg_color_palette = ColorPalette(
        Color::White,
        Color::LightGray,
        Color::DarkGray,
        Color::Black,
    );
    for c in 1..32 {
        ppu.lo_tile_map.tile_indices[0][c] = 1;
    }
    let lcd_row = ppu.draw_scan_line();
    assert_eq!(lcd_row.colors()[..8], [Color::White; 8]);
    assert_eq!(lcd_row.colors()[8..], [Color::LightGray; 152]);
    ppu.viewport_offset.x = 1;
    let lcd_row = ppu.draw_scan_line();
    assert_eq!(lcd_row.colors()[..7], [Color::White; 7]);
    assert_eq!(lcd_row.colors()[7..], [Color::LightGray; 153]);
}

#[test]
fn draw_obj_only() {
    let mut ppu = Ppu::new();
    ppu.bg_enabled = false;
    ppu.window_enabled = false;
    ppu.obj_enabled = true;
    ppu.line = 0;
    ppu.obj_size = ObjSize::Dim8x8;
    ppu.obj_color_palettes[0] = ColorPalette(
        Color::White, // transparent
        Color::LightGray,
        Color::DarkGray,
        Color::Black,
    );

    // an 8x8 object of four 4x4 quadrants, to observe the flips:
    // [transparent] [light gray] over [black] [dark gray]
    let obj_tile = {
        Tile {
            lines: [
                TileLine::from_color_ids([Id0, Id0, Id0, Id0, Id1, Id1, Id1, Id1]),
                TileLine::from_color_ids([Id0, Id0, Id0, Id0, Id1, Id1, Id1, Id1]),
                TileLine::from_color_ids([Id0, Id0, Id0, Id0, Id1, Id1, Id1, Id1]),
                TileLine::from_color_ids([Id0, Id0, Id0, Id0, Id1, Id1, Id1, Id1]),
                TileLine::from_color_ids([Id3, Id3, Id3, Id3, Id2, Id2, Id2, Id2]),
                TileLine::from_color_ids([Id3, Id3, Id3, Id3, Id2, Id2, Id2, Id2]),
                TileLine::from_color_ids([Id3, Id3, Id3, Id3, Id2, Id2, Id2, Id2]),
                TileLine::from_color_ids([Id3, Id3, Id3, Id3, Id2, Id2, Id2, Id2]),
            ],
        }
    };
    ppu.vram_tile_data.tile_data_blocks[0][0] = obj_tile;
    ppu.obj_attribute_memory[0] = ObjectAttributes {
        y_pos: 0,
        x_pos: 0,
        tile_idx: 0,
        bg_over_obj_priority: Priority::Zero,
        y_flip: false,
        x_flip: false,
        palette: ObjColorPaletteIdx::Zero,
    };
    // at (0, 0) the object is hidden
    let line = ppu.draw_scan_line();
    assert_eq!(line.colors(), [Color::White; 160]);

    // move it down 9 rows and right 1 column
    ppu.obj_attribute_memory[0].y_pos = 9;
    ppu.obj_attribute_memory[0].x_pos = 1;
    let line = ppu.draw_scan_line();
    assert_eq!(line.colors()[0], Color::DarkGray);
    assert_eq!(line.colors()[1..], [Color::White; 159]);
    ppu.line = 1;
    assert_eq!(ppu.draw_scan_line().colors(), [Color::White; 160]);

    // flip vertically: the last object line lands on the first LCD line
    ppu.line = 0;
    ppu.obj_attribute_memory[0].x_pos = 8;
    ppu.obj_attribute_memory[0].y_pos = 9;
    ppu.obj_attribute_memory[0].y_flip = true;

    let line = ppu.draw_scan_line();
    assert_eq!(line.colors()[..4], [Color::White; 4]);
    assert_eq!(line.colors()[4..8], [Color::LightGray; 4]);
    assert_eq!(line.colors()[8..], [Color::White; 152]);

    // flip both ways
    ppu.obj_attribute_memory[0].x_flip = true;
    let line = ppu.draw_scan_line();
    assert_eq!(line.colors()[..4], [Color::LightGray; 4]);
    assert_eq!(line.colors()[4..], [Color::White; 156]);

    // unflip vertically
    ppu.obj_attribute_memory[0].y_flip = false;
    let line = ppu.draw_scan_line();
    assert_eq!(line.colors()[..4], [Color::DarkGray; 4]);
    assert_eq!(line.colors()[4..8], [Color::Black; 4]);
    assert_eq!(line.colors()[8..], [Color::White; 152]);
}

#[test]
fn draw_8x16_obj() {
    let mut ppu = Ppu::new();
    ppu.bg_enabled = false;
    ppu.window_enabled = false;
    ppu.obj_enabled = true;
    ppu.line = 0;
    ppu.obj_size = ObjSize::Dim8x16;
    ppu.obj_color_palettes[0] = ColorPalette(
        Color::White, // transparent
        Color::LightGray,
        Color::DarkGray,
        Color::Black,
    );

    // two 8x8 tiles: light gray top-left pixel over dark gray, and the
    // other way around
    let dark_tile = {
        let mut t = mono_color_tile(Id2);
        t.lines[0] = TileLine::from_color_ids([Id1, Id2, Id2, Id2, Id2, Id2, Id2, Id2]);
        t
    };
    let light_tile = {
        let mut t = mono_color_tile(Id1);
        t.lines[0] = TileLine::from_color_ids([Id2, Id1, Id1, Id1, Id1, Id1, Id1, Id1]);
        t
    };

    ppu.vram_tile_data.tile_data_blocks[0][0] = dark_tile;
    ppu.vram_tile_data.tile_data_blocks[0][1] = light_tile;
    ppu.obj_attribute_memory[0] = ObjectAttributes {
        y_pos: 0,
        x_pos: 0,
        tile_idx: 0,
        bg_over_obj_priority: Priority::Zero,
        y_flip: false,
        x_flip: false,
        palette: ObjColorPaletteIdx::Zero,
    };
    let line = ppu.draw_scan_line();
    assert_eq!(line.colors(), [Color::White; 160]);

    // one row down, eight columns right
    ppu.obj_attribute_memory[0].y_pos = 1;
    ppu.obj_attribute_memory[0].x_pos = 8;
    let line = ppu.draw_scan_line();
    assert_eq!(line.colors()[..8], [Color::LightGray; 8]);
    assert_eq!(line.colors()[8..], [Color::White; 152]);
    ppu.line = 1;
    assert_eq!(ppu.draw_scan_line().colors(), [Color::White; 160]);

    // flip vertically and re-render the first object line
    ppu.obj_attribute_memory[0].y_flip = true;
    ppu.line = 0;

    let line = ppu.draw_scan_line();
    assert_eq!(line.colors()[0], Color::LightGray);
    assert_eq!(line.colors()[1..8], [Color::DarkGray; 7]);
    assert_eq!(line.colors()[8..], [Color::White; 152]);

    // flip both ways
    ppu.obj_attribute_memory[0].x_flip = true;
    let line = ppu.draw_scan_line();
    assert_eq!(line.colors()[..7], [Color::DarkGray; 7]);
    assert_eq!(line.colors()[7], Color::LightGray);
    assert_eq!(line.colors()[8..], [Color::White; 152]);

    // keep the vertical flip and move the sprite fully on screen
    ppu.obj_attribute_memory[0].y_flip = true;
    ppu.obj_attribute_memory[0].x_flip = false;
    ppu.obj_attribute_memory[0].y_pos = 16;
    ppu.line = 0;
    let top_line = ppu.draw_scan_line();
    assert_eq!(top_line.colors()[..8], [Color::LightGray; 8]);
    ppu.line = 7;
    let first_tile_bottom_line = ppu.draw_scan_line();
    assert_eq!(first_tile_bottom_line.pixel_at(0), Color::DarkGray);
    assert_eq!(first_tile_bottom_line.colors()[1..8], [Color::LightGray; 7]);
    ppu.line = 8;
    let second_tile_top_line = ppu.draw_scan_line();
    assert_eq!(second_tile_top_line.colors()[..8], [Color::DarkGray; 8]);
    ppu.line = 15;
    let second_tile_bottom_line = ppu.draw_scan_line();
    assert_eq!(second_tile_bottom_line.pixel_at(0), Color::LightGray);
    assert_eq!(second_tile_bottom_line.colors()[1..8], [Color::DarkGray; 7]);
}

fn flat_rom(program: &[u8]) -> Vec<u8> {
    let mut rom = vec![0u8; 0x8000];
    rom[..program.len()].copy_from_slice(program);
    rom
}

#[test]
fn ei_delayed_enable() {
    // EI, NOP, NOP; boot ROM disabled; IME starts Disabled
    let rom = flat_rom(&[0xFB, 0x00, 0x00]);
    let mut emu = gbrs::Emulator::for_rom(&rom);
    emu.cpu.mmu.in_boot_rom = false;
    assert_eq!(emu.cpu.ime, ImeState::Disabled);
    emu.step().unwrap();
    assert_eq!(emu.cpu.ime, ImeState::PendingEnable);
    emu.step().unwrap();
    assert_eq!(emu.cpu.ime, ImeState::Enabled);
    emu.step().unwrap();
    assert_eq!(emu.cpu.ime, ImeState::Enabled);
}

#[test]
fn ei_di_cancels() {
    // EI, DI, NOP
    let rom = flat_rom(&[0xFB, 0xF3, 0x00]);
    let mut emu = gbrs::Emulator::for_rom(&rom);
    emu.cpu.mmu.in_boot_rom = false;
    assert_eq!(emu.cpu.ime, ImeState::Disabled);
    emu.step().unwrap();
    assert_eq!(emu.cpu.ime, ImeState::PendingEnable);
    emu.step().unwrap();
    assert_eq!(emu.cpu.ime, ImeState::Disabled);
    emu.step().unwrap();
    assert_eq!(emu.cpu.ime, ImeState::Disabled);
}

#[test]
fn accumulator_self_ops() {
    // SUB A,A and XOR A,A zero A; OR/AND/CP leave it unchanged
    let rom = flat_rom(&[0x97]);
    let mut emu = gbrs::Emulator::for_rom(&rom);
    emu.cpu.mmu.in_boot_rom = false;
    emu.cpu.regs.a = 0x5A;
    assert_eq!(emu.step().unwrap(), 4);
    assert_eq!(emu.cpu.regs.a, 0);
    assert!(emu.cpu.regs.flag(Flag::Z));
    assert!(emu.cpu.regs.flag(Flag::N));
    assert!(!emu.cpu.regs.flag(Flag::H));
    assert!(!emu.cpu.regs.flag(Flag::C));
}

#[test]
fn palette_byte_round_trip() {
    for b in 0..=u8::MAX {
        assert_eq!(ColorPalette::from_byte(b).to_byte(), b);
    }
}

#[test]
fn save_state_round_trip() {
    let rom = flat_rom(&[0x3E, 0x42, 0x06, 0x07]); // LD A,0x42; LD B,7
    let mut emu = gbrs::Emulator::for_rom(&rom);
    emu.cpu.mmu.in_boot_rom = false;
    emu.step().unwrap();
    emu.step().unwrap();
    let save = emu.dump_save_state();
    let restored = gbrs::Emulator::load_save_state(&rom, &save).unwrap();
    assert_eq!(restored.cpu.regs.a, 0x42);
    assert_eq!(restored.cpu.regs.b, 0x07);
    assert_eq!(restored.cpu.regs.pc, emu.cpu.regs.pc);
    // a different ROM is refused
    let other = flat_rom(&[0x00]);
    let refused = gbrs::Emulator::load_save_state(&other, &save);
    assert!(matches!(refused, Err(gbrs::SaveStateError::RomMismatch)));
}

#[test]
fn illegal_opcode_faults() {
    let rom = flat_rom(&[0xD3]);
    let mut emu = gbrs::Emulator::for_rom(&rom);
    emu.cpu.mmu.in_boot_rom = false;
    assert_eq!(
        emu.step().unwrap_err(),
        gbrs::cpu::CpuFault::IllegalOpcode(0xD3)
    );
}

#[test]
fn oam_memory_rw() {
    let rom = flat_rom(&[]);
    let mut mmu = gbrs::mmu::Mmu::new(&rom);
    for addr in 0xFE00..0xFEA0u16 {
        assert_eq!(mmu.read_byte(addr), 0);
    }
    let obj_addr = 0xFE04;
    let y_pos = 5;
    let x_pos = 10;
    let tile_idx = 20;
    let attributes = 0b1010_0000;
    mmu.write_byte(obj_addr, y_pos);
    mmu.write_byte(obj_addr + 1, x_pos);
    mmu.write_byte(obj_addr + 2, tile_idx);
    mmu.write_byte(obj_addr + 3, attributes);

    assert_eq!(
        mmu.ppu.obj_attribute_memory[1],
        ObjectAttributes {
            y_pos,
            x_pos,
            tile_idx,
            bg_over_obj_priority: Priority::One,
            y_flip: false,
            x_flip: true,
            palette: ObjColorPaletteIdx::Zero
        }
    );

    assert_eq!(mmu.read_byte(obj_addr), y_pos);
    assert_eq!(mmu.read_byte(obj_addr + 1), x_pos);
    assert_eq!(mmu.read_byte(obj_addr + 2), tile_idx);
    assert_eq!(mmu.read_byte(obj_addr + 3), attributes);
}

#[test]
fn interrupts_from_byte() {
    let flags = InterruptSet::from_byte(0b00011111);
    for k in [
        InterruptKind::Vblank,
        InterruptKind::LcdStat,
        InterruptKind::Timer,
        InterruptKind::Serial,
        InterruptKind::Joypad,
    ] {
        assert!(flags.contains(k));
    }

    let flags = InterruptSet::from_byte(0b00011000);
    assert!(flags.contains(InterruptKind::Joypad));
    assert!(flags.contains(InterruptKind::Serial));
    assert!(!flags.contains(InterruptKind::Vblank));
    assert!(!flags.contains(InterruptKind::LcdStat));
    assert!(!flags.contains(InterruptKind::Timer));

    let flags = InterruptSet::from_byte(0);
    assert!(flags.is_empty());

    // the upper three bits are dropped
    let flags = InterruptSet::from_byte(0xFF);
    assert_eq!(flags.as_u8(), 0b00011111);
}

#[test]
fn ppu_draw_obj_only() {
    let mut ppu = Ppu::new();
    ppu.bg_enabled = false;
    ppu.window_enabled = false;
    ppu.obj_enabled = true;
    ppu.line = 0;
    ppu.obj_size = ObjSize::Dim8x8;
    ppu.obj_color_palettes[0] = ColorPalette(
        Color::White, // transparent
        Color::LightGray,
        Color::DarkGray,
        Color::Black,
    );

    // an 8x8 object of four 4x4 quadrants, to observe the flips:
    // [transparent] [light gray] over [black] [dark gray]
    let obj_tile = Tile {
        lines: [
            TileLine::from_color_ids([Id0, Id0, Id0, Id0, Id1, Id1, Id1, Id1]),
            TileLine::from_color_ids([Id0, Id0, Id0, Id0, Id1, Id1, Id1, Id1]),
            TileLine::from_color_ids([Id0, Id0, Id0, Id0, Id1, Id1, Id1, Id1]),
            TileLine::from_color_ids([Id0, Id0, Id0, Id0, Id1, Id1, Id1, Id1]),
            TileLine::from_color_ids([Id3, Id3, Id3, Id3, Id2, Id2, Id2, Id2]),
            TileLine::from_color_ids([Id3, Id3, Id3, Id3, Id2, Id2, Id2, Id2]),
            TileLine::from_color_ids([Id3, Id3, Id3, Id3, Id2, Id2, Id2, Id2]),
            TileLine::from_color_ids([Id3, Id3, Id3, Id3, Id2, Id2, Id2, Id2]),
        ],
    };
    ppu.vram_tile_data.tile_data_blocks[0][0] = obj_tile;
    ppu.obj_attribute_memory[0] = ObjectAttributes {
        y_pos: 0,
        x_pos: 0,
        tile_idx: 0,
        bg_over_obj_priority: Priority::Zero,
        y_flip: false,
        x_flip: false,
        palette: ObjColorPaletteIdx::Zero,
    };
    // at (0, 0) the object is hidden; with the background off the line is
    // all white
    let line = ppu.draw_scan_line();
    assert_eq!(line.colors(), [Color::White; 160]);

    // move it down 9 rows and right 1 column
    ppu.obj_attribute_memory[0].y_pos = 9;
    ppu.obj_attribute_memory[0].x_pos = 1;
    let line = ppu.draw_scan_line();
    assert_eq!(line.colors()[0], Color::DarkGray);
    assert_eq!(line.colors()[1..], [Color::White; 159]);
    ppu.line = 1;
    assert_eq!(ppu.draw_scan_line().colors(), [Color::White; 160]);

    // flip vertically and render the object's last line on LCD line 0
    ppu.line = 0;
    ppu.obj_attribute_memory[0].x_pos = 8;
    ppu.obj_attribute_memory[0].y_pos = 9;
    ppu.obj_attribute_memory[0].y_flip = true;

    let line = ppu.draw_scan_line();
    assert_eq!(line.colors()[..4], [Color::White; 4]);
    assert_eq!(line.colors()[4..8], [Color::LightGray; 4]);
    assert_eq!(line.colors()[8..], [Color::White; 152]);

    // flip both ways
    ppu.obj_attribute_memory[0].x_flip = true;
    let line = ppu.draw_scan_line();
    assert_eq!(line.colors()[..4], [Color::LightGray; 4]);
    assert_eq!(line.colors()[4..], [Color::White; 156]);

    // unflip vertically, keeping the horizontal flip
    ppu.obj_attribute_memory[0].y_flip = false;
    let line = ppu.draw_scan_line();
    assert_eq!(line.colors()[..4], [Color::DarkGray; 4]);
    assert_eq!(line.colors()[4..8], [Color::Black; 4]);
    assert_eq!(line.colors()[8..], [Color::White; 152]);
}

#[test]
fn draw_stacked_obj() {
    let mut ppu = Ppu::new();
    ppu.bg_enabled = false;
    ppu.window_enabled = false;
    ppu.obj_enabled = true;
    ppu.line = 0;
    ppu.obj_size = ObjSize::Dim8x16;
    ppu.obj_color_palettes[0] = ColorPalette(
        Color::White, // transparent
        Color::LightGray,
        Color::DarkGray,
        Color::Black,
    );

    // two stacked 8x8 tiles: a light gray pixel in the top-left of the dark
    // tile, and a dark gray pixel in the top-left of the light tile
    let dark_tile = {
        let mut t = Tile {
            lines: [TileLine::from_color_ids([Id2; 8]); 8],
        };
        t.lines[0] = TileLine::from_color_ids([Id1, Id2, Id2, Id2, Id2, Id2, Id2, Id2]);
        t
    };
    let light_tile = {
        let mut t = Tile {
            lines: [TileLine::from_color_ids([Id1; 8]); 8],
        };
        t.lines[0] = TileLine::from_color_ids([Id2, Id1, Id1, Id1, Id1, Id1, Id1, Id1]);
        t
    };

    ppu.vram_tile_data.tile_data_blocks[0][0] = dark_tile;
    ppu.vram_tile_data.tile_data_blocks[0][1] = light_tile;
    ppu.obj_attribute_memory[0] = ObjectAttributes {
        y_pos: 0,
        x_pos: 0,
        tile_idx: 0,
        bg_over_obj_priority: Priority::Zero,
        y_flip: false,
        x_flip: false,
        palette: ObjColorPaletteIdx::Zero,
    };
    // at (0, 0) the object is hidden; with the background off the line is
    // all white
    let line = ppu.draw_scan_line();
    assert_eq!(line.colors(), [Color::White; 160]);

    // one row down, eight columns right
    ppu.obj_attribute_memory[0].y_pos = 1;
    ppu.obj_attribute_memory[0].x_pos = 8;
    let line = ppu.draw_scan_line();
    assert_eq!(line.colors()[..8], [Color::LightGray; 8]);
    assert_eq!(line.colors()[8..], [Color::White; 152]);
    ppu.line = 1;
    assert_eq!(ppu.draw_scan_line().colors(), [Color::White; 160]);

    // flip vertically and re-render the first object line
    ppu.obj_attribute_memory[0].y_flip = true;
    ppu.line = 0;

    let line = ppu.draw_scan_line();
    assert_eq!(line.colors()[0], Color::LightGray);
    assert_eq!(line.colors()[1..8], [Color::DarkGray; 7]);
    assert_eq!(line.colors()[8..], [Color::White; 152]);

    // flip both ways and render the first object line
    ppu.obj_attribute_memory[0].x_flip = true;
    let line = ppu.draw_scan_line();
    assert_eq!(line.colors()[..7], [Color::DarkGray; 7]);
    assert_eq!(line.colors()[7], Color::LightGray);
    assert_eq!(line.colors()[8..], [Color::White; 152]);

    // keep the vertical flip, move the sprite fully on screen, and check
    // each quarter of it
    ppu.obj_attribute_memory[0].y_flip = true;
    ppu.obj_attribute_memory[0].x_flip = false;
    ppu.obj_attribute_memory[0].y_pos = 16;
    ppu.line = 0;
    let top_line = ppu.draw_scan_line();
    assert_eq!(top_line.colors()[..8], [Color::LightGray; 8]);
    ppu.line = 7;
    let first_tile_bottom_line = ppu.draw_scan_line();
    assert_eq!(first_tile_bottom_line.pixel_at(0), Color::DarkGray);
    assert_eq!(first_tile_bottom_line.colors()[1..8], [Color::LightGray; 7]);
    ppu.line = 8;
    let second_tile_top_line = ppu.draw_scan_line();
    assert_eq!(second_tile_top_line.colors()[..8], [Color::DarkGray; 8]);
    ppu.line = 15;
    let second_tile_bottom_line = ppu.draw_scan_line();
    assert_eq!(second_tile_bottom_line.pixel_at(0), Color::LightGray);
    assert_eq!(second_tile_bottom_line.colors()[1..8], [Color::DarkGray; 7]);
}

#[test]
fn dbg_views() {
    let mut ppu = Ppu::new();
    ppu.bg_color_palette = ColorPalette(
        Color::White,
        Color::LightGray,
        Color::DarkGray,
        Color::Black,
    );
    ppu.vram_tile_data.tile_data_blocks[2][0] = Tile {
        lines: [TileLine::from_color_ids([Id1; 8]); 8],
    };
    // default addressing is the signed mode, so map entry 0 names block 2
    let bg = ppu.dbg_resolve_background();
    // the viewport outline sits at the origin
    assert_eq!(bg[0][0], Color::Black);
    assert_eq!(bg[0][159], Color::Black);
    // the right edge of the viewport passes through (0, 160)
    assert_eq!(bg[0][160], Color::Black);
    assert_eq!(bg[0][161], Color::LightGray);
    assert_eq!(bg[200][200], Color::LightGray);
    let win = ppu.dbg_resolve_window();
    assert_eq!(win[0][0], Color::LightGray);
    assert_eq!(win[255][255], Color::LightGray);

    // one object at the grid origin, black frame at the LCD bounds
    ppu.obj_color_palettes[1] = ColorPalette(
        Color::DarkGray,
        Color::White,
        Color::White,
        Color::White,
    );
    ppu.vram_tile_data.tile_data_blocks[0][7] = Tile {
        lines: [TileLine::from_color_ids([Id0; 8]); 8],
    };
    // later OAM entries draw over earlier ones: the last one wins at (0, 0)
    ppu.obj_attribute_memory[39] = ObjectAttributes {
        y_pos: 0,
        x_pos: 0,
        tile_idx: 7,
        bg_over_obj_priority: Priority::Zero,
        y_flip: false,
        x_flip: false,
        palette: ObjColorPaletteIdx::One,
    };
    let grid = ppu.dbg_resolve_objects();
    // the object grid draws color id 0 through the palette
    assert_eq!(grid[0][0], Color::DarkGray);
    assert_eq!(grid[7][7], Color::DarkGray);
    assert_eq!(grid[8][8], Color::White);
    assert_eq!(grid[16][8], Color::Black);
    assert_eq!(grid[160][168], Color::Black);
}
