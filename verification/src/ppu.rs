//! The pixel processing unit: VRAM tile data, tile maps, OAM, palettes, the
//! four-mode scanline state machine, and the scanline compositor.

use crate::mmu::{InterruptKind, InterruptSet};
use crate::util::{spec_bit, U8Ext};
use vstd::prelude::*;

verus! {

// ---------------------------------------------------------------------------
// Colors and palettes
// ---------------------------------------------------------------------------
/// One of the four shades the LCD can show.
#[derive(Debug, Clone, Copy, PartialEq, Eq, Structural)]
pub enum Color {
    White,
    LightGray,
    DarkGray,
    Black,
}

/// The 2-bit code of a color, `0 -> White` up to `3 -> Black`.
pub open spec fn color_code(c: Color) -> u8 {
    match c {
        Color::White => 0,
        Color::LightGray => 1,
        Color::DarkGray => 2,
        Color::Black => 3,
    }
}

/// The color a 2-bit code names; only the low two bits matter.
pub open spec fn spec_color_of_code(code: u8) -> Color {
    if code & 3 == 0 {
        Color::White
    } else if code & 3 == 1 {
        Color::LightGray
    } else if code & 3 == 2 {
        Color::DarkGray
    } else {
        Color::Black
    }
}

impl Color {
    /// Create a color from bits in big-endian order: `bits[0]` is the
    /// higher-order bit of the 2-bit code.
    pub fn from_be_bits(be_bits: [bool; 2]) -> (r: Color)
        ensures
            r == spec_color_of_code(
                ((if be_bits[0] {
                    2u8
                } else {
                    0u8
                }) + (if be_bits[1] {
                    1u8
                } else {
                    0u8
                })) as u8,
            ),
    {
        let r = match (be_bits[0], be_bits[1]) {
            (false, false) => Color::White,
            (false, true) => Color::LightGray,
            (true, false) => Color::DarkGray,
            (true, true) => Color::Black,
        };
        proof {
            assert(0u8 & 3 == 0 && 1u8 & 3 == 1 && 2u8 & 3 == 2 && 3u8 & 3 == 3) by (bit_vector);
        }
        r
    }

    /// Convert a color into bits in big-endian order: `bits[0]` is the
    /// higher-order bit of the 2-bit code.
    pub fn to_be_bits(self) -> (r: [bool; 2])
        ensures
            r[0] == (color_code(self) >= 2),
            r[1] == (color_code(self) % 2 == 1),
    {
        match self {
            Color::White => [false, false],
            Color::LightGray => [false, true],
            Color::DarkGray => [true, false],
            Color::Black => [true, true],
        }
    }

    /// The 2-bit code of the color.
    pub fn code(self) -> (r: u8)
        ensures
            r == color_code(self),
    {
        match self {
            Color::White => 0,
            Color::LightGray => 1,
            Color::DarkGray => 2,
            Color::Black => 3,
        }
    }

    /// The color a 2-bit code names.
    pub fn of_code(code: u8) -> (r: Color)
        requires
            code < 4,
        ensures
            r == spec_color_of_code(code),
    {
        proof {
            assert(code < 4 ==> code & 3 == code) by (bit_vector);
        }
        if code == 0 {
            Color::White
        } else if code == 1 {
            Color::LightGray
        } else if code == 2 {
            Color::DarkGray
        } else {
            Color::Black
        }
    }
}

/// The color id of a pixel within a tile, before palette translation.
/// Id 0 is transparent for objects.
#[derive(Debug, Clone, Copy, PartialEq, Eq, Structural)]
pub enum ColorId {
    Id0,
    Id1,
    Id2,
    Id3,
}

/// A color id from its two bit planes: `msb` weighs 2, `lsb` weighs 1.
pub open spec fn color_id_of_bits(msb: bool, lsb: bool) -> ColorId {
    match (msb, lsb) {
        (false, false) => ColorId::Id0,
        (false, true) => ColorId::Id1,
        (true, false) => ColorId::Id2,
        (true, true) => ColorId::Id3,
    }
}

/// The low bit plane of a color id.
pub open spec fn color_id_lsb(id: ColorId) -> bool {
    id == ColorId::Id1 || id == ColorId::Id3
}

/// The high bit plane of a color id.
pub open spec fn color_id_msb(id: ColorId) -> bool {
    id == ColorId::Id2 || id == ColorId::Id3
}

/// A palette: field `i` is the color shown for color id `i`.
#[derive(Debug, Clone, Copy, PartialEq, Eq, Structural)]
pub struct ColorPalette(pub Color, pub Color, pub Color, pub Color);

/// The palette `lookup`: the color a palette maps a color id to.
pub open spec fn spec_palette_lookup(p: ColorPalette, id: ColorId) -> Color {
    match id {
        ColorId::Id0 => p.0,
        ColorId::Id1 => p.1,
        ColorId::Id2 => p.2,
        ColorId::Id3 => p.3,
    }
}

/// The packed byte of a palette: bits [1:0] hold the color of id 0,
/// [3:2] of id 1, [5:4] of id 2 and [7:6] of id 3.
pub open spec fn spec_palette_byte(p: ColorPalette) -> u8 {
    (color_code(p.0) + color_code(p.1) * 4 + color_code(p.2) * 16 + color_code(p.3) * 64) as u8
}

/// The palette a packed byte describes.
pub open spec fn spec_palette_of_byte(b: u8) -> ColorPalette {
    ColorPalette(
        spec_color_of_code(b & 3),
        spec_color_of_code((b / 4) & 3),
        spec_color_of_code((b / 16) & 3),
        spec_color_of_code((b / 64) & 3),
    )
}

impl ColorPalette {
    pub fn lookup(&self, id: ColorId) -> (r: Color)
        ensures
            r == spec_palette_lookup(*self, id),
    {
        match id {
            ColorId::Id0 => self.0,
            ColorId::Id1 => self.1,
            ColorId::Id2 => self.2,
            ColorId::Id3 => self.3,
        }
    }

    /// Unpack a palette register byte.
    pub fn from_byte(b: u8) -> (r: ColorPalette)
        ensures
            r == spec_palette_of_byte(b),
    {
        proof {
            assert(b & 3 < 4 && (b >> 2) & 3 < 4 && (b >> 4) & 3 < 4 && (b >> 6) & 3 < 4 && (b
                >> 2) == b / 4 && (b >> 4) == b / 16 && (b >> 6) == b / 64) by (bit_vector);
        }
        ColorPalette(
            Color::of_code(b & 3),
            Color::of_code((b >> 2) & 3),
            Color::of_code((b >> 4) & 3),
            Color::of_code((b >> 6) & 3),
        )
    }

    /// Pack the palette into its register byte.
    pub fn to_byte(&self) -> (r: u8)
        ensures
            r == spec_palette_byte(*self),
    {
        let c0 = self.0.code();
        let c1 = self.1.code();
        let c2 = self.2.code();
        let c3 = self.3.code();
        c0 + c1 * 4 + c2 * 16 + c3 * 64
    }
}

/// Unpacking a palette register byte and packing it again gives the byte
/// back, for every byte.
pub proof fn lemma_palette_byte_round_trip(b: u8)
    ensures
        spec_palette_byte(spec_palette_of_byte(b)) == b,
{
    assert forall|x: u8| x < 4 implies color_code(spec_color_of_code(x)) == x by {
        assert(x < 4 ==> x & 3 == x) by (bit_vector);
    }
    assert((b & 3) < 4 && ((b / 4) & 3) < 4 && ((b / 16) & 3) < 4 && ((b / 64) & 3) < 4)
        by (bit_vector);
    assert((b & 3) + ((b / 4) & 3) * 4 + ((b / 16) & 3) * 16 + ((b / 64) & 3) * 64 == b)
        by (bit_vector);
}

/// Packing a palette and unpacking the byte gives the palette back.
pub proof fn lemma_palette_round_trip(p: ColorPalette)
    ensures
        spec_palette_of_byte(spec_palette_byte(p)) == p,
{
    let c0 = color_code(p.0);
    let c1 = color_code(p.1);
    let c2 = color_code(p.2);
    let c3 = color_code(p.3);
    let b = spec_palette_byte(p);
    assert(c0 < 4 && c1 < 4 && c2 < 4 && c3 < 4);
    assert((c0 < 4 && c1 < 4 && c2 < 4 && c3 < 4) ==> {
        let bb = (c0 + c1 * 4 + c2 * 16 + c3 * 64) as u8;
        (bb & 3 == c0) && ((bb / 4) & 3 == c1) && ((bb / 16) & 3 == c2) && ((bb / 64) & 3 == c3)
    }) by (bit_vector);
    assert(spec_color_of_code(c0) == p.0 && spec_color_of_code(c1) == p.1 && spec_color_of_code(c2)
        == p.2 && spec_color_of_code(c3) == p.3) by {
        assert(forall|x: u8| x < 4 ==> #[trigger] (x & 3) == x) by (bit_vector);
    };
}

// ---------------------------------------------------------------------------
// Tile data
// ---------------------------------------------------------------------------
/// The two bit planes of one 8-pixel tile line.
///
/// In both bytes, bit 7 is the left-most pixel and bit 0 the right-most:
/// the first byte holds the least significant bit of each pixel's color id,
/// the second the most significant bit.
#[derive(Debug, Clone, Copy, PartialEq, Eq, Structural)]
pub struct TileLine {
    pub lsbs: u8,
    pub msbs: u8,
}

/// The byte pair of a tile line, as `TileLine::as_bytes` hands it out.
#[derive(Debug, Clone, Copy, PartialEq, Eq, Structural)]
pub struct LineBytes {
    pub lsbs: u8,
    pub msbs: u8,
}

/// The color id of pixel `idx` of a line, where pixel 0 is the left-most
/// one and sits in bit 7 of both planes.
pub open spec fn spec_line_color_id(line: TileLine, idx: int) -> ColorId {
    color_id_of_bits(spec_bit(line.msbs, (7 - idx) as u8), spec_bit(line.lsbs, (7 - idx) as u8))
}

impl TileLine {
    /// The color ids of the pixels from left to right: index 0 is the
    /// left-most pixel, index 7 the right-most.
    pub fn color_ids(self) -> (r: [ColorId; 8])
        ensures
            forall|i: int| 0 <= i < 8 ==> r[i] == spec_line_color_id(self, i),
    {
        let mut result: [ColorId; 8] = [ColorId::Id0; 8];
        let mut bit_idx: u8 = 0;
        while bit_idx < 8
            invariant
                bit_idx <= 8,
                forall|i: int| 8 - bit_idx <= i < 8 ==> result[i] == spec_line_color_id(self, i),
            decreases 8 - bit_idx,
        {
            let msb = self.msbs.bit(bit_idx);
            let lsb = self.lsbs.bit(bit_idx);
            result[7 - bit_idx as usize] = match (msb, lsb) {
                (false, false) => ColorId::Id0,
                (false, true) => ColorId::Id1,
                (true, false) => ColorId::Id2,
                (true, true) => ColorId::Id3,
            };
            bit_idx += 1;
        }
        result
    }

    /// Build a line from the color ids of its pixels; index 0 in the array
    /// is the left-most pixel.
    pub fn from_color_ids(color_ids: [ColorId; 8]) -> (r: TileLine)
        ensures
            forall|i: int| 0 <= i < 8 ==> spec_line_color_id(r, i) == color_ids[i],
    {
        let mut lsbs: u8 = 0;
        let mut msbs: u8 = 0;
        proof {
            lemma_zero_bits();
        }
        let mut idx: usize = 0;
        while idx < 8
            invariant
                idx <= 8,
                forall|j: u8|
                    j < 8 ==> spec_bit(lsbs, j) == (7 - j < idx && color_id_lsb(
                        color_ids[7 - j as int],
                    )),
                forall|j: u8|
                    j < 8 ==> spec_bit(msbs, j) == (7 - j < idx && color_id_msb(
                        color_ids[7 - j as int],
                    )),
            decreases 8 - idx,
        {
            let bit_idx = (7 - idx) as u8;
            match color_ids[idx] {
                ColorId::Id0 => {},
                ColorId::Id1 => {
                    lsbs = lsbs.set(bit_idx);
                },
                ColorId::Id2 => {
                    msbs = msbs.set(bit_idx);
                },
                ColorId::Id3 => {
                    lsbs = lsbs.set(bit_idx);
                    msbs = msbs.set(bit_idx);
                },
            }
            idx += 1;
        }
        TileLine { lsbs, msbs }
    }

    /// The byte pair of the line.
    pub fn as_bytes(&self) -> (r: LineBytes)
        ensures
            r.lsbs == self.lsbs,
            r.msbs == self.msbs,
    {
        LineBytes { lsbs: self.lsbs, msbs: self.msbs }
    }

    /// The line a byte pair encodes.
    pub fn from_bytes(bytes: LineBytes) -> (r: TileLine)
        ensures
            r.lsbs == bytes.lsbs,
            r.msbs == bytes.msbs,
    {
        TileLine { lsbs: bytes.lsbs, msbs: bytes.msbs }
    }
}

/// No bit of the zero byte is set.
proof fn lemma_zero_bits()
    by (bit_vector)
    ensures
        forall|j: u8| j < 8 ==> !#[trigger] spec_bit(0u8, j),
{
}

/// Two bytes that agree on all eight bits are equal.
proof fn lemma_u8_bits_unique(a: u8, b: u8)
    by (bit_vector)
    ensures
        (spec_bit(a, 0) == spec_bit(b, 0) && spec_bit(a, 1) == spec_bit(b, 1) && spec_bit(a, 2)
            == spec_bit(b, 2) && spec_bit(a, 3) == spec_bit(b, 3) && spec_bit(a, 4) == spec_bit(
            b,
            4,
        ) && spec_bit(a, 5) == spec_bit(b, 5) && spec_bit(a, 6) == spec_bit(b, 6) && spec_bit(
            a,
            7,
        ) == spec_bit(b, 7)) ==> a == b,
{
}

/// Tile line byte round-trip: decoding a byte pair to 8 color ids and
/// re-encoding them gives the same pair back, for every pair.
pub proof fn lemma_tile_line_round_trip(line: TileLine, other: TileLine)
    requires
        forall|i: int| 0 <= i < 8 ==> spec_line_color_id(other, i) == spec_line_color_id(line, i),
    ensures
        other == line,
{
    assert forall|j: u8| j < 8 implies #[trigger] spec_bit(other.lsbs, j) == spec_bit(
        line.lsbs,
        j,
    ) && spec_bit(other.msbs, j) == spec_bit(line.msbs, j) by {
        let i = 7 - j as int;
        assert(spec_line_color_id(other, i) == spec_line_color_id(line, i));
        let ida = color_id_of_bits(spec_bit(other.msbs, j), spec_bit(other.lsbs, j));
        let idb = color_id_of_bits(spec_bit(line.msbs, j), spec_bit(line.lsbs, j));
        assert(ida == idb);
    }
    // instantiate the bit equality once so the lemma's hypotheses connect
    assert(spec_bit(other.lsbs, 0) == spec_bit(line.lsbs, 0));
    lemma_u8_bits_unique(other.lsbs, line.lsbs);
    lemma_u8_bits_unique(other.msbs, line.msbs);
}

/// An 8x8 tile: `lines[0]` is the top line.
#[derive(Debug, Clone, Copy, PartialEq, Eq)]
pub struct Tile {
    pub lines: [TileLine; 8],
}

impl Tile {
    /// The 16 VRAM bytes of the tile: byte `2*i` holds row `i`'s low plane,
    /// byte `2*i + 1` its high plane.
    pub fn as_bytes(&self) -> (r: [u8; 16])
        ensures
            forall|i: int|
                0 <= i < 8 ==> r[2 * i] == self.lines[i].lsbs && r[2 * i + 1]
                    == self.lines[i].msbs,
    {
        let mut res: [u8; 16] = [0; 16];
        let mut i: usize = 0;
        while i < 8
            invariant
                i <= 8,
                forall|j: int|
                    0 <= j < i ==> res[2 * j] == self.lines[j].lsbs && res[2 * j + 1]
                        == self.lines[j].msbs,
            decreases 8 - i,
        {
            res[2 * i] = self.lines[i].lsbs;
            res[2 * i + 1] = self.lines[i].msbs;
            i += 1;
        }
        res
    }
}

/// VRAM tile data: 3 blocks of 128 tiles.
#[derive(Debug, Clone, Copy)]
pub struct VRamTileData {
    pub tile_data_blocks: [[Tile; 128]; 3],
}

/// The tile that unsigned (0x8000) addressing names: indices 0 to 127 read
/// block 0, indices 128 to 255 read block 1.
pub open spec fn spec_tile_8000(v: VRamTileData, idx: u8) -> Tile {
    if idx < 128 {
        v.tile_data_blocks[0][idx as int]
    } else {
        v.tile_data_blocks[1][idx - 128]
    }
}

/// The tile that signed (0x8800) addressing names: indices 0 to 127 read
/// block 2, indices 128 to 255 (-128 to -1 as signed bytes) read block 1.
pub open spec fn spec_tile_8800(v: VRamTileData, idx: u8) -> Tile {
    if idx < 128 {
        v.tile_data_blocks[2][idx as int]
    } else {
        v.tile_data_blocks[1][idx - 128]
    }
}

impl VRamTileData {
    /// Read a tile from blocks 0 or 1, using unsigned addressing.
    pub fn get_tile_from_0x8000(&self, idx: u8) -> (r: Tile)
        ensures
            r == spec_tile_8000(*self, idx),
    {
        if idx < 128 {
            self.tile_data_blocks[0][idx as usize]
        } else {
            self.tile_data_blocks[1][idx as usize - 128]
        }
    }

    /// Read a tile from blocks 1 or 2 using signed addressing: an index of
    /// 0 to 127 reads block 2; -1 to -128 (bytes 0xFF down to 0x80) read
    /// block 1.
    pub fn get_tile_from_0x8800_signed(&self, idx: u8) -> (r: Tile)
        ensures
            r == spec_tile_8800(*self, idx),
    {
        if idx < 128 {
            self.tile_data_blocks[2][idx as usize]
        } else {
            self.tile_data_blocks[1][idx as usize - 128]
        }
    }
}

// ---------------------------------------------------------------------------
// Tile maps and control fields
// ---------------------------------------------------------------------------
/// A 32x32 map of tile indices.
#[derive(Debug, Clone, Copy)]
pub struct TileMap {
    pub tile_indices: [[u8; 32]; 32],
}

/// Which of the two tile maps a control bit selects.
#[derive(Debug, Clone, Copy, PartialEq, Eq, Structural)]
pub enum TileMapArea {
    X9800,
    X9C00,
}

impl TileMapArea {
    pub fn from_bit(b: bool) -> (r: TileMapArea)
        ensures
            r == (if b {
                TileMapArea::X9C00
            } else {
                TileMapArea::X9800
            }),
    {
        if b {
            TileMapArea::X9C00
        } else {
            TileMapArea::X9800
        }
    }

    pub fn to_bit(self) -> (r: bool)
        ensures
            r == (self == TileMapArea::X9C00),
    {
        match self {
            TileMapArea::X9800 => false,
            TileMapArea::X9C00 => true,
        }
    }
}

/// Which addressing mode background and window tiles use.
#[derive(Debug, Clone, Copy, PartialEq, Eq, Structural)]
pub enum BgAndWindowTileDataArea {
    X8800,
    X8000,
}

impl BgAndWindowTileDataArea {
    pub fn to_bit(self) -> (r: bool)
        ensures
            r == (self == BgAndWindowTileDataArea::X8000),
    {
        match self {
            BgAndWindowTileDataArea::X8800 => false,
            BgAndWindowTileDataArea::X8000 => true,
        }
    }
}

/// Whether objects are 8x8 or 8x16 pixels.
#[derive(Debug, Clone, Copy, PartialEq, Eq, Structural)]
pub enum ObjSize {
    Dim8x8,
    Dim8x16,
}

impl ObjSize {
    pub fn from_bit(b: bool) -> (r: ObjSize)
        ensures
            r == (if b {
                ObjSize::Dim8x16
            } else {
                ObjSize::Dim8x8
            }),
    {
        if b {
            ObjSize::Dim8x16
        } else {
            ObjSize::Dim8x8
        }
    }

    pub fn to_bit(self) -> (r: bool)
        ensures
            r == (self == ObjSize::Dim8x16),
    {
        match self {
            ObjSize::Dim8x8 => false,
            ObjSize::Dim8x16 => true,
        }
    }

    /// The height of an object in pixels.
    pub fn height(self) -> (r: u8)
        ensures
            r == spec_obj_height(self),
    {
        match self {
            ObjSize::Dim8x8 => 8,
            ObjSize::Dim8x16 => 16,
        }
    }
}

/// The height of an object in pixels.
pub open spec fn spec_obj_height(s: ObjSize) -> u8 {
    match s {
        ObjSize::Dim8x8 => 8,
        ObjSize::Dim8x16 => 16,
    }
}

/// A pair of screen coordinates: the background viewport offset (SCX, SCY)
/// or the window origin (WX, WY).
#[derive(Debug, Clone, Copy, PartialEq, Eq, Structural)]
pub struct Position {
    pub x: u8,
    pub y: u8,
}

/// The LCD status interrupt selects (the writable part of STAT).
#[derive(Debug, Clone, Copy, PartialEq, Eq, Structural)]
pub struct LcdStatus {
    /// If set, selects the LYC == LY condition for the STAT interrupt
    pub lyc_int_select: bool,
    /// If set, selects the Mode 2 (OAM Scan) condition for the STAT interrupt
    pub mode_2_int_select: bool,
    /// If set, selects the Mode 1 (VBlank) condition for the STAT interrupt
    pub mode_1_int_select: bool,
    /// If set, selects the Mode 0 (HBlank) condition for the STAT interrupt
    pub mode_0_int_select: bool,
}

/// The four PPU modes of a frame.
#[derive(Debug, Clone, Copy, PartialEq, Eq, Structural)]
pub enum Mode {
    /// Takes 80 T-cycles. While in this mode, the PPU scans the OAM.
    ScanlineOAM,
    /// Takes 172 T-cycles; at its end the scanline is drawn.
    ScanlineVRAM,
    /// Takes 204 T-cycles; at its end the line advances.
    HorizontalBlank,
    /// Takes 456 T-cycles per line for lines 144 to 153; then back to line 0.
    VerticalBlank,
}

/// How many T-cycles the PPU spends in a mode before it moves on.
pub open spec fn spec_mode_threshold(m: Mode) -> u32 {
    match m {
        Mode::ScanlineOAM => 80,
        Mode::ScanlineVRAM => 172,
        Mode::HorizontalBlank => 204,
        Mode::VerticalBlank => 456,
    }
}

// ---------------------------------------------------------------------------
// Object attributes
// ---------------------------------------------------------------------------
/// Whether the background and window draw over a non-transparent object.
#[derive(Debug, Clone, Copy, PartialEq, Eq, Structural)]
pub enum Priority {
    Zero,
    One,
}

/// Which of the two object palettes an object uses.
#[derive(Debug, Clone, Copy, PartialEq, Eq, Structural)]
pub enum ObjColorPaletteIdx {
    Zero,
    One,
}

/// One OAM entry.
#[derive(Debug, Clone, Copy, PartialEq, Eq, Structural)]
pub struct ObjectAttributes {
    /// The object's vertical position on the screen + 16: y = 0 hides an
    /// object, y = 2 hides an 8x8 object but shows the last two rows of an
    /// 8x16 object.
    pub y_pos: u8,
    /// The object's horizontal position on the screen + 8: an off-screen
    /// value (0 or at least 168) hides the object.
    pub x_pos: u8,
    pub tile_idx: u8,
    pub bg_over_obj_priority: Priority,
    pub y_flip: bool,
    pub x_flip: bool,
    pub palette: ObjColorPaletteIdx,
}

/// The attribute byte of an OAM entry: bit 7 the priority, bit 6 the
/// vertical flip, bit 5 the horizontal flip, bit 4 the palette index; the
/// low four bits read as zero.
pub open spec fn spec_attr_byte(o: ObjectAttributes) -> u8 {
    ((if o.bg_over_obj_priority == Priority::One {
        0x80u8
    } else {
        0u8
    }) + (if o.y_flip {
        0x40u8
    } else {
        0u8
    }) + (if o.x_flip {
        0x20u8
    } else {
        0u8
    }) + (if o.palette == ObjColorPaletteIdx::One {
        0x10u8
    } else {
        0u8
    })) as u8
}

impl ObjectAttributes {
    /// The four OAM bytes of the entry.
    pub fn as_bytes(&self) -> (r: [u8; 4])
        ensures
            r[0] == self.y_pos,
            r[1] == self.x_pos,
            r[2] == self.tile_idx,
            r[3] == spec_attr_byte(*self),
    {
        let b7: u8 = match self.bg_over_obj_priority {
            Priority::One => 0x80,
            Priority::Zero => 0,
        };
        let b6: u8 = if self.y_flip {
            0x40
        } else {
            0
        };
        let b5: u8 = if self.x_flip {
            0x20
        } else {
            0
        };
        let b4: u8 = match self.palette {
            ObjColorPaletteIdx::One => 0x10,
            ObjColorPaletteIdx::Zero => 0,
        };
        [self.y_pos, self.x_pos, self.tile_idx, b7 + b6 + b5 + b4]
    }
}

// ---------------------------------------------------------------------------
// Display lines
// ---------------------------------------------------------------------------
/// A packed scanline: each byte holds 4 pixels, 2 bits each. The 0th byte
/// holds the 4 left-most pixels and the two highest bits of a byte hold the
/// left-most pixel of its four.
#[derive(Debug, Clone, Copy)]
pub struct DisplayLine(pub [u8; 40]);

/// The 2-bit color code of pixel `idx` of a packed line.
#[verifier::opaque]
pub open spec fn spec_pixel_code(line: DisplayLine, idx: int) -> u8 {
    (line.0[idx / 4] / pow4(3 - idx % 4)) & 3
}

/// 4 to the power `k`, for the four pixel positions of a byte.
pub open spec fn pow4(k: int) -> u8 {
    if k <= 0 {
        1
    } else if k == 1 {
        4
    } else if k == 2 {
        16
    } else {
        64
    }
}

/// The color of pixel `idx` of a packed line.
#[verifier::opaque]
pub open spec fn spec_pixel(line: DisplayLine, idx: int) -> Color {
    spec_color_of_code(spec_pixel_code(line, idx))
}

impl DisplayLine {
    /// All 160 pixels, left to right.
    pub fn colors(&self) -> (r: [Color; 160])
        ensures
            forall|i: int| 0 <= i < 160 ==> r[i] == spec_pixel(*self, i),
    {
        let mut result: [Color; 160] = [Color::White; 160];
        let mut idx: u8 = 0;
        while idx < 160
            invariant
                idx <= 160,
                forall|i: int| 0 <= i < idx ==> result[i] == spec_pixel(*self, i),
            decreases 160 - idx,
        {
            result[idx as usize] = self.pixel_at(idx);
            idx += 1;
        }
        result
    }

    /// The color of one pixel.
    pub fn pixel_at(&self, idx: u8) -> (r: Color)
        requires
            idx < 160,
        ensures
            r == spec_pixel(*self, idx as int),
    {
        let byte_idx = idx >> 2;
        proof {
            reveal(spec_pixel);
            reveal(spec_pixel_code);
            assert(idx < 160 ==> (idx >> 2) == idx / 4 && idx % 4 < 4) by (bit_vector);
        }
        let byte = self.0[byte_idx as usize];
        let idx_of_color_in_byte = 3 - idx % 4;
        let shift: u8 = 2 * idx_of_color_in_byte;
        let color_bits = (byte >> shift) & 0b11;
        proof {
            let k = idx_of_color_in_byte;
            assert(k < 4 ==> ((byte >> (2 * k)) & 3) == ((byte / (if k == 0 {
                1u8
            } else if k == 1 {
                4u8
            } else if k == 2 {
                16u8
            } else {
                64u8
            })) & 3) && ((byte >> (2 * k)) & 3) < 4) by (bit_vector);
        }
        Color::of_code(color_bits)
    }

    /// Set one pixel; every other pixel keeps its color.
    pub fn set_pixel(&mut self, idx: u8, color: Color)
        requires
            idx < 160,
        ensures
            spec_pixel(*final(self), idx as int) == color,
            forall|j: int| 0 <= j < 160 && j != idx ==> spec_pixel(*final(self), j) == spec_pixel(*old(self), j),
    {
        let byte_idx = idx >> 2;
        proof {
            assert(idx < 160 ==> (idx >> 2) == idx / 4 && idx % 4 < 4) by (bit_vector);
        }
        let mut byte = self.0[byte_idx as usize];
        let color_idx = 3 - (idx % 4);
        let shift: u8 = 2 * color_idx;
        let code = color.code();
        byte = (byte & !(0b11u8 << shift)) | (code << shift);
        proof {
            reveal(spec_pixel);
            reveal(spec_pixel_code);
            lemma_pixel_byte_update(self.0[byte_idx as int], code, color_idx, 0);
            assert(code < 4 ==> code & 3 == code) by (bit_vector);
        }
        self.0[byte_idx as usize] = byte;
        proof {
            assert forall|j: int| 0 <= j < 160 && j != idx implies spec_pixel(*self, j)
                == spec_pixel(*old(self), j) by {
                if j / 4 == idx as int / 4 {
                    assert(j % 4 != idx as int % 4) by (nonlinear_arith)
                        requires
                            j != idx as int,
                            j / 4 == idx as int / 4,
                            0 <= j,
                            0 <= idx as int,
                    ;
                    lemma_pixel_byte_update(
                        old(self).0[byte_idx as int],
                        code,
                        color_idx,
                        (3 - j % 4) as u8,
                    );
                }
            }
        }
    }

    /// A line of 160 black pixels.
    pub fn black_line() -> (r: DisplayLine)
        ensures
            forall|i: int| 0 <= i < 160 ==> spec_pixel(r, i) == Color::Black,
    {
        let r = DisplayLine([0xFF; 40]);
        proof {
            reveal(spec_pixel);
            reveal(spec_pixel_code);
            assert(((0xFFu8 / 1) & 3) == 3 && ((0xFFu8 / 4) & 3) == 3 && ((0xFFu8 / 16) & 3) == 3
                && ((0xFFu8 / 64) & 3) == 3) by (bit_vector);
        }
        r
    }

    /// A line of 160 white pixels.
    pub fn white_line() -> (r: DisplayLine)
        ensures
            forall|i: int| 0 <= i < 160 ==> spec_pixel(r, i) == Color::White,
    {
        let r = DisplayLine([0x00; 40]);
        proof {
            reveal(spec_pixel);
            reveal(spec_pixel_code);
            assert(((0u8 / 1) & 3) == 0 && ((0u8 / 4) & 3) == 0 && ((0u8 / 16) & 3) == 0 && ((0u8
                / 64) & 3) == 0) by (bit_vector);
        }
        r
    }
}

/// Overwriting one 2-bit field of a byte changes that field to the new code
/// and leaves the other three fields alone.
proof fn lemma_pixel_byte_update(byte: u8, code: u8, k: u8, k2: u8)
    by (bit_vector)
    requires
        code < 4,
        k < 4,
        k2 < 4,
    ensures
        (((byte & !(0b11u8 << (2 * k))) | (code << (2 * k))) / (if k == 0 {
            1u8
        } else if k == 1 {
            4u8
        } else if k == 2 {
            16u8
        } else {
            64u8
        })) & 3 == code,
        k2 != k ==> (((byte & !(0b11u8 << (2 * k))) | (code << (2 * k))) / (if k2 == 0 {
            1u8
        } else if k2 == 1 {
            4u8
        } else if k2 == 2 {
            16u8
        } else {
            64u8
        })) & 3 == (byte / (if k2 == 0 {
            1u8
        } else if k2 == 1 {
            4u8
        } else if k2 == 2 {
            16u8
        } else {
            64u8
        })) & 3,
{
}

// ---------------------------------------------------------------------------
// VRAM addressing
// ---------------------------------------------------------------------------
/// Where a VRAM tile-data address lands: the block, the tile within the
/// block, the byte within the tile's 16 bytes, and the tile line that byte
/// belongs to.
#[derive(Debug, Clone, Copy, PartialEq, Eq, Structural)]
pub struct TileByteIdx {
    /// The index of the block in the vram tile data
    pub block_idx: usize,
    /// The index of the tile in the block
    pub tile_idx: usize,
    /// The idx of a byte in the 16 byte array associated with a Tile
    pub byte_idx: usize,
    /// The idx of a line in the 8 line array associated with a Tile
    pub line_idx: usize,
}

/// The tile-data decomposition of an address in [0x8000, 0x9800): there are
/// 3 blocks of 128 tiles, each tile 16 bytes, two bytes per line.
pub open spec fn spec_tile_byte_idx(addr: u16) -> TileByteIdx {
    let rel = addr - 0x8000;
    TileByteIdx {
        block_idx: (rel / 0x800) as usize,
        tile_idx: ((rel / 16) % 128) as usize,
        byte_idx: (rel % 16) as usize,
        line_idx: ((rel % 16) / 2) as usize,
    }
}

impl TileByteIdx {
    pub fn from_addr(addr: u16) -> (r: TileByteIdx)
        requires
            0x8000 <= addr < 0x9800,
        ensures
            r == spec_tile_byte_idx(addr),
            r.block_idx < 3,
            r.tile_idx < 128,
            r.byte_idx < 16,
            r.line_idx < 8,
    {
        let rel = addr - 0x8000;
        let byte_idx = (rel % 16) as usize;
        TileByteIdx {
            block_idx: (rel / 0x800) as usize,
            tile_idx: ((rel / 16) % 128) as usize,
            byte_idx,
            line_idx: byte_idx / 2,
        }
    }
}

// ---------------------------------------------------------------------------
// The PPU
// ---------------------------------------------------------------------------
pub struct Ppu {
    /// The last frame the PPU completed, snapshotted at the HBlank to
    /// VBlank transition; external readers read this one.
    pub last_full_frame: [DisplayLine; 144],
    /// The frame being drawn, one scanline at a time.
    pub lcd_display: [DisplayLine; 144],
    pub vram_tile_data: VRamTileData,
    /// At address 0x9800
    pub lo_tile_map: TileMap,
    /// At address 0x9C00
    pub hi_tile_map: TileMap,
    /// There are 144 visible lines (0-143) and 10 additional invisible
    /// lines (144-153). This is the LCD y coordinate (LY).
    pub line: u8,
    /// The number of T-cycles spent in the current mode; used to know when
    /// to switch modes and advance the line index.
    pub cycles_in_mode: u32,
    pub mode: Mode,
    // -- LCD Control flags
    pub lcd_enabled: bool,
    pub window_tile_map_select: TileMapArea,
    /// Draw the window only when this bit is set
    pub window_enabled: bool,
    pub bg_and_window_tile_data_select: BgAndWindowTileDataArea,
    pub bg_tile_map_select: TileMapArea,
    /// Color id 0 is always transparent for objects. There are two palettes
    /// so that a game can use all four colors for objects.
    pub obj_color_palettes: [ColorPalette; 2],
    pub obj_size: ObjSize,
    /// Draw objects only when this bit is set
    pub obj_enabled: bool,
    /// Draw the background only when this bit is set
    pub bg_enabled: bool,
    /// OAM: a sprite attribute table of 40 entries.
    pub obj_attribute_memory: [ObjectAttributes; 40],
    /// BGP: the palette for background and window tiles.
    pub bg_color_palette: ColorPalette,
    /// The on-screen coordinates of the visible 160x144 area within the
    /// 256x256 background map, AKA (SCX, SCY).
    pub viewport_offset: Position,
    /// The on-screen coordinates of the window's top-left pixel (WX, WY).
    /// The window's x position on the LCD is this x minus 7; the window is
    /// visible, if enabled, when x is in [0, 166] and y in [0, 143].
    pub window_top_left: Position,
    /// LCD Y compare: raises a STAT interrupt when it matches `line`.
    pub lyc: u8,
    pub lcd_status: LcdStatus,
}

/// What a read of a VRAM byte returns: a plane byte of a tile line in the
/// tile-data area, or a map entry in the tile-map area.
pub open spec fn spec_read_vram(p: Ppu, addr: u16) -> u8 {
    if addr < 0x9800 {
        let i = spec_tile_byte_idx(addr);
        let line = p.vram_tile_data.tile_data_blocks[i.block_idx as int][i.tile_idx as int].lines[i.line_idx as int];
        if i.byte_idx % 2 == 0 {
            line.lsbs
        } else {
            line.msbs
        }
    } else {
        let m = if addr < 0x9C00 {
            p.lo_tile_map
        } else {
            p.hi_tile_map
        };
        m.tile_indices[((addr / 32) % 32) as int][(addr % 32) as int]
    }
}

/// What a write of a VRAM byte changes: relates the PPU before and after.
/// A tile-data write updates one plane byte of one tile line and preserves
/// the other plane and every other tile; a tile-map write updates one map
/// entry. Everything else is untouched.
pub open spec fn spec_vram_write_effect(old_p: Ppu, new_p: Ppu, addr: u16, byte: u8) -> bool {
    &&& new_p == Ppu {
        vram_tile_data: new_p.vram_tile_data,
        lo_tile_map: new_p.lo_tile_map,
        hi_tile_map: new_p.hi_tile_map,
        ..old_p
    }
    &&& if addr < 0x9800 {
        let i = spec_tile_byte_idx(addr);
        let old_line =
            old_p.vram_tile_data.tile_data_blocks[i.block_idx as int][i.tile_idx as int].lines[i.line_idx as int];
        let new_line = TileLine {
            lsbs: if i.byte_idx % 2 == 0 {
                byte
            } else {
                old_line.lsbs
            },
            msbs: if i.byte_idx % 2 == 0 {
                old_line.msbs
            } else {
                byte
            },
        };
        &&& new_p.lo_tile_map == old_p.lo_tile_map
        &&& new_p.hi_tile_map == old_p.hi_tile_map
        &&& forall|b: int, t: int, l: int|
            0 <= b < 3 && 0 <= t < 128 && 0 <= l < 8 ==> #[trigger] new_p.vram_tile_data.tile_data_blocks[b][t].lines[l] == (if b == i.block_idx && t == i.tile_idx && l
                == i.line_idx {
                new_line
            } else {
                old_p.vram_tile_data.tile_data_blocks[b][t].lines[l]
            })
    } else {
        let row = ((addr / 32) % 32) as int;
        let col = (addr % 32) as int;
        &&& new_p.vram_tile_data == old_p.vram_tile_data
        &&& if addr < 0x9C00 {
            &&& new_p.hi_tile_map == old_p.hi_tile_map
            &&& forall|r: int, c: int|
                0 <= r < 32 && 0 <= c < 32 ==> #[trigger] new_p.lo_tile_map.tile_indices[r][c]
                    == (if r == row && c == col {
                    byte
                } else {
                    old_p.lo_tile_map.tile_indices[r][c]
                })
        } else {
            &&& new_p.lo_tile_map == old_p.lo_tile_map
            &&& forall|r: int, c: int|
                0 <= r < 32 && 0 <= c < 32 ==> #[trigger] new_p.hi_tile_map.tile_indices[r][c]
                    == (if r == row && c == col {
                    byte
                } else {
                    old_p.hi_tile_map.tile_indices[r][c]
                })
        }
    }
}

impl Ppu {
    /// The PPU's internal invariant: the mode accumulator has not yet
    /// reached the current mode's length, and the line index is in range
    /// for the mode.
    pub open spec fn wf(self) -> bool {
        &&& self.cycles_in_mode < spec_mode_threshold(self.mode)
        &&& (self.mode == Mode::VerticalBlank ==> self.line < 154)
        &&& (self.mode != Mode::VerticalBlank ==> self.line < 144)
    }

    pub fn new() -> (r: Ppu)
        ensures
            r.wf(),
            r.line == 0,
            r.cycles_in_mode == 0,
            r.mode == Mode::ScanlineOAM,
            !r.lcd_enabled,
            !r.window_enabled,
            !r.obj_enabled,
            !r.bg_enabled,
            r.bg_and_window_tile_data_select == BgAndWindowTileDataArea::X8800,
            r.obj_size == ObjSize::Dim8x8,
            r.window_tile_map_select == TileMapArea::X9800,
            r.bg_tile_map_select == TileMapArea::X9800,
            r.lyc == 0,
            r.viewport_offset == (Position { x: 0, y: 0 }),
            r.window_top_left == (Position { x: 0, y: 0 }),
            r.lcd_status == (LcdStatus {
                lyc_int_select: false,
                mode_2_int_select: false,
                mode_1_int_select: false,
                mode_0_int_select: false,
            }),
            forall|a: u16| 0x8000 <= a < 0xA000 ==> spec_read_vram(r, a) == 0,
            forall|i: int|
                0 <= i < 40 ==> r.obj_attribute_memory[i] == (ObjectAttributes {
                    y_pos: 0,
                    x_pos: 0,
                    tile_idx: 0,
                    bg_over_obj_priority: Priority::Zero,
                    y_flip: false,
                    x_flip: false,
                    palette: ObjColorPaletteIdx::Zero,
                }),
            r.bg_color_palette == spec_palette_of_byte(0),
            forall|i: int| 0 <= i < 2 ==> r.obj_color_palettes[i] == spec_palette_of_byte(0),
    {
        let zero_line = TileLine { lsbs: 0, msbs: 0 };
        let p = Ppu {
            vram_tile_data: VRamTileData {
                tile_data_blocks: [[Tile { lines: [zero_line; 8] }; 128]; 3],
            },
            lo_tile_map: TileMap { tile_indices: [[0; 32]; 32] },
            hi_tile_map: TileMap { tile_indices: [[0; 32]; 32] },
            line: 0,
            cycles_in_mode: 0,
            mode: Mode::ScanlineOAM,
            lcd_enabled: false,
            window_tile_map_select: TileMapArea::from_bit(false),
            window_enabled: false,
            bg_and_window_tile_data_select: BgAndWindowTileDataArea::X8800,
            bg_tile_map_select: TileMapArea::from_bit(false),
            obj_size: ObjSize::from_bit(false),
            obj_enabled: false,
            bg_enabled: false,
            bg_color_palette: ColorPalette::from_byte(0x00),
            viewport_offset: Position { x: 0, y: 0 },
            lyc: 0,
            lcd_status: LcdStatus {
                lyc_int_select: false,
                mode_2_int_select: false,
                mode_1_int_select: false,
                mode_0_int_select: false,
            },
            obj_color_palettes: [ColorPalette::from_byte(0x00); 2],
            window_top_left: Position { x: 0, y: 0 },
            obj_attribute_memory: [ObjectAttributes {
                y_pos: 0,
                x_pos: 0,
                tile_idx: 0,
                bg_over_obj_priority: Priority::Zero,
                y_flip: false,
                x_flip: false,
                palette: ObjColorPaletteIdx::Zero,
            }; 40],
            lcd_display: [DisplayLine::black_line(); 144],
            last_full_frame: [DisplayLine::black_line(); 144],
        };
        p
    }

    /// Read one byte of VRAM, at an address in [0x8000, 0xA000).
    pub fn read_vram_byte(&self, addr: u16) -> (r: u8)
        requires
            0x8000 <= addr < 0xA000,
        ensures
            r == spec_read_vram(*self, addr),
    {
        if addr < 0x9800 {
            let idx = TileByteIdx::from_addr(addr);
            let tile = self.vram_tile_data.tile_data_blocks[idx.block_idx][idx.tile_idx];
            let line = tile.lines[idx.line_idx];
            if idx.byte_idx % 2 == 0 {
                line.lsbs
            } else {
                line.msbs
            }
        } else {
            let tile_map = if addr < 0x9C00 {
                &self.lo_tile_map
            } else {
                &self.hi_tile_map
            };
            let row_idx = ((addr / 32) % 32) as usize;
            let col_idx = (addr % 32) as usize;
            tile_map.tile_indices[row_idx][col_idx]
        }
    }

    /// Write one byte of VRAM, at an address in [0x8000, 0xA000). In the
    /// tile-data area the byte lands in one bit plane of one tile line and
    /// the other plane is preserved.
    pub fn write_vram_byte(&mut self, addr: u16, byte: u8)
        requires
            0x8000 <= addr < 0xA000,
        ensures
            spec_vram_write_effect(*old(self), *final(self), addr, byte),
    {
        if addr < 0x9800 {
            let idx = TileByteIdx::from_addr(addr);
            let mut tile = self.vram_tile_data.tile_data_blocks[idx.block_idx][idx.tile_idx];
            let mut line = tile.lines[idx.line_idx];
            if idx.byte_idx % 2 == 0 {
                line.lsbs = byte;
            } else {
                line.msbs = byte;
            }
            tile.lines[idx.line_idx] = line;
            let mut block = self.vram_tile_data.tile_data_blocks[idx.block_idx];
            block[idx.tile_idx] = tile;
            self.vram_tile_data.tile_data_blocks[idx.block_idx] = block;
        } else {
            let row_idx = ((addr / 32) % 32) as usize;
            let col_idx = (addr % 32) as usize;
            if addr < 0x9C00 {
                let mut row = self.lo_tile_map.tile_indices[row_idx];
                row[col_idx] = byte;
                self.lo_tile_map.tile_indices[row_idx] = row;
            } else {
                let mut row = self.hi_tile_map.tile_indices[row_idx];
                row[col_idx] = byte;
                self.hi_tile_map.tile_indices[row_idx] = row;
            }
        }
    }
}

// ---------------------------------------------------------------------------
// Scanline composition: the mathematical model
// ---------------------------------------------------------------------------
/// The tile map the background uses.
pub open spec fn spec_bg_tile_map(p: Ppu) -> TileMap {
    if p.bg_tile_map_select == TileMapArea::X9800 {
        p.lo_tile_map
    } else {
        p.hi_tile_map
    }
}

/// The tile map the window uses.
pub open spec fn spec_win_tile_map(p: Ppu) -> TileMap {
    if p.window_tile_map_select == TileMapArea::X9800 {
        p.lo_tile_map
    } else {
        p.hi_tile_map
    }
}

/// The tile a background or window tile index names, under the selected
/// addressing mode.
pub open spec fn spec_bgwin_tile(p: Ppu, idx: u8) -> Tile {
    if p.bg_and_window_tile_data_select == BgAndWindowTileDataArea::X8000 {
        spec_tile_8000(p.vram_tile_data, idx)
    } else {
        spec_tile_8800(p.vram_tile_data, idx)
    }
}

/// The color id the background contributes at LCD column `col` of the
/// current line: the viewport offset wraps around the 256x256 background.
#[verifier::opaque]
pub open spec fn spec_bg_color_id(p: Ppu, col: int) -> ColorId {
    let bg_row = (p.viewport_offset.y + p.line) % 256;
    let bg_col = (p.viewport_offset.x + col) % 256;
    let tile_idx = spec_bg_tile_map(p).tile_indices[bg_row / 8][bg_col / 8];
    spec_line_color_id(spec_bgwin_tile(p, tile_idx).lines[bg_row % 8], bg_col % 8)
}

/// The window is drawn only if both the window and the background are
/// enabled and its origin lies in WX = 0..166, WY = 0..143 with WY at or
/// above the current line.
pub open spec fn spec_window_visible(p: Ppu) -> bool {
    &&& p.bg_enabled
    &&& p.window_enabled
    &&& p.window_top_left.y <= p.line
    &&& p.window_top_left.x <= 166
    &&& p.window_top_left.y <= 143
}

/// The window-relative column of LCD column `col`; negative to the left of
/// the window, which does not wrap.
pub open spec fn spec_win_col(p: Ppu, col: int) -> int {
    col + 7 - p.window_top_left.x
}

/// The color id the window contributes at LCD column `col`.
#[verifier::opaque]
pub open spec fn spec_win_color_id(p: Ppu, col: int) -> ColorId {
    let row = p.line - p.window_top_left.y;
    let wcol = spec_win_col(p, col);
    let tile_idx = spec_win_tile_map(p).tile_indices[row / 8][wcol / 8];
    spec_line_color_id(spec_bgwin_tile(p, tile_idx).lines[row % 8], wcol % 8)
}

/// The background/window color id at a column, as the object pass consults
/// it for priority: id 0 wherever neither layer drew.
#[verifier::opaque]
pub open spec fn spec_base_color_id(p: Ppu, col: int) -> ColorId {
    if spec_window_visible(p) && spec_win_col(p, col) >= 0 {
        spec_win_color_id(p, col)
    } else if p.bg_enabled {
        spec_bg_color_id(p, col)
    } else {
        ColorId::Id0
    }
}

/// The color of the background/window layer at a column: white everywhere
/// when the background is disabled.
#[verifier::opaque]
pub open spec fn spec_base_color(p: Ppu, col: int) -> Color {
    if p.bg_enabled {
        spec_palette_lookup(p.bg_color_palette, spec_base_color_id(p, col))
    } else {
        Color::White
    }
}

/// Whether the vertical span of an object covers the given LCD line.
pub open spec fn spec_obj_on_line(o: ObjectAttributes, line: u8, size: ObjSize) -> bool {
    o.y_pos - 16 <= line < o.y_pos - 16 + spec_obj_height(size)
}

/// The objects taken for a line: scanning the OAM in order, keep the
/// entries whose vertical span covers the line, at most the first 10.
pub open spec fn spec_selected_objs(
    oam: Seq<ObjectAttributes>,
    line: u8,
    size: ObjSize,
) -> Seq<ObjectAttributes>
    decreases oam.len(),
{
    if oam.len() == 0 {
        Seq::empty()
    } else {
        let pre = spec_selected_objs(oam.drop_last(), line, size);
        if pre.len() < 10 && spec_obj_on_line(oam.last(), line, size) {
            pre.push(oam.last())
        } else {
            pre
        }
    }
}

/// Insert an object into a sequence sorted by `x_pos`, after every entry
/// whose `x_pos` is less than or equal: entries with equal `x_pos` keep
/// their original order, which makes the sort below stable.
pub open spec fn spec_insert_by_x(
    o: ObjectAttributes,
    s: Seq<ObjectAttributes>,
) -> Seq<ObjectAttributes>
    decreases s.len(),
{
    if s.len() == 0 {
        seq![o]
    } else if s[0].x_pos <= o.x_pos {
        seq![s[0]] + spec_insert_by_x(o, s.skip(1))
    } else {
        seq![o] + s
    }
}

/// Stable insertion sort by `x_pos`, ascending.
pub open spec fn spec_sort_by_x(s: Seq<ObjectAttributes>) -> Seq<ObjectAttributes>
    decreases s.len(),
{
    if s.len() == 0 {
        Seq::empty()
    } else {
        spec_insert_by_x(s.last(), spec_sort_by_x(s.drop_last()))
    }
}

/// The color id of pixel `j` (0 = left) of the row of an object that lies
/// on the given line, honoring both flips; for 8x16 objects the lower half
/// comes from tile `(tile_idx & 0xFE) + 1`.
#[verifier::opaque]
pub open spec fn spec_obj_row_id(
    v: VRamTileData,
    o: ObjectAttributes,
    line: u8,
    size: ObjSize,
    j: int,
) -> ColorId {
    let h = spec_obj_height(size) as int;
    let rel = line + 16 - o.y_pos;
    let li = if o.y_flip {
        h - 1 - rel
    } else {
        rel
    };
    let jj = if o.x_flip {
        7 - j
    } else {
        j
    };
    if li < 8 {
        spec_line_color_id(spec_tile_8000(v, o.tile_idx).lines[li], jj)
    } else {
        spec_line_color_id(spec_tile_8000(v, ((o.tile_idx & 0xFE) + 1) as u8).lines[li - 8], jj)
    }
}

/// The object palette an OAM entry selects.
pub open spec fn spec_obj_palette(p: Ppu, o: ObjectAttributes) -> ColorPalette {
    if o.palette == ObjColorPaletteIdx::One {
        p.obj_color_palettes[1]
    } else {
        p.obj_color_palettes[0]
    }
}

/// One object drawn over a line of colors: a pixel changes where the
/// object covers the column with a non-transparent color id and either the
/// object has priority or the background/window drew id 0 there.
#[verifier::opaque]
pub open spec fn spec_apply_obj(
    p: Ppu,
    o: ObjectAttributes,
    colors: Seq<Color>,
) -> Seq<Color> {
    Seq::new(
        160,
        |c: int|
            {
                let j = c + 8 - o.x_pos;
                if 0 <= j < 8 {
                    let id = spec_obj_row_id(p.vram_tile_data, o, p.line, p.obj_size, j);
                    if id != ColorId::Id0 && (o.bg_over_obj_priority == Priority::Zero
                        || spec_base_color_id(p, c) == ColorId::Id0) {
                        spec_palette_lookup(spec_obj_palette(p, o), id)
                    } else {
                        colors[c]
                    }
                } else {
                    colors[c]
                }
            },
    )
}

/// A list of objects drawn from its last element to its first, so that
/// earlier entries (higher priority) overwrite later ones.
pub open spec fn spec_draw_objs(
    p: Ppu,
    objs: Seq<ObjectAttributes>,
    colors: Seq<Color>,
) -> Seq<Color>
    decreases objs.len(),
{
    if objs.len() == 0 {
        colors
    } else {
        spec_apply_obj(p, objs[0], spec_draw_objs(p, objs.skip(1), colors))
    }
}

/// The colors of one line of a display.
pub open spec fn spec_line_colors(d: DisplayLine) -> Seq<Color> {
    Seq::new(160, |c: int| spec_pixel(d, c))
}

/// The full scanline the compositor produces for the PPU's current state:
/// the background/window base layer, then the selected objects sorted
/// stably by `x_pos`, drawn from lowest to highest priority.
pub open spec fn spec_scanline(p: Ppu) -> Seq<Color> {
    let base = Seq::new(160, |c: int| spec_base_color(p, c));
    if p.obj_enabled {
        spec_draw_objs(
            p,
            spec_sort_by_x(spec_selected_objs(p.obj_attribute_memory@, p.line, p.obj_size)),
            base,
        )
    } else {
        base
    }
}

// ---------------------------------------------------------------------------
// Scanline composition: lemmas
// ---------------------------------------------------------------------------
/// Every selected object lies on the line.
proof fn lemma_selected_on_line(oam: Seq<ObjectAttributes>, line: u8, size: ObjSize)
    ensures
        forall|i: int|
            0 <= i < spec_selected_objs(oam, line, size).len() ==> spec_obj_on_line(
                #[trigger] spec_selected_objs(oam, line, size)[i],
                line,
                size,
            ),
    decreases oam.len(),
{
    if oam.len() > 0 {
        lemma_selected_on_line(oam.drop_last(), line, size);
        let pre = spec_selected_objs(oam.drop_last(), line, size);
        let sel = spec_selected_objs(oam, line, size);
        assert forall|i: int| 0 <= i < sel.len() implies spec_obj_on_line(
            #[trigger] sel[i],
            line,
            size,
        ) by {
            if pre.len() < 10 && spec_obj_on_line(oam.last(), line, size) {
                assert(sel == pre.push(oam.last()));
                if i < pre.len() {
                    assert(sel[i] == pre[i]);
                } else {
                    assert(sel[i] == oam.last());
                }
            } else {
                assert(sel == pre);
            }
        }
    }
}

/// Inserting keeps every element on the line.
proof fn lemma_insert_on_line(
    o: ObjectAttributes,
    s: Seq<ObjectAttributes>,
    line: u8,
    size: ObjSize,
)
    requires
        spec_obj_on_line(o, line, size),
        forall|i: int| 0 <= i < s.len() ==> spec_obj_on_line(#[trigger] s[i], line, size),
    ensures
        forall|i: int|
            0 <= i < spec_insert_by_x(o, s).len() ==> spec_obj_on_line(
                #[trigger] spec_insert_by_x(o, s)[i],
                line,
                size,
            ),
    decreases s.len(),
{
    let ins = spec_insert_by_x(o, s);
    if s.len() == 0 {
        assert(ins == seq![o]);
        assert(ins[0] == o);
    } else if s[0].x_pos <= o.x_pos {
        lemma_insert_on_line(o, s.skip(1), line, size);
        let rest = spec_insert_by_x(o, s.skip(1));
        assert(ins == seq![s[0]] + rest);
        assert forall|i: int| 0 <= i < ins.len() implies spec_obj_on_line(
            #[trigger] ins[i],
            line,
            size,
        ) by {
            if i == 0 {
                assert(ins[0] == s[0]);
            } else {
                assert(ins[i] == rest[i - 1]);
            }
        }
    } else {
        assert(ins == seq![o] + s);
        assert forall|i: int| 0 <= i < ins.len() implies spec_obj_on_line(
            #[trigger] ins[i],
            line,
            size,
        ) by {
            if i == 0 {
                assert(ins[0] == o);
            } else {
                assert(ins[i] == s[i - 1]);
            }
        }
    }
}

/// Sorting keeps every element on the line.
proof fn lemma_sort_on_line(s: Seq<ObjectAttributes>, line: u8, size: ObjSize)
    requires
        forall|i: int| 0 <= i < s.len() ==> spec_obj_on_line(#[trigger] s[i], line, size),
    ensures
        forall|i: int|
            0 <= i < spec_sort_by_x(s).len() ==> spec_obj_on_line(
                #[trigger] spec_sort_by_x(s)[i],
                line,
                size,
            ),
    decreases s.len(),
{
    if s.len() > 0 {
        lemma_sort_on_line(s.drop_last(), line, size);
        lemma_insert_on_line(s.last(), spec_sort_by_x(s.drop_last()), line, size);
    }
}

// ---------------------------------------------------------------------------
// Scanline composition: the compositor
// ---------------------------------------------------------------------------
impl Ppu {
    /// The tile a background or window tile index names under the selected
    /// addressing mode.
    fn bgwin_tile(&self, idx: u8) -> (r: Tile)
        ensures
            r == spec_bgwin_tile(*self, idx),
    {
        match self.bg_and_window_tile_data_select {
            BgAndWindowTileDataArea::X8000 => self.vram_tile_data.get_tile_from_0x8000(idx),
            BgAndWindowTileDataArea::X8800 => self.vram_tile_data.get_tile_from_0x8800_signed(idx),
        }
    }

    /// Resolve the pixel values of one line of the LCD: the background and
    /// window base layer, then the objects on the line, at most 10, sorted
    /// stably by x position and drawn from lowest to highest priority.
    pub fn draw_scan_line(&self) -> (r: DisplayLine)
        ensures
            forall|c: int| 0 <= c < 160 ==> #[trigger] spec_pixel(r, c) == spec_scanline(*self)[c],
    {
        let ghost base_seq = Seq::new(160, |c: int| spec_base_color(*self, c));
        let mut result = if self.bg_enabled {
            DisplayLine::black_line()
        } else {
            DisplayLine::white_line()
        };
        let mut base_ids: [ColorId; 160] = [ColorId::Id0; 160];
        if self.bg_enabled {
            self.bg_pass(&mut result, &mut base_ids);
            self.window_pass(&mut result, &mut base_ids);
        }
        proof {
            reveal(spec_base_color);
            reveal(spec_base_color_id);
            assert forall|j: int| 0 <= j < 160 implies #[trigger] spec_pixel(result, j)
                == base_seq[j] && base_ids[j] == spec_base_color_id(*self, j) by {}
        }
        // object pass
        if self.obj_enabled {
            let objs = self.objs_on_line();
            let ghost sorted_seq = spec_sort_by_x(
                spec_selected_objs(self.obj_attribute_memory@, self.line, self.obj_size),
            );
            proof {
                lemma_selected_on_line(self.obj_attribute_memory@, self.line, self.obj_size);
                lemma_sort_on_line(
                    spec_selected_objs(self.obj_attribute_memory@, self.line, self.obj_size),
                    self.line,
                    self.obj_size,
                );
                assert(sorted_seq.skip(sorted_seq.len() as int)
                    =~= Seq::<ObjectAttributes>::empty());
            }
            let mut k = objs.len();
            while k > 0
                invariant
                    k <= objs.len(),
                    objs@ == sorted_seq,
                    forall|i: int|
                        0 <= i < sorted_seq.len() ==> spec_obj_on_line(
                            #[trigger] sorted_seq[i],
                            self.line,
                            self.obj_size,
                        ),
                    forall|j: int|
                        0 <= j < 160 ==> #[trigger] base_ids[j] == spec_base_color_id(*self, j),
                    forall|c: int|
                        0 <= c < 160 ==> #[trigger] spec_pixel(result, c) == spec_draw_objs(
                            *self,
                            sorted_seq.skip(k as int),
                            base_seq,
                        )[c],
                decreases k,
            {
                k = k - 1;
                let o = objs[k];
                let ghost prev = spec_line_colors(result);
                self.apply_obj(&mut result, o, &base_ids);
                proof {
                    assert(sorted_seq.skip(k as int)[0] == sorted_seq[k as int]);
                    assert(sorted_seq.skip(k as int).skip(1) =~= sorted_seq.skip(k as int + 1));
                    let rest = spec_draw_objs(*self, sorted_seq.skip(k as int + 1), base_seq);
                    assert forall|c: int| 0 <= c < 160 implies #[trigger] spec_apply_obj(
                        *self,
                        o,
                        prev,
                    )[c] == spec_apply_obj(*self, o, rest)[c] by {
                        reveal(spec_apply_obj);
                        assert(prev[c] == rest[c]);
                    }
                }
            }
            proof {
                assert(sorted_seq.skip(0) =~= sorted_seq);
            }
        }
        result
    }

    /// The color id of one pixel of a tile line.
    fn line_id_at(line: TileLine, j: u8) -> (id: ColorId)
        requires
            j < 8,
        ensures
            id == spec_line_color_id(line, j as int),
    {
        let ids = line.color_ids();
        ids[j as usize]
    }

    /// The color id the background contributes at one column.
    #[verifier::rlimit(100)]
    #[verifier::spinoff_prover]
    fn bg_pixel(&self, bg_row: u8, col: u8) -> (id: ColorId)
        requires
            col < 160,
            bg_row == (self.viewport_offset.y + self.line) % 256,
        ensures
            id == spec_bg_color_id(*self, col as int),
    {
        proof {
            reveal(spec_bg_color_id);
        }
        let bg_col = self.viewport_offset.x.wrapping_add(col);
        let tile_idx = match self.bg_tile_map_select {
            TileMapArea::X9800 => self.lo_tile_map.tile_indices[(bg_row / 8) as usize][(bg_col
                / 8) as usize],
            TileMapArea::X9C00 => self.hi_tile_map.tile_indices[(bg_row / 8) as usize][(bg_col
                / 8) as usize],
        };
        let tile = self.bgwin_tile(tile_idx);
        Self::line_id_at(tile.lines[(bg_row % 8) as usize], bg_col % 8)
    }

    /// The background pass: every column gets the background color for the
    /// current line, and the color id is recorded for object priority.
    fn bg_pass(&self, result: &mut DisplayLine, base_ids: &mut [ColorId; 160])
        requires
            self.bg_enabled,
        ensures
            forall|j: int|
                0 <= j < 160 ==> #[trigger] spec_pixel(*final(result), j) == spec_palette_lookup(
                    self.bg_color_palette,
                    spec_bg_color_id(*self, j),
                ),
            forall|j: int|
                0 <= j < 160 ==> #[trigger] final(base_ids)[j] == spec_bg_color_id(*self, j),
    {
        let bg_row = self.viewport_offset.y.wrapping_add(self.line);
        let mut col: u8 = 0;
        while col < 160
            invariant
                col <= 160,
                bg_row == (self.viewport_offset.y + self.line) % 256,
                forall|j: int|
                    0 <= j < col ==> #[trigger] spec_pixel(*result, j) == spec_palette_lookup(
                        self.bg_color_palette,
                        spec_bg_color_id(*self, j),
                    ),
                forall|j: int|
                    0 <= j < col ==> #[trigger] base_ids[j] == spec_bg_color_id(*self, j),
            decreases 160 - col,
        {
            let id = self.bg_pixel(bg_row, col);
            result.set_pixel(col, self.bg_color_palette.lookup(id));
            base_ids[col as usize] = id;
            col += 1;
        }
    }

    /// The color id the window contributes at one column it covers.
    #[verifier::rlimit(100)]
    #[verifier::spinoff_prover]
    fn window_pixel(&self, window_row: u8, col: u8) -> (id: ColorId)
        requires
            col < 160,
            spec_window_visible(*self),
            window_row == self.line - self.window_top_left.y,
            spec_win_col(*self, col as int) >= 0,
        ensures
            id == spec_win_color_id(*self, col as int),
    {
        proof {
            reveal(spec_win_color_id);
        }
        let wcol = (col as u16 + 7) - self.window_top_left.x as u16;
        let tile_idx = match self.window_tile_map_select {
            TileMapArea::X9800 => self.lo_tile_map.tile_indices[(window_row / 8) as usize][(wcol
                / 8) as usize],
            TileMapArea::X9C00 => self.hi_tile_map.tile_indices[(window_row / 8) as usize][(wcol
                / 8) as usize],
        };
        let tile = self.bgwin_tile(tile_idx);
        Self::line_id_at(tile.lines[(window_row % 8) as usize], (wcol % 8) as u8)
    }

    /// The window pass: where the window is visible and covers the column,
    /// its color overwrites the background's, and so does its color id.
    fn window_pass(&self, result: &mut DisplayLine, base_ids: &mut [ColorId; 160])
        requires
            self.bg_enabled,
            forall|j: int|
                0 <= j < 160 ==> #[trigger] spec_pixel(*old(result), j) == spec_palette_lookup(
                    self.bg_color_palette,
                    spec_bg_color_id(*self, j),
                ),
            forall|j: int|
                0 <= j < 160 ==> #[trigger] old(base_ids)[j] == spec_bg_color_id(*self, j),
        ensures
            forall|j: int|
                0 <= j < 160 ==> #[trigger] spec_pixel(*final(result), j) == spec_palette_lookup(
                    self.bg_color_palette,
                    spec_base_color_id(*self, j),
                ),
            forall|j: int|
                0 <= j < 160 ==> #[trigger] final(base_ids)[j] == spec_base_color_id(*self, j),
    {
        let window_visible = self.window_enabled && self.window_top_left.y <= self.line
            && self.window_top_left.x <= 166 && self.window_top_left.y <= 143;
        if !window_visible {
            proof {
                reveal(spec_base_color_id);
            }
            return ;
        }
        let window_row = self.line - self.window_top_left.y;
        let mut col: u8 = 0;
        while col < 160
            invariant
                col <= 160,
                self.bg_enabled,
                spec_window_visible(*self),
                window_row == self.line - self.window_top_left.y,
                forall|j: int|
                    0 <= j < col ==> #[trigger] spec_pixel(*result, j) == spec_palette_lookup(
                        self.bg_color_palette,
                        spec_base_color_id(*self, j),
                    ),
                forall|j: int|
                    col <= j < 160 ==> #[trigger] spec_pixel(*result, j) == spec_palette_lookup(
                        self.bg_color_palette,
                        spec_bg_color_id(*self, j),
                    ),
                forall|j: int|
                    0 <= j < col ==> #[trigger] base_ids[j] == spec_base_color_id(*self, j),
                forall|j: int|
                    col <= j < 160 ==> #[trigger] base_ids[j] == spec_bg_color_id(*self, j),
            decreases 160 - col,
        {
            proof {
                reveal(spec_base_color_id);
            }
            if col as u16 + 7 >= self.window_top_left.x as u16 {
                let id = self.window_pixel(window_row, col);
                result.set_pixel(col, self.bg_color_palette.lookup(id));
                base_ids[col as usize] = id;
            }
            col += 1;
        }
    }

    /// The objects whose vertical span covers the current line, at most the
    /// first 10 in OAM order, sorted stably by x position ascending.
    fn objs_on_line(&self) -> (r: Vec<ObjectAttributes>)
        ensures
            r@ == spec_sort_by_x(
                spec_selected_objs(self.obj_attribute_memory@, self.line, self.obj_size),
            ),
    {
        let h = self.obj_size.height();
        let mut candidates: Vec<ObjectAttributes> = Vec::new();
        let mut i: usize = 0;
        while i < 40
            invariant
                i <= 40,
                h == spec_obj_height(self.obj_size),
                candidates@ == spec_selected_objs(
                    self.obj_attribute_memory@.subrange(0, i as int),
                    self.line,
                    self.obj_size,
                ),
                candidates@.len() <= 10,
            decreases 40 - i,
        {
            let o = self.obj_attribute_memory[i];
            let oy = o.y_pos as i16 - 16;
            let on_line = oy <= self.line as i16 && (self.line as i16) < oy + h as i16;
            if candidates.len() < 10 && on_line {
                candidates.push(o);
            }
            proof {
                let pre = self.obj_attribute_memory@.subrange(0, i as int);
                let cur = self.obj_attribute_memory@.subrange(0, i + 1);
                assert(cur.drop_last() =~= pre);
                assert(cur.last() == self.obj_attribute_memory@[i as int]);
            }
            i += 1;
        }
        proof {
            assert(self.obj_attribute_memory@.subrange(0, 40) =~= self.obj_attribute_memory@);
        }
        // stable insertion sort by x position
        let mut sorted: Vec<ObjectAttributes> = Vec::new();
        let mut i: usize = 0;
        while i < candidates.len()
            invariant
                i <= candidates.len(),
                sorted@ == spec_sort_by_x(candidates@.subrange(0, i as int)),
            decreases candidates.len() - i,
        {
            insert_obj_by_x(&mut sorted, candidates[i]);
            proof {
                let pre = candidates@.subrange(0, i as int);
                let cur = candidates@.subrange(0, i + 1);
                assert(cur.drop_last() =~= pre);
                assert(cur.last() == candidates@[i as int]);
            }
            i += 1;
        }
        proof {
            assert(candidates@.subrange(0, candidates@.len() as int) =~= candidates@);
        }
        sorted
    }

    /// Draw one object over the line being composed. `base_ids` holds the
    /// background/window color ids the priority rule consults.
    fn apply_obj(&self, result: &mut DisplayLine, o: ObjectAttributes, base_ids: &[ColorId; 160])
        requires
            spec_obj_on_line(o, self.line, self.obj_size),
            forall|j: int| 0 <= j < 160 ==> #[trigger] base_ids[j] == spec_base_color_id(*self, j),
        ensures
            forall|c: int|
                0 <= c < 160 ==> #[trigger] spec_pixel(*final(result), c) == spec_apply_obj(
                    *self,
                    o,
                    spec_line_colors(*old(result)),
                )[c],
    {
        let h = self.obj_size.height();
        proof {
            reveal(spec_obj_row_id);
            reveal(spec_apply_obj);
            let ti = o.tile_idx;
            assert(ti & 0xFE < 255) by (bit_vector);
        }
        // the row of the object's tiles that lies on this line
        let rel = (self.line as u16 + 16 - o.y_pos as u16) as u8;
        let li = if o.y_flip {
            h - 1 - rel
        } else {
            rel
        };
        let row_line = if li < 8 {
            self.vram_tile_data.get_tile_from_0x8000(o.tile_idx).lines[li as usize]
        } else {
            self.vram_tile_data.get_tile_from_0x8000((o.tile_idx & 0xFE) + 1).lines[(li
                - 8) as usize]
        };
        let ids8 = row_line.color_ids();
        let palette = match o.palette {
            ObjColorPaletteIdx::Zero => self.obj_color_palettes[0],
            ObjColorPaletteIdx::One => self.obj_color_palettes[1],
        };
        let mut pixel_idx: u8 = 0;
        while pixel_idx < 8
            invariant
                pixel_idx <= 8,
                li == (if o.y_flip {
                    spec_obj_height(self.obj_size) - 1 - (self.line + 16 - o.y_pos)
                } else {
                    self.line + 16 - o.y_pos
                }),
                li < 16,
                palette == spec_obj_palette(*self, o),
                forall|j: int|
                    0 <= j < 8 ==> #[trigger] ids8[j] == spec_obj_row_id(
                        self.vram_tile_data,
                        o,
                        self.line,
                        self.obj_size,
                        if o.x_flip {
                            7 - j
                        } else {
                            j
                        },
                    ),
                forall|j: int|
                    0 <= j < 160 ==> #[trigger] base_ids[j] == spec_base_color_id(*self, j),
                forall|c: int|
                    0 <= c < 160 ==> #[trigger] spec_pixel(*result, c) == (if 0 <= c + 8 - o.x_pos
                        < pixel_idx {
                        spec_apply_obj(*self, o, spec_line_colors(*old(result)))[c]
                    } else {
                        spec_pixel(*old(result), c)
                    }),
            decreases 8 - pixel_idx,
        {
            proof {
                reveal(spec_obj_row_id);
                reveal(spec_apply_obj);
            }
            let lcd_col = o.x_pos as i16 - 8 + pixel_idx as i16;
            if 0 <= lcd_col && lcd_col < 160 {
                let lcd_col = lcd_col as u8;
                let id = if o.x_flip {
                    ids8[7 - pixel_idx as usize]
                } else {
                    ids8[pixel_idx as usize]
                };
                let is_transparent = match id {
                    ColorId::Id0 => true,
                    _ => false,
                };
                let bg_priority = match o.bg_over_obj_priority {
                    Priority::Zero => false,
                    Priority::One => true,
                };
                let base_transparent = match base_ids[lcd_col as usize] {
                    ColorId::Id0 => true,
                    _ => false,
                };
                if !is_transparent && (!bg_priority || base_transparent) {
                    result.set_pixel(lcd_col, palette.lookup(id));
                }
            }
            pixel_idx += 1;
        }
    }
}

/// Insert one object into a vector sorted by `x_pos`, after every entry
/// whose `x_pos` is less than or equal.
fn insert_obj_by_x(v: &mut Vec<ObjectAttributes>, o: ObjectAttributes)
    ensures
        final(v)@ == spec_insert_by_x(o, old(v)@),
{
    let ghost s0 = v@;
    let mut out: Vec<ObjectAttributes> = Vec::new();
    proof {
        assert(s0.skip(0) =~= s0);
        assert(Seq::<ObjectAttributes>::empty() + spec_insert_by_x(o, s0) =~= spec_insert_by_x(
            o,
            s0,
        ));
    }
    let mut i: usize = 0;
    while i < v.len() && v[i].x_pos <= o.x_pos
        invariant
            i <= v@.len(),
            v@ == s0,
            out@ == s0.subrange(0, i as int),
            spec_insert_by_x(o, s0) =~= out@ + spec_insert_by_x(o, s0.skip(i as int)),
        decreases v@.len() - i,
    {
        proof {
            let rest = s0.skip(i as int);
            assert(rest[0] == s0[i as int]);
            assert(rest.skip(1) =~= s0.skip(i as int + 1));
            assert(out@.push(s0[i as int]) =~= s0.subrange(0, i as int + 1));
            assert(out@ + spec_insert_by_x(o, rest) =~= out@.push(s0[i as int])
                + spec_insert_by_x(o, rest.skip(1)));
        }
        out.push(v[i]);
        i += 1;
    }
    proof {
        let rest = s0.skip(i as int);
        if i < s0.len() {
            assert(rest[0] == s0[i as int]);
            assert(spec_insert_by_x(o, rest) == seq![o] + rest);
        } else {
            assert(rest =~= Seq::<ObjectAttributes>::empty());
            assert(spec_insert_by_x(o, rest) == seq![o]);
            assert(seq![o] =~= seq![o] + rest);
        }
        assert(spec_insert_by_x(o, s0) =~= out@.push(o) + rest);
    }
    out.push(o);
    while i < v.len()
        invariant
            i <= v@.len(),
            v@ == s0,
            spec_insert_by_x(o, s0) =~= out@ + s0.skip(i as int),
        decreases v@.len() - i,
    {
        proof {
            assert(out@.push(s0[i as int]) + s0.skip(i as int + 1) =~= out@ + s0.skip(i as int));
        }
        out.push(v[i]);
        i += 1;
    }
    proof {
        assert(s0.skip(i as int) =~= Seq::<ObjectAttributes>::empty());
        assert(out@ =~= spec_insert_by_x(o, s0));
    }
    *v = out;
}

// ---------------------------------------------------------------------------
// The mode state machine
// ---------------------------------------------------------------------------
/// Whether advancing onto the current line raises the LYC = LY interrupt.
pub open spec fn spec_lyc_irq(p: Ppu) -> bool {
    p.lcd_status.lyc_int_select && p.lyc == p.line
}

/// What one `step` of the PPU does. With the LCD off nothing moves. With it
/// on, the elapsed T-cycles accumulate; when they reach the current mode's
/// length, the threshold is subtracted (residues carry over) and the mode
/// advances: OAM scan to pixel transfer; pixel transfer to horizontal
/// blank, drawing the scanline into the working frame; horizontal blank to
/// the next line (entering vertical blank at line 144 and snapshotting the
/// frame); vertical blank lines up to 153, then back to line 0. The
/// returned bits are the raised interrupts: bit 0 the VBlank interrupt,
/// bit 1 the LCD-status interrupt (on entering a selected mode, or when the
/// line advances onto LYC with the LYC select set).
pub open spec fn spec_step_effect(p: Ppu, t: u8, q: Ppu, irq_bits: u8) -> bool {
    if !p.lcd_enabled {
        q == p && irq_bits == 0
    } else {
        let acc = (p.cycles_in_mode + t) as u32;
        let thr = spec_mode_threshold(p.mode);
        if acc < thr {
            q == Ppu { cycles_in_mode: acc, ..p } && irq_bits == 0
        } else {
            let acc2 = (acc - thr) as u32;
            match p.mode {
                Mode::ScanlineOAM => q == Ppu {
                    cycles_in_mode: acc2,
                    mode: Mode::ScanlineVRAM,
                    ..p
                } && irq_bits == 0,
                Mode::ScanlineVRAM => {
                    &&& q == Ppu { cycles_in_mode: acc2, mode: Mode::HorizontalBlank, lcd_display: q.lcd_display, ..p }
                    &&& forall|i: int|
                        0 <= i < 144 && i != p.line ==> #[trigger] q.lcd_display[i]
                            == p.lcd_display[i]
                    &&& forall|c: int|
                        0 <= c < 160 ==> #[trigger] spec_pixel(q.lcd_display[p.line as int], c)
                            == spec_scanline(Ppu { cycles_in_mode: acc2, ..p })[c]
                    &&& irq_bits == (if p.lcd_status.mode_0_int_select {
                        2u8
                    } else {
                        0u8
                    })
                },
                Mode::HorizontalBlank => {
                    let nline = (p.line + 1) as u8;
                    if nline == 144 {
                        &&& q == Ppu {
                            cycles_in_mode: acc2,
                            mode: Mode::VerticalBlank,
                            line: nline,
                            last_full_frame: p.lcd_display,
                            ..p
                        }
                        &&& irq_bits == 1u8 | (if p.lcd_status.mode_1_int_select || spec_lyc_irq(
                            q,
                        ) {
                            2u8
                        } else {
                            0u8
                        })
                    } else {
                        &&& q == Ppu {
                            cycles_in_mode: acc2,
                            mode: Mode::ScanlineOAM,
                            line: nline,
                            ..p
                        }
                        &&& irq_bits == (if p.lcd_status.mode_2_int_select || spec_lyc_irq(q) {
                            2u8
                        } else {
                            0u8
                        })
                    }
                },
                Mode::VerticalBlank => {
                    let nline = if p.line + 1 == 154 {
                        0u8
                    } else {
                        (p.line + 1) as u8
                    };
                    let nmode = if p.line + 1 == 154 {
                        Mode::ScanlineOAM
                    } else {
                        Mode::VerticalBlank
                    };
                    &&& q == Ppu { cycles_in_mode: acc2, mode: nmode, line: nline, ..p }
                    &&& irq_bits == (if spec_lyc_irq(q) || (p.line + 1 == 154
                        && p.lcd_status.mode_2_int_select) {
                        2u8
                    } else {
                        0u8
                    })
                },
            }
        }
    }
}

impl Ppu {
    /// This condition is checked every time the current line changes.
    fn should_trigger_lyc_interrupt(&self) -> (r: bool)
        ensures
            r == spec_lyc_irq(*self),
    {
        self.lcd_status.lyc_int_select && self.lyc == self.line
    }

    /// Advance the PPU by the T-cycles the CPU just consumed and return the
    /// interrupts this raised.
    #[verifier::rlimit(100)]
    #[verifier::spinoff_prover]
    pub fn step(&mut self, t_cycles: u8) -> (interrupts: InterruptSet)
        requires
            old(self).wf(),
            t_cycles <= 24,
        ensures
            final(self).wf(),
            interrupts.wf(),
            spec_step_effect(*old(self), t_cycles, *final(self), interrupts.bits),
    {
        proof {
            assert(0u8 | 1 == 1 && 0u8 | 2 == 2 && 1u8 | 2 == 3 && 2u8 | 1 == 3 && 3u8 | 2 == 3
                && 1u8 | 0 == 1 && 0u8 | 0 == 0 && 2u8 | 2 == 2 && 1u8 & 0x1F == 1 && 2u8 & 0x1F
                == 2 && 3u8 & 0x1F == 3 && 0u8 & 0x1F == 0) by (bit_vector);
        }
        let mut interrupts = InterruptSet::empty();
        if !self.lcd_enabled {
            return interrupts;
        }
        self.cycles_in_mode += t_cycles as u32;
        match self.mode {
            Mode::ScanlineOAM => {
                if self.cycles_in_mode >= 80 {
                    self.cycles_in_mode -= 80;
                    self.mode = Mode::ScanlineVRAM;
                }
            },
            Mode::ScanlineVRAM => {
                if self.cycles_in_mode >= 172 {
                    self.cycles_in_mode -= 172;
                    // the line is finished: draw it into the working frame
                    if self.line < 144 {
                        let drawn = self.draw_scan_line();
                        self.lcd_display[self.line as usize] = drawn;
                    }
                    self.mode = Mode::HorizontalBlank;
                    if self.lcd_status.mode_0_int_select {
                        interrupts.insert(InterruptKind::LcdStat);
                    }
                }
            },
            Mode::HorizontalBlank => {
                if self.cycles_in_mode >= 204 {
                    self.cycles_in_mode -= 204;
                    self.line += 1;
                    if self.should_trigger_lyc_interrupt() {
                        interrupts.insert(InterruptKind::LcdStat);
                    }
                    if self.line == 144 {
                        self.mode = Mode::VerticalBlank;
                        self.last_full_frame = self.lcd_display;
                        interrupts.insert(InterruptKind::Vblank);
                        if self.lcd_status.mode_1_int_select {
                            interrupts.insert(InterruptKind::LcdStat);
                        }
                    } else {
                        self.mode = Mode::ScanlineOAM;
                        if self.lcd_status.mode_2_int_select {
                            interrupts.insert(InterruptKind::LcdStat);
                        }
                    }
                }
            },
            Mode::VerticalBlank => {
                if self.cycles_in_mode >= 456 {
                    self.cycles_in_mode -= 456;
                    self.line += 1;
                    if self.line == 154 {
                        self.line = 0;
                        self.mode = Mode::ScanlineOAM;
                        // the wrap re-enters OAM scan: that transition can
                        // raise the LCD-status interrupt too
                        if self.lcd_status.mode_2_int_select {
                            interrupts.insert(InterruptKind::LcdStat);
                        }
                    }
                    if self.should_trigger_lyc_interrupt() {
                        interrupts.insert(InterruptKind::LcdStat);
                    }
                }
            },
        }
        interrupts
    }
}

// ---------------------------------------------------------------------------
// Debug views: the full background, window and object layers
// ---------------------------------------------------------------------------
/// The color of pixel (y, x) of the full 256x256 background: the tile the
/// background map names at that position, under the selected addressing
/// mode, through the background palette.
pub open spec fn spec_full_bg_pixel(p: Ppu, y: int, x: int) -> Color {
    spec_palette_lookup(
        p.bg_color_palette,
        spec_line_color_id(
            spec_bgwin_tile(p, spec_bg_tile_map(p).tile_indices[y / 8][x / 8]).lines[y % 8],
            x % 8,
        ),
    )
}

/// The color of pixel (y, x) of the full 256x256 window layer, through the
/// background palette.
pub open spec fn spec_full_win_pixel(p: Ppu, y: int, x: int) -> Color {
    spec_palette_lookup(
        p.bg_color_palette,
        spec_line_color_id(
            spec_bgwin_tile(p, spec_win_tile_map(p).tile_indices[y / 8][x / 8]).lines[y % 8],
            x % 8,
        ),
    )
}

/// Whether background pixel (y, x) lies on the outline of the visible
/// 160x144 viewport, which wraps around the map's edges.
pub open spec fn spec_on_viewport_outline(p: Ppu, y: int, x: int) -> bool {
    let sy = p.viewport_offset.y as int;
    let sx = p.viewport_offset.x as int;
    ||| ((y == sy || y == (sy + 144) % 256) && (x - sx + 256) % 256 < 160)
    ||| ((x == sx || x == (sx + 160) % 256) && (y - sy + 256) % 256 < 144)
}

/// The color of pixel (y, x) of the background debug view: the viewport
/// outline in black over the full background.
pub open spec fn spec_dbg_bg_pixel(p: Ppu, y: int, x: int) -> Color {
    if spec_on_viewport_outline(p, y, x) {
        Color::Black
    } else {
        spec_full_bg_pixel(p, y, x)
    }
}

impl Ppu {
    /// The color of one pixel of the full background, before the outline.
    fn full_bg_pixel(&self, y: u8, x: u8) -> (c: Color)
        ensures
            c == spec_full_bg_pixel(*self, y as int, x as int),
    {
        let tile_idx = match self.bg_tile_map_select {
            TileMapArea::X9800 => self.lo_tile_map.tile_indices[(y / 8) as usize][(x
                / 8) as usize],
            TileMapArea::X9C00 => self.hi_tile_map.tile_indices[(y / 8) as usize][(x
                / 8) as usize],
        };
        let tile = self.bgwin_tile(tile_idx);
        let id = Self::line_id_at(tile.lines[(y % 8) as usize], x % 8);
        self.bg_color_palette.lookup(id)
    }

    /// The color of one pixel of the full window layer.
    fn full_win_pixel(&self, y: u8, x: u8) -> (c: Color)
        ensures
            c == spec_full_win_pixel(*self, y as int, x as int),
    {
        let tile_idx = match self.window_tile_map_select {
            TileMapArea::X9800 => self.lo_tile_map.tile_indices[(y / 8) as usize][(x
                / 8) as usize],
            TileMapArea::X9C00 => self.hi_tile_map.tile_indices[(y / 8) as usize][(x
                / 8) as usize],
        };
        let tile = self.bgwin_tile(tile_idx);
        let id = Self::line_id_at(tile.lines[(y % 8) as usize], x % 8);
        self.bg_color_palette.lookup(id)
    }

    /// The full 256x256 background under the current tile map, addressing
    /// mode and palette, with the viewport outlined in black; the window
    /// enable bit is ignored. A diagnostic view for front ends.
    pub fn dbg_resolve_background(&self) -> (r: Vec<Vec<Color>>)
        ensures
            r@.len() == 256,
            forall|y: int, x: int|
                0 <= y < 256 && 0 <= x < 256 ==> #[trigger] r@[y]@[x] == spec_dbg_bg_pixel(
                    *self,
                    y,
                    x,
                ),
    {
        let mut rows: Vec<Vec<Color>> = Vec::new();
        let mut y: u16 = 0;
        while y < 256
            invariant
                y <= 256,
                rows@.len() == y,
                forall|a: int, x: int|
                    0 <= a < y && 0 <= x < 256 ==> #[trigger] rows@[a]@[x] == spec_dbg_bg_pixel(
                        *self,
                        a,
                        x,
                    ),
            decreases 256 - y,
        {
            let mut row: Vec<Color> = Vec::new();
            let mut x: u16 = 0;
            while x < 256
                invariant
                    x <= 256,
                    y < 256,
                    row@.len() == x,
                    forall|c: int|
                        0 <= c < x ==> #[trigger] row@[c] == spec_dbg_bg_pixel(
                            *self,
                            y as int,
                            c,
                        ),
                decreases 256 - x,
            {
                let sy = self.viewport_offset.y as u16;
                let sx = self.viewport_offset.x as u16;
                let on_outline = ((y == sy || y == (sy + 144) % 256) && (x + 256 - sx) % 256
                    < 160) || ((x == sx || x == (sx + 160) % 256) && (y + 256 - sy) % 256 < 144);
                if on_outline {
                    row.push(Color::Black);
                } else {
                    row.push(self.full_bg_pixel(y as u8, x as u8));
                }
                x += 1;
            }
            rows.push(row);
            y += 1;
        }
        rows
    }

    /// The full 256x256 window layer under the current tile map, addressing
    /// mode and palette. A diagnostic view for front ends.
    pub fn dbg_resolve_window(&self) -> (r: Vec<Vec<Color>>)
        ensures
            r@.len() == 256,
            forall|y: int, x: int|
                0 <= y < 256 && 0 <= x < 256 ==> #[trigger] r@[y]@[x] == spec_full_win_pixel(
                    *self,
                    y,
                    x,
                ),
    {
        let mut rows: Vec<Vec<Color>> = Vec::new();
        let mut y: u16 = 0;
        while y < 256
            invariant
                y <= 256,
                rows@.len() == y,
                forall|a: int, x: int|
                    0 <= a < y && 0 <= x < 256 ==> #[trigger] rows@[a]@[x] == spec_full_win_pixel(
                        *self,
                        a,
                        x,
                    ),
            decreases 256 - y,
        {
            let mut row: Vec<Color> = Vec::new();
            let mut x: u16 = 0;
            while x < 256
                invariant
                    x <= 256,
                    y < 256,
                    row@.len() == x,
                    forall|c: int|
                        0 <= c < x ==> #[trigger] row@[c] == spec_full_win_pixel(
                            *self,
                            y as int,
                            c,
                        ),
                decreases 256 - x,
            {
                row.push(self.full_win_pixel(y as u8, x as u8));
                x += 1;
            }
            rows.push(row);
            y += 1;
        }
        rows
    }
}

/// Whether an OAM entry's 8x8 top tile covers point (y, x) of the object
/// grid, whose origin is 16 lines above and 8 columns left of the LCD's.
pub open spec fn spec_obj_covers(o: ObjectAttributes, y: int, x: int) -> bool {
    o.y_pos <= y < o.y_pos + 8 && o.x_pos <= x < o.x_pos + 8
}

/// The color an OAM entry paints at a grid point it covers: its top tile's
/// pixel under both flips and its palette. Unlike the compositor, the
/// object grid draws color id 0 too.
pub open spec fn spec_obj_grid_color(p: Ppu, o: ObjectAttributes, y: int, x: int) -> Color {
    let ly = if o.y_flip {
        7 - (y - o.y_pos)
    } else {
        y - o.y_pos
    };
    let lx = if o.x_flip {
        7 - (x - o.x_pos)
    } else {
        x - o.x_pos
    };
    spec_palette_lookup(
        spec_obj_palette(p, o),
        spec_line_color_id(spec_tile_8000(p.vram_tile_data, o.tile_idx).lines[ly], lx),
    )
}

/// The last OAM entry, in OAM order, whose top tile covers (y, x): later
/// entries draw over earlier ones in the object grid.
pub open spec fn spec_last_cover(oam: Seq<ObjectAttributes>, y: int, x: int) -> Option<
    ObjectAttributes,
>
    decreases oam.len(),
{
    if oam.len() == 0 {
        Option::None
    } else if spec_obj_covers(oam.last(), y, x) {
        Option::Some(oam.last())
    } else {
        spec_last_cover(oam.drop_last(), y, x)
    }
}

/// Whether (y, x) lies on the black frame marking the LCD's bounds within
/// the 176x176 object grid.
pub open spec fn spec_on_lcd_frame(y: int, x: int) -> bool {
    ((x == 8 || x == 168) && 16 <= y <= 160) || ((y == 16 || y == 160) && 8 <= x <= 168)
}

/// The color of pixel (y, x) of the object-layer debug view: the LCD frame
/// in black, over the last OAM entry covering the point, over white.
pub open spec fn spec_dbg_obj_pixel(p: Ppu, y: int, x: int) -> Color {
    if spec_on_lcd_frame(y, x) {
        Color::Black
    } else {
        match spec_last_cover(p.obj_attribute_memory@, y, x) {
            Option::Some(o) => spec_obj_grid_color(p, o, y, x),
            Option::None => Color::White,
        }
    }
}

impl Ppu {
    /// The last OAM entry covering one point of the object grid.
    fn last_cover_at(&self, y: u8, x: u8) -> (r: Option<ObjectAttributes>)
        ensures
            r == spec_last_cover(self.obj_attribute_memory@, y as int, x as int),
            r is Some ==> spec_obj_covers(r->0, y as int, x as int),
    {
        proof {
            assert(self.obj_attribute_memory@.subrange(0, 40) =~= self.obj_attribute_memory@);
        }
        let mut i: usize = 40;
        while i > 0
            invariant
                i <= 40,
                spec_last_cover(self.obj_attribute_memory@, y as int, x as int)
                    == spec_last_cover(
                    self.obj_attribute_memory@.subrange(0, i as int),
                    y as int,
                    x as int,
                ),
            decreases i,
        {
            proof {
                assert(self.obj_attribute_memory@.subrange(0, 40)
                    =~= self.obj_attribute_memory@);
                let cur = self.obj_attribute_memory@.subrange(0, i as int);
                assert(cur.last() == self.obj_attribute_memory@[i - 1]);
                assert(cur.drop_last() =~= self.obj_attribute_memory@.subrange(0, i - 1));
            }
            i -= 1;
            let o = self.obj_attribute_memory[i];
            let covers = o.y_pos <= y && (y as u16) < o.y_pos as u16 + 8 && o.x_pos <= x && (
            x as u16) < o.x_pos as u16 + 8;
            if covers {
                return Some(o);
            }
        }
        proof {
            assert(self.obj_attribute_memory@.subrange(0, 0)
                =~= Seq::<ObjectAttributes>::empty());
        }
        None
    }

    /// The objects in OAM, each drawn as its 8x8 top tile with both flips
    /// and its palette, on their own 176x176 grid whose origin sits 16
    /// lines above and 8 columns left of the LCD, with the LCD's bounds
    /// framed in black. A diagnostic view for front ends.
    pub fn dbg_resolve_objects(&self) -> (r: Vec<Vec<Color>>)
        ensures
            r@.len() == 176,
            forall|y: int, x: int|
                0 <= y < 176 && 0 <= x < 176 ==> #[trigger] r@[y]@[x] == spec_dbg_obj_pixel(
                    *self,
                    y,
                    x,
                ),
    {
        let mut rows: Vec<Vec<Color>> = Vec::new();
        let mut y: u8 = 0;
        while y < 176
            invariant
                y <= 176,
                rows@.len() == y,
                forall|a: int, x: int|
                    0 <= a < y && 0 <= x < 176 ==> #[trigger] rows@[a]@[x] == spec_dbg_obj_pixel(
                        *self,
                        a,
                        x,
                    ),
            decreases 176 - y,
        {
            let mut row: Vec<Color> = Vec::new();
            let mut x: u8 = 0;
            while x < 176
                invariant
                    x <= 176,
                    y < 176,
                    row@.len() == x,
                    forall|c: int|
                        0 <= c < x ==> #[trigger] row@[c] == spec_dbg_obj_pixel(
                            *self,
                            y as int,
                            c,
                        ),
                decreases 176 - x,
            {
                let on_frame = ((x == 8 || x == 168) && 16 <= y && y <= 160) || ((y == 16 || y
                    == 160) && 8 <= x && x <= 168);
                if on_frame {
                    row.push(Color::Black);
                } else {
                    match self.last_cover_at(y, x) {
                        Some(o) => {
                            let ly = if o.y_flip {
                                7 - (y - o.y_pos)
                            } else {
                                y - o.y_pos
                            };
                            let lx = if o.x_flip {
                                7 - (x - o.x_pos)
                            } else {
                                x - o.x_pos
                            };
                            let tile = self.vram_tile_data.get_tile_from_0x8000(o.tile_idx);
                            let id = Self::line_id_at(tile.lines[ly as usize], lx);
                            let palette = match o.palette {
                                ObjColorPaletteIdx::Zero => self.obj_color_palettes[0],
                                ObjColorPaletteIdx::One => self.obj_color_palettes[1],
                            };
                            row.push(palette.lookup(id));
                        },
                        None => {
                            row.push(Color::White);
                        },
                    }
                }
                x += 1;
            }
            rows.push(row);
            y += 1;
        }
        rows
    }
}

} // verus!
