use vstd::prelude::*;
use crate::memory::memory::Memory;
use crate::renderer::renderer::{TileAddressingMode, TileMapIndex};
use crate::util::bit_util::{BitUtil, bit_of_u8};

verus! {

/// The attribute byte of a background tile (colour mode).
#[derive(Copy, Clone, PartialEq, Eq, Structural, Debug)]
pub struct TileAttributes(pub u8);

impl TileAttributes {
    /// Bit 7: the tile is drawn over sprites.
    pub fn bg_and_window_priority_over_oam(&self) -> (r: bool)
        ensures
            r == bit_of_u8(self.0, 7),
    {
        self.0.get_bit(7)
    }

    /// Bit 6.
    pub fn flip_vertical(&self) -> (r: bool)
        ensures
            r == bit_of_u8(self.0, 6),
    {
        self.0.get_bit(6)
    }

    /// Bit 5.
    pub fn flip_horizontal(&self) -> (r: bool)
        ensures
            r == bit_of_u8(self.0, 5),
    {
        self.0.get_bit(5)
    }

    /// Bit 3, as 0 or 1.
    pub fn tile_bank_index(&self) -> (r: u8)
        ensures
            r == (if bit_of_u8(self.0, 3) { 1u8 } else { 0u8 }),
    {
        if self.0.get_bit(3) {
            1
        } else {
            0
        }
    }

    /// Bits 0 to 2.
    pub fn palette_index(&self) -> (r: u8)
        ensures
            r == self.0 & 0x7,
            r < 8,
    {
        let value = self.0;
        assert(value & 0x7 < 8) by (bit_vector);
        value & 0x7
    }
}

/// One entry of a tile map: the tile number and its attributes.
#[derive(Copy, Clone, PartialEq, Eq, Structural, Debug)]
pub struct Tile {
    pub chr_code: u8,
    pub attributes: TileAttributes,
}

/// The colour number of pixel `x` (0 leftmost) of a tile row whose bit planes are `low` and `high`.
pub open spec fn pixel_color_index(low: u8, high: u8, x: u8) -> u8 {
    ((low >> (7 - x) as u8) & 1) | (((high >> (7 - x) as u8) & 1) << 1u8)
}

/// The pair of bytes from which a row of a tile is drawn, given the two flips.
pub open spec fn tile_row_bytes(bytes: Seq<u8>, row_offset: u8, flip_horizontal: bool, flip_vertical: bool) -> (u8, u8) {
    let r = 2 * row_offset;
    if !flip_horizontal && !flip_vertical {
        (bytes[r], bytes[r + 1])
    } else if !flip_horizontal && flip_vertical {
        (bytes[14 - r], bytes[15 - r])
    } else if flip_horizontal && !flip_vertical {
        (bytes[r + 1], bytes[r])
    } else {
        (bytes[15 - r], bytes[14 - r])
    }
}

/// The 16 bytes of one tile: eight rows of two bit planes.
#[derive(Copy, Clone)]
pub struct TileData<'a> {
    pub bytes: &'a [u8],
}

impl<'a> TileData<'a> {
    /// The colour numbers of the eight pixels of row `row_offset`, leftmost first.
    pub fn get_color_indices(&self, row_offset: u8, flip_horizontal: bool, flip_vertical: bool) -> (r: Vec<u8>)
        requires
            self.bytes@.len() == 16,
            row_offset < 8,
        ensures
            r@.len() == 8,
            forall|x: int|
                #![trigger r@[x]]
                0 <= x < 8 ==> r@[x] == pixel_color_index(
                    tile_row_bytes(self.bytes@, row_offset, flip_horizontal, flip_vertical).0,
                    tile_row_bytes(self.bytes@, row_offset, flip_horizontal, flip_vertical).1,
                    x as u8,
                ),
    {
        let r2: usize = 2 * row_offset as usize;
        let (byte1, byte2) = if !flip_horizontal && !flip_vertical {
            (self.bytes[r2], self.bytes[r2 + 1])
        } else if !flip_horizontal && flip_vertical {
            (self.bytes[14 - r2], self.bytes[15 - r2])
        } else if flip_horizontal && !flip_vertical {
            (self.bytes[r2 + 1], self.bytes[r2])
        } else {
            (self.bytes[15 - r2], self.bytes[14 - r2])
        };
        let mut indices: Vec<u8> = Vec::new();
        let mut x: u8 = 0;
        while x < 8
            invariant
                x <= 8,
                indices@.len() == x,
                forall|j: int| #![trigger indices@[j]] 0 <= j < x ==> indices@[j] == pixel_color_index(byte1, byte2, j as u8),
            decreases 8 - x,
        {
            let shift: u8 = 7 - x;
            indices.push(((byte1 >> shift) & 1) | (((byte2 >> shift) & 1) << 1u8));
            x = x + 1;
        }
        indices
    }
}

/// The tile data blocks that an addressing mode reads, for both VRAM banks: tiles 0 to
/// 127 come from the first block, tiles 128 to 255 from the second.
pub struct TileDataView<'a> {
    pub block_1_bank_0: &'a [u8],
    pub block_1_bank_1: &'a [u8],
    pub block_2_bank_0: &'a [u8],
    pub block_2_bank_1: &'a [u8],
}

impl<'a> TileDataView<'a> {
    /// Each block holds 128 tiles.
    pub open spec fn wf(&self) -> bool {
        &&& self.block_1_bank_0@.len() == 0x800
        &&& self.block_1_bank_1@.len() == 0x800
        &&& self.block_2_bank_0@.len() == 0x800
        &&& self.block_2_bank_1@.len() == 0x800
    }

    /// The block of bank `bank` that holds tile `tile_index`.
    pub open spec fn block(&self, bank: u8, tile_index: u8) -> Seq<u8> {
        if tile_index < 128 {
            if bank == 0 { self.block_1_bank_0@ } else { self.block_1_bank_1@ }
        } else {
            if bank == 0 { self.block_2_bank_0@ } else { self.block_2_bank_1@ }
        }
    }

    /// The 16 bytes of tile `tile_index` in bank `tile_bank_index`.
    pub fn get_tile_data(&self, tile_bank_index: u8, tile_index: u8) -> (r: TileData<'a>)
        requires
            self.wf(),
            tile_bank_index < 2,
        ensures
            r.bytes@ == self.block(tile_bank_index, tile_index).subrange(
                16 * (tile_index % 128),
                16 * (tile_index % 128) + 16,
            ),
    {
        if tile_index < 128 {
            let byte_offset = 16 * tile_index as usize;
            let block = if tile_bank_index == 0 { self.block_1_bank_0 } else { self.block_1_bank_1 };
            TileData { bytes: vstd::slice::slice_subrange(block, byte_offset, byte_offset + 16) }
        } else {
            let byte_offset = 16 * (tile_index - 128) as usize;
            let block = if tile_bank_index == 0 { self.block_2_bank_0 } else { self.block_2_bank_1 };
            TileData { bytes: vstd::slice::slice_subrange(block, byte_offset, byte_offset + 16) }
        }
    }
}

/// A 32 x 32 tile map: tile numbers from bank 0, attributes from bank 1.
pub struct TileMapView<'a> {
    pub chr_codes: &'a [u8],
    pub attributes: &'a [u8],
}

impl<'a> TileMapView<'a> {
    pub const TILES_PER_ROW: u8 = 32;

    /// Both halves hold 32 rows of 32 entries.
    pub open spec fn wf(&self) -> bool {
        &&& self.chr_codes@.len() == 0x400
        &&& self.attributes@.len() == 0x400
    }

    /// The 32 tiles of map row `row`; the row offset is computed in eight bits, so only
    /// rows 0 to 7 can be asked for.
    pub fn row(&self, row: u8) -> (r: Vec<Tile>)
        requires
            self.wf(),
            row < 8,
        ensures
            r@.len() == 32,
            forall|i: int|
                #![trigger r@[i]]
                0 <= i < 32 ==> r@[i] == (Tile {
                    chr_code: self.chr_codes@[32 * row + i],
                    attributes: TileAttributes(self.attributes@[32 * row + i]),
                }),
    {
        let tile_offset = (row * TileMapView::TILES_PER_ROW) as usize;
        let mut tiles: Vec<Tile> = Vec::new();
        let mut tile_index: u8 = 0;
        while tile_index < TileMapView::TILES_PER_ROW
            invariant
                self.wf(),
                row < 8,
                tile_offset == 32 * row,
                tile_index <= 32,
                tiles@.len() == tile_index,
                forall|i: int|
                    #![trigger tiles@[i]]
                    0 <= i < tile_index ==> tiles@[i] == (Tile {
                        chr_code: self.chr_codes@[32 * row + i],
                        attributes: TileAttributes(self.attributes@[32 * row + i]),
                    }),
            decreases 32 - tile_index,
        {
            tiles.push(
                Tile {
                    chr_code: self.chr_codes[tile_offset + tile_index as usize],
                    attributes: TileAttributes(self.attributes[tile_offset + tile_index as usize]),
                },
            );
            tile_index = tile_index + 1;
        }
        tiles
    }
}

/// Video RAM as the renderer reads it: tile maps and tile data.
pub trait VRAM {
    /// The views can be taken.
    spec fn views_ready(&self) -> bool;

    fn tile_map(&self, tile_map_index: TileMapIndex) -> (r: TileMapView<'_>)
        requires
            self.views_ready(),
        ensures
            r.wf(),
    ;

    fn tile_data(&self, addressing_mode: TileAddressingMode) -> (r: TileDataView<'_>)
        requires
            self.views_ready(),
        ensures
            r.wf(),
    ;
}

/// Two banks of 8 KiB at 0x8000 to 0x9FFF, and the bank select register VBK at 0xFF4F.
pub struct VRAMImpl {
    bank_index: u8,
    bank_0: Vec<u8>,
    bank_1: Vec<u8>,
}

impl VRAMImpl {
    pub const START_ADDRESS: u16 = 0x8000;
    pub const END_ADDRESS: u16 = 0x9FFF;
    pub const BANK_INDEX_ADDRESS: u16 = 0xFF4F;
    pub const BANK_SIZE: usize = 0x2000;

    /// The bank in view, 0 or 1.
    pub closed spec fn bank(&self) -> u8 {
        self.bank_index
    }

    /// The bytes of bank 0.
    pub closed spec fn bank_0_contents(&self) -> Seq<u8> {
        self.bank_0@
    }

    /// The bytes of bank 1.
    pub closed spec fn bank_1_contents(&self) -> Seq<u8> {
        self.bank_1@
    }

    /// The bytes of the bank in view.
    pub open spec fn current_bank_contents(&self) -> Seq<u8> {
        if self.bank() == 0 { self.bank_0_contents() } else { self.bank_1_contents() }
    }

    /// Both banks are complete and one of them is in view.
    pub open spec fn wf(&self) -> bool {
        &&& self.bank() <= 1
        &&& self.bank_0_contents().len() == 0x2000
        &&& self.bank_1_contents().len() == 0x2000
    }

    /// Zeroed banks with bank 0 in view.
    pub fn new() -> (r: VRAMImpl)
        ensures
            r.wf(),
            r.bank() == 0,
            r.bank_0_contents() == Seq::new(0x2000, |i: int| 0u8),
            r.bank_1_contents() == Seq::new(0x2000, |i: int| 0u8),
    {
        let mut bank_0: Vec<u8> = Vec::new();
        let mut bank_1: Vec<u8> = Vec::new();
        let mut i: usize = 0;
        while i < VRAMImpl::BANK_SIZE
            invariant
                i <= 0x2000,
                bank_0@ == Seq::new(i as nat, |j: int| 0u8),
                bank_1@ == Seq::new(i as nat, |j: int| 0u8),
            decreases 0x2000 - i,
        {
            bank_0.push(0);
            bank_1.push(0);
            i = i + 1;
        }
        VRAMImpl { bank_index: 0, bank_0, bank_1 }
    }
}

impl VRAM for VRAMImpl {
    open spec fn views_ready(&self) -> bool {
        self.wf()
    }

    /// The map at 0x9800 (first) or 0x9C00 (second), from both banks.
    fn tile_map(&self, tile_map_index: TileMapIndex) -> (r: TileMapView<'_>)
        ensures
            r.chr_codes@ == self.bank_0_contents().subrange(
                if tile_map_index == TileMapIndex::TileMap1 { 0x1800 } else { 0x1C00 },
                if tile_map_index == TileMapIndex::TileMap1 { 0x1C00 } else { 0x2000 },
            ),
            r.attributes@ == self.bank_1_contents().subrange(
                if tile_map_index == TileMapIndex::TileMap1 { 0x1800 } else { 0x1C00 },
                if tile_map_index == TileMapIndex::TileMap1 { 0x1C00 } else { 0x2000 },
            ),
    {
        let (start, end): (usize, usize) = match tile_map_index {
            TileMapIndex::TileMap1 => (0x1800, 0x1C00),
            TileMapIndex::TileMap2 => (0x1C00, 0x2000),
        };
        TileMapView {
            chr_codes: vstd::slice::slice_subrange(self.bank_0.as_slice(), start, end),
            attributes: vstd::slice::slice_subrange(self.bank_1.as_slice(), start, end),
        }
    }

    /// The tile data of an addressing mode: blocks at 0x8000 and 0x8800 for the first mode,
    /// at 0x9000 and 0x8800 for the second.
    fn tile_data(&self, addressing_mode: TileAddressingMode) -> (r: TileDataView<'_>)
        ensures
            r.block_1_bank_0@ == self.bank_0_contents().subrange(
                if addressing_mode == TileAddressingMode::Mode8000 { 0 } else { 0x1000 },
                if addressing_mode == TileAddressingMode::Mode8000 { 0x800 } else { 0x1800 },
            ),
            r.block_1_bank_1@ == self.bank_1_contents().subrange(
                if addressing_mode == TileAddressingMode::Mode8000 { 0 } else { 0x1000 },
                if addressing_mode == TileAddressingMode::Mode8000 { 0x800 } else { 0x1800 },
            ),
            r.block_2_bank_0@ == self.bank_0_contents().subrange(0x800, 0x1000),
            r.block_2_bank_1@ == self.bank_1_contents().subrange(0x800, 0x1000),
    {
        let (start, end): (usize, usize) = match addressing_mode {
            TileAddressingMode::Mode8000 => (0, 0x800),
            TileAddressingMode::Mode8800 => (0x1000, 0x1800),
        };
        TileDataView {
            block_1_bank_0: vstd::slice::slice_subrange(self.bank_0.as_slice(), start, end),
            block_1_bank_1: vstd::slice::slice_subrange(self.bank_1.as_slice(), start, end),
            block_2_bank_0: vstd::slice::slice_subrange(self.bank_0.as_slice(), 0x800, 0x1000),
            block_2_bank_1: vstd::slice::slice_subrange(self.bank_1.as_slice(), 0x800, 0x1000),
        }
    }
}

impl Memory for VRAMImpl {
    open spec fn maps(&self, address: u16) -> bool {
        &&& (0x8000 <= address <= 0x9FFF || address == 0xFF4F)
        &&& self.wf()
    }

    open spec fn peek(&self, address: u16) -> u8 {
        if address == 0xFF4F {
            self.bank()
        } else {
            self.current_bank_contents()[address - 0x8000]
        }
    }

    open spec fn written(&self, address: u16, value: u8, post: Self) -> bool {
        if address == 0xFF4F {
            &&& post.bank() == value & 0x01
            &&& post.bank_0_contents() == self.bank_0_contents()
            &&& post.bank_1_contents() == self.bank_1_contents()
        } else {
            &&& post.bank() == self.bank()
            &&& self.bank() == 0 ==> post.bank_0_contents() == self.bank_0_contents().update(address - 0x8000, value)
                && post.bank_1_contents() == self.bank_1_contents()
            &&& self.bank() == 1 ==> post.bank_1_contents() == self.bank_1_contents().update(address - 0x8000, value)
                && post.bank_0_contents() == self.bank_0_contents()
        }
    }

    fn read(&self, address: u16) -> (r: u8) {
        if address == VRAMImpl::BANK_INDEX_ADDRESS {
            self.bank_index
        } else if self.bank_index == 0 {
            self.bank_0[(address - VRAMImpl::START_ADDRESS) as usize]
        } else {
            self.bank_1[(address - VRAMImpl::START_ADDRESS) as usize]
        }
    }

    fn write(&mut self, address: u16, value: u8) {
        if address == VRAMImpl::BANK_INDEX_ADDRESS {
            assert(value & 0x01 <= 1) by (bit_vector);
            self.bank_index = value & 0x01;
        } else if self.bank_index == 0 {
            self.bank_0.set((address - VRAMImpl::START_ADDRESS) as usize, value);
        } else {
            self.bank_1.set((address - VRAMImpl::START_ADDRESS) as usize, value);
        }
    }
}

/// What video RAM reads back after a byte is written to its window: the byte at that address,
/// and every other address (VBK included) as before.
pub proof fn law_vram_read_after_write(memory: VRAMImpl, post: VRAMImpl, address: u16, value: u8, other: u16)
    requires
        memory.maps(address),
        address != 0xFF4F,
        memory.written(address, value, post),
    ensures
        post.maps(other) == memory.maps(other),
        post.peek(address) == value,
        other != address && memory.maps(other) ==> post.peek(other) == memory.peek(other),
{
}

/// Selecting a bank through VBK keeps the bytes of both banks: VBK reads back the low bit
/// written, and selecting the former bank again shows its bytes unchanged.
pub proof fn law_vram_bank_switch(memory: VRAMImpl, switched: VRAMImpl, back: VRAMImpl, value: u8, address: u16)
    requires
        memory.maps(0xFF4F),
        memory.written(0xFF4F, value, switched),
        switched.written(0xFF4F, memory.bank(), back),
        memory.maps(address),
    ensures
        switched.maps(address),
        switched.peek(0xFF4F) == value & 0x01,
        back.peek(address) == memory.peek(address),
{
    let bank: u8 = memory.bank();
    assert(bank & 0x01 == bank && value & 0x01 <= 1) by (bit_vector)
        requires bank <= 1;
}

} // verus!
