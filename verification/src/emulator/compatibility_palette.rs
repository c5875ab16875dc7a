use vstd::prelude::*;
use crate::renderer::renderer::Color;
use crate::util::bit_util::{BitUtil, bit_of_u8};

verus! {

/// The three palettes a monochrome cartridge is shown with on a colour machine.
#[derive(Copy, Clone)]
pub struct CompatibilityPalettes {
    pub bgp: [Color; 4],
    pub obj0: [Color; 4],
    pub obj1: [Color; 4],
}

/// The built-in colourisation tables and their lookup by cartridge title.
pub struct CompatibilityPaletteLoader {}

/// Title checksums of the cartridges that have their own colourisation.
pub open spec fn title_checksums() -> Seq<u8> {
    seq![
        0x00, 0x88, 0x16, 0x36, 0xD1, 0xDB, 0xF2, 0x3C, 0x8C, 0x92, 0x3D, 0x5C, 0x58, 0xC9, 0x3E, 0x70,
        0x1D, 0x59, 0x69, 0x19, 0x35, 0xA8, 0x14, 0xAA, 0x75, 0x95, 0x99, 0x34, 0x6F, 0x15, 0xFF, 0x97,
        0x4B, 0x90, 0x17, 0x10, 0x39, 0xF7, 0xF6, 0xA2, 0x49, 0x4E, 0x43, 0x68, 0xE0, 0x8B, 0xF0, 0xCE,
        0x0C, 0x29, 0xE8, 0xB7, 0x86, 0x9A, 0x52, 0x01, 0x9D, 0x71, 0x9C, 0xBD, 0x5D, 0x6D, 0x67, 0x3F,
        0x6B, 0xB3, 0x46, 0x28, 0xA5, 0xC6, 0xD3, 0x27, 0x61, 0x18, 0x66, 0x6A, 0xBF, 0x0D, 0xF4,
    ]
}

/// For each colourisation: the palette triple index (low five bits) and the shuffle flags
/// (high three bits).
pub open spec fn palette_index_indexes_and_flags() -> Seq<u8> {
    seq![
        0x7C, 0x08, 0x12, 0xA3, 0xA2, 0x07, 0x87, 0x4B, 0x20, 0x12, 0x65, 0xA8, 0x16, 0xA9, 0x86, 0xB1,
        0x68, 0xA0, 0x87, 0x66, 0x12, 0xA1, 0x30, 0x3C, 0x12, 0x85, 0x12, 0x64, 0x1B, 0x07, 0x06, 0x6F,
        0x6E, 0x6E, 0xAE, 0xAF, 0x6F, 0xB2, 0xAF, 0xB2, 0xA8, 0xAB, 0x6F, 0xAF, 0x86, 0xAE, 0xA2, 0xA2,
        0x12, 0xAF, 0x13, 0x12, 0xA1, 0x6E, 0xAF, 0xAF, 0xAD, 0x06, 0x4C, 0x6E, 0xAF, 0xAF, 0x12, 0x7C,
        0xAC, 0xA8, 0x6A, 0x6E, 0x13, 0xA0, 0x2D, 0xA8, 0x2B, 0xAC, 0x64, 0xAC, 0x6D, 0x87, 0xBC, 0x60,
        0xB4, 0x13, 0x72, 0x7C, 0xB5, 0xAE, 0xAE, 0x7C, 0x7C, 0x65, 0xA2, 0x6C, 0x64, 0x85,
    ]
}

/// Triples of offsets into the colour table, in bytes of two per colour.
pub open spec fn palette_indexes() -> Seq<u8> {
    seq![
        0x80, 0xB0, 0x40, 0x88, 0x20, 0x68, 0xDE, 0x00, 0x70, 0xDE, 0x20, 0x78, 0x20, 0x20, 0x38,
        0x20, 0xB0, 0x90, 0x20, 0xB0, 0xA0, 0xE0, 0xB0, 0xC0, 0x98, 0xB6, 0x48, 0x80, 0xE0, 0x50,
        0x1E, 0x1E, 0x58, 0x20, 0xB8, 0xE0, 0x88, 0xB0, 0x10, 0x20, 0x00, 0x10, 0x20, 0xE0, 0x18,
        0xE0, 0x18, 0x00, 0x18, 0xE0, 0x20, 0xA8, 0xE0, 0x20, 0x18, 0xE0, 0x00, 0x20, 0x18, 0xD8,
        0xC8, 0x18, 0xE0, 0x00, 0xE0, 0x40, 0x28, 0x28, 0x28, 0x18, 0xE0, 0x60, 0x20, 0x18, 0xE0,
        0x00, 0x00, 0x08, 0xE0, 0x18, 0x30, 0xD0, 0xD0, 0xD0, 0x20, 0xE0, 0xE8,
    ]
}

/// The colour table: red, green and blue of each 5-bit colour.
pub open spec fn palette_channels() -> Seq<u8> {
    seq![
        0x1F, 0x1F, 0x1F, 0x1F, 0x15, 0x0C, 0x10, 0x06, 0x00, 0x00, 0x00, 0x00,
        0x1F, 0x1C, 0x18, 0x19, 0x13, 0x10, 0x10, 0x0D, 0x05, 0x0B, 0x06, 0x01,
        0x1F, 0x1F, 0x1F, 0x11, 0x11, 0x1B, 0x0A, 0x0A, 0x11, 0x00, 0x00, 0x00,
        0x1F, 0x1F, 0x1F, 0x0F, 0x1F, 0x06, 0x00, 0x10, 0x00, 0x00, 0x00, 0x00,
        0x1F, 0x1F, 0x1F, 0x1F, 0x10, 0x10, 0x12, 0x07, 0x07, 0x00, 0x00, 0x00,
        0x1F, 0x1F, 0x1F, 0x14, 0x14, 0x14, 0x0A, 0x0A, 0x0A, 0x00, 0x00, 0x00,
        0x1F, 0x1F, 0x1F, 0x1F, 0x1F, 0x00, 0x0F, 0x09, 0x00, 0x00, 0x00, 0x00,
        0x1F, 0x1F, 0x1F, 0x0F, 0x1F, 0x00, 0x16, 0x0E, 0x00, 0x00, 0x00, 0x00,
        0x1F, 0x1F, 0x1F, 0x15, 0x15, 0x10, 0x08, 0x0E, 0x0F, 0x00, 0x00, 0x00,
        0x14, 0x13, 0x1F, 0x1F, 0x1F, 0x00, 0x00, 0x0C, 0x00, 0x00, 0x00, 0x00,
        0x1F, 0x1F, 0x19, 0x0C, 0x1D, 0x1D, 0x13, 0x10, 0x06, 0x0B, 0x0B, 0x0B,
        0x16, 0x16, 0x1F, 0x1F, 0x1F, 0x12, 0x15, 0x0B, 0x08, 0x00, 0x00, 0x00,
        0x1F, 0x1F, 0x14, 0x1F, 0x12, 0x12, 0x12, 0x12, 0x1F, 0x00, 0x00, 0x00,
        0x1F, 0x1F, 0x13, 0x12, 0x16, 0x1F, 0x0C, 0x12, 0x0E, 0x00, 0x07, 0x07,
        0x0D, 0x1F, 0x00, 0x1F, 0x1F, 0x1F, 0x1F, 0x0A, 0x09, 0x00, 0x00, 0x00,
        0x0A, 0x1B, 0x00, 0x1F, 0x10, 0x00, 0x1F, 0x1F, 0x00, 0x1F, 0x1F, 0x1F,
        0x1F, 0x1F, 0x1F, 0x1F, 0x0E, 0x00, 0x12, 0x08, 0x00, 0x00, 0x00, 0x00,
        0x1F, 0x18, 0x08, 0x1F, 0x1A, 0x00, 0x12, 0x07, 0x00, 0x09, 0x00, 0x00,
        0x1F, 0x1F, 0x1F, 0x0A, 0x1F, 0x00, 0x1F, 0x08, 0x00, 0x00, 0x00, 0x00,
        0x1F, 0x0C, 0x0A, 0x1A, 0x00, 0x00, 0x0C, 0x00, 0x00, 0x00, 0x00, 0x00,
        0x1F, 0x1F, 0x1F, 0x1F, 0x13, 0x00, 0x1F, 0x00, 0x00, 0x00, 0x00, 0x00,
        0x1F, 0x1F, 0x1F, 0x00, 0x1F, 0x00, 0x06, 0x10, 0x00, 0x00, 0x09, 0x00,
        0x1F, 0x1F, 0x1F, 0x0B, 0x17, 0x1F, 0x1F, 0x00, 0x00, 0x00, 0x00, 0x1F,
        0x1F, 0x1F, 0x1F, 0x1F, 0x1F, 0x0F, 0x00, 0x10, 0x1F, 0x1F, 0x00, 0x00,
        0x1F, 0x1F, 0x1F, 0x1F, 0x1F, 0x00, 0x1F, 0x00, 0x00, 0x00, 0x00, 0x00,
        0x1F, 0x1F, 0x00, 0x1F, 0x00, 0x00, 0x0C, 0x00, 0x00, 0x00, 0x00, 0x00,
        0x1F, 0x1F, 0x1F, 0x1F, 0x19, 0x00, 0x13, 0x0C, 0x00, 0x00, 0x00, 0x00,
        0x00, 0x00, 0x00, 0x00, 0x10, 0x10, 0x1F, 0x1B, 0x00, 0x1F, 0x1F, 0x1F,
        0x1F, 0x1F, 0x1F, 0x0C, 0x14, 0x1F, 0x00, 0x00, 0x1F, 0x00, 0x00, 0x00,
        0x1F, 0x1F, 0x1F, 0x0F, 0x1F, 0x06, 0x00, 0x0C, 0x18, 0x00, 0x00, 0x00,
    ]
}

/// Fourth title letters that tell apart cartridges sharing a checksum, in rows of 14.
pub open spec fn title_fourth_letters() -> Seq<u8> {
    seq![
        0x42, 0x45, 0x46, 0x41, 0x41, 0x52, 0x42, 0x45, 0x4B, 0x45, 0x4B, 0x20, 0x52, 0x2D, 0x55,
        0x52, 0x41, 0x52, 0x20, 0x49, 0x4E, 0x41, 0x49, 0x4C, 0x49, 0x43, 0x45, 0x20, 0x52,
    ]
}

/// The first position at or after `from` where `table` holds `value`, or the table's length.
pub open spec fn first_position(table: Seq<u8>, value: u8, from: int) -> int
    decreases table.len() - from,
{
    if from < 0 || from >= table.len() {
        table.len() as int
    } else if table[from] == value {
        from
    } else {
        first_position(table, value, from + 1)
    }
}

/// The first row, from `row` on, whose letter in column `column` is `letter`; -1 when none.
pub open spec fn letter_row(column: int, letter: u8, row: int) -> int
    decreases 3 - row,
{
    if row < 0 || row >= 3 || column + 14 * row >= 29 {
        -1
    } else if title_fourth_letters()[column + 14 * row] == letter {
        row
    } else {
        letter_row(column, letter, row + 1)
    }
}

/// The colourisation chosen for a cartridge: none (0) unless it is licensed by Nintendo and
/// its title checksum is listed; checksums past the 65th are told apart by the title's
/// fourth letter.
pub open spec fn palette_id(licensed_by_nintendo: bool, title_checksum: u8, fourth_title_letter: u8) -> int {
    let position = first_position(title_checksums(), title_checksum, 0);
    if !licensed_by_nintendo || position >= 79 {
        0
    } else if position <= 64 {
        position
    } else {
        let row = letter_row(position - 65, fourth_title_letter, 0);
        if row < 0 {
            0
        } else {
            position + 14 * row
        }
    }
}

/// The offset into the triple table of colourisation `id`.
pub open spec fn triple_offset(id: int) -> int {
    let offset = (palette_index_indexes_and_flags()[id] & 0x1F) * 3;
    if offset + 3 <= 87 {
        offset
    } else {
        0
    }
}

/// The shuffle flags of colourisation `id`.
pub open spec fn shuffle_flags(id: int) -> u8 {
    (palette_index_indexes_and_flags()[id] & 0xE0) >> 5u8
}

/// The first colour of a palette given by a byte offset into the colour table.
pub open spec fn palette_start(byte_offset: u8) -> int {
    let start = byte_offset / 2;
    if start + 4 <= 120 {
        start as int
    } else {
        0
    }
}

/// Colour `index` of the colour table.
pub open spec fn table_color(index: int) -> Color {
    Color {
        red: palette_channels()[3 * index],
        green: palette_channels()[3 * index + 1],
        blue: palette_channels()[3 * index + 2],
        transparent: false,
    }
}

/// Whether `palette` holds the four table colours from `start` on.
pub open spec fn palette_from(palette: [Color; 4], start: int) -> bool {
    forall|i: int| 0 <= i < 4 ==> #[trigger] palette@[i] == table_color(start + i)
}

/// The table offsets of the background and two object palettes of colourisation `id`.
pub open spec fn palette_starts(id: int) -> (int, int, int) {
    let offset = triple_offset(id);
    let triple = palette_indexes();
    let flags = shuffle_flags(id);
    let bgp = triple[offset + 2];
    let obj0 = if bit_of_u8(flags, 0) { triple[offset] } else { triple[offset + 2] };
    let obj1 = if bit_of_u8(flags, 2) {
        triple[offset + 1]
    } else if bit_of_u8(flags, 1) {
        triple[offset]
    } else {
        triple[offset + 2]
    };
    (palette_start(bgp), palette_start(obj0), palette_start(obj1))
}

/// A first position lies between the start and the table's length.
proof fn lemma_first_position_bound(table: Seq<u8>, value: u8, from: int)
    requires
        0 <= from,
    ensures
        from <= first_position(table, value, from) <= table.len() || from > table.len(),
    decreases table.len() - from,
{
    if from < table.len() && table[from] != value {
        lemma_first_position_bound(table, value, from + 1);
    }
}

/// The first position of `value` in `table`, or its length.
fn position_of(table: &Vec<u8>, value: u8) -> (r: usize)
    ensures
        r == first_position(table@, value, 0),
{
    let mut i: usize = 0;
    while i < table.len()
        invariant
            i <= table@.len(),
            first_position(table@, value, 0) == first_position(table@, value, i as int),
        decreases table@.len() - i,
    {
        if table[i] == value {
            return i;
        }
        i = i + 1;
    }
    i
}

/// The four colours of the table from `start` on.
fn palette_at(channels: &Vec<u8>, start: usize) -> (r: [Color; 4])
    requires
        channels@ == palette_channels(),
        start + 4 <= 120,
    ensures
        palette_from(r, start as int),
{
    let mut colors = [Color { red: 0, green: 0, blue: 0, transparent: false }; 4];
    let mut i: usize = 0;
    while i < 4
        invariant
            channels@ == palette_channels(),
            start + 4 <= 120,
            i <= 4,
            forall|j: int| 0 <= j < i ==> #[trigger] colors@[j] == table_color(start + j),
        decreases 4 - i,
    {
        let k = 3 * (start + i);
        colors[i] = Color { red: channels[k], green: channels[k + 1], blue: channels[k + 2], transparent: false };
        i = i + 1;
    }
    colors
}

impl CompatibilityPaletteLoader {
    fn title_checksum_table() -> (r: Vec<u8>)
        ensures
            r@ == title_checksums(),
    {
        let r = vec![
        0x00, 0x88, 0x16, 0x36, 0xD1, 0xDB, 0xF2, 0x3C, 0x8C, 0x92, 0x3D, 0x5C, 0x58, 0xC9, 0x3E, 0x70,
        0x1D, 0x59, 0x69, 0x19, 0x35, 0xA8, 0x14, 0xAA, 0x75, 0x95, 0x99, 0x34, 0x6F, 0x15, 0xFF, 0x97,
        0x4B, 0x90, 0x17, 0x10, 0x39, 0xF7, 0xF6, 0xA2, 0x49, 0x4E, 0x43, 0x68, 0xE0, 0x8B, 0xF0, 0xCE,
        0x0C, 0x29, 0xE8, 0xB7, 0x86, 0x9A, 0x52, 0x01, 0x9D, 0x71, 0x9C, 0xBD, 0x5D, 0x6D, 0x67, 0x3F,
        0x6B, 0xB3, 0x46, 0x28, 0xA5, 0xC6, 0xD3, 0x27, 0x61, 0x18, 0x66, 0x6A, 0xBF, 0x0D, 0xF4,
        ];
        assert(r@ =~= title_checksums());
        r
    }

    fn flag_table() -> (r: Vec<u8>)
        ensures
            r@ == palette_index_indexes_and_flags(),
    {
        let r = vec![
        0x7C, 0x08, 0x12, 0xA3, 0xA2, 0x07, 0x87, 0x4B, 0x20, 0x12, 0x65, 0xA8, 0x16, 0xA9, 0x86, 0xB1,
        0x68, 0xA0, 0x87, 0x66, 0x12, 0xA1, 0x30, 0x3C, 0x12, 0x85, 0x12, 0x64, 0x1B, 0x07, 0x06, 0x6F,
        0x6E, 0x6E, 0xAE, 0xAF, 0x6F, 0xB2, 0xAF, 0xB2, 0xA8, 0xAB, 0x6F, 0xAF, 0x86, 0xAE, 0xA2, 0xA2,
        0x12, 0xAF, 0x13, 0x12, 0xA1, 0x6E, 0xAF, 0xAF, 0xAD, 0x06, 0x4C, 0x6E, 0xAF, 0xAF, 0x12, 0x7C,
        0xAC, 0xA8, 0x6A, 0x6E, 0x13, 0xA0, 0x2D, 0xA8, 0x2B, 0xAC, 0x64, 0xAC, 0x6D, 0x87, 0xBC, 0x60,
        0xB4, 0x13, 0x72, 0x7C, 0xB5, 0xAE, 0xAE, 0x7C, 0x7C, 0x65, 0xA2, 0x6C, 0x64, 0x85,
        ];
        assert(r@ =~= palette_index_indexes_and_flags());
        r
    }

    fn triple_table() -> (r: Vec<u8>)
        ensures
            r@ == palette_indexes(),
    {
        let r = vec![
        0x80, 0xB0, 0x40, 0x88, 0x20, 0x68, 0xDE, 0x00, 0x70, 0xDE, 0x20, 0x78, 0x20, 0x20, 0x38,
        0x20, 0xB0, 0x90, 0x20, 0xB0, 0xA0, 0xE0, 0xB0, 0xC0, 0x98, 0xB6, 0x48, 0x80, 0xE0, 0x50,
        0x1E, 0x1E, 0x58, 0x20, 0xB8, 0xE0, 0x88, 0xB0, 0x10, 0x20, 0x00, 0x10, 0x20, 0xE0, 0x18,
        0xE0, 0x18, 0x00, 0x18, 0xE0, 0x20, 0xA8, 0xE0, 0x20, 0x18, 0xE0, 0x00, 0x20, 0x18, 0xD8,
        0xC8, 0x18, 0xE0, 0x00, 0xE0, 0x40, 0x28, 0x28, 0x28, 0x18, 0xE0, 0x60, 0x20, 0x18, 0xE0,
        0x00, 0x00, 0x08, 0xE0, 0x18, 0x30, 0xD0, 0xD0, 0xD0, 0x20, 0xE0, 0xE8,
        ];
        assert(r@ =~= palette_indexes());
        r
    }

    fn channel_table() -> (r: Vec<u8>)
        ensures
            r@ == palette_channels(),
    {
        let r = vec![
        0x1F, 0x1F, 0x1F, 0x1F, 0x15, 0x0C, 0x10, 0x06, 0x00, 0x00, 0x00, 0x00,
        0x1F, 0x1C, 0x18, 0x19, 0x13, 0x10, 0x10, 0x0D, 0x05, 0x0B, 0x06, 0x01,
        0x1F, 0x1F, 0x1F, 0x11, 0x11, 0x1B, 0x0A, 0x0A, 0x11, 0x00, 0x00, 0x00,
        0x1F, 0x1F, 0x1F, 0x0F, 0x1F, 0x06, 0x00, 0x10, 0x00, 0x00, 0x00, 0x00,
        0x1F, 0x1F, 0x1F, 0x1F, 0x10, 0x10, 0x12, 0x07, 0x07, 0x00, 0x00, 0x00,
        0x1F, 0x1F, 0x1F, 0x14, 0x14, 0x14, 0x0A, 0x0A, 0x0A, 0x00, 0x00, 0x00,
        0x1F, 0x1F, 0x1F, 0x1F, 0x1F, 0x00, 0x0F, 0x09, 0x00, 0x00, 0x00, 0x00,
        0x1F, 0x1F, 0x1F, 0x0F, 0x1F, 0x00, 0x16, 0x0E, 0x00, 0x00, 0x00, 0x00,
        0x1F, 0x1F, 0x1F, 0x15, 0x15, 0x10, 0x08, 0x0E, 0x0F, 0x00, 0x00, 0x00,
        0x14, 0x13, 0x1F, 0x1F, 0x1F, 0x00, 0x00, 0x0C, 0x00, 0x00, 0x00, 0x00,
        0x1F, 0x1F, 0x19, 0x0C, 0x1D, 0x1D, 0x13, 0x10, 0x06, 0x0B, 0x0B, 0x0B,
        0x16, 0x16, 0x1F, 0x1F, 0x1F, 0x12, 0x15, 0x0B, 0x08, 0x00, 0x00, 0x00,
        0x1F, 0x1F, 0x14, 0x1F, 0x12, 0x12, 0x12, 0x12, 0x1F, 0x00, 0x00, 0x00,
        0x1F, 0x1F, 0x13, 0x12, 0x16, 0x1F, 0x0C, 0x12, 0x0E, 0x00, 0x07, 0x07,
        0x0D, 0x1F, 0x00, 0x1F, 0x1F, 0x1F, 0x1F, 0x0A, 0x09, 0x00, 0x00, 0x00,
        0x0A, 0x1B, 0x00, 0x1F, 0x10, 0x00, 0x1F, 0x1F, 0x00, 0x1F, 0x1F, 0x1F,
        0x1F, 0x1F, 0x1F, 0x1F, 0x0E, 0x00, 0x12, 0x08, 0x00, 0x00, 0x00, 0x00,
        0x1F, 0x18, 0x08, 0x1F, 0x1A, 0x00, 0x12, 0x07, 0x00, 0x09, 0x00, 0x00,
        0x1F, 0x1F, 0x1F, 0x0A, 0x1F, 0x00, 0x1F, 0x08, 0x00, 0x00, 0x00, 0x00,
        0x1F, 0x0C, 0x0A, 0x1A, 0x00, 0x00, 0x0C, 0x00, 0x00, 0x00, 0x00, 0x00,
        0x1F, 0x1F, 0x1F, 0x1F, 0x13, 0x00, 0x1F, 0x00, 0x00, 0x00, 0x00, 0x00,
        0x1F, 0x1F, 0x1F, 0x00, 0x1F, 0x00, 0x06, 0x10, 0x00, 0x00, 0x09, 0x00,
        0x1F, 0x1F, 0x1F, 0x0B, 0x17, 0x1F, 0x1F, 0x00, 0x00, 0x00, 0x00, 0x1F,
        0x1F, 0x1F, 0x1F, 0x1F, 0x1F, 0x0F, 0x00, 0x10, 0x1F, 0x1F, 0x00, 0x00,
        0x1F, 0x1F, 0x1F, 0x1F, 0x1F, 0x00, 0x1F, 0x00, 0x00, 0x00, 0x00, 0x00,
        0x1F, 0x1F, 0x00, 0x1F, 0x00, 0x00, 0x0C, 0x00, 0x00, 0x00, 0x00, 0x00,
        0x1F, 0x1F, 0x1F, 0x1F, 0x19, 0x00, 0x13, 0x0C, 0x00, 0x00, 0x00, 0x00,
        0x00, 0x00, 0x00, 0x00, 0x10, 0x10, 0x1F, 0x1B, 0x00, 0x1F, 0x1F, 0x1F,
        0x1F, 0x1F, 0x1F, 0x0C, 0x14, 0x1F, 0x00, 0x00, 0x1F, 0x00, 0x00, 0x00,
        0x1F, 0x1F, 0x1F, 0x0F, 0x1F, 0x06, 0x00, 0x0C, 0x18, 0x00, 0x00, 0x00,
        ];
        assert(r@ =~= palette_channels());
        r
    }

    fn letter_table() -> (r: Vec<u8>)
        ensures
            r@ == title_fourth_letters(),
    {
        let r = vec![
        0x42, 0x45, 0x46, 0x41, 0x41, 0x52, 0x42, 0x45, 0x4B, 0x45, 0x4B, 0x20, 0x52, 0x2D, 0x55,
        0x52, 0x41, 0x52, 0x20, 0x49, 0x4E, 0x41, 0x49, 0x4C, 0x49, 0x43, 0x45, 0x20, 0x52,
        ];
        assert(r@ =~= title_fourth_letters());
        r
    }

    /// The colourisation id of a cartridge, from whether Nintendo licensed it, the checksum
    /// of its title and the fourth letter of its title.
    fn find_palette_id(licensed_by_nintendo: bool, title_checksum: u8, fourth_title_letter: u8) -> (r: usize)
        ensures
            r == palette_id(licensed_by_nintendo, title_checksum, fourth_title_letter),
            r < 94,
    {
        if !licensed_by_nintendo {
            return 0;
        }
        let checksums = CompatibilityPaletteLoader::title_checksum_table();
        let position = position_of(&checksums, title_checksum);
        proof {
            lemma_first_position_bound(title_checksums(), title_checksum, 0);
        }
        if position >= 79 {
            0
        } else if position <= 64 {
            position
        } else {
            let letters = CompatibilityPaletteLoader::letter_table();
            let column = position - 65;
            let mut row: usize = 0;
            while row < 3 && column + 14 * row < 29
                invariant
                    letters@ == title_fourth_letters(),
                    licensed_by_nintendo,
                    position == first_position(title_checksums(), title_checksum, 0),
                    65 <= position < 79,
                    column == position - 65,
                    column < 14,
                    row <= 3,
                    letter_row(column as int, fourth_title_letter, 0) == letter_row(
                        column as int,
                        fourth_title_letter,
                        row as int,
                    ),
                decreases 3 - row,
            {
                if letters[column + 14 * row] == fourth_title_letter {
                    return position + 14 * row;
                }
                row = row + 1;
            }
            0
        }
    }

    /// The colourisation of a monochrome cartridge, chosen by whether Nintendo licensed it,
    /// the checksum of its title, and the fourth letter of its title.
    pub fn get_compatibility_palettes(
        licensed_by_nintendo: bool,
        title_checksum: u8,
        fourth_title_letter: u8,
    ) -> (r: CompatibilityPalettes)
        ensures
            ({
                let (bgp, obj0, obj1) = palette_starts(palette_id(licensed_by_nintendo, title_checksum, fourth_title_letter));
                &&& palette_from(r.bgp, bgp)
                &&& palette_from(r.obj0, obj0)
                &&& palette_from(r.obj1, obj1)
            }),
    {
        let palette_id = CompatibilityPaletteLoader::find_palette_id(licensed_by_nintendo, title_checksum, fourth_title_letter);
        let flags_table = CompatibilityPaletteLoader::flag_table();
        let palette_index_index_and_flags = flags_table[palette_id];
        let mut palette_index_offset = ((palette_index_index_and_flags & 0x1F) as usize) * 3;
        if palette_index_offset + 3 > 87 {
            palette_index_offset = 0;
        }
        let shuffle_flags = (palette_index_index_and_flags & 0xE0) >> 5u8;
        let triples = CompatibilityPaletteLoader::triple_table();
        let bgp_byte = triples[palette_index_offset + 2];
        let obj0_byte = if shuffle_flags.get_bit(0) {
            triples[palette_index_offset]
        } else {
            triples[palette_index_offset + 2]
        };
        let obj1_byte = if shuffle_flags.get_bit(2) {
            triples[palette_index_offset + 1]
        } else if shuffle_flags.get_bit(1) {
            triples[palette_index_offset]
        } else {
            triples[palette_index_offset + 2]
        };
        let channels = CompatibilityPaletteLoader::channel_table();
        CompatibilityPalettes {
            bgp: palette_at(&channels, start_of(bgp_byte)),
            obj0: palette_at(&channels, start_of(obj0_byte)),
            obj1: palette_at(&channels, start_of(obj1_byte)),
        }
    }
}

/// The first colour of the palette at byte offset `byte_offset` of the colour table.
fn start_of(byte_offset: u8) -> (r: usize)
    ensures
        r == palette_start(byte_offset),
        r + 4 <= 120,
{
    let start = (byte_offset / 2) as usize;
    if start + 4 <= 120 {
        start
    } else {
        0
    }
}

} // verus!
