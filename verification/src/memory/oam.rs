use vstd::prelude::*;
use crate::memory::memory::Memory;
use crate::util::bit_util::{BitUtil, bit_of_u8};

verus! {

/// The attribute byte of a sprite.
#[derive(Copy, Clone, PartialEq, Eq, Structural, Debug)]
pub struct ObjectAttributes(pub u8);

impl ObjectAttributes {
    /// Bit 7: the background and window are drawn over the sprite.
    pub fn has_priority_over_oam(&self) -> (r: bool)
        ensures
            r == bit_of_u8(self.0, 7),
    {
        self.0.get_bit(7)
    }

    /// Bit 6.
    pub fn flip_vertical(&self) -> (r: bool)
        ensures
            r == bit_of_u8(self.0, 6),
    {
        self.0.get_bit(6)
    }

    /// Bit 5.
    pub fn flip_horizontal(&self) -> (r: bool)
        ensures
            r == bit_of_u8(self.0, 5),
    {
        self.0.get_bit(5)
    }

    /// Bit 3, as 0 or 1.
    pub fn tile_bank_index(&self) -> (r: u8)
        ensures
            r == (if bit_of_u8(self.0, 3) { 1u8 } else { 0u8 }),
    {
        if self.0.get_bit(3) {
            1
        } else {
            0
        }
    }

    /// Bits 0 to 2.
    pub fn palette_index(&self) -> (r: u8)
        ensures
            r == self.0 & 0x7,
            r < 8,
    {
        let value = self.0;
        assert(value & 0x7 < 8) by (bit_vector);
        value & 0x7
    }
}

/// One sprite entry of the attribute table.
#[derive(Copy, Clone, PartialEq, Eq, Structural, Debug)]
pub struct OAMObject {
    pub lcd_y: u8,
    pub lcd_x: u8,
    pub tile_index: u8,
    pub attribute: u8,
}

impl OAMObject {
    fn new() -> (r: OAMObject)
        ensures
            r == (OAMObject { lcd_y: 0, lcd_x: 0, tile_index: 0, attribute: 0 }),
    {
        OAMObject { lcd_y: 0, lcd_x: 0, tile_index: 0, attribute: 0 }
    }
}

/// The sprite attribute table: 40 entries of four bytes at 0xFE00 to 0xFE9F.
pub struct OAM {
    bytes: Vec<u8>,
}

/// Whether a sprite whose stored Y is `lcd_y` covers screen line `line`.
pub open spec fn object_on_line(lcd_y: u8, line: u8, use_8_x_16_tiles: bool) -> bool {
    lcd_y <= line + 16 && lcd_y > line + (if use_8_x_16_tiles { 0int } else { 8int })
}

impl OAM {
    pub const START_ADDRESS: u16 = 0xFE00;

    /// The 160 bytes of the table.
    pub closed spec fn contents(&self) -> Seq<u8> {
        self.bytes@
    }

    /// A zeroed table.
    pub fn new() -> (r: OAM)
        ensures
            r.contents() == Seq::new(160, |i: int| 0u8),
    {
        let mut bytes: Vec<u8> = Vec::new();
        let mut i: usize = 0;
        while i < 160
            invariant
                i <= 160,
                bytes@ == Seq::new(i as nat, |j: int| 0u8),
            decreases 160 - i,
        {
            bytes.push(0);
            i = i + 1;
        }
        OAM { bytes }
    }

    /// Whether sprite `object_index` covers screen line `line`; sprites are 8 or 16 lines tall.
    pub fn object_intersects_with_line(&self, object_index: u8, line: u8, use_8_x_16_tiles: bool) -> (r: bool)
        requires
            self.contents().len() == 160,
            object_index < 40,
            line + 16 <= u8::MAX,
        ensures
            r == object_on_line(self.contents()[4 * object_index], line, use_8_x_16_tiles),
    {
        let object_lcd_y = self.bytes[4 * object_index as usize];
        object_lcd_y <= line + 16 && object_lcd_y > (line + if use_8_x_16_tiles { 0 } else { 8 })
    }

    /// The four bytes of sprite `object_index`.
    pub fn get_object(&self, object_index: u8) -> (r: OAMObject)
        requires
            self.contents().len() == 160,
            object_index < 40,
        ensures
            r == (OAMObject {
                lcd_y: self.contents()[4 * object_index],
                lcd_x: self.contents()[4 * object_index + 1],
                tile_index: self.contents()[4 * object_index + 2],
                attribute: self.contents()[4 * object_index + 3],
            }),
    {
        let byte_offset = 4 * object_index as usize;
        OAMObject {
            lcd_y: self.bytes[byte_offset],
            lcd_x: self.bytes[byte_offset + 1],
            tile_index: self.bytes[byte_offset + 2],
            attribute: self.bytes[byte_offset + 3],
        }
    }
}

impl Memory for OAM {
    open spec fn maps(&self, address: u16) -> bool {
        &&& 0xFE00 <= address < 0xFEA0
        &&& self.contents().len() == 160
    }

    open spec fn peek(&self, address: u16) -> u8 {
        self.contents()[address - 0xFE00]
    }

    open spec fn written(&self, address: u16, value: u8, post: Self) -> bool {
        post.contents() == self.contents().update(address - 0xFE00, value)
    }

    fn read(&self, address: u16) -> (r: u8) {
        self.bytes[address as usize - OAM::START_ADDRESS as usize]
    }

    fn write(&mut self, address: u16, value: u8) {
        self.bytes.set(address as usize - OAM::START_ADDRESS as usize, value);
    }
}

/// What object attribute memory reads back after a write: the value written at that address, the
/// old byte elsewhere.
pub proof fn law_oam_read_after_write(memory: OAM, post: OAM, address: u16, value: u8, other: u16)
    requires
        memory.maps(address),
        memory.written(address, value, post),
    ensures
        post.maps(other) == memory.maps(other),
        post.peek(address) == value,
        other != address && memory.maps(other) ==> post.peek(other) == memory.peek(other),
{
}

} // verus!
