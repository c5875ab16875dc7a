use vstd::prelude::*;
use crate::memory::cram::{advance_index, advanced_index, color_at, lemma_index_register_bits, stored_color};
use crate::memory::mbc::zeroed;
use crate::memory::memory::Memory;
use crate::renderer::renderer::{Color, ColorIndex, PaletteIndex};

verus! {

/// Where in palette memory the low byte of colour `color_index` of palette `palette_index` lies.
pub open spec fn palette_color_address(palette_index: u8, color_index: u8) -> int {
    ((palette_index << 3u8) | (color_index << 1u8)) as int
}

/// The colour palette memory: background and object palettes behind their index registers
/// BCPS/OCPS (0xFF68, 0xFF6A) and data ports BCPD/OCPD (0xFF69, 0xFF6B).
pub struct CRAM {
    background_palette_index: u8,
    background_palettes: Vec<u8>,
    object_palette_index: u8,
    object_palettes: Vec<u8>,
}

impl CRAM {
    /// The background palette bytes.
    pub closed spec fn background_bytes(&self) -> Seq<u8> {
        self.background_palettes@
    }

    /// The object palette bytes.
    pub closed spec fn object_bytes(&self) -> Seq<u8> {
        self.object_palettes@
    }

    /// The background palette index register.
    pub closed spec fn background_index(&self) -> u8 {
        self.background_palette_index
    }

    /// The object palette index register.
    pub closed spec fn object_index(&self) -> u8 {
        self.object_palette_index
    }

    /// Both palette memories are complete, and bit 6 of both index registers is clear.
    pub open spec fn wf(&self) -> bool {
        &&& self.background_bytes().len() == 64
        &&& self.object_bytes().len() == 64
        &&& self.background_index() & 0x40 == 0
        &&& self.object_index() & 0x40 == 0
    }

    /// Everything zero.
    pub fn new() -> (r: CRAM)
        ensures
            r.wf(),
            r.background_index() == 0,
            r.object_index() == 0,
            r.background_bytes() == Seq::new(64, |i: int| 0u8),
            r.object_bytes() == Seq::new(64, |i: int| 0u8),
    {
        proof {
            lemma_index_register_bits(0, 0);
        }
        CRAM {
            background_palette_index: 0,
            background_palettes: zeroed(64),
            object_palette_index: 0,
            object_palettes: zeroed(64),
        }
    }

    /// Colour `color_index` of background palette `palette_index`.
    pub fn get_background_color(&self, palette_index: PaletteIndex, color_index: ColorIndex) -> (r: Color)
        requires
            self.wf(),
            palette_color_address(palette_index, color_index) + 1 < 64,
        ensures
            r == stored_color(self.background_bytes(), palette_color_address(palette_index, color_index)),
    {
        let lower_byte_address = ((palette_index << 3u8) | (color_index << 1u8)) as usize;
        color_at(&self.background_palettes, lower_byte_address)
    }

    /// Colour `color_index` of object palette `palette_index`.
    pub fn get_object_color(&self, palette_index: PaletteIndex, color_index: ColorIndex) -> (r: Color)
        requires
            self.wf(),
            palette_color_address(palette_index, color_index) + 1 < 64,
        ensures
            r == stored_color(self.object_bytes(), palette_color_address(palette_index, color_index)),
    {
        let lower_byte_address = ((palette_index << 3u8) | (color_index << 1u8)) as usize;
        color_at(&self.object_palettes, lower_byte_address)
    }
}

impl Memory for CRAM {
    open spec fn maps(&self, address: u16) -> bool {
        &&& 0xFF68 <= address <= 0xFF6B
        &&& self.wf()
    }

    open spec fn peek(&self, address: u16) -> u8 {
        if address == 0xFF68 {
            self.background_index()
        } else if address == 0xFF69 {
            self.background_bytes()[(self.background_index() & 0x3F) as int]
        } else if address == 0xFF6A {
            self.object_index()
        } else {
            self.object_bytes()[(self.object_index() & 0x3F) as int]
        }
    }

    /// A write to an index register keeps all but bit 6; a write to a data port stores the
    /// byte at the index and, with auto-increment (bit 7), advances the index.
    open spec fn written(&self, address: u16, value: u8, post: Self) -> bool {
        let same_background = post.background_bytes() == self.background_bytes() && post.background_index()
            == self.background_index();
        let same_object = post.object_bytes() == self.object_bytes() && post.object_index() == self.object_index();
        if address == 0xFF68 {
            post.background_index() == value & 0xBF && post.background_bytes() == self.background_bytes()
                && same_object
        } else if address == 0xFF69 {
            post.background_bytes() == self.background_bytes().update(
                (self.background_index() & 0x3F) as int,
                value,
            ) && post.background_index() == advanced_index(self.background_index()) && same_object
        } else if address == 0xFF6A {
            post.object_index() == value & 0xBF && post.object_bytes() == self.object_bytes() && same_background
        } else {
            post.object_bytes() == self.object_bytes().update((self.object_index() & 0x3F) as int, value)
                && post.object_index() == advanced_index(self.object_index()) && same_background
        }
    }

    fn read(&self, address: u16) -> (r: u8) {
        if address == 0xFF68 {
            self.background_palette_index
        } else if address == 0xFF69 {
            let index = self.background_palette_index;
            proof {
                lemma_index_register_bits(index, 0);
            }
            self.background_palettes[(index & 0x3F) as usize]
        } else if address == 0xFF6A {
            self.object_palette_index
        } else {
            let index = self.object_palette_index;
            proof {
                lemma_index_register_bits(index, 0);
            }
            self.object_palettes[(index & 0x3F) as usize]
        }
    }

    fn write(&mut self, address: u16, value: u8) {
        if address == 0xFF68 {
            proof {
                lemma_index_register_bits(0, value);
            }
            self.background_palette_index = value & 0xBF;
        } else if address == 0xFF69 {
            let index = self.background_palette_index;
            proof {
                lemma_index_register_bits(index, 0);
            }
            self.background_palettes.set((index & 0x3F) as usize, value);
            self.background_palette_index = advance_index(index);
        } else if address == 0xFF6A {
            proof {
                lemma_index_register_bits(0, value);
            }
            self.object_palette_index = value & 0xBF;
        } else {
            let index = self.object_palette_index;
            proof {
                lemma_index_register_bits(index, 0);
            }
            self.object_palettes.set((index & 0x3F) as usize, value);
            self.object_palette_index = advance_index(index);
        }
    }
}

} // verus!
