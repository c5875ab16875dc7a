use vstd::prelude::*;
use crate::memory::memory::Memory;
use crate::renderer::renderer::{Color, color_of_word};
use crate::util::bit_util::{BitUtil, bit_of_u8};
use crate::util::byte_order::{le_word, read_u16_le};

verus! {

/// Bytes of one kind of palette memory: eight palettes of four two-byte colours.
pub const PALETTE_MEMORY_SIZE: usize = 64;

/// Which colour of which palette a pixel uses.
#[derive(Copy, Clone, PartialEq, Eq, Structural, Debug)]
pub struct ColorReference {
    pub color_index: u8,
    pub palette_index: u8,
}

/// Where in palette memory the low byte of the colour of `color_ref` lies: the colour
/// number selects an eight-byte block and the palette number a word within it.
pub open spec fn color_reference_address(color_ref: ColorReference) -> int {
    ((color_ref.color_index << 3u8) | (color_ref.palette_index << 1u8)) as int
}

/// The colour stored at `address` of palette memory `palettes`.
pub open spec fn stored_color(palettes: Seq<u8>, address: int) -> Color {
    color_of_word(le_word(palettes[address], palettes[address + 1]))
}

/// The palette index register after a data write: with auto-increment (bit 7) it advances,
/// wrapping within 0 to 63.
pub open spec fn advanced_index(index: u8) -> u8 {
    if bit_of_u8(index, 7) {
        ((index + 1) as u8) & !(1u8 << 6u8)
    } else {
        index
    }
}

/// Colour lookup for the renderer.
pub trait CRAM {
    /// A lookup can be made for `color_ref`.
    spec fn can_look_up(&self, color_ref: ColorReference) -> bool;

    fn background_color(&self, color_ref: ColorReference) -> (r: Color)
        requires
            self.can_look_up(color_ref),
    ;

    fn object_color(&self, color_ref: ColorReference) -> (r: Color)
        requires
            self.can_look_up(color_ref),
    ;
}

/// Palette memory: the monochrome palettes BGP, OBP0 and OBP1, and the colour palettes with
/// their index registers BCPS/OCPS (0xFF68, 0xFF6A) and data ports BCPD/OCPD (0xFF69, 0xFF6B).
pub struct CRAMImpl {
    grayscale_background_palette: u8,
    grayscale_object_palette_0: u8,
    grayscale_object_palette_1: u8,
    background_palette_index: u8,
    background_palettes: Vec<u8>,
    object_palette_index: u8,
    object_palettes: Vec<u8>,
}

impl CRAMImpl {
    /// The monochrome background palette BGP.
    pub closed spec fn grayscale_background(&self) -> u8 {
        self.grayscale_background_palette
    }

    /// The monochrome object palette OBP0.
    pub closed spec fn grayscale_object_0(&self) -> u8 {
        self.grayscale_object_palette_0
    }

    /// The monochrome object palette OBP1.
    pub closed spec fn grayscale_object_1(&self) -> u8 {
        self.grayscale_object_palette_1
    }

    /// The background palette bytes.
    pub closed spec fn background_bytes(&self) -> Seq<u8> {
        self.background_palettes@
    }

    /// The object palette bytes.
    pub closed spec fn object_bytes(&self) -> Seq<u8> {
        self.object_palettes@
    }

    /// The background palette index register.
    pub closed spec fn background_index(&self) -> u8 {
        self.background_palette_index
    }

    /// The object palette index register.
    pub closed spec fn object_index(&self) -> u8 {
        self.object_palette_index
    }

    /// Both palette memories are complete, and bit 6 of both index registers is clear.
    pub open spec fn wf(&self) -> bool {
        &&& self.background_bytes().len() == 64
        &&& self.object_bytes().len() == 64
        &&& self.background_index() & 0x40 == 0
        &&& self.object_index() & 0x40 == 0
    }

    /// Everything zero.
    pub fn new() -> (r: CRAMImpl)
        ensures
            r.wf(),
            r.grayscale_background() == 0,
            r.grayscale_object_0() == 0,
            r.grayscale_object_1() == 0,
            r.background_index() == 0,
            r.object_index() == 0,
            r.background_bytes() == Seq::new(64, |i: int| 0u8),
            r.object_bytes() == Seq::new(64, |i: int| 0u8),
    {
        let mut background_palettes: Vec<u8> = Vec::new();
        let mut object_palettes: Vec<u8> = Vec::new();
        let mut i: usize = 0;
        while i < PALETTE_MEMORY_SIZE
            invariant
                i <= 64,
                background_palettes@ == Seq::new(i as nat, |j: int| 0u8),
                object_palettes@ == Seq::new(i as nat, |j: int| 0u8),
            decreases 64 - i,
        {
            background_palettes.push(0);
            object_palettes.push(0);
            i = i + 1;
        }
        proof {
            lemma_index_register_bits(0, 0);
        }
        CRAMImpl {
            grayscale_background_palette: 0,
            grayscale_object_palette_0: 0,
            grayscale_object_palette_1: 0,
            background_palette_index: 0,
            background_palettes,
            object_palette_index: 0,
            object_palettes,
        }
    }
}

/// The bit facts the palette index registers rely on: the low six bits index the 64 bytes,
/// a written index keeps bit 6 clear, and advancing an index with bit 6 clear neither
/// overflows nor sets bit 6.
pub(crate) proof fn lemma_index_register_bits(index: u8, value: u8) by (bit_vector)
    ensures
        index & 0x3F < 64,
        (value & 0xBF) & 0x40 == 0,
        0u8 & 0x40 == 0,
        index & 0x40 == 0 ==> index < 255 && (((index + 1) as u8) & !(1u8 << 6u8)) & 0x40 == 0,
{
}

/// Reads the colour whose low byte is at `address` of `palettes`.
pub(crate) fn color_at(palettes: &Vec<u8>, address: usize) -> (r: Color)
    requires
        address + 1 < palettes@.len(),
    ensures
        r == stored_color(palettes@, address as int),
{
    let length = palettes.len();
    let pair = vstd::slice::slice_subrange(palettes.as_slice(), address, address + 2);
    let word = read_u16_le(pair);
    Color::from_word(word)
}

/// The index register after a data write, and the proof that it keeps bit 6 clear.
pub(crate) fn advance_index(index: u8) -> (r: u8)
    requires
        index & 0x40 == 0,
    ensures
        r == advanced_index(index),
        r & 0x40 == 0,
{
    if index.get_bit(7) {
        proof {
            lemma_index_register_bits(index, 0);
        }
        let next = (index + 1).reset_bit(6);
        next
    } else {
        index
    }
}

impl CRAM for CRAMImpl {
    open spec fn can_look_up(&self, color_ref: ColorReference) -> bool {
        &&& self.wf()
        &&& color_reference_address(color_ref) + 1 < 64
    }

    fn background_color(&self, color_ref: ColorReference) -> (r: Color)
        ensures
            r == stored_color(self.background_bytes(), color_reference_address(color_ref)),
    {
        let lower_byte_address = ((color_ref.color_index << 3u8) | (color_ref.palette_index << 1u8)) as usize;
        color_at(&self.background_palettes, lower_byte_address)
    }

    /// Colour 0 of an object palette is transparent.
    fn object_color(&self, color_ref: ColorReference) -> (r: Color)
        ensures
            color_ref.color_index == 0 ==> r == Color::transparent_spec(),
            color_ref.color_index != 0 ==> r == stored_color(self.object_bytes(), color_reference_address(color_ref)),
    {
        if color_ref.color_index == 0 {
            Color::transparent()
        } else {
            let lower_byte_address = ((color_ref.color_index << 3u8) | (color_ref.palette_index << 1u8)) as usize;
            color_at(&self.object_palettes, lower_byte_address)
        }
    }
}

impl Memory for CRAMImpl {
    open spec fn maps(&self, address: u16) -> bool {
        &&& (0xFF47 <= address <= 0xFF49 || 0xFF68 <= address <= 0xFF6B)
        &&& self.wf()
    }

    open spec fn peek(&self, address: u16) -> u8 {
        if address == 0xFF47 {
            self.grayscale_background()
        } else if address == 0xFF48 {
            self.grayscale_object_0()
        } else if address == 0xFF49 {
            self.grayscale_object_1()
        } else if address == 0xFF68 {
            self.background_index()
        } else if address == 0xFF69 {
            self.background_bytes()[(self.background_index() & 0x3F) as int]
        } else if address == 0xFF6A {
            self.object_index()
        } else {
            self.object_bytes()[(self.object_index() & 0x3F) as int]
        }
    }

    open spec fn written(&self, address: u16, value: u8, post: Self) -> bool {
        let same_background = post.background_bytes() == self.background_bytes() && post.background_index()
            == self.background_index();
        let same_object = post.object_bytes() == self.object_bytes() && post.object_index() == self.object_index();
        let same_gray = post.grayscale_background() == self.grayscale_background()
            && post.grayscale_object_0() == self.grayscale_object_0()
            && post.grayscale_object_1() == self.grayscale_object_1();
        if address == 0xFF47 {
            post.grayscale_background() == value && post.grayscale_object_0()
                == self.grayscale_object_0() && post.grayscale_object_1()
                == self.grayscale_object_1() && same_background && same_object
        } else if address == 0xFF48 {
            post.grayscale_object_0() == value && post.grayscale_background()
                == self.grayscale_background() && post.grayscale_object_1()
                == self.grayscale_object_1() && same_background && same_object
        } else if address == 0xFF49 {
            post.grayscale_object_1() == value && post.grayscale_background()
                == self.grayscale_background() && post.grayscale_object_0()
                == self.grayscale_object_0() && same_background && same_object
        } else if address == 0xFF68 {
            post.background_index() == value & 0xBF && post.background_bytes() == self.background_bytes()
                && same_object && same_gray
        } else if address == 0xFF69 {
            post.background_bytes() == self.background_bytes().update(
                (self.background_index() & 0x3F) as int,
                value,
            ) && post.background_index() == advanced_index(self.background_index()) && same_object
                && same_gray
        } else if address == 0xFF6A {
            post.object_index() == value & 0xBF && post.object_bytes() == self.object_bytes()
                && same_background && same_gray
        } else {
            post.object_bytes() == self.object_bytes().update((self.object_index() & 0x3F) as int, value)
                && post.object_index() == advanced_index(self.object_index()) && same_background
                && same_gray
        }
    }

    fn read(&self, address: u16) -> (r: u8) {
        if address == 0xFF47 {
            self.grayscale_background_palette
        } else if address == 0xFF48 {
            self.grayscale_object_palette_0
        } else if address == 0xFF49 {
            self.grayscale_object_palette_1
        } else if address == 0xFF68 {
            self.background_palette_index
        } else if address == 0xFF69 {
            let index = self.background_palette_index;
            proof {
                lemma_index_register_bits(index, 0);
            }
            self.background_palettes[(index & 0x3F) as usize]
        } else if address == 0xFF6A {
            self.object_palette_index
        } else {
            let index = self.object_palette_index;
            proof {
                lemma_index_register_bits(index, 0);
            }
            self.object_palettes[(index & 0x3F) as usize]
        }
    }

    fn write(&mut self, address: u16, value: u8) {
        if address == 0xFF47 {
            self.grayscale_background_palette = value;
        } else if address == 0xFF48 {
            self.grayscale_object_palette_0 = value;
        } else if address == 0xFF49 {
            self.grayscale_object_palette_1 = value;
        } else if address == 0xFF68 {
            proof {
                lemma_index_register_bits(0, value);
            }
            self.background_palette_index = value & 0xBF;
        } else if address == 0xFF69 {
            let index = self.background_palette_index;
            proof {
                lemma_index_register_bits(index, 0);
            }
            self.background_palettes.set((index & 0x3F) as usize, value);
            self.background_palette_index = advance_index(index);
        } else if address == 0xFF6A {
            proof {
                lemma_index_register_bits(0, value);
            }
            self.object_palette_index = value & 0xBF;
        } else {
            let index = self.object_palette_index;
            proof {
                lemma_index_register_bits(index, 0);
            }
            self.object_palettes.set((index & 0x3F) as usize, value);
            self.object_palette_index = advance_index(index);
        }
    }
}

} // verus!
