use vstd::prelude::*;

verus! {

/// A component of the address space, read and written a byte at a time.
pub trait Memory: Sized {
    /// Whether the component answers at `address`.
    spec fn maps(&self, address: u16) -> bool;

    /// What a read at `address` returns.
    spec fn peek(&self, address: u16) -> u8;

    /// Whether `post` is this component after writing `value` at `address`.
    spec fn written(&self, address: u16, value: u8, post: Self) -> bool;

    fn read(&self, address: u16) -> (r: u8)
        requires
            self.maps(address),
        ensures
            r == self.peek(address),
    ;

    fn write(&mut self, address: u16, value: u8)
        requires
            old(self).maps(address),
        ensures
            old(self).written(address, value, *final(self)),
            forall|a: u16| #[trigger] final(self).maps(a) == old(self).maps(a),
    ;
}

/// Addresses of the memory-mapped registers.
pub struct MemoryAddress {}

impl MemoryAddress {
    pub const P1: u16 = 0xFF00;
    pub const SB: u16 = 0xFF01;
    pub const SC: u16 = 0xFF02;
    pub const DIV: u16 = 0xFF04;
    pub const TIMA: u16 = 0xFF05;
    pub const TMA: u16 = 0xFF06;
    pub const TAC: u16 = 0xFF07;
    pub const IF: u16 = 0xFF0F;
    pub const NR10: u16 = 0xFF10;
    pub const NR11: u16 = 0xFF11;
    pub const NR12: u16 = 0xFF12;
    pub const NR13: u16 = 0xFF13;
    pub const NR14: u16 = 0xFF14;
    pub const NR21: u16 = 0xFF16;
    pub const NR22: u16 = 0xFF17;
    pub const NR23: u16 = 0xFF18;
    pub const NR24: u16 = 0xFF19;
    pub const NR30: u16 = 0xFF1A;
    pub const NR31: u16 = 0xFF1B;
    pub const NR32: u16 = 0xFF1C;
    pub const NR33: u16 = 0xFF1D;
    pub const NR34: u16 = 0xFF1E;
    pub const NR41: u16 = 0xFF20;
    pub const NR42: u16 = 0xFF21;
    pub const NR43: u16 = 0xFF22;
    pub const NR44: u16 = 0xFF23;
    pub const NR50: u16 = 0xFF24;
    pub const NR51: u16 = 0xFF25;
    pub const NR52: u16 = 0xFF26;
    pub const LCDC: u16 = 0xFF40;
    pub const STAT: u16 = 0xFF41;
    pub const SCY: u16 = 0xFF42;
    pub const SCX: u16 = 0xFF43;
    pub const LY: u16 = 0xFF44;
    pub const LYC: u16 = 0xFF45;
    pub const DMA: u16 = 0xFF46;
    pub const BGP: u16 = 0xFF47;
    pub const OBP0: u16 = 0xFF48;
    pub const OBP1: u16 = 0xFF49;
    pub const WY: u16 = 0xFF4A;
    pub const WX: u16 = 0xFF4B;
    pub const VBK: u16 = 0xFF4F;
    pub const SVBK: u16 = 0xFF70;
    pub const IE: u16 = 0xFFFF;
}

/// Cartridge ROM sizes, as the cartridge header encodes them.
#[derive(Copy, Clone, PartialEq, Eq, Structural, Debug)]
pub enum ROMSize {
    KB32,
    KB64,
    KB128,
    KB256,
    KB512,
    MB1,
    MB2,
    MB4,
    MB8,
}

impl ROMSize {
    /// Number of bytes of each size.
    pub open spec fn bytes_spec(self) -> usize {
        match self {
            ROMSize::KB32 => 0x8000,
            ROMSize::KB64 => 0x10000,
            ROMSize::KB128 => 0x20000,
            ROMSize::KB256 => 0x40000,
            ROMSize::KB512 => 0x80000,
            ROMSize::MB1 => 0x100000,
            ROMSize::MB2 => 0x200000,
            ROMSize::MB4 => 0x400000,
            ROMSize::MB8 => 0x800000,
        }
    }

    /// Decodes the ROM-size byte of the header; the codes run from 0 to 8.
    pub fn from_byte(byte: u8) -> (r: ROMSize)
        requires
            byte <= 8,
        ensures
            r.bytes_spec() == 0x8000usize << byte,
    {
        let r = match byte {
            0x00 => ROMSize::KB32,
            0x01 => ROMSize::KB64,
            0x02 => ROMSize::KB128,
            0x03 => ROMSize::KB256,
            0x04 => ROMSize::KB512,
            0x05 => ROMSize::MB1,
            0x06 => ROMSize::MB2,
            0x07 => ROMSize::MB4,
            _ => ROMSize::MB8,
        };
        assert({
            &&& 0x8000usize << 0u8 == 0x8000usize
            &&& 0x8000usize << 1u8 == 0x10000usize
            &&& 0x8000usize << 2u8 == 0x20000usize
            &&& 0x8000usize << 3u8 == 0x40000usize
            &&& 0x8000usize << 4u8 == 0x80000usize
            &&& 0x8000usize << 5u8 == 0x100000usize
            &&& 0x8000usize << 6u8 == 0x200000usize
            &&& 0x8000usize << 7u8 == 0x400000usize
            &&& 0x8000usize << 8u8 == 0x800000usize
        }) by (bit_vector);
        r
    }

    pub fn bytes(&self) -> (r: usize)
        ensures
            r == self.bytes_spec(),
    {
        match self {
            ROMSize::KB32 => 0x8000,
            ROMSize::KB64 => 0x10000,
            ROMSize::KB128 => 0x20000,
            ROMSize::KB256 => 0x40000,
            ROMSize::KB512 => 0x80000,
            ROMSize::MB1 => 0x100000,
            ROMSize::MB2 => 0x200000,
            ROMSize::MB4 => 0x400000,
            ROMSize::MB8 => 0x800000,
        }
    }
}

/// Cartridge RAM sizes, as the cartridge header encodes them.
#[derive(Copy, Clone, PartialEq, Eq, Structural, Debug)]
pub enum RAMSize {
    Unavailable,
    KB8,
    KB32,
    KB64,
    KB128,
}

impl RAMSize {
    /// Number of bytes that each size allocates.
    pub open spec fn bytes_spec(self) -> usize {
        match self {
            RAMSize::Unavailable => 0,
            RAMSize::KB8 => 0x8000,
            RAMSize::KB32 => 0x8000,
            RAMSize::KB64 => 0x10000,
            RAMSize::KB128 => 0x20000,
        }
    }

    /// The size that each header code names; the codes run from 0 to 5.
    pub open spec fn from_byte_spec(byte: u8) -> RAMSize {
        if byte <= 1 {
            RAMSize::Unavailable
        } else if byte == 2 {
            RAMSize::KB8
        } else if byte == 3 {
            RAMSize::KB32
        } else if byte == 4 {
            RAMSize::KB128
        } else {
            RAMSize::KB64
        }
    }

    pub fn from_byte(byte: u8) -> (r: RAMSize)
        requires
            byte <= 5,
        ensures
            r == RAMSize::from_byte_spec(byte),
    {
        match byte {
            0x00 => RAMSize::Unavailable,
            0x01 => RAMSize::Unavailable,
            0x02 => RAMSize::KB8,
            0x03 => RAMSize::KB32,
            0x04 => RAMSize::KB128,
            _ => RAMSize::KB64,
        }
    }

    pub fn bytes(&self) -> (r: usize)
        ensures
            r == self.bytes_spec(),
    {
        match self {
            RAMSize::Unavailable => 0,
            RAMSize::KB8 => 0x8000,
            RAMSize::KB32 => 0x8000,
            RAMSize::KB64 => 0x10000,
            RAMSize::KB128 => 0x20000,
        }
    }
}

/// Whether a cartridge runs in monochrome, colour, or colour-compatible mode.
#[derive(Copy, Clone, PartialEq, Eq, Structural, Debug)]
pub enum CGBMode {
    Monochrome,
    Color,
    PGB,
}

impl CGBMode {
    /// Header bytes that name a mode (bit 6 is ignored).
    pub open spec fn is_known_byte(byte: u8) -> bool {
        let masked = byte & 0xBF;
        masked == 0x00 || masked == 0x80 || masked == 0x82 || masked == 0x84
    }

    pub fn from_byte(byte: u8) -> (r: CGBMode)
        requires
            CGBMode::is_known_byte(byte),
        ensures
            (byte & 0xBF == 0x00) ==> r == CGBMode::Monochrome,
            (byte & 0xBF == 0x80) ==> r == CGBMode::Color,
            (byte & 0xBF == 0x82 || byte & 0xBF == 0x84) ==> r == CGBMode::PGB,
    {
        let masked = byte & 0xBF;
        if masked == 0x00 {
            CGBMode::Monochrome
        } else if masked == 0x80 {
            CGBMode::Color
        } else {
            CGBMode::PGB
        }
    }
}

/// A plain block of RAM starting at address 0, as large as it was made.
pub struct FlatMemory {
    bytes: Vec<u8>,
}

impl FlatMemory {
    /// The bytes held.
    pub closed spec fn contents(&self) -> Seq<u8> {
        self.bytes@
    }

    /// A zeroed memory of `size` bytes.
    pub fn new(size: usize) -> (r: FlatMemory)
        ensures
            r.contents() == Seq::new(size as nat, |i: int| 0u8),
    {
        let mut bytes: Vec<u8> = Vec::new();
        let mut i: usize = 0;
        while i < size
            invariant
                i <= size,
                bytes@ == Seq::new(i as nat, |j: int| 0u8),
            decreases size - i,
        {
            bytes.push(0);
            i = i + 1;
        }
        FlatMemory { bytes }
    }
}

impl Memory for FlatMemory {
    closed spec fn maps(&self, address: u16) -> bool {
        (address as int) < self.bytes@.len()
    }

    closed spec fn peek(&self, address: u16) -> u8 {
        self.bytes@[address as int]
    }

    closed spec fn written(&self, address: u16, value: u8, post: Self) -> bool {
        post.bytes@ == self.bytes@.update(address as int, value)
    }

    fn read(&self, address: u16) -> (r: u8) {
        self.bytes[address as usize]
    }

    fn write(&mut self, address: u16, value: u8) {
        self.bytes.set(address as usize, value);
    }
}

impl FlatMemory {
    /// A flat memory maps exactly the addresses below its size, and reads them back as `contents`.
    pub proof fn lemma_view(&self, address: u16)
        ensures
            self.maps(address) == ((address as int) < self.contents().len()),
            self.maps(address) ==> self.peek(address) == self.contents()[address as int],
    {
    }

    /// A write changes exactly the byte written.
    pub proof fn lemma_write_view(&self, address: u16, value: u8, post: FlatMemory)
        requires
            self.written(address, value, post),
            self.maps(address),
        ensures
            post.contents() == self.contents().update(address as int, value),
    {
    }
}

/// What a flat memory reads back after a write: the value written at that address, the old byte elsewhere.
pub proof fn law_flat_memory_read_after_write(
    memory: FlatMemory,
    post: FlatMemory,
    address: u16,
    value: u8,
    other: u16,
)
    requires
        memory.maps(address),
        memory.written(address, value, post),
    ensures
        post.maps(other) == memory.maps(other),
        post.peek(address) == value,
        other != address && memory.maps(other) ==> post.peek(other) == memory.peek(other),
{
}

} // verus!
