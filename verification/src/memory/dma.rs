use vstd::prelude::*;
use crate::memory::memory::Memory;

verus! {

/// The part of the address space a DMA transfer sees: it reads cartridge ROM and RAM, video
/// RAM, work RAM and object attribute memory, and writes video RAM and object attribute
/// memory. A write elsewhere is dropped.
pub struct DMAMemoryView<R: Memory, V: Memory, W: Memory, O: Memory> {
    pub rom: R,
    pub vram: V,
    pub wram: W,
    pub oam: O,
}

impl<R: Memory, V: Memory, W: Memory, O: Memory> Memory for DMAMemoryView<R, V, W, O> {
    open spec fn maps(&self, address: u16) -> bool {
        if address <= 0x7FFF {
            self.rom.maps(address)
        } else if address <= 0x9FFF {
            self.vram.maps(address)
        } else if address <= 0xBFFF {
            self.rom.maps(address)
        } else if address <= 0xDFFF {
            self.wram.maps(address)
        } else if 0xFE00 <= address <= 0xFE9F {
            self.oam.maps(address)
        } else {
            false
        }
    }

    open spec fn peek(&self, address: u16) -> u8 {
        if address <= 0x7FFF {
            self.rom.peek(address)
        } else if address <= 0x9FFF {
            self.vram.peek(address)
        } else if address <= 0xBFFF {
            self.rom.peek(address)
        } else if address <= 0xDFFF {
            self.wram.peek(address)
        } else {
            self.oam.peek(address)
        }
    }

    open spec fn written(&self, address: u16, value: u8, post: Self) -> bool {
        if 0x8000 <= address <= 0x9FFF {
            self.vram.written(address, value, post.vram) && post == DMAMemoryView { vram: post.vram, ..*self }
        } else if 0xFE00 <= address <= 0xFE9F {
            self.oam.written(address, value, post.oam) && post == DMAMemoryView { oam: post.oam, ..*self }
        } else {
            post == *self
        }
    }

    fn read(&self, address: u16) -> (r: u8) {
        if address <= 0x7FFF {
            self.rom.read(address)
        } else if address <= 0x9FFF {
            self.vram.read(address)
        } else if address <= 0xBFFF {
            self.rom.read(address)
        } else if address <= 0xDFFF {
            self.wram.read(address)
        } else {
            self.oam.read(address)
        }
    }

    fn write(&mut self, address: u16, value: u8) {
        if 0x8000 <= address && address <= 0x9FFF {
            self.vram.write(address, value);
        } else if 0xFE00 <= address && address <= 0xFE9F {
            self.oam.write(address, value);
        }
    }
}

/// A write through the DMA view never changes cartridge memory or work RAM, and changes
/// nothing at all outside video RAM and object attribute memory.
pub proof fn law_dma_view_write_protection<R: Memory, V: Memory, W: Memory, O: Memory>(
    view: DMAMemoryView<R, V, W, O>,
    post: DMAMemoryView<R, V, W, O>,
    address: u16,
    value: u8,
)
    requires
        view.written(address, value, post),
    ensures
        post.rom == view.rom,
        post.wram == view.wram,
        !((0x8000 <= address <= 0x9FFF) || (0xFE00 <= address <= 0xFE9F)) ==> post == view,
{
}

} // verus!
