use vstd::prelude::*;
use crate::memory::memory::Memory;

verus! {

/// The parts of the address space.
#[derive(Copy, Clone, PartialEq, Eq, Structural, Debug)]
pub enum Region {
    Rom,
    Vram,
    Wram,
    ReservedArea1,
    Oam,
    ReservedArea2,
    Zero,
    Timer,
    InterruptController,
    Lcd,
    Dma,
    Stack,
    Unmapped,
}

/// Which part of the address space `address` belongs to. The serial, sound and unused
/// registers read as zero; addresses that no part answers are unmapped.
pub open spec fn region_of(address: u16) -> Region {
    if address <= 0x7FFF {
        Region::Rom
    } else if address <= 0x9FFF {
        Region::Vram
    } else if address <= 0xBFFF {
        Region::Rom
    } else if address <= 0xDFFF {
        Region::Wram
    } else if address <= 0xFDFF {
        Region::ReservedArea1
    } else if address <= 0xFE9F {
        Region::Oam
    } else if address <= 0xFEFF {
        Region::ReservedArea2
    } else if address <= 0xFF03 {
        Region::Zero
    } else if address <= 0xFF07 {
        Region::Timer
    } else if address <= 0xFF0E {
        Region::Zero
    } else if address == 0xFF0F {
        Region::InterruptController
    } else if address <= 0xFF3F {
        Region::Zero
    } else if address <= 0xFF45 {
        Region::Lcd
    } else if address == 0xFF46 {
        Region::Dma
    } else if address == 0xFF4F {
        Region::Vram
    } else if 0xFF51 <= address <= 0xFF55 {
        Region::Dma
    } else if address == 0xFF70 {
        Region::Wram
    } else if 0xFF80 <= address <= 0xFFFE {
        Region::Stack
    } else if address == 0xFFFF {
        Region::InterruptController
    } else {
        Region::Unmapped
    }
}

fn region(address: u16) -> (r: Region)
    ensures
        r == region_of(address),
{
    if address <= 0x7FFF {
        Region::Rom
    } else if address <= 0x9FFF {
        Region::Vram
    } else if address <= 0xBFFF {
        Region::Rom
    } else if address <= 0xDFFF {
        Region::Wram
    } else if address <= 0xFDFF {
        Region::ReservedArea1
    } else if address <= 0xFE9F {
        Region::Oam
    } else if address <= 0xFEFF {
        Region::ReservedArea2
    } else if address <= 0xFF03 {
        Region::Zero
    } else if address <= 0xFF07 {
        Region::Timer
    } else if address <= 0xFF0E {
        Region::Zero
    } else if address == 0xFF0F {
        Region::InterruptController
    } else if address <= 0xFF3F {
        Region::Zero
    } else if address <= 0xFF45 {
        Region::Lcd
    } else if address == 0xFF46 {
        Region::Dma
    } else if address == 0xFF4F {
        Region::Vram
    } else if 0xFF51 <= address && address <= 0xFF55 {
        Region::Dma
    } else if address == 0xFF70 {
        Region::Wram
    } else if 0xFF80 <= address && address <= 0xFFFE {
        Region::Stack
    } else if address == 0xFFFF {
        Region::InterruptController
    } else {
        Region::Unmapped
    }
}

/// The address space: every access goes to the part that owns its address, with the
/// address unchanged. Writes go where reads come from; writes to the registers that read as
/// zero are dropped.
pub struct MainMemory<
    R: Memory,
    V: Memory,
    W: Memory,
    O: Memory,
    L: Memory,
    T: Memory,
    D: Memory,
    S: Memory,
    X: Memory,
    Y: Memory,
    I: Memory,
> {
    pub rom: R,
    pub vram: V,
    pub wram: W,
    pub oam: O,
    pub lcd: L,
    pub timer: T,
    pub dma: D,
    pub stack: S,
    pub reserved_area_1: X,
    pub reserved_area_2: Y,
    pub interrupt_controller: I,
}

impl<
    R: Memory,
    V: Memory,
    W: Memory,
    O: Memory,
    L: Memory,
    T: Memory,
    D: Memory,
    S: Memory,
    X: Memory,
    Y: Memory,
    I: Memory,
> Memory for MainMemory<R, V, W, O, L, T, D, S, X, Y, I> {
    open spec fn maps(&self, address: u16) -> bool {
        match region_of(address) {
            Region::Rom => self.rom.maps(address),
            Region::Vram => self.vram.maps(address),
            Region::Wram => self.wram.maps(address),
            Region::ReservedArea1 => self.reserved_area_1.maps(address),
            Region::Oam => self.oam.maps(address),
            Region::ReservedArea2 => self.reserved_area_2.maps(address),
            Region::Zero => true,
            Region::Timer => self.timer.maps(address),
            Region::InterruptController => self.interrupt_controller.maps(address),
            Region::Lcd => self.lcd.maps(address),
            Region::Dma => self.dma.maps(address),
            Region::Stack => self.stack.maps(address),
            Region::Unmapped => false,
        }
    }

    open spec fn peek(&self, address: u16) -> u8 {
        match region_of(address) {
            Region::Rom => self.rom.peek(address),
            Region::Vram => self.vram.peek(address),
            Region::Wram => self.wram.peek(address),
            Region::ReservedArea1 => self.reserved_area_1.peek(address),
            Region::Oam => self.oam.peek(address),
            Region::ReservedArea2 => self.reserved_area_2.peek(address),
            Region::Timer => self.timer.peek(address),
            Region::InterruptController => self.interrupt_controller.peek(address),
            Region::Lcd => self.lcd.peek(address),
            Region::Dma => self.dma.peek(address),
            Region::Stack => self.stack.peek(address),
            _ => 0,
        }
    }

    open spec fn written(&self, address: u16, value: u8, post: Self) -> bool {
        match region_of(address) {
            Region::Rom => self.rom.written(address, value, post.rom) && post == MainMemory { rom: post.rom, ..*self },
            Region::Vram => self.vram.written(address, value, post.vram) && post == MainMemory {
                vram: post.vram,
                ..*self
            },
            Region::Wram => self.wram.written(address, value, post.wram) && post == MainMemory {
                wram: post.wram,
                ..*self
            },
            Region::ReservedArea1 => self.reserved_area_1.written(address, value, post.reserved_area_1) && post
                == MainMemory { reserved_area_1: post.reserved_area_1, ..*self },
            Region::Oam => self.oam.written(address, value, post.oam) && post == MainMemory { oam: post.oam, ..*self },
            Region::ReservedArea2 => self.reserved_area_2.written(address, value, post.reserved_area_2) && post
                == MainMemory { reserved_area_2: post.reserved_area_2, ..*self },
            Region::Timer => self.timer.written(address, value, post.timer) && post == MainMemory {
                timer: post.timer,
                ..*self
            },
            Region::InterruptController => self.interrupt_controller.written(
                address,
                value,
                post.interrupt_controller,
            ) && post == MainMemory { interrupt_controller: post.interrupt_controller, ..*self },
            Region::Lcd => self.lcd.written(address, value, post.lcd) && post == MainMemory { lcd: post.lcd, ..*self },
            Region::Dma => self.dma.written(address, value, post.dma) && post == MainMemory { dma: post.dma, ..*self },
            Region::Stack => self.stack.written(address, value, post.stack) && post == MainMemory {
                stack: post.stack,
                ..*self
            },
            _ => post == *self,
        }
    }

    fn read(&self, address: u16) -> (r: u8) {
        match region(address) {
            Region::Rom => self.rom.read(address),
            Region::Vram => self.vram.read(address),
            Region::Wram => self.wram.read(address),
            Region::ReservedArea1 => self.reserved_area_1.read(address),
            Region::Oam => self.oam.read(address),
            Region::ReservedArea2 => self.reserved_area_2.read(address),
            Region::Timer => self.timer.read(address),
            Region::InterruptController => self.interrupt_controller.read(address),
            Region::Lcd => self.lcd.read(address),
            Region::Dma => self.dma.read(address),
            Region::Stack => self.stack.read(address),
            _ => 0,
        }
    }

    fn write(&mut self, address: u16, value: u8) {
        match region(address) {
            Region::Rom => self.rom.write(address, value),
            Region::Vram => self.vram.write(address, value),
            Region::Wram => self.wram.write(address, value),
            Region::ReservedArea1 => self.reserved_area_1.write(address, value),
            Region::Oam => self.oam.write(address, value),
            Region::ReservedArea2 => self.reserved_area_2.write(address, value),
            Region::Timer => self.timer.write(address, value),
            Region::InterruptController => self.interrupt_controller.write(address, value),
            Region::Lcd => self.lcd.write(address, value),
            Region::Dma => self.dma.write(address, value),
            Region::Stack => self.stack.write(address, value),
            _ => {},
        }
    }
}

} // verus!
