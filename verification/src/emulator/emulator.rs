use vstd::prelude::*;
use crate::controllers::lcd::{LCDC, LCDControllerImpl, Stat};
use crate::cpu::interrupts::InterruptControllerImpl;
use crate::features::dma::{DMA, DMAState};
use crate::features::lcd::LCDMode;
use crate::features::timer::Timer;
use crate::memory::control::ControlRegisters;
use crate::memory::linear_memory::LinearMemory;
use crate::memory::mbc::Loadable;
use crate::memory::mbc1::MBC1;
use crate::memory::mbc2::MBC2;
use crate::memory::mbc3::MBC3;
use crate::memory::memory::{CGBMode, FlatMemory, Memory, RAMSize, ROMSize};
use crate::memory::oam::OAM;
use crate::memory::stack::Stack;
use crate::memory::vram::VRAMImpl;
use crate::memory::wram::WRAMImpl;

verus! {

/// A cartridge of one of the supported controller kinds.
pub enum Cartridge {
    MBC1(MBC1),
    MBC2(MBC2),
    MBC3(MBC3),
}

/// Cartridge type bytes of the header that name a supported controller: MBC1 (0x01 to 0x03),
/// MBC2 (0x05, 0x06) and MBC3 (0x0F to 0x13).
pub open spec fn supported_cartridge_type(type_byte: u8) -> bool {
    (0x01 <= type_byte <= 0x03) || (0x05 <= type_byte <= 0x06) || (0x0F <= type_byte <= 0x13)
}

/// The cartridge's ROM bytes.
pub open spec fn cartridge_rom(cartridge: Cartridge) -> Seq<u8> {
    match cartridge {
        Cartridge::MBC1(m) => m.rom@,
        Cartridge::MBC2(m) => m.rom@,
        Cartridge::MBC3(m) => m.rom@,
    }
}

impl Loadable for Cartridge {
    open spec fn rom_contents(&self) -> Seq<u8> {
        cartridge_rom(*self)
    }

    fn load_byte(&mut self, address: usize, value: u8) {
        match self {
            Cartridge::MBC1(m) => m.load_byte(address, value),
            Cartridge::MBC2(m) => m.load_byte(address, value),
            Cartridge::MBC3(m) => m.load_byte(address, value),
        }
    }

    fn load_bytes(&mut self, address: usize, values: &[u8]) {
        match self {
            Cartridge::MBC1(m) => m.load_bytes(address, values),
            Cartridge::MBC2(m) => m.load_bytes(address, values),
            Cartridge::MBC3(m) => m.load_bytes(address, values),
        }
    }
}

impl Memory for Cartridge {
    open spec fn maps(&self, address: u16) -> bool {
        match *self {
            Cartridge::MBC1(m) => m.maps(address),
            Cartridge::MBC2(m) => m.maps(address),
            Cartridge::MBC3(m) => m.maps(address),
        }
    }

    open spec fn peek(&self, address: u16) -> u8 {
        match *self {
            Cartridge::MBC1(m) => m.peek(address),
            Cartridge::MBC2(m) => m.peek(address),
            Cartridge::MBC3(m) => m.peek(address),
        }
    }

    open spec fn written(&self, address: u16, value: u8, post: Self) -> bool {
        match (*self, post) {
            (Cartridge::MBC1(m), Cartridge::MBC1(p)) => m.written(address, value, p),
            (Cartridge::MBC2(m), Cartridge::MBC2(p)) => m.written(address, value, p),
            (Cartridge::MBC3(m), Cartridge::MBC3(p)) => m.written(address, value, p),
            _ => false,
        }
    }

    fn read(&self, address: u16) -> (r: u8) {
        match self {
            Cartridge::MBC1(m) => m.read(address),
            Cartridge::MBC2(m) => m.read(address),
            Cartridge::MBC3(m) => m.read(address),
        }
    }

    fn write(&mut self, address: u16, value: u8) {
        match self {
            Cartridge::MBC1(m) => m.write(address, value),
            Cartridge::MBC2(m) => m.write(address, value),
            Cartridge::MBC3(m) => m.write(address, value),
        }
    }
}

/// The machine's parts.
pub struct Emulator {
    pub rom: Cartridge,
    pub vram: VRAMImpl,
    pub wram: WRAMImpl,
    pub oam: OAM,
    pub lcd: LCDControllerImpl,
    pub timer: Timer<InterruptControllerImpl>,
    pub dma: DMA<FlatMemory>,
    pub stack: Stack,
    pub control_registers: ControlRegisters,
    pub reserved_area_1: LinearMemory<0x1E00, 0xE000>,
    pub reserved_area_2: LinearMemory<0x0060, 0xFEA0>,
    pub interrupt_controller: InterruptControllerImpl,
}

/// A header the emulator accepts: long enough to hold the header, with known ROM size, RAM
/// size and colour mode codes, a supported controller, and no more bytes than the ROM holds.
pub open spec fn loadable_rom(rom_bytes: Seq<u8>) -> bool {
    &&& rom_bytes.len() > 0x0149
    &&& rom_bytes[0x0148] <= 8
    &&& rom_bytes[0x0149] <= 5
    &&& CGBMode::is_known_byte(rom_bytes[0x0143])
    &&& supported_cartridge_type(rom_bytes[0x0147])
    &&& rom_bytes.len() <= 0x8000usize << rom_bytes[0x0148]
}

/// Whether the emulator accepts the cartridge `rom_bytes`, tested.
pub fn is_loadable_rom(rom_bytes: &[u8]) -> (r: bool)
    ensures
        r == loadable_rom(rom_bytes@),
{
    if rom_bytes.len() <= 0x0149 {
        return false;
    }
    let rom_size_code = rom_bytes[0x0148];
    if rom_size_code > 8 || rom_bytes[0x0149] > 5 {
        return false;
    }
    let masked = rom_bytes[0x0143] & 0xBF;
    let known_mode = masked == 0x00 || masked == 0x80 || masked == 0x82 || masked == 0x84;
    let type_byte = rom_bytes[0x0147];
    let supported = (0x01 <= type_byte && type_byte <= 0x03) || (0x05 <= type_byte && type_byte <= 0x06) || (0x0F
        <= type_byte && type_byte <= 0x13);
    known_mode && supported && rom_bytes.len() <= (0x8000usize << rom_size_code)
}

impl Emulator {
    /// An emulator for the cartridge `rom_bytes`: the controller the header names, holding the
    /// bytes as its ROM. A colour or colour-compatible cartridge has the header's compatibility
    /// byte copied to KEY0; a monochrome one gets KEY0 = 0x04 and the LCD's object priority
    /// mode OPRI = 0x01. BANK reads 0x11, the boot ROM being unmapped.
    pub fn new(rom_bytes: &[u8]) -> (r: Emulator)
        requires
            loadable_rom(rom_bytes@),
        ensures
            cartridge_rom(r.rom).len() == 0x8000usize << rom_bytes@[0x0148],
            forall|i: int| 0 <= i < rom_bytes@.len() ==> #[trigger] cartridge_rom(r.rom)[i] == rom_bytes@[i],
            (r.rom is MBC1) <==> 0x01 <= rom_bytes@[0x0147] <= 0x03,
            (r.rom is MBC2) <==> 0x05 <= rom_bytes@[0x0147] <= 0x06,
            (r.rom is MBC3) <==> 0x0F <= rom_bytes@[0x0147] <= 0x13,
            rom_bytes@[0x0143] & 0xBF == 0x00 ==> r.control_registers == (ControlRegisters {
                key0: 0x04,
                key1: 0,
                bank: 0x11,
            }) && r.lcd.opri == 0x01,
            rom_bytes@[0x0143] & 0xBF != 0x00 ==> r.control_registers == (ControlRegisters {
                key0: rom_bytes@[0x0143],
                key1: 0,
                bank: 0x11,
            }) && r.lcd.opri == 0x00,
            r.vram.wf() && r.vram.bank() == 0,
            r.vram.bank_0_contents() == Seq::new(0x2000, |i: int| 0u8),
            r.vram.bank_1_contents() == Seq::new(0x2000, |i: int| 0u8),
            r.wram.contents() == Seq::new(0x8000, |i: int| 0u8) && r.wram.bank() == 1,
            r.oam.contents() == Seq::new(160, |i: int| 0u8),
            r.lcd.current_object_index == 0,
            r.lcd.intersecting_object_indices@ == Seq::<u8>::empty(),
            r.lcd.dot == 0 && r.lcd.line == 0 && r.lcd.column == 0,
            r.lcd.mode == LCDMode::Mode2,
            r.lcd.lcdc == LCDC(0),
            r.lcd.stat == Stat(0x02),
            !r.lcd.interrupt_line,
            r.lcd.scy == 0 && r.lcd.scx == 0 && r.lcd.lyc == 0 && r.lcd.wy == 0 && r.lcd.wx == 0,
            r.timer.interrupt_controller == (InterruptControllerImpl {
                interrupt_request: 0,
                interrupt_enable: 0,
                interrupt_master_enable: false,
            }),
            r.timer.clock_pulse_bit == 10 && r.timer.divider == 0 && r.timer.timer_modulo == 0,
            r.timer.timer_controller == 0 && r.timer.timer_counter == 0 && !r.timer.enabled,
            r.dma.memory is None,
            r.dma.state == (DMAState {
                cpu: None,
                dma: 0,
                high_source_address: 0,
                low_source_address: 0,
                high_destination_address: 0,
                low_destination_address: 0,
                hdma5: 0xFF,
                active_transfer: None,
                double_speed_toggle: true,
            }),
            r.stack.contents() == Seq::new(127, |i: int| 0u8),
            r.reserved_area_1.contents() == Seq::new(0x1E00, |i: int| 0u8),
            r.reserved_area_2.contents() == Seq::new(0x60, |i: int| 0u8),
            r.interrupt_controller == (InterruptControllerImpl {
                interrupt_request: 0,
                interrupt_enable: 0,
                interrupt_master_enable: false,
            }),
    {
        let rom_size = ROMSize::from_byte(rom_bytes[0x0148]);
        let ram_size = RAMSize::from_byte(rom_bytes[0x0149]);
        let cgb_mode = CGBMode::from_byte(rom_bytes[0x0143]);
        let rom = Emulator::create_rom(rom_bytes, rom_size, ram_size);
        let vram = VRAMImpl::new();
        let wram = WRAMImpl::new();
        let oam = OAM::new();
        let mut lcd = LCDControllerImpl::new();
        let timer = Timer::new(InterruptControllerImpl::new());
        let dma = DMA::new();
        let stack = Stack::new();
        let mut control_registers = ControlRegisters::new();
        let reserved_area_1 = LinearMemory::<0x1E00, 0xE000>::new();
        let reserved_area_2 = LinearMemory::<0x0060, 0xFEA0>::new();
        let interrupt_controller = InterruptControllerImpl::new();

        // A colour or colour-compatible cartridge has its compatibility byte in KEY0; a
        // monochrome one gets 0x04 there and OPRI = 0x01.
        match cgb_mode {
            CGBMode::Monochrome => {
                control_registers.write(0xFF4C, 0x04);
                lcd.write(0xFF6C, 0x01);
            },
            _ => {
                control_registers.write(0xFF4C, rom_bytes[0x0143]);
            },
        }
        // BANK reads 0x11: the boot ROM is unmapped.
        control_registers.write(0xFF50, 0x11);

        Emulator {
            rom,
            vram,
            wram,
            oam,
            lcd,
            timer,
            dma,
            stack,
            control_registers,
            reserved_area_1,
            reserved_area_2,
            interrupt_controller,
        }
    }

    /// The controller named by the cartridge type byte, with the bytes loaded from address 0.
    fn create_rom(rom_bytes: &[u8], rom_size: ROMSize, ram_size: RAMSize) -> (r: Cartridge)
        requires
            rom_bytes@.len() > 0x0147,
            supported_cartridge_type(rom_bytes@[0x0147]),
            rom_bytes@.len() <= rom_size.bytes_spec(),
        ensures
            cartridge_rom(r).len() == rom_size.bytes_spec(),
            forall|i: int| 0 <= i < rom_bytes@.len() ==> #[trigger] cartridge_rom(r)[i] == rom_bytes@[i],
            (r is MBC1) <==> 0x01 <= rom_bytes@[0x0147] <= 0x03,
            (r is MBC2) <==> 0x05 <= rom_bytes@[0x0147] <= 0x06,
            (r is MBC3) <==> 0x0F <= rom_bytes@[0x0147] <= 0x13,
    {
        let type_byte = rom_bytes[0x0147];
        if type_byte <= 0x03 {
            let mut cartridge = MBC1::new(rom_size.bytes(), ram_size.bytes());
            cartridge.load_bytes(0x0000, rom_bytes);
            Cartridge::MBC1(cartridge)
        } else if type_byte <= 0x06 {
            let mut cartridge = MBC2::new(rom_size.bytes(), ram_size.bytes());
            cartridge.load_bytes(0x0000, rom_bytes);
            Cartridge::MBC2(cartridge)
        } else {
            let mut cartridge = MBC3::new(rom_size, ram_size);
            cartridge.load_bytes(0x0000, rom_bytes);
            Cartridge::MBC3(cartridge)
        }
    }

    /// The run loop lives outside the library; nothing is run here.
    pub fn run() {
    }
}

} // verus!
