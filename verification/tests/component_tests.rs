use gbemu::context::context::Context;
use gbemu::cpu::alu::ALU;
use gbemu::cpu::interrupts::{InterruptController, InterruptControllerImpl};
use gbemu::cpu::register::{ByteRegister, Registers, WordRegister};
use gbemu::emulator::emulator::{Cartridge, Emulator};
use gbemu::features::timer::Timer;
use gbemu::memory::linear_memory::LinearMemory;
use gbemu::memory::main_memory::MainMemory;
use gbemu::memory::memory::{FlatMemory, Memory};
use gbemu::memory::oam::OAM;
use gbemu::memory::stack::Stack;
use gbemu::memory::vram::VRAMImpl;
use gbemu::memory::wram::WRAMImpl;
use gbemu::renderer::renderer::Color;
use gbemu::time::time::ClockAware;
use gbemu::util::bit_util::BitUtil;
use gbemu::util::byte_order::word_from_le_bytes;

#[test]
fn alu_add_and_subtract() {
    let sum = ALU::add(0x3A, 0xC6);
    assert_eq!(sum.value, 0x00);
    assert!(sum.carry && sum.half_carry && sum.zero);
    let difference = ALU::subtract(sum.value, 0xC6);
    assert_eq!(difference.value, 0x3A);
    assert!(difference.carry);
    let with_carry = ALU::add_with_carry(0xE1, 0x0F, true);
    assert_eq!(with_carry.value, 0xF1);
    assert!(with_carry.half_carry && !with_carry.carry);
    let pair = ALU::add_pair(0x8A23, 0x0605);
    assert_eq!(pair.value, 0x9028);
    assert!(pair.half_carry && !pair.carry);
    let pair_difference = ALU::subtract_pair(0x0001, 0x0002);
    assert_eq!(pair_difference.value, 0xFFFF);
}

#[test]
fn alu_bitwise_and_shifts() {
    assert_eq!(ALU::and(0x5A, 0x3F).value, 0x1A);
    assert_eq!(ALU::or(0x5A, 0x03).value, 0x5B);
    assert!(ALU::xor(0xFF, 0xFF).zero);
    assert_eq!(ALU::swap(0xF0).value, 0x0F);
    assert_eq!(ALU::swap(ALU::swap(0x9C).value).value, 0x9C);
    assert_eq!(ALU::rotate_right(ALU::rotate_left(0x85).value).value, 0x85);
    let left = ALU::rotate_left_through_carry(0x80, false);
    assert_eq!(left.value, 0x00);
    assert!(left.carry && left.zero);
    let back = ALU::rotate_right_through_carry(left.value, left.carry);
    assert_eq!(back.value, 0x80);
    assert!(!back.carry);
    assert_eq!(ALU::shift_right_arithmetic(0x8A).value, 0xC5);
    assert_eq!(ALU::shift_right(0x8A).value, 0x45);
    assert_eq!(ALU::shift_left(0x8A).value, 0x14);
    assert!(ALU::subtract_with_carry(0x3B, 0x4F, true).carry);
}

#[test]
fn registers_read_after_write() {
    let mut registers = Registers::new();
    registers.write_word(WordRegister::BC, 0x1234);
    assert_eq!(registers.read_byte(ByteRegister::B), 0x12);
    assert_eq!(registers.read_byte(ByteRegister::C), 0x34);
    registers.write_byte(ByteRegister::UpperSP, 0xAB);
    registers.write_byte(ByteRegister::LowerSP, 0xCD);
    assert_eq!(registers.read_word(WordRegister::SP), 0xABCD);
    assert_eq!(registers.read_word(WordRegister::BC), 0x1234);
}

#[test]
fn bit_util_operations() {
    assert!(0xA5u8.get_bit(7));
    assert!(!0xA5u8.get_bit(6));
    assert_eq!(0x00u8.set_bit(3), 0x08);
    assert_eq!(0xFFu8.reset_bit(0), 0xFE);
    assert_eq!(0x0100u16.set_bit(0), 0x0101);
    assert!(0x8000u16.get_bit(15));
    assert_eq!(u8::compose(&[(true, 7), (false, 3), (true, 0)]), 0x81);
    assert_eq!(u16::compose(&[(true, 9)]), 0x0200);
    assert_eq!(usize::compose(&[(true, 4)]), 16);
    assert_eq!(word_from_le_bytes(0x34, 0x12), 0x1234);
}

#[test]
fn color_conversions() {
    let color = Color::from_word(0x7FFF & 0x4E31);
    assert_eq!(color, Color { red: 0x11, green: 0x11, blue: 0x13, transparent: false });
    assert_eq!(color.to_word(), 0x4E31);
    assert_eq!(Color::from_rgb(0x88, 0x10, 0xFF).to_rgb555(), Color::from_rgb(0x11, 0x02, 0x1F));
    assert_eq!(Color::from_rgb(0x11, 0x00, 0x1F).to_rgb888(), Color::from_rgb(0x8F, 0x00, 0xFF));
    assert!(Color::transparent().transparent);
}

#[test]
fn timer_overflow_reloads_and_requests_interrupt() {
    let mut timer = Timer::new(InterruptControllerImpl::new());
    timer.write(0xFF07, 0x05);
    assert_eq!(timer.clock_pulse_bit, 4);
    timer.write(0xFF06, 0x42);
    timer.write(0xFF05, 0xFF);
    for _ in 0..4 {
        timer.tick();
    }
    assert_eq!(timer.read(0xFF05), 0x42);
    assert_eq!(timer.interrupt_controller.read(0xFF0F), 0x04);
    assert_eq!(timer.read(0xFF04), 0x00);
    for _ in 0..64 {
        timer.tick();
    }
    assert_eq!(timer.read(0xFF04), 0x01);
    timer.write(0xFF04, 0x77);
    assert_eq!(timer.read(0xFF04), 0x00);
    assert!(!timer.interrupt_controller.interrupts_enabled());
}

#[test]
fn emulator_loads_cartridge() {
    let mut rom = vec![0u8; 0x8000];
    rom[0x0143] = 0x80;
    rom[0x0147] = 0x13;
    rom[0x0148] = 0x00;
    rom[0x0149] = 0x03;
    rom[0x0100] = 0xC3;
    let emulator = Emulator::new(&rom);
    assert_eq!(emulator.control_registers.read(0xFF4C), 0x80);
    assert_eq!(emulator.control_registers.read(0xFF50), 0x11);
    match &emulator.rom {
        Cartridge::MBC3(cartridge) => assert_eq!(cartridge.read(0x0100), 0xC3),
        _ => panic!("expected an MBC3 cartridge"),
    }
    Emulator::run();
}

#[test]
fn main_memory_routes_accesses() {
    let mut memory = MainMemory {
        rom: FlatMemory::new(0x10000),
        vram: VRAMImpl::new(),
        wram: WRAMImpl::new(),
        oam: OAM::new(),
        lcd: FlatMemory::new(0x10000),
        timer: FlatMemory::new(0x10000),
        dma: FlatMemory::new(0x10000),
        stack: Stack::new(),
        reserved_area_1: LinearMemory::<0x1E00, 0xE000>::new(),
        reserved_area_2: LinearMemory::<0x60, 0xFEA0>::new(),
        interrupt_controller: InterruptControllerImpl::new(),
    };
    memory.write(0xFFFE, 0x12);
    assert_eq!(memory.stack.read(0xFFFE), 0x12);
    memory.write(0xFF70, 0x03);
    assert_eq!(memory.read(0xFF70), 0x03);
    memory.write(0xFFFF, 0x1F);
    assert_eq!(memory.interrupt_controller.read(0xFFFF), 0x1F);
    memory.write(0xFF20, 0x99);
    assert_eq!(memory.read(0xFF20), 0x00);
    memory.write(0x8123, 0x45);
    assert_eq!(memory.vram.read(0x8123), 0x45);
    memory.write(0xE000, 0x07);
    assert_eq!(memory.read(0xE000), 0x07);
}

#[test]
fn context_starts_with_no_elapsed_time() {
    let mut memory = FlatMemory::new(16);
    let context = Context::new(&mut memory);
    assert_eq!(context.delta.nanoseconds, 0);
    context.memory.write(3, 4);
    assert_eq!(memory.read(3), 4);
}

#[test]
fn emulator_sets_key0_and_opri_by_mode() {
    let mut rom = vec![0u8; 0x8000];
    rom[0x0143] = 0x00;
    rom[0x0147] = 0x01;
    rom[0x0148] = 0x00;
    rom[0x0149] = 0x00;
    let monochrome = Emulator::new(&rom);
    assert_eq!(monochrome.control_registers.read(0xFF4C), 0x04);
    assert_eq!(monochrome.lcd.read(0xFF6C), 0x01);
    assert_eq!(monochrome.control_registers.read(0xFF50), 0x11);
    rom[0x0143] = 0x80;
    let color = Emulator::new(&rom);
    assert_eq!(color.control_registers.read(0xFF4C), 0x80);
    assert_eq!(color.lcd.read(0xFF6C), 0x00);
    assert_eq!(color.control_registers.read(0xFF50), 0x11);
}

#[test]
fn cpu_runs_over_the_routed_address_space() {
    let mut memory = MainMemory {
        rom: FlatMemory::new(0x10000),
        vram: VRAMImpl::new(),
        wram: WRAMImpl::new(),
        oam: OAM::new(),
        lcd: FlatMemory::new(0x10000),
        timer: FlatMemory::new(0x10000),
        dma: FlatMemory::new(0x10000),
        stack: Stack::new(),
        reserved_area_1: LinearMemory::<0x1E00, 0xE000>::new(),
        reserved_area_2: LinearMemory::<0x60, 0xFEA0>::new(),
        interrupt_controller: InterruptControllerImpl::new(),
    };
    memory.write(0x0000, 0x3E);
    memory.write(0x0001, 0x42);
    memory.write(0x0002, 0xEA);
    memory.write(0x0003, 0x00);
    memory.write(0x0004, 0xC0);
    let mut cpu = gbemu::cpu::cpu::CPU::new(memory);
    for _ in 0..6 {
        cpu.tick();
    }
    assert_eq!(cpu.registers.read_byte(ByteRegister::A), 0x42);
    assert_eq!(cpu.memory.read(0xC000), 0x42);
}

#[test]
fn loadable_rom_check_follows_the_header() {
    let mut rom = vec![0u8; 0x8000];
    rom[0x0147] = 0x01;
    assert!(gbemu::emulator::emulator::is_loadable_rom(&rom));
    rom[0x0147] = 0x00;
    assert!(!gbemu::emulator::emulator::is_loadable_rom(&rom));
    rom[0x0147] = 0x13;
    rom[0x0143] = 0x42;
    assert!(!gbemu::emulator::emulator::is_loadable_rom(&rom));
    rom[0x0143] = 0xC0;
    assert!(gbemu::emulator::emulator::is_loadable_rom(&rom));
    rom.push(0);
    assert!(!gbemu::emulator::emulator::is_loadable_rom(&rom));
    assert!(!gbemu::emulator::emulator::is_loadable_rom(&rom[..0x0149]));
}
