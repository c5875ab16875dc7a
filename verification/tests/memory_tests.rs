use gbemu::memory::bank_memory::BankMemory;
use gbemu::memory::control::ControlRegisters;
use gbemu::memory::dma::DMAMemoryView;
use gbemu::memory::linear_memory::LinearMemory;
use gbemu::memory::mbc::Loadable;
use gbemu::memory::mbc1::MBC1;
use gbemu::memory::mbc2::MBC2;
use gbemu::memory::mbc3::{MBC3, RTCFields};
use gbemu::memory::memory::{CGBMode, FlatMemory, Memory, RAMSize, ROMSize};
use gbemu::memory::oam::{ObjectAttributes, OAM};
use gbemu::memory::stack::Stack;
use gbemu::memory::vram::{TileAttributes, TileData, VRAMImpl, VRAM};
use gbemu::memory::wram::WRAMImpl;
use gbemu::renderer::renderer::{TileAddressingMode, TileMapIndex};
use gbemu::time::duration::Duration;
use gbemu::time::time::ClockAware;

#[test]
fn mbc1_read_write_ram() {
    let mut memory = MBC1::new(0x80 * 0x4000, 4 * 0x4000);
    memory.write(0x0000, 0x0A);
    memory.write(0xA000, 0xAB);
    memory.write(0xBFFF, 0xCD);
    assert_eq!(memory.read(0xA000), 0xAB);
    assert_eq!(memory.read(0xBFFF), 0xCD);
    memory.write(0x0000, 0x00);
    memory.write(0xA000, 0x11);
    assert_eq!(memory.read(0xA000), 0xAB);
}

#[test]
fn mbc1_banks_and_open_bus() {
    let mut memory = MBC1::new(0x80 * 0x4000, 4 * 0x4000);
    memory.load_byte(0x4000 * 3 + 0x10, 0x77);
    memory.write(0x2000, 0x03);
    assert_eq!(memory.read(0x4010), 0x77);
    memory.write(0x2000, 0x00);
    assert_eq!(memory.bank1, 1);
    let small = MBC1::new(0x8000, 0);
    assert_eq!(small.read(0xA000), 0xFF);
}

#[test]
fn mbc2_selects_rom_bank_with_address_bit_8() {
    let mut memory = MBC2::new(0x40000, 0x200);
    memory.write(0x2100, 0x05);
    assert_eq!(memory.rom_bank, 5);
    memory.write(0x2000, 0x0A);
    assert!(memory.ram_enabled);
    memory.write(0x2100, 0x00);
    assert_eq!(memory.rom_bank, 1);
}

#[test]
fn mbc3_read_write_ram() {
    let mut memory = MBC3::new(ROMSize::KB256, RAMSize::KB32);
    memory.write(0x0000, 0xA);
    memory.write(0xA000, 0xAB);
    memory.write(0xA080, 0xCD);
    memory.write(0xA1FF, 0xEF);
    assert_eq!(memory.read(0xA000), 0xAB);
    assert_eq!(memory.read(0xA080), 0xCD);
    assert_eq!(memory.read(0xA1FF), 0xEF);
}

#[test]
fn ram_enabled_register_blocks_writes() {
    let mut memory = MBC3::new(ROMSize::KB256, RAMSize::KB32);
    memory.write(0x0000, 0xA);
    memory.write(0xA080, 0xAB);
    memory.write(0x0000, 0xB);
    memory.write(0xA080, 0xCD);
    assert_eq!(memory.read(0xA080), 0xAB);
}

#[test]
fn read_lower_rom() {
    let mut memory = MBC3::new(ROMSize::KB256, RAMSize::KB32);
    memory.load_byte(0x0000, 0x12);
    memory.load_byte(0x2ABC, 0x34);
    memory.load_byte(0x3FFF, 0x56);
    assert_eq!(memory.read(0x0000), 0x12);
    assert_eq!(memory.read(0x2ABC), 0x34);
    assert_eq!(memory.read(0x3FFF), 0x56);
}

#[test]
fn read_upper_rom() {
    let mut memory = MBC3::new(ROMSize::KB256, RAMSize::KB32);
    memory.load_byte(0x4000, 0x12);
    memory.load_byte(0x5ABC, 0x34);
    memory.load_byte(0x7FFF, 0x56);
    memory.load_byte(0x14000, 0x78);
    memory.load_byte(0x15ABC, 0x9A);
    memory.load_byte(0x17FFF, 0xBC);
    assert_eq!(memory.read(0x4000), 0x12);
    assert_eq!(memory.read(0x5ABC), 0x34);
    assert_eq!(memory.read(0x7FFF), 0x56);
    memory.write(0x3000, 0x05);
    assert_eq!(memory.read(0x4000), 0x78);
    assert_eq!(memory.read(0x5ABC), 0x9A);
    assert_eq!(memory.read(0x7FFF), 0xBC);
}

#[test]
fn rom_bank_address_is_never_zero() {
    let mut memory = MBC3::new(ROMSize::KB256, RAMSize::KB32);
    memory.write(0x3000, 0x00);
    memory.load_byte(0x4000, 0x12);
    memory.load_byte(0x5ABC, 0x34);
    memory.load_byte(0x7FFF, 0x56);
    assert_eq!(memory.read(0x4000), 0x12);
    assert_eq!(memory.read(0x5ABC), 0x34);
    assert_eq!(memory.read(0x7FFF), 0x56);
}

#[test]
fn read_write_rtc() {
    let mut memory = MBC3::new(ROMSize::KB256, RAMSize::KB32);
    memory.write(0x0000, 0xA);
    memory.write(0x4000, 0x08);
    memory.write(0xA000, 56);
    memory.write(0x4000, 0x09);
    memory.write(0xA000, 34);
    memory.write(0x4000, 0x0A);
    memory.write(0xA000, 12);
    memory.write(0x4000, 0x0B);
    memory.write(0xA000, 105);
    memory.write(0x4000, 0x0C);
    memory.write(0xA000, 0x81);
    memory.write(0x0000, 0xB);
    memory.write(0x4000, 0x08);
    assert_eq!(memory.read(0xA000), 56);
    memory.write(0x4000, 0x09);
    assert_eq!(memory.read(0xA000), 34);
    memory.write(0x4000, 0x0A);
    assert_eq!(memory.read(0xA000), 12);
    memory.write(0x4000, 0x0B);
    assert_eq!(memory.read(0xA000), 105);
    memory.write(0x4000, 0x0C);
    assert_eq!(memory.read(0xA000), 0x81);
}

#[test]
fn rtc_latch_shows_clock_at_latch_time() {
    let mut memory = MBC3::new(ROMSize::KB256, RAMSize::KB32);
    memory.rtc = RTCFields { seconds: 59, minutes: 59, hours: 23, days_low: 255, days_high: 0x01 };
    // A clock tick is shorter than a second, and the registers hold whole seconds.
    memory.tick();
    assert_eq!(memory.rtc.seconds, 59);
    memory.rtc = memory.rtc.tick(Duration::from_seconds(1));
    memory.write(0x6000, 0x00);
    memory.write(0x6000, 0x01);
    memory.write(0x4000, 0x08);
    assert_eq!(memory.read(0xA000), 0);
    memory.write(0x4000, 0x0B);
    assert_eq!(memory.read(0xA000), 0);
    memory.write(0x4000, 0x0C);
    assert_eq!(memory.read(0xA000), 0x80);
}

#[test]
fn halted_rtc_does_not_advance() {
    let fields = RTCFields { seconds: 1, minutes: 2, hours: 3, days_low: 4, days_high: 0x40 };
    assert_eq!(fields.tick(Duration::from_seconds(100)), fields);
    let running = RTCFields { seconds: 1, minutes: 2, hours: 3, days_low: 4, days_high: 0x00 };
    let later = running.tick(Duration::from_seconds(100));
    assert_eq!(later, RTCFields { seconds: 41, minutes: 3, hours: 3, days_low: 4, days_high: 0x00 });
    assert_eq!(RTCFields::new().to_duration().nanoseconds, 0);
}

#[test]
fn set_vram_bank() {
    let mut vram = VRAMImpl::new();
    vram.write(VRAMImpl::BANK_INDEX_ADDRESS, 0);
    vram.write(VRAMImpl::START_ADDRESS, 0xAB);
    vram.write(VRAMImpl::BANK_INDEX_ADDRESS, 1);
    vram.write(VRAMImpl::START_ADDRESS, 0xCD);
    assert_eq!(vram.read(VRAMImpl::START_ADDRESS), 0xCD);
    vram.write(VRAMImpl::BANK_INDEX_ADDRESS, 0);
    assert_eq!(vram.read(VRAMImpl::START_ADDRESS), 0xAB);
}

#[test]
fn vram_tile_views() {
    let mut vram = VRAMImpl::new();
    vram.write(0x9800 + 33, 0x42);
    vram.write(0xFF4F, 1);
    vram.write(0x9800 + 33, 0xA3);
    vram.write(0x8000 + 16 * 5 + 2, 0b1010_0000);
    vram.write(0xFF4F, 0);
    vram.write(0x8000 + 16 * 5 + 2, 0b1100_0001);
    vram.write(0x8000 + 16 * 5 + 3, 0b0101_0001);
    let map = vram.tile_map(TileMapIndex::TileMap1);
    let row = map.row(1);
    assert_eq!(row.len(), 32);
    assert_eq!(row[1].chr_code, 0x42);
    assert_eq!(row[1].attributes, TileAttributes(0xA3));
    let data = vram.tile_data(TileAddressingMode::Mode8000);
    let tile = data.get_tile_data(0, 5);
    assert_eq!(tile.get_color_indices(1, false, false), vec![1, 3, 0, 2, 0, 0, 0, 3]);
    assert_eq!(tile.get_color_indices(1, true, false), vec![2, 3, 0, 1, 0, 0, 0, 3]);
    let bytes: [u8; 16] = [0; 16];
    let zero = TileData { bytes: &bytes };
    assert_eq!(zero.get_color_indices(7, true, true), vec![0; 8]);
    let attributes = TileAttributes(0xA3 | 0x08);
    assert!(attributes.bg_and_window_priority_over_oam());
    assert!(attributes.flip_horizontal());
    assert!(!attributes.flip_vertical());
    assert_eq!(attributes.tile_bank_index(), 1);
    assert_eq!(attributes.palette_index(), 3);
}

#[test]
fn wram_banks() {
    let mut wram = WRAMImpl::new();
    assert_eq!(wram.read(0xFF70), 1);
    wram.write(0xD000, 0x11);
    wram.write(0xFF70, 0x02);
    assert_eq!(wram.read(0xD000), 0x00);
    wram.write(0xD000, 0x22);
    wram.write(0xFF70, 0x00);
    assert_eq!(wram.read(0xFF70), 1);
    assert_eq!(wram.read(0xD000), 0x11);
    wram.write(0xFF70, 0x0A);
    assert_eq!(wram.read(0xD000), 0x22);
    wram.write(0xC123, 0x33);
    assert_eq!(wram.read(0xC123), 0x33);
}

#[test]
fn stack_linear_and_bank_memories() {
    let mut stack = Stack::new();
    stack.write(0xFF80, 1);
    stack.write(0xFFFE, 2);
    assert_eq!(stack.read(0xFF80), 1);
    assert_eq!(stack.read(0xFFFE), 2);
    let mut reserved = LinearMemory::<0x60, 0xFEA0>::new();
    reserved.write(0xFEFF, 9);
    assert_eq!(reserved.read(0xFEFF), 9);
    assert_eq!(reserved.read(0xFEA0), 0);
    let mut banks = BankMemory::<0x10, 4>::new();
    banks.write(3, 7);
    banks.set_bank_index(2);
    assert_eq!(banks.read(3), 0);
    banks.write(3, 8);
    banks.set_bank_index(0);
    assert_eq!(banks.read(3), 7);
    let mut control = ControlRegisters::new();
    control.write(0xFF50, 0x11);
    assert_eq!(control.read(0xFF50), 0x11);
    assert_eq!(control.read(0xFF4C), 0x00);
}

#[test]
fn oam_objects() {
    let mut oam = OAM::new();
    oam.write(0xFE00 + 4 * 3, 20);
    oam.write(0xFE00 + 4 * 3 + 1, 8);
    oam.write(0xFE00 + 4 * 3 + 2, 0x7F);
    oam.write(0xFE00 + 4 * 3 + 3, 0xE9);
    let object = oam.get_object(3);
    assert_eq!(object.lcd_y, 20);
    assert_eq!(object.lcd_x, 8);
    assert_eq!(object.tile_index, 0x7F);
    assert_eq!(object.attribute, 0xE9);
    assert!(oam.object_intersects_with_line(3, 4, false));
    assert!(!oam.object_intersects_with_line(3, 12, false));
    assert!(oam.object_intersects_with_line(3, 12, true));
    assert!(!oam.object_intersects_with_line(3, 3, true));
    let attributes = ObjectAttributes(0xE9);
    assert!(attributes.has_priority_over_oam());
    assert!(attributes.flip_vertical());
    assert!(attributes.flip_horizontal());
    assert_eq!(attributes.tile_bank_index(), 1);
    assert_eq!(attributes.palette_index(), 1);
}

#[test]
fn header_codes() {
    assert_eq!(ROMSize::from_byte(0x05).bytes(), 0x100000);
    assert_eq!(RAMSize::from_byte(0x03).bytes(), 0x8000);
    assert_eq!(RAMSize::from_byte(0x04), RAMSize::KB128);
    assert_eq!(CGBMode::from_byte(0xC0), CGBMode::Color);
    assert_eq!(CGBMode::from_byte(0x00), CGBMode::Monochrome);
    assert_eq!(CGBMode::from_byte(0x84), CGBMode::PGB);
    let mut flat = FlatMemory::new(4);
    flat.write(3, 5);
    assert_eq!(flat.read(3), 5);
}

#[test]
fn dma_memory_view_reads_widely_and_writes_only_video_and_object_memory() {
    let mut wram = WRAMImpl::new();
    wram.write(0xC010, 0x5A);
    let mut view = DMAMemoryView { rom: FlatMemory::new(0xC000), vram: VRAMImpl::new(), wram, oam: OAM::new() };
    view.write(0xFE05, 0x11);
    view.write(0x8001, 0x22);
    view.write(0xC010, 0x33);
    view.write(0x0100, 0x44);
    assert_eq!(view.read(0xFE05), 0x11);
    assert_eq!(view.read(0x8001), 0x22);
    assert_eq!(view.read(0xC010), 0x5A);
    assert_eq!(view.read(0x0100), 0x00);
}
