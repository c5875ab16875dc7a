use gbemu::features::dma::DMA;
use gbemu::memory::memory::{FlatMemory, Memory};
use gbemu::time::time::ClockAware;

fn create_memory() -> FlatMemory {
    let mut memory = FlatMemory::new(0x10000);
    for address in 0xC000u16..0xC100u16 {
        memory.write(address, address as u8);
    }
    memory
}

fn create_dma() -> DMA<FlatMemory> {
    let mut dma = DMA::new();
    dma.set_cpu(true);
    dma.set_memory(create_memory());
    dma
}

fn read(dma: &DMA<FlatMemory>, address: u16) -> u8 {
    dma.memory.as_ref().unwrap().read(address)
}

fn cpu_enabled(dma: &DMA<FlatMemory>) -> bool {
    dma.state.cpu == Some(true)
}

#[test]
fn start_legacy_dma_transfer() {
    let mut dma = create_dma();
    dma.write(0xFF46, 0xC0);
    for (index, address) in (0xFE00u16..=0xFE9Fu16).enumerate() {
        assert_eq!(read(&dma, address), 0x0000);
        dma.handle_tick(false);
        assert_eq!(read(&dma, address), index as u8);
    }
    dma.handle_tick(false);
    assert_eq!(read(&dma, 0xFEA0), 0x0000);
}

#[test]
fn start_general_purpose_dma_transfer() {
    let mut dma = create_dma();
    dma.write(0xFF51, 0xC0);
    dma.write(0xFF52, 0x05);
    dma.write(0xFF53, 0x01);
    dma.write(0xFF54, 0x23);
    assert_eq!(cpu_enabled(&dma), true);
    dma.write(0xFF55, 0x06);
    for (index, address) in (0x8120u16..=0x818Fu16).enumerate() {
        assert_eq!(read(&dma, address), 0x0000);
        dma.handle_tick(false);
        assert_eq!(cpu_enabled(&dma), index == 111);
        assert_eq!(read(&dma, address), index as u8);
    }
    assert_eq!(cpu_enabled(&dma), true);
    assert_eq!(dma.read(0xFF55), 0xFF);
    dma.handle_tick(false);
    assert_eq!(read(&dma, 0xFEA0), 0x0000);
}

#[test]
fn start_hblank_dma_transfer() {
    let mut dma = create_dma();
    dma.write(0xFF51, 0xC0);
    dma.write(0xFF52, 0x05);
    dma.write(0xFF53, 0x01);
    dma.write(0xFF54, 0x23);
    dma.write(0xFF55, 0x86);
    for (index, address) in (0x8120u16..=0x818Fu16).enumerate() {
        assert_eq!(read(&dma, address), 0x0000);
        dma.memory.as_mut().unwrap().write(0xFF41, 0x01);
        dma.handle_tick(false);
        assert_eq!(read(&dma, address), 0x0000);
        dma.memory.as_mut().unwrap().write(0xFF41, 0x00);
        dma.handle_tick(false);
        assert_eq!(read(&dma, address), index as u8);
    }
    assert_eq!(dma.read(0xFF55), 0xFF);
    dma.handle_tick(false);
    assert_eq!(read(&dma, 0xFEA0), 0x0000);
}

#[test]
fn cancel_hblank_dma_transfer() {
    let mut dma = create_dma();
    dma.write(0xFF51, 0xC0);
    dma.write(0xFF52, 0x05);
    dma.write(0xFF53, 0x01);
    dma.write(0xFF54, 0x23);
    dma.write(0xFF55, 0x86);
    for _ in 0..0x20 {
        dma.handle_tick(false);
    }
    dma.write(0xFF55, 0x00);
    assert_eq!(dma.read(0xFF55), 0x84);
    dma.handle_tick(false);
    assert_eq!(read(&dma, 0xFEA0), 0x0000);
}

#[test]
fn double_speed_copies_every_other_tick() {
    let mut dma = create_dma();
    dma.write(0xFF51, 0xC0);
    dma.write(0xFF53, 0x00);
    dma.write(0xFF55, 0x00);
    dma.handle_tick(true);
    assert_eq!(read(&dma, 0x8001), 0x00);
    assert_eq!(read(&dma, 0x8000), 0x00);
    dma.handle_tick(true);
    dma.handle_tick(true);
    dma.handle_tick(true);
    assert_eq!(read(&dma, 0x8001), 0x01);
}
