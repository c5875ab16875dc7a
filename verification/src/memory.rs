pub mod memory;
pub mod bank_memory;
pub mod control;
pub mod linear_memory;
pub mod stack;
pub mod wram;
pub mod oam;
pub mod vram;
pub mod cram;
pub mod mbc;
pub mod mbc1;
pub mod mbc2;
pub mod mbc3;
pub mod main_memory;
pub mod dma;
