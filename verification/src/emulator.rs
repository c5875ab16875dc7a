pub mod compatibility_palette;
pub mod emulator;
