pub mod audio;
pub mod context;
pub mod controllers;
pub mod cpu;
pub mod emulator;
pub mod features;
pub mod infrastructure;
pub mod memory;
pub mod renderer;
pub mod time;
pub mod util;
