
pub mod timer;
pub mod lcd;
pub mod dma;
pub mod palette;
