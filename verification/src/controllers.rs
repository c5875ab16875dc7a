pub mod lcd;
pub mod audio;
