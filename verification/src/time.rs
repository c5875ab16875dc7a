pub mod time;
pub mod duration;
