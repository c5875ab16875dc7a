pub mod audio_driver;
pub mod custom_wave_player;
pub mod gain_controller;
