use vstd::prelude::*;

verus! {

/// The four sound channels.
#[derive(Copy, Clone, PartialEq, Eq, Structural, Debug)]
pub enum Channel {
    CH1,
    CH2,
    CH3,
    CH4,
}

/// The share of each period that a pulse wave is high: 12.5, 25, 50 or 75 percent.
#[derive(Copy, Clone, PartialEq, Eq, Structural, Debug)]
pub enum DutyCycle {
    Duty125,
    Duty250,
    Duty500,
    Duty750,
}

/// What the sound hardware asks of the audio output. Pitches are given as the 11-bit
/// wavelength values of the registers; a pulse channel plays at 131072 / (2048 - wavelength)
/// Hz and the wave channel at 65536 / (2048 - wavelength) Hz.
#[derive(Copy, Clone, PartialEq, Eq, Structural, Debug)]
pub enum AudioCommand {
    /// Start a pulse wave.
    PlayPulse { channel: Channel, wavelength: u16, duty_cycle: DutyCycle },
    /// Start the wave channel's custom wave, at the given output level code (1: full,
    /// 2: half, 3: quarter, otherwise silent); the samples are those of the wave RAM.
    PlayCustomWave { channel: Channel, wavelength: u16, output_level: u8 },
    /// Retune a playing custom wave.
    SetFrequency { channel: Channel, wavelength: u16 },
    /// Set a channel's volume to `level` fifteenths.
    SetGain { channel: Channel, level: u8 },
    /// Set the wave channel's output level code.
    SetOutputLevel { channel: Channel, output_level: u8 },
    /// Silence a channel.
    Stop { channel: Channel },
}

} // verus!
