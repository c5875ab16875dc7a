use vstd::prelude::*;
use crate::audio::audio_driver::{AudioCommand, Channel};
use crate::controllers::audio::{
    lower_wavelength_bits, upper_wavelength_bits, with_lower_wavelength_bits, with_upper_wavelength_bits,
};

verus! {

/// What a wave tick reports.
#[derive(Copy, Clone, PartialEq, Eq, Structural, Debug)]
pub enum CustomWavePlayerTickResult {
    Playing,
    DacShutOff,
}

/// The wave channel with a DAC enable and a pending-trigger flag that a tick consumes.
#[derive(Copy, Clone)]
pub struct CustomWavePlayer {
    pub channel: Channel,
    pub waveform: [u8; 16],
    pub triggered: bool,
    pub wavelength: u16,
    pub gain: u8,
    pub playing: bool,
    pub dac_enabled: bool,
}

impl CustomWavePlayer {
    pub fn new(channel: Channel) -> (r: Self)
        ensures
            r.channel == channel,
            r.waveform@ == Seq::new(16, |i: int| 0u8),
            !r.triggered,
            r.wavelength == 0,
            r.gain == 0,
            !r.playing,
            !r.dac_enabled,
    {
        let r = CustomWavePlayer {
            channel,
            waveform: [0; 16],
            triggered: false,
            wavelength: 0,
            gain: 0,
            playing: false,
            dac_enabled: false,
        };
        assert(r.waveform@ =~= Seq::new(16, |i: int| 0u8));
        r
    }

    /// Asks for the wave to start at the next tick.
    pub fn trigger(&mut self)
        ensures
            final(self).triggered,
            final(self).playing == old(self).playing,
            final(self).dac_enabled == old(self).dac_enabled,
            final(self).wavelength == old(self).wavelength,
            final(self).gain == old(self).gain,
            final(self).waveform == old(self).waveform,
    {
        self.triggered = true;
    }

    pub fn stop(&mut self)
        ensures
            !final(self).playing,
            final(self).triggered == old(self).triggered,
            final(self).dac_enabled == old(self).dac_enabled,
            final(self).wavelength == old(self).wavelength,
            final(self).gain == old(self).gain,
            final(self).waveform == old(self).waveform,
    {
        self.playing = false;
    }

    pub fn get_lower_wavelength_bits(&self) -> (r: u8)
        ensures
            r == lower_wavelength_bits(self.wavelength),
    {
        (self.wavelength & 0xFF) as u8
    }

    pub fn get_upper_wavelength_bits(&self) -> (r: u8)
        ensures
            r == upper_wavelength_bits(self.wavelength),
    {
        ((self.wavelength & 0xFF00) >> 8u16) as u8
    }

    pub fn set_lower_wavelength_bits(&mut self, value: u8)
        ensures
            final(self).wavelength == with_lower_wavelength_bits(old(self).wavelength, value),
            final(self).gain == old(self).gain,
            final(self).playing == old(self).playing,
            final(self).dac_enabled == old(self).dac_enabled,
    {
        self.wavelength = (self.wavelength & 0xFF00) | (value as u16);
    }

    pub fn set_upper_wavelength_bits(&mut self, value: u8)
        ensures
            final(self).wavelength == with_upper_wavelength_bits(old(self).wavelength, value),
            final(self).gain == old(self).gain,
            final(self).playing == old(self).playing,
            final(self).dac_enabled == old(self).dac_enabled,
    {
        self.wavelength = (self.wavelength & 0x00FF) | (((value as u16) & 0x7) << 8u16);
    }

    /// With the DAC off, reports it and does nothing. Otherwise retunes the channel, starts
    /// the wave when a trigger is pending (clearing it), and sets the output level.
    pub fn tick(&mut self, commands: &mut Vec<AudioCommand>) -> (r: CustomWavePlayerTickResult)
        ensures
            !old(self).dac_enabled ==> r == CustomWavePlayerTickResult::DacShutOff && final(commands)@ == old(
                commands,
            )@ && final(self).triggered == old(self).triggered && final(self).playing == old(self).playing,
            old(self).dac_enabled ==> {
                &&& r == CustomWavePlayerTickResult::Playing
                &&& !final(self).triggered
                &&& final(self).playing == (old(self).playing || old(self).triggered)
                &&& final(commands)@ == old(commands)@ + seq![
                    AudioCommand::SetFrequency { channel: old(self).channel, wavelength: old(self).wavelength },
                ] + (if old(self).triggered {
                    seq![
                        AudioCommand::PlayCustomWave {
                            channel: old(self).channel,
                            wavelength: old(self).wavelength,
                            output_level: old(self).gain,
                        },
                    ]
                } else {
                    Seq::empty()
                }) + seq![AudioCommand::SetOutputLevel { channel: old(self).channel, output_level: old(self).gain }]
            },
            final(self).wavelength == old(self).wavelength,
            final(self).gain == old(self).gain,
            final(self).dac_enabled == old(self).dac_enabled,
            final(self).waveform == old(self).waveform,
    {
        if !self.dac_enabled {
            return CustomWavePlayerTickResult::DacShutOff;
        }
        commands.push(AudioCommand::SetFrequency { channel: self.channel, wavelength: self.wavelength });
        let was_triggered = self.triggered;
        self.triggered = false;
        if was_triggered {
            self.playing = true;
            commands.push(
                AudioCommand::PlayCustomWave {
                    channel: self.channel,
                    wavelength: self.wavelength,
                    output_level: self.gain,
                },
            );
        }
        commands.push(AudioCommand::SetOutputLevel { channel: self.channel, output_level: self.gain });
        proof {
            let started: Seq<AudioCommand> = if old(self).triggered {
                seq![
                    AudioCommand::PlayCustomWave {
                        channel: old(self).channel,
                        wavelength: old(self).wavelength,
                        output_level: old(self).gain,
                    },
                ]
            } else {
                Seq::empty()
            };
            assert(commands@ =~= old(commands)@ + seq![
                AudioCommand::SetFrequency { channel: old(self).channel, wavelength: old(self).wavelength },
            ] + started + seq![AudioCommand::SetOutputLevel { channel: old(self).channel, output_level: old(self).gain }]);
        }
        CustomWavePlayerTickResult::Playing
    }
}

} // verus!
