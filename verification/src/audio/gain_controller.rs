use vstd::prelude::*;
use crate::audio::audio_driver::{AudioCommand, Channel};

verus! {

/// What a gain tick reports.
#[derive(Copy, Clone, PartialEq, Eq, Structural, Debug)]
pub enum GainControllerTickResult {
    Playing,
    DacShutOff,
}

/// The settings of a volume envelope.
#[derive(Copy, Clone, PartialEq, Eq, Structural, Debug)]
pub struct GainControllerSettings {
    pub initial_value: u8,
    pub pace: u8,
    pub ascending: bool,
}

impl GainControllerSettings {
    pub fn new() -> (r: Self)
        ensures
            r == (GainControllerSettings { initial_value: 0, pace: 0, ascending: false }),
    {
        GainControllerSettings { initial_value: 0, pace: 0, ascending: false }
    }
}

/// A channel's volume envelope, with its own active flag.
#[derive(Copy, Clone, PartialEq, Eq, Structural, Debug)]
pub struct GainController {
    pub channel: Channel,
    pub current_tick: u8,
    pub current_value: u8,
    pub current_settings: GainControllerSettings,
    pub new_settings: GainControllerSettings,
    pub active: bool,
}

/// One gain tick: the new controller, the commands, and the report. An inactive controller
/// does nothing; settings that start at volume 0 going down mean the DAC is off.
pub open spec fn gain_tick_spec(g: GainController) -> (GainController, Seq<AudioCommand>, GainControllerTickResult) {
    if !g.active {
        (g, Seq::empty(), GainControllerTickResult::Playing)
    } else if g.current_settings.initial_value == 0 && !g.current_settings.ascending {
        (g, Seq::empty(), GainControllerTickResult::DacShutOff)
    } else if g.current_settings.pace == 0 {
        (g, Seq::empty(), GainControllerTickResult::Playing)
    } else {
        let tick = ((g.current_tick + 1) % (g.current_settings.pace as int)) as u8;
        let value = if tick != 0 {
            g.current_value
        } else if g.current_settings.ascending && g.current_value < 0xF {
            (g.current_value + 1) as u8
        } else if !g.current_settings.ascending && g.current_value > 0 {
            (g.current_value - 1) as u8
        } else {
            g.current_value
        };
        (
            GainController { current_tick: tick, current_value: value, ..g },
            seq![AudioCommand::SetGain { channel: g.channel, level: value }],
            GainControllerTickResult::Playing,
        )
    }
}

impl GainController {
    pub fn new(channel: Channel) -> (r: Self)
        ensures
            r == (GainController {
                channel,
                current_tick: 0,
                current_value: 0,
                current_settings: GainControllerSettings { initial_value: 0, pace: 0, ascending: false },
                new_settings: GainControllerSettings { initial_value: 0, pace: 0, ascending: false },
                active: false,
            }),
    {
        GainController {
            channel,
            current_tick: 0,
            current_value: 0,
            current_settings: GainControllerSettings::new(),
            new_settings: GainControllerSettings::new(),
            active: false,
        }
    }

    pub fn stop(&mut self)
        ensures
            *final(self) == (GainController { active: false, ..*old(self) }),
    {
        self.active = false;
    }

    /// Restarts the envelope from the latest settings.
    pub fn trigger(&mut self)
        ensures
            *final(self) == (GainController {
                current_settings: old(self).new_settings,
                current_tick: 0,
                current_value: old(self).new_settings.initial_value,
                active: true,
                ..*old(self)
            }),
    {
        self.current_settings = self.new_settings;
        self.current_tick = 0;
        self.current_value = self.current_settings.initial_value;
        self.active = true;
    }

    fn dac_shut_off(&self) -> (r: bool)
        ensures
            r == (self.current_settings.initial_value == 0 && !self.current_settings.ascending),
    {
        self.current_settings.initial_value == 0 && !self.current_settings.ascending
    }

    pub fn tick(&mut self, commands: &mut Vec<AudioCommand>) -> (r: GainControllerTickResult)
        ensures
            *final(self) == gain_tick_spec(*old(self)).0,
            final(commands)@ == old(commands)@ + gain_tick_spec(*old(self)).1,
            r == gain_tick_spec(*old(self)).2,
    {
        if !self.active {
            assert(commands@ =~= old(commands)@ + gain_tick_spec(*old(self)).1);
            return GainControllerTickResult::Playing;
        }
        if self.dac_shut_off() {
            assert(commands@ =~= old(commands)@ + gain_tick_spec(*old(self)).1);
            return GainControllerTickResult::DacShutOff;
        }
        if self.current_settings.pace == 0 {
            assert(commands@ =~= old(commands)@ + gain_tick_spec(*old(self)).1);
            return GainControllerTickResult::Playing;
        }
        self.current_tick = ((self.current_tick as u16 + 1) % (self.current_settings.pace as u16)) as u8;
        if self.current_tick == 0 {
            if self.current_settings.ascending && self.current_value < 0xF {
                self.current_value = self.current_value + 1;
            } else if !self.current_settings.ascending && self.current_value > 0 {
                self.current_value = self.current_value - 1;
            }
        }
        commands.push(AudioCommand::SetGain { channel: self.channel, level: self.current_value });
        assert(commands@ =~= old(commands)@ + gain_tick_spec(*old(self)).1);
        GainControllerTickResult::Playing
    }
}

} // verus!
