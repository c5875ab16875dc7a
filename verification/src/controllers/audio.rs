use vstd::prelude::*;
use crate::audio::audio_driver::{AudioCommand, Channel, DutyCycle};
use crate::memory::memory::{Memory, MemoryAddress};
use crate::util::bit_util::{BitUtil, bit_of_u8};

verus! {

/// The low eight bits of an 11-bit wavelength.
pub open spec fn lower_wavelength_bits(wavelength: u16) -> u8 {
    (wavelength & 0xFF) as u8
}

/// The bits above the low eight of a wavelength.
pub open spec fn upper_wavelength_bits(wavelength: u16) -> u8 {
    ((wavelength & 0xFF00) >> 8u16) as u8
}

/// `wavelength` with its low eight bits replaced by `value`.
pub open spec fn with_lower_wavelength_bits(wavelength: u16, value: u8) -> u16 {
    (wavelength & 0xFF00) | (value as u16)
}

/// `wavelength` with its high three bits replaced by the low three of `value`.
pub open spec fn with_upper_wavelength_bits(wavelength: u16, value: u8) -> u16 {
    (wavelength & 0x00FF) | (((value as u16) & 0x7) << 8u16)
}

/// The duty cycle that bits 6 and 7 of NR11 or NR21 select.
pub open spec fn duty_cycle_of(bits: u8) -> DutyCycle {
    if bits == 0 {
        DutyCycle::Duty125
    } else if bits == 1 {
        DutyCycle::Duty250
    } else if bits == 2 {
        DutyCycle::Duty500
    } else {
        DutyCycle::Duty750
    }
}

/// The two register bits of a duty cycle.
pub open spec fn duty_cycle_bits(duty_cycle: DutyCycle) -> u8 {
    match duty_cycle {
        DutyCycle::Duty125 => 0,
        DutyCycle::Duty250 => 1,
        DutyCycle::Duty500 => 2,
        DutyCycle::Duty750 => 3,
    }
}

fn duty_cycle_from_bits(bits: u8) -> (r: DutyCycle)
    ensures
        r == duty_cycle_of(bits),
{
    if bits == 0 {
        DutyCycle::Duty125
    } else if bits == 1 {
        DutyCycle::Duty250
    } else if bits == 2 {
        DutyCycle::Duty500
    } else {
        DutyCycle::Duty750
    }
}

fn bits_of_duty_cycle(duty_cycle: DutyCycle) -> (r: u8)
    ensures
        r == duty_cycle_bits(duty_cycle),
{
    match duty_cycle {
        DutyCycle::Duty125 => 0,
        DutyCycle::Duty250 => 1,
        DutyCycle::Duty500 => 2,
        DutyCycle::Duty750 => 3,
    }
}

/// The settings of a pulse channel's frequency sweep: the starting wavelength, the sweep step
/// (the wavelength shifted right by `shift`), the ticks between steps, the direction, and the
/// channel's duty cycle.
#[derive(Copy, Clone, PartialEq, Eq, Structural, Debug)]
pub struct WavelengthSweeperSettings {
    pub initial_value: u16,
    pub shift: u8,
    pub pace: u8,
    pub decrease: bool,
    pub duty_cycle: DutyCycle,
}

impl WavelengthSweeperSettings {
    pub fn new() -> (r: Self)
        ensures
            r == (WavelengthSweeperSettings {
                initial_value: 0,
                shift: 0,
                pace: 0,
                decrease: false,
                duty_cycle: DutyCycle::Duty125,
            }),
    {
        WavelengthSweeperSettings { initial_value: 0, shift: 0, pace: 0, decrease: false, duty_cycle: DutyCycle::Duty125 }
    }

    pub fn get_lower_wavelength_bits(&self) -> (r: u8)
        ensures
            r == lower_wavelength_bits(self.initial_value),
    {
        (self.initial_value & 0xFF) as u8
    }

    pub fn get_upper_wavelength_bits(&self) -> (r: u8)
        ensures
            r == upper_wavelength_bits(self.initial_value),
    {
        ((self.initial_value & 0xFF00) >> 8u16) as u8
    }

    pub fn set_lower_wavelength_bits(&mut self, value: u8)
        ensures
            *final(self) == (WavelengthSweeperSettings {
                initial_value: with_lower_wavelength_bits(old(self).initial_value, value),
                ..*old(self)
            }),
    {
        self.initial_value = (self.initial_value & 0xFF00) | (value as u16);
    }

    pub fn set_upper_wavelength_bits(&mut self, value: u8)
        ensures
            *final(self) == (WavelengthSweeperSettings {
                initial_value: with_upper_wavelength_bits(old(self).initial_value, value),
                ..*old(self)
            }),
    {
        self.initial_value = (self.initial_value & 0x00FF) | (((value as u16) & 0x7) << 8u16);
    }
}

/// A pulse channel's frequency sweep.
#[derive(Copy, Clone, PartialEq, Eq, Structural, Debug)]
pub struct WavelengthSweeper {
    pub channel: Channel,
    pub triggered: bool,
    pub current_tick: u8,
    pub current_value: u16,
    pub current_settings: WavelengthSweeperSettings,
    pub new_settings: WavelengthSweeperSettings,
    pub operational: bool,
}

/// The wavelength after one sweep step, counted in 16 bits.
pub open spec fn swept_wavelength(value: u16, settings: WavelengthSweeperSettings) -> u16 {
    if settings.decrease {
        (value - (value >> settings.shift)) as u16
    } else {
        value.wrapping_add(value >> settings.shift)
    }
}

/// One sweep tick: the new sweeper, the commands it issues, and whether the wavelength has
/// left the 11-bit range.
pub open spec fn sweep_tick_spec(s: WavelengthSweeper) -> (WavelengthSweeper, Seq<AudioCommand>, bool) {
    if !s.operational {
        (s, Seq::empty(), false)
    } else {
        let duty = s.current_settings.duty_cycle;
        let started = if s.triggered {
            seq![AudioCommand::PlayPulse { channel: s.channel, wavelength: s.current_value, duty_cycle: duty }]
        } else {
            Seq::empty()
        };
        let s1 = WavelengthSweeper { triggered: false, ..s };
        if s.current_settings.pace != 0 && s.current_settings.shift != 0 {
            let tick = ((s.current_tick + 1) % (s.current_settings.pace as int)) as u8;
            if tick == 0 {
                let value = swept_wavelength(s.current_value, s.current_settings);
                (
                    WavelengthSweeper { current_tick: tick, current_value: value, ..s1 },
                    started.push(AudioCommand::PlayPulse { channel: s.channel, wavelength: value, duty_cycle: duty }),
                    value > 0x7FF,
                )
            } else {
                (WavelengthSweeper { current_tick: tick, ..s1 }, started, s.current_value > 0x7FF)
            }
        } else {
            (s1, started, s.current_value > 0x7FF)
        }
    }
}

impl WavelengthSweeper {
    pub fn new(channel: Channel) -> (r: Self)
        ensures
            r == (WavelengthSweeper {
                channel,
                triggered: false,
                current_tick: 0,
                current_value: 0,
                current_settings: WavelengthSweeperSettings {
                    initial_value: 0,
                    shift: 0,
                    pace: 0,
                    decrease: false,
                    duty_cycle: DutyCycle::Duty125,
                },
                new_settings: WavelengthSweeperSettings {
                    initial_value: 0,
                    shift: 0,
                    pace: 0,
                    decrease: false,
                    duty_cycle: DutyCycle::Duty125,
                },
                operational: false,
            }),
    {
        WavelengthSweeper {
            channel,
            triggered: false,
            current_tick: 0,
            current_value: 0,
            current_settings: WavelengthSweeperSettings::new(),
            new_settings: WavelengthSweeperSettings::new(),
            operational: false,
        }
    }

    /// Restarts the sweep from the latest settings.
    pub fn trigger(&mut self)
        ensures
            *final(self) == (WavelengthSweeper {
                triggered: true,
                current_settings: old(self).new_settings,
                current_tick: 0,
                current_value: old(self).new_settings.initial_value,
                operational: true,
                ..*old(self)
            }),
    {
        self.triggered = true;
        self.current_settings = self.new_settings;
        self.current_tick = 0;
        self.current_value = self.current_settings.initial_value;
        self.operational = true;
    }

    /// Starts the pulse when newly triggered, takes a sweep step when one is due, and tells
    /// whether the wavelength has overflowed 11 bits.
    pub fn tick_and_check_if_wavelength_overflowed(&mut self, commands: &mut Vec<AudioCommand>) -> (r: bool)
        requires
            old(self).current_settings.shift < 16,
        ensures
            *final(self) == sweep_tick_spec(*old(self)).0,
            final(commands)@ == old(commands)@ + sweep_tick_spec(*old(self)).1,
            r == sweep_tick_spec(*old(self)).2,
    {
        if self.operational {
            if self.triggered {
                self.triggered = false;
                commands.push(
                    AudioCommand::PlayPulse {
                        channel: self.channel,
                        wavelength: self.current_value,
                        duty_cycle: self.current_settings.duty_cycle,
                    },
                );
            }
            if self.current_settings.pace != 0 && self.current_settings.shift != 0 {
                self.current_tick = ((self.current_tick as u16 + 1) % (self.current_settings.pace as u16)) as u8;
                if self.current_tick == 0 {
                    let value = self.current_value;
                    let shift = self.current_settings.shift;
                    let step = value >> shift;
                    proof {
                        lemma_shift_down_bound(value, shift);
                    }
                    if self.current_settings.decrease {
                        self.current_value = self.current_value - step;
                    } else {
                        self.current_value = self.current_value.wrapping_add(step);
                    }
                    commands.push(
                        AudioCommand::PlayPulse {
                            channel: self.channel,
                            wavelength: self.current_value,
                            duty_cycle: self.current_settings.duty_cycle,
                        },
                    );
                }
            }
            proof {
                assert(commands@ =~= old(commands)@ + sweep_tick_spec(*old(self)).1);
            }
            self.current_value > 0x7FF
        } else {
            proof {
                assert(commands@ =~= old(commands)@ + sweep_tick_spec(*old(self)).1);
            }
            false
        }
    }
}

/// The settings of a length timer: the value the countdown starts from.
#[derive(Copy, Clone, PartialEq, Eq, Structural, Debug)]
pub struct LengthTimerSettings {
    pub initial_value: u16,
}

impl LengthTimerSettings {
    pub fn new() -> (r: Self)
        ensures
            r == (LengthTimerSettings { initial_value: 0 }),
    {
        LengthTimerSettings { initial_value: 0 }
    }
}

/// A channel's length timer: a countdown that silences the channel when it reaches zero.
#[derive(Copy, Clone, PartialEq, Eq, Structural, Debug)]
pub struct LengthTimer {
    pub channel: Channel,
    pub current_value: u16,
    pub max_value: u16,
    pub current_settings: LengthTimerSettings,
    pub new_settings: LengthTimerSettings,
    pub enabled: bool,
    pub operational: bool,
}

impl LengthTimer {
    pub fn new(channel: Channel, max_value: u16) -> (r: Self)
        ensures
            r == (LengthTimer {
                channel,
                current_value: 0,
                max_value,
                current_settings: LengthTimerSettings { initial_value: 0 },
                new_settings: LengthTimerSettings { initial_value: 0 },
                enabled: false,
                operational: false,
            }),
    {
        LengthTimer {
            channel,
            current_value: 0,
            max_value,
            current_settings: LengthTimerSettings::new(),
            new_settings: LengthTimerSettings::new(),
            enabled: false,
            operational: false,
        }
    }

    /// Restarts the countdown from the latest settings.
    pub fn trigger(&mut self)
        ensures
            *final(self) == (LengthTimer {
                current_settings: old(self).new_settings,
                current_value: old(self).new_settings.initial_value,
                operational: true,
                ..*old(self)
            }),
    {
        self.current_settings = self.new_settings;
        self.current_value = self.current_settings.initial_value;
        self.operational = true;
    }

    /// Counts down once while running and enabled, and tells whether the count is zero.
    pub fn tick_and_check_if_expired(&mut self) -> (r: bool)
        ensures
            (old(self).operational && old(self).enabled) ==> *final(self) == (LengthTimer {
                current_value: if old(self).current_value == 0 { 0 } else { (old(self).current_value - 1) as u16 },
                ..*old(self)
            }) && r == (final(self).current_value == 0),
            !(old(self).operational && old(self).enabled) ==> *final(self) == *old(self) && !r,
    {
        if self.operational && self.enabled {
            self.current_value = self.current_value.saturating_sub(1);
            self.current_value == 0
        } else {
            false
        }
    }

    /// Sets the length the next trigger counts down: the countdown starts at the maximum less
    /// `length`.
    pub fn set_length(&mut self, length: u8)
        requires
            length <= old(self).max_value,
        ensures
            *final(self) == (LengthTimer {
                new_settings: LengthTimerSettings { initial_value: (old(self).max_value - length) as u16 },
                ..*old(self)
            }),
    {
        self.new_settings.initial_value = self.max_value - length as u16;
    }

    /// The length last set, in eight bits.
    pub fn length(&self) -> (r: u8)
        requires
            self.new_settings.initial_value <= self.max_value,
        ensures
            r == (self.max_value - self.new_settings.initial_value) as u8,
    {
        (self.max_value - self.new_settings.initial_value) as u8
    }
}

/// The settings of a volume envelope: the starting volume (0 to 15), the ticks between
/// steps, and the direction.
#[derive(Copy, Clone, PartialEq, Eq, Structural, Debug)]
pub struct EnvelopeSweeperSettings {
    pub initial_value: u8,
    pub pace: u8,
    pub ascending: bool,
}

impl EnvelopeSweeperSettings {
    pub fn new() -> (r: Self)
        ensures
            r == (EnvelopeSweeperSettings { initial_value: 0, pace: 0, ascending: false }),
    {
        EnvelopeSweeperSettings { initial_value: 0, pace: 0, ascending: false }
    }
}

/// A channel's volume envelope.
#[derive(Copy, Clone, PartialEq, Eq, Structural, Debug)]
pub struct EnvelopeSweeper {
    pub channel: Channel,
    pub current_tick: u8,
    pub current_value: u8,
    pub current_settings: EnvelopeSweeperSettings,
    pub new_settings: EnvelopeSweeperSettings,
    pub operational: bool,
}

/// The volume after one envelope step: up to 15 or down to 0.
pub open spec fn enveloped_volume(value: u8, ascending: bool) -> u8 {
    if ascending && value < 0xF {
        (value + 1) as u8
    } else if !ascending && value > 0 {
        (value - 1) as u8
    } else {
        value
    }
}

/// One envelope tick: the new envelope, the commands, and whether the channel's DAC is off
/// (the latest settings start at volume 0 going down).
pub open spec fn envelope_tick_spec(s: EnvelopeSweeper) -> (EnvelopeSweeper, Seq<AudioCommand>, bool) {
    if !s.operational {
        (s, Seq::empty(), false)
    } else if s.new_settings.initial_value == 0 && !s.new_settings.ascending {
        (s, Seq::empty(), true)
    } else if s.current_settings.pace != 0 {
        let tick = ((s.current_tick + 1) % (s.current_settings.pace as int)) as u8;
        let value = if tick == 0 {
            enveloped_volume(s.current_value, s.current_settings.ascending)
        } else {
            s.current_value
        };
        (
            EnvelopeSweeper { current_tick: tick, current_value: value, ..s },
            seq![AudioCommand::SetGain { channel: s.channel, level: value }],
            false,
        )
    } else {
        (s, Seq::empty(), false)
    }
}

impl EnvelopeSweeper {
    pub fn new(channel: Channel) -> (r: Self)
        ensures
            r == (EnvelopeSweeper {
                channel,
                current_tick: 0,
                current_value: 0,
                current_settings: EnvelopeSweeperSettings { initial_value: 0, pace: 0, ascending: false },
                new_settings: EnvelopeSweeperSettings { initial_value: 0, pace: 0, ascending: false },
                operational: false,
            }),
    {
        EnvelopeSweeper {
            channel,
            current_tick: 0,
            current_value: 0,
            current_settings: EnvelopeSweeperSettings::new(),
            new_settings: EnvelopeSweeperSettings::new(),
            operational: false,
        }
    }

    /// Restarts the envelope from the latest settings.
    pub fn trigger(&mut self)
        ensures
            *final(self) == (EnvelopeSweeper {
                current_settings: old(self).new_settings,
                current_tick: 0,
                current_value: old(self).new_settings.initial_value,
                operational: true,
                ..*old(self)
            }),
    {
        self.current_settings = self.new_settings;
        self.current_tick = 0;
        self.current_value = self.current_settings.initial_value;
        self.operational = true;
    }

    pub fn tick_and_check_if_dac_shutoff(&mut self, commands: &mut Vec<AudioCommand>) -> (r: bool)
        ensures
            *final(self) == envelope_tick_spec(*old(self)).0,
            final(commands)@ == old(commands)@ + envelope_tick_spec(*old(self)).1,
            r == envelope_tick_spec(*old(self)).2,
    {
        if self.operational {
            if self.new_settings.initial_value == 0 && !self.new_settings.ascending {
                proof {
                    assert(commands@ =~= old(commands)@ + envelope_tick_spec(*old(self)).1);
                }
                true
            } else if self.current_settings.pace != 0 {
                self.current_tick = ((self.current_tick as u16 + 1) % (self.current_settings.pace as u16)) as u8;
                if self.current_tick == 0 {
                    if self.current_settings.ascending && self.current_value < 0xF {
                        self.current_value = self.current_value + 1;
                    } else if !self.current_settings.ascending && self.current_value > 0 {
                        self.current_value = self.current_value - 1;
                    }
                }
                commands.push(AudioCommand::SetGain { channel: self.channel, level: self.current_value });
                proof {
                    assert(commands@ =~= old(commands)@ + envelope_tick_spec(*old(self)).1);
                }
                false
            } else {
                proof {
                    assert(commands@ =~= old(commands)@ + envelope_tick_spec(*old(self)).1);
                }
                false
            }
        } else {
            proof {
                assert(commands@ =~= old(commands)@ + envelope_tick_spec(*old(self)).1);
            }
            false
        }
    }
}

/// The wave channel: 32 four-bit samples, a wavelength, an output level code and an enable.
#[derive(Copy, Clone)]
pub struct CustomWavePlayer {
    pub channel: Channel,
    pub waveform: [u8; 16],
    pub triggered: bool,
    pub wavelength: u16,
    pub gain: u8,
    pub enabled: bool,
}

/// Sample `index` (0 to 31) of a wave RAM: the high nibble of each byte comes first.
pub open spec fn wave_sample(waveform: Seq<u8>, index: int) -> u8 {
    if index % 2 == 0 {
        waveform[index / 2] >> 4u8
    } else {
        waveform[index / 2] & 0x0F
    }
}

impl CustomWavePlayer {
    pub fn new(channel: Channel) -> (r: Self)
        ensures
            r.channel == channel,
            r.waveform@ == Seq::new(16, |i: int| 0u8),
            !r.triggered,
            r.wavelength == 0,
            r.gain == 0,
            !r.enabled,
    {
        let r = CustomWavePlayer { channel, waveform: [0; 16], triggered: false, wavelength: 0, gain: 0, enabled: false };
        assert(r.waveform@ =~= Seq::new(16, |i: int| 0u8));
        r
    }

    pub fn trigger(&mut self)
        ensures
            final(self).triggered,
            final(self).channel == old(self).channel,
            final(self).waveform == old(self).waveform,
            final(self).wavelength == old(self).wavelength,
            final(self).gain == old(self).gain,
            final(self).enabled == old(self).enabled,
    {
        self.triggered = true;
    }

    pub fn get_lower_wavelength_bits(&self) -> (r: u8)
        ensures
            r == lower_wavelength_bits(self.wavelength),
    {
        (self.wavelength & 0xFF) as u8
    }

    pub fn get_upper_wavelength_bits(&self) -> (r: u8)
        ensures
            r == upper_wavelength_bits(self.wavelength),
    {
        ((self.wavelength & 0xFF00) >> 8u16) as u8
    }

    pub fn set_lower_wavelength_bits(&mut self, value: u8)
        ensures
            final(self).wavelength == with_lower_wavelength_bits(old(self).wavelength, value),
            final(self).channel == old(self).channel,
            final(self).waveform == old(self).waveform,
            final(self).triggered == old(self).triggered,
            final(self).gain == old(self).gain,
            final(self).enabled == old(self).enabled,
    {
        self.wavelength = (self.wavelength & 0xFF00) | (value as u16);
    }

    pub fn set_upper_wavelength_bits(&mut self, value: u8)
        ensures
            final(self).wavelength == with_upper_wavelength_bits(old(self).wavelength, value),
            final(self).channel == old(self).channel,
            final(self).waveform == old(self).waveform,
            final(self).triggered == old(self).triggered,
            final(self).gain == old(self).gain,
            final(self).enabled == old(self).enabled,
    {
        self.wavelength = (self.wavelength & 0x00FF) | (((value as u16) & 0x7) << 8u16);
    }

    /// The 32 samples of the wave, in playing order.
    pub fn samples(&self) -> (r: Vec<u8>)
        ensures
            r@.len() == 32,
            forall|i: int| 0 <= i < 32 ==> #[trigger] r@[i] == wave_sample(self.waveform@, i),
    {
        let mut data: Vec<u8> = Vec::new();
        let mut index: usize = 0;
        while index < 32
            invariant
                index <= 32,
                data@.len() == index,
                forall|i: int| 0 <= i < index ==> #[trigger] data@[i] == wave_sample(self.waveform@, i),
            decreases 32 - index,
        {
            let byte = self.waveform[index / 2];
            let nibble = if index % 2 == 0 {
                byte >> 4u8
            } else {
                byte & 0x0F
            };
            data.push(nibble);
            index = index + 1;
        }
        data
    }

    /// Starts the wave when triggered while enabled; a disabled channel is stopped.
    pub fn tick(&mut self, commands: &mut Vec<AudioCommand>)
        ensures
            final(self).triggered == (old(self).triggered && !old(self).enabled),
            final(self).channel == old(self).channel,
            final(self).waveform == old(self).waveform,
            final(self).wavelength == old(self).wavelength,
            final(self).gain == old(self).gain,
            final(self).enabled == old(self).enabled,
            final(commands)@ == old(commands)@ + (if old(self).triggered && old(self).enabled {
                seq![
                    AudioCommand::PlayCustomWave {
                        channel: old(self).channel,
                        wavelength: old(self).wavelength,
                        output_level: old(self).gain,
                    },
                ]
            } else {
                Seq::empty()
            }) + (if !old(self).enabled {
                seq![AudioCommand::Stop { channel: old(self).channel }]
            } else {
                Seq::empty()
            }),
    {
        if self.triggered && self.enabled {
            self.triggered = false;
            commands.push(
                AudioCommand::PlayCustomWave {
                    channel: self.channel,
                    wavelength: self.wavelength,
                    output_level: self.gain,
                },
            );
        }
        if !self.enabled {
            commands.push(AudioCommand::Stop { channel: self.channel });
        }
        proof {
            let played: Seq<AudioCommand> = if old(self).triggered && old(self).enabled {
                seq![
                    AudioCommand::PlayCustomWave {
                        channel: old(self).channel,
                        wavelength: old(self).wavelength,
                        output_level: old(self).gain,
                    },
                ]
            } else {
                Seq::empty()
            };
            let stopped: Seq<AudioCommand> = if !old(self).enabled {
                seq![AudioCommand::Stop { channel: old(self).channel }]
            } else {
                Seq::empty()
            };
            assert(commands@ =~= old(commands)@ + played + stopped);
        }
    }
}

/// The sound hardware as a whole.
pub trait AudioController {}

/// The sound controller: the frame sequencer driven by the divider, the four channels'
/// length timers, the envelope and frequency sweeps of the pulse channels, the wave
/// channel, and the sound registers NR10 to NR52 and the wave RAM.
pub struct AudioControllerImpl {
    pub previous_timer_div: u8,
    pub div_apu: u16,
    pub ch1_length_timer: LengthTimer,
    pub ch2_length_timer: LengthTimer,
    pub ch3_length_timer: LengthTimer,
    pub ch4_length_timer: LengthTimer,
    pub ch1_envelope_sweeper: EnvelopeSweeper,
    pub ch1_wavelength_sweeper: WavelengthSweeper,
    pub ch2_envelope_sweeper: EnvelopeSweeper,
    pub ch2_wavelength_sweeper: WavelengthSweeper,
    pub ch3_custom_wave_player: CustomWavePlayer,
    pub nr41: u8,
    pub nr42: u8,
    pub nr43: u8,
    pub nr44: u8,
    pub master_volume: u8,
    pub mixing_control: u8,
    pub on_off_control: u8,
    pub waveform_ram: [u8; 16],
}

impl AudioController for AudioControllerImpl {}

/// A length timer after one countdown step, and whether it expired.
pub open spec fn length_tick(t: LengthTimer) -> (LengthTimer, bool) {
    if t.operational && t.enabled {
        let value: u16 = if t.current_value == 0 { 0 } else { (t.current_value - 1) as u16 };
        (LengthTimer { current_value: value, ..t }, value == 0)
    } else {
        (t, false)
    }
}

/// The controller with channel `channel` stopped: its length timer, and for channel 1 also
/// its envelope and sweep, stop running.
pub open spec fn stopped(s: AudioControllerImpl, channel: Channel) -> AudioControllerImpl {
    match channel {
        Channel::CH1 => AudioControllerImpl {
            ch1_length_timer: LengthTimer { operational: false, ..s.ch1_length_timer },
            ch1_envelope_sweeper: EnvelopeSweeper { operational: false, ..s.ch1_envelope_sweeper },
            ch1_wavelength_sweeper: WavelengthSweeper { operational: false, ..s.ch1_wavelength_sweeper },
            ..s
        },
        Channel::CH2 => AudioControllerImpl {
            ch2_length_timer: LengthTimer { operational: false, ..s.ch2_length_timer },
            ..s
        },
        Channel::CH3 => AudioControllerImpl {
            ch3_length_timer: LengthTimer { operational: false, ..s.ch3_length_timer },
            ..s
        },
        Channel::CH4 => AudioControllerImpl {
            ch4_length_timer: LengthTimer { operational: false, ..s.ch4_length_timer },
            ..s
        },
    }
}

/// The controller and commands after stopping `channel` when `expired`.
pub open spec fn stop_if(s: AudioControllerImpl, channel: Channel, expired: bool) -> (AudioControllerImpl, Seq<AudioCommand>) {
    if expired {
        (stopped(s, channel), seq![AudioCommand::Stop { channel }])
    } else {
        (s, Seq::empty())
    }
}

/// The length timer of a channel.
pub open spec fn length_timer_of(s: AudioControllerImpl, channel: Channel) -> LengthTimer {
    match channel {
        Channel::CH1 => s.ch1_length_timer,
        Channel::CH2 => s.ch2_length_timer,
        Channel::CH3 => s.ch3_length_timer,
        Channel::CH4 => s.ch4_length_timer,
    }
}

/// The controller with the length timer of `channel` replaced by `t`.
pub open spec fn with_length_timer(s: AudioControllerImpl, channel: Channel, t: LengthTimer) -> AudioControllerImpl {
    match channel {
        Channel::CH1 => AudioControllerImpl { ch1_length_timer: t, ..s },
        Channel::CH2 => AudioControllerImpl { ch2_length_timer: t, ..s },
        Channel::CH3 => AudioControllerImpl { ch3_length_timer: t, ..s },
        Channel::CH4 => AudioControllerImpl { ch4_length_timer: t, ..s },
    }
}

/// One channel's length step: its timer counts down and the channel stops when it expires.
pub open spec fn length_step(s: AudioControllerImpl, channel: Channel) -> (AudioControllerImpl, Seq<AudioCommand>) {
    let (t, expired) = length_tick(length_timer_of(s, channel));
    stop_if(with_length_timer(s, channel, t), channel, expired)
}

/// The length-timer step of the frame sequencer, channel by channel.
#[verifier::opaque]
pub open spec fn length_timers_tick(s: AudioControllerImpl) -> (AudioControllerImpl, Seq<AudioCommand>) {
    let (s1, c1) = length_step(s, Channel::CH1);
    let (s2, c2) = length_step(s1, Channel::CH2);
    let (s3, c3) = length_step(s2, Channel::CH3);
    let (s4, c4) = length_step(s3, Channel::CH4);
    (s4, c1 + c2 + c3 + c4)
}

/// The envelope step of the frame sequencer: channel 1's envelope ticks, and the channel is
/// stopped when its DAC is off.
#[verifier::opaque]
pub open spec fn envelope_tick(s: AudioControllerImpl) -> (AudioControllerImpl, Seq<AudioCommand>) {
    let (e, c, off) = envelope_tick_spec(s.ch1_envelope_sweeper);
    let (s1, c1) = stop_if(AudioControllerImpl { ch1_envelope_sweeper: e, ..s }, Channel::CH1, off);
    (s1, c + c1)
}

/// The commands of a wave channel tick.
pub open spec fn wave_tick_commands(p: CustomWavePlayer) -> Seq<AudioCommand> {
    (if p.triggered && p.enabled {
        seq![AudioCommand::PlayCustomWave { channel: p.channel, wavelength: p.wavelength, output_level: p.gain }]
    } else {
        Seq::empty()
    }) + (if !p.enabled {
        seq![AudioCommand::Stop { channel: p.channel }]
    } else {
        Seq::empty()
    })
}

/// The frequency sweep of pulse channel 1 (`first`) or 2.
pub open spec fn sweeper_of(s: AudioControllerImpl, first: bool) -> WavelengthSweeper {
    if first { s.ch1_wavelength_sweeper } else { s.ch2_wavelength_sweeper }
}

/// One pulse channel's sweep step: the sweep ticks and the channel stops on overflow.
pub open spec fn sweep_step(s: AudioControllerImpl, first: bool) -> (AudioControllerImpl, Seq<AudioCommand>) {
    let (w, c, overflowed) = sweep_tick_spec(sweeper_of(s, first));
    let s1 = if first {
        AudioControllerImpl { ch1_wavelength_sweeper: w, ..s }
    } else {
        AudioControllerImpl { ch2_wavelength_sweeper: w, ..s }
    };
    let (s2, d) = stop_if(s1, if first { Channel::CH1 } else { Channel::CH2 }, overflowed);
    (s2, c + d)
}

/// The sweep step of the frame sequencer: both frequency sweeps tick, a channel whose
/// wavelength overflows is stopped, and the wave channel ticks.
#[verifier::opaque]
pub open spec fn sweep_tick(s: AudioControllerImpl) -> (AudioControllerImpl, Seq<AudioCommand>) {
    let (s1, c1) = sweep_step(s, true);
    let (s2, c2) = sweep_step(s1, false);
    let p = s2.ch3_custom_wave_player;
    let s3 = AudioControllerImpl {
        ch3_custom_wave_player: CustomWavePlayer { triggered: p.triggered && !p.enabled, ..p },
        ..s2
    };
    (s3, c1 + c2 + wave_tick_commands(p))
}

/// The controller after channel `channel` is triggered.
pub open spec fn triggered(s: AudioControllerImpl, channel: Channel) -> AudioControllerImpl {
    let w1 = s.ch1_wavelength_sweeper;
    let w2 = s.ch2_wavelength_sweeper;
    let l1 = s.ch1_length_timer;
    let l2 = s.ch2_length_timer;
    let l3 = s.ch3_length_timer;
    let e1 = s.ch1_envelope_sweeper;
    let e2 = s.ch2_envelope_sweeper;
    match channel {
        Channel::CH1 => AudioControllerImpl {
            ch1_wavelength_sweeper: WavelengthSweeper {
                triggered: true,
                current_settings: w1.new_settings,
                current_tick: 0,
                current_value: w1.new_settings.initial_value,
                operational: true,
                ..w1
            },
            ch1_length_timer: LengthTimer {
                current_settings: l1.new_settings,
                current_value: l1.new_settings.initial_value,
                operational: true,
                ..l1
            },
            ch1_envelope_sweeper: EnvelopeSweeper {
                current_settings: e1.new_settings,
                current_tick: 0,
                current_value: e1.new_settings.initial_value,
                operational: true,
                ..e1
            },
            ..s
        },
        Channel::CH2 => AudioControllerImpl {
            ch2_wavelength_sweeper: WavelengthSweeper {
                triggered: true,
                current_settings: w2.new_settings,
                current_tick: 0,
                current_value: w2.new_settings.initial_value,
                operational: true,
                ..w2
            },
            ch2_length_timer: LengthTimer {
                current_settings: l2.new_settings,
                current_value: l2.new_settings.initial_value,
                operational: true,
                ..l2
            },
            ch2_envelope_sweeper: EnvelopeSweeper {
                current_settings: e2.new_settings,
                current_tick: 0,
                current_value: e2.new_settings.initial_value,
                operational: true,
                ..e2
            },
            ..s
        },
        Channel::CH3 => AudioControllerImpl {
            ch3_length_timer: LengthTimer {
                current_settings: l3.new_settings,
                current_value: l3.new_settings.initial_value,
                operational: true,
                ..l3
            },
            ch3_custom_wave_player: CustomWavePlayer { triggered: true, ..s.ch3_custom_wave_player },
            ..s
        },
        Channel::CH4 => s,
    }
}

/// The register settings stay in their ranges: sweep shifts of at most 7 and length timers
/// whose next length lies within their maximum.
pub open spec fn audio_wf(s: AudioControllerImpl) -> bool {
    &&& s.ch1_wavelength_sweeper.current_settings.shift <= 7
    &&& s.ch1_wavelength_sweeper.new_settings.shift <= 7
    &&& s.ch2_wavelength_sweeper.current_settings.shift <= 7
    &&& s.ch2_wavelength_sweeper.new_settings.shift <= 7
    &&& s.ch1_length_timer.max_value == 64
    &&& s.ch2_length_timer.max_value == 64
    &&& s.ch3_length_timer.max_value == 256
    &&& s.ch4_length_timer.max_value == 64
    &&& s.ch1_length_timer.new_settings.initial_value <= 64
    &&& s.ch2_length_timer.new_settings.initial_value <= 64
    &&& s.ch3_length_timer.new_settings.initial_value <= 256
    &&& s.ch4_length_timer.new_settings.initial_value <= 64
}

impl AudioControllerImpl {
    pub open spec fn wf(&self) -> bool {
        audio_wf(*self)
    }

    /// Every channel idle and every register zero.
    pub fn new() -> (r: Self)
        ensures
            r.wf(),
            r.previous_timer_div == 0,
            r.div_apu == 0,
            r.ch1_length_timer == LengthTimer::new_spec(Channel::CH1, 64),
            r.ch2_length_timer == LengthTimer::new_spec(Channel::CH2, 64),
            r.ch3_length_timer == LengthTimer::new_spec(Channel::CH3, 256),
            r.ch4_length_timer == LengthTimer::new_spec(Channel::CH4, 64),
            !r.ch1_wavelength_sweeper.operational && !r.ch2_wavelength_sweeper.operational,
            !r.ch1_envelope_sweeper.operational && !r.ch2_envelope_sweeper.operational,
            r.nr41 == 0 && r.nr42 == 0 && r.nr43 == 0 && r.nr44 == 0,
            r.master_volume == 0 && r.mixing_control == 0 && r.on_off_control == 0,
            r.waveform_ram@ == Seq::new(16, |i: int| 0u8),
    {
        let r = AudioControllerImpl {
            previous_timer_div: 0,
            div_apu: 0,
            ch1_length_timer: LengthTimer::new(Channel::CH1, 64),
            ch1_envelope_sweeper: EnvelopeSweeper::new(Channel::CH1),
            ch1_wavelength_sweeper: WavelengthSweeper::new(Channel::CH1),
            ch2_envelope_sweeper: EnvelopeSweeper::new(Channel::CH2),
            ch2_wavelength_sweeper: WavelengthSweeper::new(Channel::CH2),
            ch2_length_timer: LengthTimer::new(Channel::CH2, 64),
            ch3_length_timer: LengthTimer::new(Channel::CH3, 256),
            ch4_length_timer: LengthTimer::new(Channel::CH4, 64),
            ch3_custom_wave_player: CustomWavePlayer::new(Channel::CH3),
            nr41: 0,
            nr42: 0,
            nr43: 0,
            nr44: 0,
            master_volume: 0,
            mixing_control: 0,
            on_off_control: 0,
            waveform_ram: [0; 16],
        };
        assert(r.waveform_ram@ =~= Seq::new(16, |i: int| 0u8));
        r
    }

    fn stop(&mut self, channel: Channel, commands: &mut Vec<AudioCommand>)
        requires
            old(self).wf(),
        ensures
            final(self).wf(),
            *final(self) == stopped(*old(self), channel),
            final(commands)@ == old(commands)@.push(AudioCommand::Stop { channel }),
    {
        match channel {
            Channel::CH1 => {
                self.ch1_length_timer.operational = false;
                self.ch1_envelope_sweeper.operational = false;
                self.ch1_wavelength_sweeper.operational = false;
            },
            Channel::CH2 => {
                self.ch2_length_timer.operational = false;
            },
            Channel::CH3 => {
                self.ch3_length_timer.operational = false;
            },
            Channel::CH4 => {
                self.ch4_length_timer.operational = false;
            },
        }
        commands.push(AudioCommand::Stop { channel });
    }

    fn length_step_exec(&mut self, channel: Channel, commands: &mut Vec<AudioCommand>)
        requires
            old(self).wf(),
        ensures
            final(self).wf(),
            *final(self) == length_step(*old(self), channel).0,
            final(commands)@ == old(commands)@ + length_step(*old(self), channel).1,
    {
        let expired = match channel {
            Channel::CH1 => self.ch1_length_timer.tick_and_check_if_expired(),
            Channel::CH2 => self.ch2_length_timer.tick_and_check_if_expired(),
            Channel::CH3 => self.ch3_length_timer.tick_and_check_if_expired(),
            Channel::CH4 => self.ch4_length_timer.tick_and_check_if_expired(),
        };
        if expired {
            self.stop(channel, commands);
        }
        proof {
            assert(commands@ =~= old(commands)@ + length_step(*old(self), channel).1);
        }
    }

    fn length_timer_tick(&mut self, commands: &mut Vec<AudioCommand>)
        requires
            old(self).wf(),
        ensures
            final(self).wf(),
            final(self).div_apu == old(self).div_apu,
            *final(self) == length_timers_tick(*old(self)).0,
            final(commands)@ == old(commands)@ + length_timers_tick(*old(self)).1,
    {
        let ghost c0 = commands@;
        reveal(length_timers_tick);
        self.length_step_exec(Channel::CH1, commands);
        self.length_step_exec(Channel::CH2, commands);
        self.length_step_exec(Channel::CH3, commands);
        self.length_step_exec(Channel::CH4, commands);
        proof {
            assert(commands@ =~= c0 + length_timers_tick(*old(self)).1);
        }
    }

    fn envelope_sweep_tick(&mut self, commands: &mut Vec<AudioCommand>)
        requires
            old(self).wf(),
        ensures
            final(self).wf(),
            final(self).div_apu == old(self).div_apu,
            *final(self) == envelope_tick(*old(self)).0,
            final(commands)@ == old(commands)@ + envelope_tick(*old(self)).1,
    {
        let ghost c0 = commands@;
        reveal(envelope_tick);
        if self.ch1_envelope_sweeper.tick_and_check_if_dac_shutoff(commands) {
            self.stop(Channel::CH1, commands);
        }
        proof {
            assert(commands@ =~= c0 + envelope_tick(*old(self)).1);
        }
    }

    fn sweep_step_exec(&mut self, first: bool, commands: &mut Vec<AudioCommand>)
        requires
            old(self).wf(),
        ensures
            final(self).wf(),
            *final(self) == sweep_step(*old(self), first).0,
            final(commands)@ == old(commands)@ + sweep_step(*old(self), first).1,
    {
        let ghost c0 = commands@;
        if first {
            if self.ch1_wavelength_sweeper.tick_and_check_if_wavelength_overflowed(commands) {
                self.stop(Channel::CH1, commands);
            }
        } else {
            if self.ch2_wavelength_sweeper.tick_and_check_if_wavelength_overflowed(commands) {
                self.stop(Channel::CH2, commands);
            }
        }
        proof {
            assert(commands@ =~= c0 + sweep_step(*old(self), first).1);
        }
    }

    fn ch1_sweep_tick(&mut self, commands: &mut Vec<AudioCommand>)
        requires
            old(self).wf(),
        ensures
            final(self).wf(),
            final(self).div_apu == old(self).div_apu,
            *final(self) == sweep_tick(*old(self)).0,
            final(commands)@ == old(commands)@ + sweep_tick(*old(self)).1,
    {
        let ghost c0 = commands@;
        reveal(sweep_tick);
        self.sweep_step_exec(true, commands);
        self.sweep_step_exec(false, commands);
        self.ch3_custom_wave_player.tick(commands);
        proof {
            assert(commands@ =~= c0 + sweep_tick(*old(self)).1);
        }
    }

    /// The frame sequencer: on each falling edge of divider bit 12 (bit 13 at double speed),
    /// given the timer's 16-bit divider, it advances; every second step ticks the length
    /// timers, every fourth the sweeps, every eighth the envelope.
    #[verifier::rlimit(50)]
    pub fn tick(&mut self, divider: u16, double_speed: bool, commands: &mut Vec<AudioCommand>)
        requires
            old(self).wf(),
        ensures
            final(self).wf(),
            ({
                let new_div = (divider >> 8u16) as u8;
                let bit: u8 = if double_speed { 5 } else { 4 };
                let advance = bit_of_u8(old(self).previous_timer_div, bit) && !bit_of_u8(new_div, bit);
                let div_apu = old(self).div_apu.wrapping_add(1);
                let s0 = AudioControllerImpl { div_apu, ..*old(self) };
                let (s1, c1) = if div_apu % 2 == 0 { length_timers_tick(s0) } else { (s0, Seq::empty()) };
                let (s2, c2) = if div_apu % 4 == 0 { sweep_tick(s1) } else { (s1, Seq::empty()) };
                let (s3, c3) = if div_apu % 8 == 0 { envelope_tick(s2) } else { (s2, Seq::empty()) };
                if advance {
                    &&& *final(self) == AudioControllerImpl { previous_timer_div: new_div, ..s3 }
                    &&& final(commands)@ == old(commands)@ + c1 + c2 + c3
                } else {
                    &&& *final(self) == AudioControllerImpl { previous_timer_div: new_div, ..*old(self) }
                    &&& final(commands)@ == old(commands)@
                }
            }),
    {
        assert((divider >> 8u16) <= 0xFF) by (bit_vector);
        let new_timer_div = (divider >> 8u16) as u8;
        let divider_bit: u8 = if double_speed { 5 } else { 4 };
        if self.previous_timer_div.get_bit(divider_bit) && !new_timer_div.get_bit(divider_bit) {
            self.div_apu = self.div_apu.wrapping_add(1);
            let ghost s0 = *self;
            let ghost c0 = commands@;
            if self.div_apu % 2 == 0 {
                self.length_timer_tick(commands);
            }
            let ghost s1 = *self;
            let ghost c1 = commands@;
            let ghost d1 = if s0.div_apu % 2 == 0 { length_timers_tick(s0).1 } else { Seq::<AudioCommand>::empty() };
            assert(s1 == (if s0.div_apu % 2 == 0 { length_timers_tick(s0).0 } else { s0 }));
            assert(c1 =~= c0 + d1);
            if self.div_apu % 4 == 0 {
                self.ch1_sweep_tick(commands);
            }
            let ghost s2 = *self;
            let ghost c2 = commands@;
            let ghost d2 = if s0.div_apu % 4 == 0 { sweep_tick(s1).1 } else { Seq::<AudioCommand>::empty() };
            assert(s2 == (if s0.div_apu % 4 == 0 { sweep_tick(s1).0 } else { s1 }));
            assert(c2 =~= c1 + d2);
            if self.div_apu % 8 == 0 {
                self.envelope_sweep_tick(commands);
            }
            let ghost d3 = if s0.div_apu % 8 == 0 { envelope_tick(s2).1 } else { Seq::<AudioCommand>::empty() };
            assert(*self == (if s0.div_apu % 8 == 0 { envelope_tick(s2).0 } else { s2 }));
            assert(commands@ =~= c2 + d3);
            assert(commands@ =~= c0 + d1 + d2 + d3);
        }
        self.previous_timer_div = new_timer_div;
    }

    fn trigger(&mut self, channel: Channel)
        ensures
            *final(self) == triggered(*old(self), channel),
    {
        match channel {
            Channel::CH1 => {
                self.ch1_wavelength_sweeper.trigger();
                self.ch1_length_timer.trigger();
                self.ch1_envelope_sweeper.trigger();
            },
            Channel::CH2 => {
                self.ch2_wavelength_sweeper.trigger();
                self.ch2_length_timer.trigger();
                self.ch2_envelope_sweeper.trigger();
            },
            Channel::CH3 => {
                self.ch3_length_timer.trigger();
                self.ch3_custom_wave_player.trigger();
            },
            Channel::CH4 => {},
        }
    }
}

impl LengthTimer {
    /// A new idle timer.
    pub open spec fn new_spec(channel: Channel, max_value: u16) -> LengthTimer {
        LengthTimer {
            channel,
            current_value: 0,
            max_value,
            current_settings: LengthTimerSettings { initial_value: 0 },
            new_settings: LengthTimerSettings { initial_value: 0 },
            enabled: false,
            operational: false,
        }
    }
}

/// A flag as a bit at `position`.
pub open spec fn flag_bit(flag: bool, position: u8) -> u8 {
    if flag { 1u8 << position } else { 0 }
}

/// The length a length timer reports: the maximum less the next starting value, in eight bits.
pub open spec fn length_of(t: LengthTimer) -> u8 {
    (t.max_value - t.new_settings.initial_value) as u8
}

/// NR10, NR12 or NR22 composed from its fields.
pub open spec fn sweep_register(w: WavelengthSweeperSettings) -> u8 {
    w.shift | flag_bit(w.decrease, 3) | (w.pace << 4u8)
}

/// The envelope register composed from its fields.
pub open spec fn envelope_register(e: EnvelopeSweeperSettings) -> u8 {
    e.pace | flag_bit(e.ascending, 3) | (e.initial_value << 4u8)
}

/// What a read of sound register `address` (0xFF10 to 0xFF3F) returns; unused registers
/// read as 0.
pub open spec fn audio_peek(s: AudioControllerImpl, address: u16) -> u8 {
    let w1 = s.ch1_wavelength_sweeper.new_settings;
    let w2 = s.ch2_wavelength_sweeper.new_settings;
    if address == MemoryAddress::NR10 {
        sweep_register(w1)
    } else if address == MemoryAddress::NR11 {
        (duty_cycle_bits(w1.duty_cycle) << 6u8) | length_of(s.ch1_length_timer)
    } else if address == MemoryAddress::NR12 {
        envelope_register(s.ch1_envelope_sweeper.new_settings)
    } else if address == MemoryAddress::NR13 {
        lower_wavelength_bits(w1.initial_value)
    } else if address == MemoryAddress::NR14 {
        upper_wavelength_bits(w1.initial_value) | flag_bit(s.ch1_length_timer.enabled, 6)
    } else if address == MemoryAddress::NR21 {
        (duty_cycle_bits(w2.duty_cycle) << 6u8) | length_of(s.ch2_length_timer)
    } else if address == MemoryAddress::NR22 {
        envelope_register(s.ch2_envelope_sweeper.new_settings)
    } else if address == MemoryAddress::NR23 {
        lower_wavelength_bits(w2.initial_value)
    } else if address == MemoryAddress::NR24 {
        upper_wavelength_bits(w2.initial_value) | flag_bit(s.ch2_length_timer.enabled, 6)
    } else if address == MemoryAddress::NR30 {
        if s.ch3_custom_wave_player.enabled { 0x80 } else { 0 }
    } else if address == MemoryAddress::NR31 {
        length_of(s.ch3_length_timer)
    } else if address == MemoryAddress::NR32 {
        s.ch3_custom_wave_player.gain << 5u8
    } else if address == MemoryAddress::NR33 {
        lower_wavelength_bits(s.ch3_custom_wave_player.wavelength)
    } else if address == MemoryAddress::NR34 {
        upper_wavelength_bits(s.ch3_custom_wave_player.wavelength) | flag_bit(s.ch3_length_timer.enabled, 6)
    } else if address == MemoryAddress::NR41 {
        s.nr41
    } else if address == MemoryAddress::NR42 {
        s.nr42
    } else if address == MemoryAddress::NR43 {
        s.nr43
    } else if address == MemoryAddress::NR44 {
        s.nr44
    } else if address == MemoryAddress::NR50 {
        s.master_volume
    } else if address == MemoryAddress::NR51 {
        s.mixing_control
    } else if address == MemoryAddress::NR52 {
        s.on_off_control
    } else if 0xFF30 <= address <= 0xFF3F {
        s.waveform_ram@[address - 0xFF30]
    } else {
        0
    }
}

/// Sweep settings after a write to NR10.
pub open spec fn written_sweep(w: WavelengthSweeperSettings, value: u8) -> WavelengthSweeperSettings {
    WavelengthSweeperSettings { shift: value & 0x7, decrease: bit_of_u8(value, 3), pace: (value >> 4u8) & 0x7, ..w }
}

/// Envelope settings after a write to NR12 or NR22.
pub open spec fn written_envelope(e: EnvelopeSweeperSettings, value: u8) -> EnvelopeSweeperSettings {
    EnvelopeSweeperSettings { pace: value & 0x7, ascending: bit_of_u8(value, 3), initial_value: value >> 4u8 }
}

/// A length timer after its length is set to `length`.
pub open spec fn with_length(t: LengthTimer, length: u8) -> LengthTimer {
    LengthTimer { new_settings: LengthTimerSettings { initial_value: (t.max_value - length) as u16 }, ..t }
}

/// The controller after writing `value` to sound register `address` (outside the wave RAM).
/// Writes to NR14, NR24 and NR34 with bit 7 set trigger the channel; NR52 takes only bit 7.
#[verifier::opaque]
pub open spec fn audio_written(s: AudioControllerImpl, address: u16, value: u8) -> AudioControllerImpl {
    let w1 = s.ch1_wavelength_sweeper;
    let w2 = s.ch2_wavelength_sweeper;
    let p = s.ch3_custom_wave_player;
    if address == MemoryAddress::NR10 {
        AudioControllerImpl {
            ch1_wavelength_sweeper: WavelengthSweeper { new_settings: written_sweep(w1.new_settings, value), ..w1 },
            ..s
        }
    } else if address == MemoryAddress::NR11 {
        AudioControllerImpl {
            ch1_wavelength_sweeper: WavelengthSweeper {
                new_settings: WavelengthSweeperSettings { duty_cycle: duty_cycle_of(value >> 6u8), ..w1.new_settings },
                ..w1
            },
            ch1_length_timer: with_length(s.ch1_length_timer, value & 0x3F),
            ..s
        }
    } else if address == MemoryAddress::NR12 {
        AudioControllerImpl {
            ch1_envelope_sweeper: EnvelopeSweeper {
                new_settings: written_envelope(s.ch1_envelope_sweeper.new_settings, value),
                ..s.ch1_envelope_sweeper
            },
            ..s
        }
    } else if address == MemoryAddress::NR13 {
        AudioControllerImpl {
            ch1_wavelength_sweeper: WavelengthSweeper {
                new_settings: WavelengthSweeperSettings {
                    initial_value: with_lower_wavelength_bits(w1.new_settings.initial_value, value),
                    ..w1.new_settings
                },
                ..w1
            },
            ..s
        }
    } else if address == MemoryAddress::NR14 {
        let s1 = AudioControllerImpl {
            ch1_wavelength_sweeper: WavelengthSweeper {
                new_settings: WavelengthSweeperSettings {
                    initial_value: with_upper_wavelength_bits(w1.new_settings.initial_value, value),
                    ..w1.new_settings
                },
                ..w1
            },
            ch1_length_timer: LengthTimer { enabled: bit_of_u8(value, 6), ..s.ch1_length_timer },
            ..s
        };
        if bit_of_u8(value, 7) { triggered(s1, Channel::CH1) } else { s1 }
    } else if address == MemoryAddress::NR21 {
        AudioControllerImpl {
            ch2_wavelength_sweeper: WavelengthSweeper {
                new_settings: WavelengthSweeperSettings { duty_cycle: duty_cycle_of(value >> 6u8), ..w2.new_settings },
                ..w2
            },
            ch2_length_timer: with_length(s.ch2_length_timer, value & 0x3F),
            ..s
        }
    } else if address == MemoryAddress::NR22 {
        AudioControllerImpl {
            ch2_envelope_sweeper: EnvelopeSweeper {
                new_settings: written_envelope(s.ch2_envelope_sweeper.new_settings, value),
                ..s.ch2_envelope_sweeper
            },
            ..s
        }
    } else if address == MemoryAddress::NR23 {
        AudioControllerImpl {
            ch2_wavelength_sweeper: WavelengthSweeper {
                new_settings: WavelengthSweeperSettings {
                    initial_value: with_lower_wavelength_bits(w2.new_settings.initial_value, value),
                    ..w2.new_settings
                },
                ..w2
            },
            ..s
        }
    } else if address == MemoryAddress::NR24 {
        let s1 = AudioControllerImpl {
            ch2_wavelength_sweeper: WavelengthSweeper {
                new_settings: WavelengthSweeperSettings {
                    initial_value: with_upper_wavelength_bits(w2.new_settings.initial_value, value),
                    ..w2.new_settings
                },
                ..w2
            },
            ch2_length_timer: LengthTimer { enabled: bit_of_u8(value, 6), ..s.ch2_length_timer },
            ..s
        };
        if bit_of_u8(value, 7) { triggered(s1, Channel::CH2) } else { s1 }
    } else if address == MemoryAddress::NR30 {
        AudioControllerImpl { ch3_custom_wave_player: CustomWavePlayer { enabled: bit_of_u8(value, 7), ..p }, ..s }
    } else if address == MemoryAddress::NR31 {
        AudioControllerImpl { ch3_length_timer: with_length(s.ch3_length_timer, value), ..s }
    } else if address == MemoryAddress::NR32 {
        AudioControllerImpl { ch3_custom_wave_player: CustomWavePlayer { gain: (value >> 5u8) & 0x3, ..p }, ..s }
    } else if address == MemoryAddress::NR33 {
        AudioControllerImpl {
            ch3_custom_wave_player: CustomWavePlayer {
                wavelength: with_lower_wavelength_bits(p.wavelength, value),
                ..p
            },
            ..s
        }
    } else if address == MemoryAddress::NR34 {
        let s1 = AudioControllerImpl {
            ch3_custom_wave_player: CustomWavePlayer {
                wavelength: with_upper_wavelength_bits(p.wavelength, value),
                ..p
            },
            ch3_length_timer: LengthTimer { enabled: bit_of_u8(value, 6), ..s.ch3_length_timer },
            ..s
        };
        if bit_of_u8(value, 7) { triggered(s1, Channel::CH3) } else { s1 }
    } else if address == MemoryAddress::NR41 {
        AudioControllerImpl { nr41: value, ..s }
    } else if address == MemoryAddress::NR42 {
        AudioControllerImpl { nr42: value, ..s }
    } else if address == MemoryAddress::NR43 {
        AudioControllerImpl { nr43: value, ..s }
    } else if address == MemoryAddress::NR44 {
        AudioControllerImpl { nr44: value, ..s }
    } else if address == MemoryAddress::NR50 {
        AudioControllerImpl { master_volume: value, ..s }
    } else if address == MemoryAddress::NR51 {
        AudioControllerImpl { mixing_control: value, ..s }
    } else if address == MemoryAddress::NR52 {
        AudioControllerImpl { on_off_control: (s.on_off_control & 0x7F) | (value & 0x80), ..s }
    } else {
        s
    }
}

fn flag_as_bit(flag: bool, position: u8) -> (r: u8)
    requires
        position < 8,
    ensures
        r == flag_bit(flag, position),
{
    if flag {
        1u8 << position
    } else {
        0
    }
}

impl Memory for AudioControllerImpl {
    open spec fn maps(&self, address: u16) -> bool {
        &&& 0xFF10 <= address <= 0xFF3F
        &&& self.wf()
    }

    open spec fn peek(&self, address: u16) -> u8 {
        audio_peek(*self, address)
    }

    /// Wave RAM writes land in the wave channel's samples.
    open spec fn written(&self, address: u16, value: u8, post: Self) -> bool {
        if 0xFF30 <= address <= 0xFF3F {
            let p = self.ch3_custom_wave_player;
            &&& post.ch3_custom_wave_player.waveform@ == p.waveform@.update(address - 0xFF30, value)
            &&& post == AudioControllerImpl {
                ch3_custom_wave_player: CustomWavePlayer { waveform: post.ch3_custom_wave_player.waveform, ..p },
                ..*self
            }
        } else {
            post == audio_written(*self, address, value)
        }
    }

    #[verifier::rlimit(30)]
    fn read(&self, address: u16) -> (r: u8) {
        if address == MemoryAddress::NR10 {
            let w = self.ch1_wavelength_sweeper.new_settings;
            w.shift | flag_as_bit(w.decrease, 3) | (w.pace << 4u8)
        } else if address == MemoryAddress::NR11 {
            let duty_cycle_bits = bits_of_duty_cycle(self.ch1_wavelength_sweeper.new_settings.duty_cycle);
            (duty_cycle_bits << 6u8) | self.ch1_length_timer.length()
        } else if address == MemoryAddress::NR12 {
            let e = self.ch1_envelope_sweeper.new_settings;
            e.pace | flag_as_bit(e.ascending, 3) | (e.initial_value << 4u8)
        } else if address == MemoryAddress::NR13 {
            self.ch1_wavelength_sweeper.new_settings.get_lower_wavelength_bits()
        } else if address == MemoryAddress::NR14 {
            self.ch1_wavelength_sweeper.new_settings.get_upper_wavelength_bits() | flag_as_bit(
                self.ch1_length_timer.enabled,
                6,
            )
        } else if address == MemoryAddress::NR21 {
            let duty_cycle_bits = bits_of_duty_cycle(self.ch2_wavelength_sweeper.new_settings.duty_cycle);
            (duty_cycle_bits << 6u8) | self.ch2_length_timer.length()
        } else if address == MemoryAddress::NR22 {
            let e = self.ch2_envelope_sweeper.new_settings;
            e.pace | flag_as_bit(e.ascending, 3) | (e.initial_value << 4u8)
        } else if address == MemoryAddress::NR23 {
            self.ch2_wavelength_sweeper.new_settings.get_lower_wavelength_bits()
        } else if address == MemoryAddress::NR24 {
            self.ch2_wavelength_sweeper.new_settings.get_upper_wavelength_bits() | flag_as_bit(
                self.ch2_length_timer.enabled,
                6,
            )
        } else if address == MemoryAddress::NR30 {
            if self.ch3_custom_wave_player.enabled {
                0x80
            } else {
                0
            }
        } else if address == MemoryAddress::NR31 {
            self.ch3_length_timer.length()
        } else if address == MemoryAddress::NR32 {
            self.ch3_custom_wave_player.gain << 5u8
        } else if address == MemoryAddress::NR33 {
            self.ch3_custom_wave_player.get_lower_wavelength_bits()
        } else if address == MemoryAddress::NR34 {
            self.ch3_custom_wave_player.get_upper_wavelength_bits() | flag_as_bit(self.ch3_length_timer.enabled, 6)
        } else if address == MemoryAddress::NR41 {
            self.nr41
        } else if address == MemoryAddress::NR42 {
            self.nr42
        } else if address == MemoryAddress::NR43 {
            self.nr43
        } else if address == MemoryAddress::NR44 {
            self.nr44
        } else if address == MemoryAddress::NR50 {
            self.master_volume
        } else if address == MemoryAddress::NR51 {
            self.mixing_control
        } else if address == MemoryAddress::NR52 {
            self.on_off_control
        } else if 0xFF30 <= address {
            self.waveform_ram[(address - 0xFF30) as usize]
        } else {
            0
        }
    }

    fn write(&mut self, address: u16, value: u8) {
        if address <= 0xFF14 {
            self.write_square_1(address, value);
        } else if 0xFF16 <= address && address <= 0xFF19 {
            self.write_square_2(address, value);
        } else if 0xFF1A <= address && address <= 0xFF1E {
            self.write_wave(address, value);
        } else if 0xFF30 <= address {
            self.ch3_custom_wave_player.waveform[(address - 0xFF30) as usize] = value;
        } else {
            self.write_control(address, value);
        }
    }
}

impl AudioControllerImpl {
    #[verifier::rlimit(80)]
    fn write_square_1(&mut self, address: u16, value: u8)
        requires
            old(self).wf(),
            0xFF10 <= address <= 0xFF14,
        ensures
            final(self).wf(),
            *final(self) == audio_written(*old(self), address, value),
    {
        reveal(audio_written);
        if address == MemoryAddress::NR10 {
            assert(value & 0x7 <= 7) by (bit_vector);
            self.ch1_wavelength_sweeper.new_settings.shift = value & 0x7;
            self.ch1_wavelength_sweeper.new_settings.decrease = value.get_bit(3);
            self.ch1_wavelength_sweeper.new_settings.pace = (value >> 4u8) & 0x7;
        } else if address == MemoryAddress::NR11 {
            self.ch1_wavelength_sweeper.new_settings.duty_cycle = duty_cycle_from_bits(value >> 6u8);
            assert(value & 0x3F <= 63) by (bit_vector);
            self.ch1_length_timer.set_length(value & 0x3F);
        } else if address == MemoryAddress::NR12 {
            self.ch1_envelope_sweeper.new_settings.pace = value & 0x7;
            self.ch1_envelope_sweeper.new_settings.ascending = value.get_bit(3);
            self.ch1_envelope_sweeper.new_settings.initial_value = value >> 4u8;
        } else if address == MemoryAddress::NR13 {
            self.ch1_wavelength_sweeper.new_settings.set_lower_wavelength_bits(value);
        } else {
            self.ch1_wavelength_sweeper.new_settings.set_upper_wavelength_bits(value);
            self.ch1_length_timer.enabled = value.get_bit(6);
            if value.get_bit(7) {
                self.trigger(Channel::CH1);
            }
        }
    }

    #[verifier::rlimit(80)]
    fn write_square_2(&mut self, address: u16, value: u8)
        requires
            old(self).wf(),
            0xFF16 <= address <= 0xFF19,
        ensures
            final(self).wf(),
            *final(self) == audio_written(*old(self), address, value),
    {
        reveal(audio_written);
        if address == MemoryAddress::NR21 {
            self.ch2_wavelength_sweeper.new_settings.duty_cycle = duty_cycle_from_bits(value >> 6u8);
            assert(value & 0x3F <= 63) by (bit_vector);
            self.ch2_length_timer.set_length(value & 0x3F);
        } else if address == MemoryAddress::NR22 {
            self.ch2_envelope_sweeper.new_settings.pace = value & 0x7;
            self.ch2_envelope_sweeper.new_settings.ascending = value.get_bit(3);
            self.ch2_envelope_sweeper.new_settings.initial_value = value >> 4u8;
        } else if address == MemoryAddress::NR23 {
            self.ch2_wavelength_sweeper.new_settings.set_lower_wavelength_bits(value);
        } else {
            self.ch2_wavelength_sweeper.new_settings.set_upper_wavelength_bits(value);
            self.ch2_length_timer.enabled = value.get_bit(6);
            if value.get_bit(7) {
                self.trigger(Channel::CH2);
            }
        }
    }

    fn write_wave(&mut self, address: u16, value: u8)
        requires
            old(self).wf(),
            0xFF1A <= address <= 0xFF1E,
        ensures
            final(self).wf(),
            *final(self) == audio_written(*old(self), address, value),
    {
        reveal(audio_written);
        if address == MemoryAddress::NR30 {
            self.ch3_custom_wave_player.enabled = value.get_bit(7);
        } else if address == MemoryAddress::NR31 {
            self.ch3_length_timer.set_length(value);
        } else if address == MemoryAddress::NR32 {
            self.ch3_custom_wave_player.gain = (value >> 5u8) & 0x3;
        } else if address == MemoryAddress::NR33 {
            self.ch3_custom_wave_player.set_lower_wavelength_bits(value);
        } else {
            self.ch3_custom_wave_player.set_upper_wavelength_bits(value);
            self.ch3_length_timer.enabled = value.get_bit(6);
            if value.get_bit(7) {
                self.trigger(Channel::CH3);
            }
        }
    }

    fn write_control(&mut self, address: u16, value: u8)
        requires
            old(self).wf(),
            address == 0xFF15 || 0xFF1F <= address <= 0xFF2F,
        ensures
            final(self).wf(),
            *final(self) == audio_written(*old(self), address, value),
    {
        reveal(audio_written);
        if address == MemoryAddress::NR41 {
            self.nr41 = value;
        } else if address == MemoryAddress::NR42 {
            self.nr42 = value;
        } else if address == MemoryAddress::NR43 {
            self.nr43 = value;
        } else if address == MemoryAddress::NR44 {
            self.nr44 = value;
        } else if address == MemoryAddress::NR50 {
            self.master_volume = value;
        } else if address == MemoryAddress::NR51 {
            self.mixing_control = value;
        } else if address == MemoryAddress::NR52 {
            self.on_off_control = (self.on_off_control & 0x7F) | (value & 0x80);
        }
    }
}

/// Shifting right never makes a wavelength larger.
pub proof fn lemma_shift_down_bound(value: u16, shift: u8)
    by (bit_vector)
    ensures
        value >> shift <= value,
{
}

/// The direction of a sweep step: when a step falls due, with NR10's decrease bit set the
/// wavelength drops by itself shifted right by the sweep shift, and never rises; with it
/// clear it rises by that amount, counted in 16 bits. The new wavelength is played, and
/// the overflow report tells whether it has left the 11-bit range.
pub proof fn law_sweep_step_direction(s: WavelengthSweeper)
    requires
        s.operational,
        s.current_settings.pace != 0,
        s.current_settings.shift != 0,
        (s.current_tick + 1) % (s.current_settings.pace as int) == 0,
    ensures
        ({
            let value = s.current_value;
            let step = value >> s.current_settings.shift;
            let (next, commands, overflowed) = sweep_tick_spec(s);
            &&& s.current_settings.decrease ==> next.current_value + step == value && next.current_value <= value
            &&& !s.current_settings.decrease ==> next.current_value == (value + step) % 65536
            &&& !s.current_settings.decrease && value + step < 65536 ==> next.current_value >= value
            &&& commands.len() > 0
            &&& commands.last() == AudioCommand::PlayPulse {
                channel: s.channel,
                wavelength: next.current_value,
                duty_cycle: s.current_settings.duty_cycle,
            }
            &&& overflowed == (next.current_value > 0x7FF)
        }),
{
    lemma_shift_down_bound(s.current_value, s.current_settings.shift);
}

} // verus!
