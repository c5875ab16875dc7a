use gbemu::audio::audio_driver::{AudioCommand, Channel, DutyCycle};
use gbemu::audio::custom_wave_player::{CustomWavePlayer as WavePlayer, CustomWavePlayerTickResult};
use gbemu::audio::gain_controller::{GainController, GainControllerTickResult};
use gbemu::controllers::audio::{AudioControllerImpl, LengthTimer, WavelengthSweeper, WavelengthSweeperSettings};
use gbemu::memory::memory::Memory;

#[test]
fn wavelength_register_bits() {
    let mut settings = WavelengthSweeperSettings::new();
    settings.set_lower_wavelength_bits(0xCD);
    settings.set_upper_wavelength_bits(0xFB);
    assert_eq!(settings.initial_value, 0x3CD);
    assert_eq!(settings.get_lower_wavelength_bits(), 0xCD);
    assert_eq!(settings.get_upper_wavelength_bits(), 0x03);
}

#[test]
fn sweep_raises_wavelength_until_overflow() {
    let mut sweeper = WavelengthSweeper::new(Channel::CH1);
    sweeper.new_settings.initial_value = 0x700;
    sweeper.new_settings.shift = 1;
    sweeper.new_settings.pace = 1;
    sweeper.trigger();
    let mut commands = Vec::new();
    let overflowed = sweeper.tick_and_check_if_wavelength_overflowed(&mut commands);
    assert!(overflowed);
    assert_eq!(sweeper.current_value, 0xA80);
    assert_eq!(
        commands,
        vec![
            AudioCommand::PlayPulse { channel: Channel::CH1, wavelength: 0x700, duty_cycle: DutyCycle::Duty125 },
            AudioCommand::PlayPulse { channel: Channel::CH1, wavelength: 0xA80, duty_cycle: DutyCycle::Duty125 },
        ]
    );
}

#[test]
fn length_timer_counts_down() {
    let mut timer = LengthTimer::new(Channel::CH2, 64);
    timer.set_length(62);
    assert_eq!(timer.length(), 62);
    timer.enabled = true;
    timer.trigger();
    assert!(!timer.tick_and_check_if_expired());
    assert!(timer.tick_and_check_if_expired());
    assert!(timer.tick_and_check_if_expired());
}

#[test]
fn length_timer_stops_channel_through_frame_sequencer() {
    let mut controller = AudioControllerImpl::new();
    controller.write(0xFF11, 0x3F);
    controller.write(0xFF14, 0xC0);
    assert_eq!(controller.read(0xFF11) & 0x3F, 0x3F);
    let mut commands = Vec::new();
    let mut divider: u16 = 0;
    for _ in 0..4 {
        divider = divider.wrapping_add(0x1000);
        controller.tick(divider, false, &mut commands);
        divider = divider.wrapping_add(0x1000);
        controller.tick(divider, false, &mut commands);
    }
    assert!(commands.contains(&AudioCommand::Stop { channel: Channel::CH1 }));
    assert!(!controller.ch1_length_timer.operational);
}

#[test]
fn audio_registers_read_back() {
    let mut controller = AudioControllerImpl::new();
    controller.write(0xFF10, 0x7B);
    assert_eq!(controller.read(0xFF10), 0x7B);
    controller.write(0xFF12, 0xF3);
    assert_eq!(controller.read(0xFF12), 0xF3);
    controller.write(0xFF16, 0x80);
    assert_eq!(controller.read(0xFF16), 0x80);
    controller.write(0xFF1C, 0x60);
    assert_eq!(controller.read(0xFF1C), 0x60);
    controller.write(0xFF26, 0xFF);
    assert_eq!(controller.read(0xFF26), 0x80);
    controller.write(0xFF30, 0xAB);
    assert_eq!(controller.ch3_custom_wave_player.waveform[0], 0xAB);
    assert_eq!(controller.read(0xFF15), 0);
}

#[test]
fn wave_channel_plays_when_triggered() {
    let mut controller = AudioControllerImpl::new();
    controller.write(0xFF30, 0x1F);
    controller.write(0xFF1A, 0x80);
    controller.write(0xFF1C, 0x20);
    controller.write(0xFF1D, 0x34);
    controller.write(0xFF1E, 0x82);
    let mut commands = Vec::new();
    let mut divider: u16 = 0;
    for _ in 0..8 {
        divider = divider.wrapping_add(0x1000);
        controller.tick(divider, false, &mut commands);
    }
    assert!(commands.contains(&AudioCommand::PlayCustomWave { channel: Channel::CH3, wavelength: 0x234, output_level: 1 }));
    let samples = controller.ch3_custom_wave_player.samples();
    assert_eq!(samples[0], 0x1);
    assert_eq!(samples[1], 0xF);
    assert_eq!(samples.len(), 32);
}

#[test]
fn gain_controller_steps_volume() {
    let mut gain = GainController::new(Channel::CH2);
    gain.new_settings.initial_value = 2;
    gain.new_settings.pace = 1;
    gain.trigger();
    let mut commands = Vec::new();
    assert_eq!(gain.tick(&mut commands), GainControllerTickResult::Playing);
    assert_eq!(commands, vec![AudioCommand::SetGain { channel: Channel::CH2, level: 1 }]);
    gain.new_settings.initial_value = 0;
    gain.trigger();
    assert_eq!(gain.tick(&mut commands), GainControllerTickResult::DacShutOff);
}

#[test]
fn custom_wave_player_tick() {
    let mut player = WavePlayer::new(Channel::CH3);
    let mut commands = Vec::new();
    assert_eq!(player.tick(&mut commands), CustomWavePlayerTickResult::DacShutOff);
    assert!(commands.is_empty());
    player.dac_enabled = true;
    player.set_lower_wavelength_bits(0x10);
    player.set_upper_wavelength_bits(0x07);
    player.trigger();
    assert_eq!(player.tick(&mut commands), CustomWavePlayerTickResult::Playing);
    assert!(player.playing);
    assert_eq!(commands.len(), 3);
    assert_eq!(commands[0], AudioCommand::SetFrequency { channel: Channel::CH3, wavelength: 0x710 });
}
