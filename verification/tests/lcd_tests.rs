use gbemu::controllers::lcd::{LCDController, LCDControllerImpl, Stat, LCDC};
use gbemu::cpu::interrupts::InterruptControllerImpl;
use gbemu::features::lcd::{LCDMode, LCD};
use gbemu::memory::memory::{FlatMemory, Memory};
use gbemu::memory::oam::OAM;
use gbemu::renderer::renderer::{TileAddressingMode, TileMapIndex};
use gbemu::time::time::ClockAware;

#[test]
fn stat_blocking() {
    let mut controller = LCDControllerImpl::new();
    let mut interrupt_controller = InterruptControllerImpl::new();
    let oam = OAM::new();
    // Advance into mode 3 of line 2; no STAT source is enabled, so nothing is requested.
    for _ in 0..248 {
        controller.tick(&mut interrupt_controller, &oam, false);
    }
    assert_eq!(interrupt_controller.read(0xFF0F), 0x00);
    controller.write(0xFF41, 0x28); // Enable STAT interrupt for Mode 2 and HBlank
    // Run into HBlank of line 2: exactly one STAT request.
    while controller.get_mode() != LCDMode::HBlank {
        controller.tick(&mut interrupt_controller, &oam, false);
    }
    assert_eq!(interrupt_controller.read(0xFF0F), 0x02);
    interrupt_controller.write(0xFF0F, 0x00);
    // Through mode 2 of the next line the STAT line stays high: no new request.
    while controller.line == 2 || controller.get_mode() == LCDMode::Mode2 {
        controller.tick(&mut interrupt_controller, &oam, false);
    }
    assert_eq!(controller.line, 3);
    assert_eq!(interrupt_controller.read(0xFF0F), 0x00);
}

#[test]
fn vblank_interrupt_is_requested_once_per_line_of_vblank_start() {
    let mut controller = LCDControllerImpl::new();
    let mut interrupt_controller = InterruptControllerImpl::new();
    let oam = OAM::new();
    while controller.line < 144 {
        controller.tick(&mut interrupt_controller, &oam, false);
    }
    assert_eq!(controller.get_mode(), LCDMode::VBlank);
    assert_eq!(interrupt_controller.read(0xFF0F) & 0x01, 0x01);
    assert_eq!(controller.read(0xFF41) & 0x03, 0x01);
}

#[test]
fn mode_three_ticks_ask_for_drawing() {
    let mut controller = LCDControllerImpl::new();
    let mut interrupt_controller = InterruptControllerImpl::new();
    let oam = OAM::new();
    let mut draws = 0;
    for _ in 0..114 {
        if controller.tick(&mut interrupt_controller, &oam, false) {
            draws += 1;
        }
    }
    assert_eq!(draws, 42);
}

#[test]
fn sprite_search_finds_objects_on_the_line() {
    let mut controller = LCDControllerImpl::new();
    let mut interrupt_controller = InterruptControllerImpl::new();
    let mut oam = OAM::new();
    for index in 0..12u16 {
        oam.write(0xFE00 + 4 * index, 16);
    }
    for _ in 0..19 {
        controller.tick(&mut interrupt_controller, &oam, false);
    }
    assert_eq!(controller.intersecting_object_indices, vec![0, 1, 2, 3, 4, 5, 6, 7, 8, 9]);
}

#[test]
fn stat_and_lcdc_fields() {
    let mut stat = Stat(0x00);
    stat.set_mode(LCDMode::Mode3);
    assert_eq!(stat.0, 0x03);
    stat.set_lyc_equals_line(true);
    assert!(stat.lyc_equals_line());
    assert_eq!(stat.0, 0x07);
    assert!(!stat.interrupt_enabled_for_mode(LCDMode::Mode3));
    let lcdc = LCDC(0x99);
    assert!(lcdc.bg_enabled());
    assert!(!lcdc.obj_enabled());
    assert!(lcdc.lcd_enabled());
    assert_eq!(lcdc.bg_tile_map_index(), TileMapIndex::TileMap2);
    assert_eq!(lcdc.window_tile_map_index(), TileMapIndex::TileMap1);
    assert_eq!(lcdc.bg_and_window_tile_addressing_mode(), TileAddressingMode::Mode8000);
    assert_eq!(lcdc.bg_and_window_tile_data_address(), 0x9000);
}

#[test]
fn lcd_timing_and_sprite_search() {
    let mut lcd: LCD<InterruptControllerImpl, FlatMemory> = LCD::new(InterruptControllerImpl::new());
    let mut oam = OAM::new();
    oam.write(0xFE00 + 4 * 2, 16);
    oam.write(0xFE00 + 4 * 3, 10);
    lcd.set_oam(oam);
    assert_eq!(lcd.current_line(), 0);
    lcd.tick();
    assert_eq!(lcd.current_column(), 4);
    assert_eq!(lcd.intersecting_object_indices, vec![2, 3]);
    for _ in 0..114 {
        lcd.tick();
    }
    assert_eq!(lcd.current_line(), 1);
    assert_eq!(lcd.current_column(), 4);
    assert_eq!(lcd.get_mode(), LCDMode::Mode2);
}

#[test]
fn window_line_shows_only_when_on_screen() {
    let mut controller = LCDControllerImpl::new();
    assert!(!controller.should_draw_window_line());
    controller.write(0xFF4B, 7);
    assert!(controller.should_draw_window_line());
    controller.write(0xFF4B, 167);
    assert!(!controller.should_draw_window_line());
    controller.write(0xFF4B, 166);
    controller.write(0xFF4A, 144);
    assert!(!controller.should_draw_window_line());
    controller.write(0xFF4A, 143);
    assert!(controller.should_draw_window_line());
}
