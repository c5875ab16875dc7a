use gbemu::emulator::compatibility_palette::CompatibilityPaletteLoader;
use gbemu::features::palette::CRAM;
use gbemu::memory::cram::{CRAMImpl, ColorReference, CRAM as ColorLookup};
use gbemu::memory::memory::Memory;
use gbemu::renderer::renderer::Color;

#[test]
fn get_pokemon_red_compatibility_palette() {
    let result = CompatibilityPaletteLoader::get_compatibility_palettes(true, 0x14, 0x00);
    assert_eq!(result.bgp[0], Color::from_rgb(0xFF, 0xFF, 0xFF).to_rgb555());
    assert_eq!(result.bgp[1], Color::from_rgb(0xFF, 0x84, 0x84).to_rgb555());
    assert_eq!(result.bgp[2], Color::from_rgb(0x94, 0x3A, 0x3A).to_rgb555());
    assert_eq!(result.bgp[3], Color::from_rgb(0x00, 0x00, 0x00).to_rgb555());
    assert_eq!(result.obj0[0], Color::from_rgb(0xFF, 0xFF, 0xFF).to_rgb555());
    assert_eq!(result.obj0[1], Color::from_rgb(0x7B, 0xFF, 0x31).to_rgb555());
    assert_eq!(result.obj0[2], Color::from_rgb(0x00, 0x84, 0x00).to_rgb555());
    assert_eq!(result.obj0[3], Color::from_rgb(0x00, 0x00, 0x00).to_rgb555());
    assert_eq!(result.obj1[0], Color::from_rgb(0xFF, 0xFF, 0xFF).to_rgb555());
    assert_eq!(result.obj1[1], Color::from_rgb(0xFF, 0x84, 0x84).to_rgb555());
    assert_eq!(result.obj1[2], Color::from_rgb(0x94, 0x3A, 0x3A).to_rgb555());
    assert_eq!(result.obj1[3], Color::from_rgb(0x00, 0x00, 0x00).to_rgb555());
}

#[test]
fn get_loz_links_awakening_compatibility_palette() {
    let result = CompatibilityPaletteLoader::get_compatibility_palettes(true, 0x70, 0x00);
    assert_eq!(result.bgp[0], Color::from_rgb(0xFF, 0xFF, 0xFF).to_rgb555());
    assert_eq!(result.bgp[1], Color::from_rgb(0xFF, 0x84, 0x84).to_rgb555());
    assert_eq!(result.bgp[2], Color::from_rgb(0x94, 0x3A, 0x3A).to_rgb555());
    assert_eq!(result.bgp[3], Color::from_rgb(0x00, 0x00, 0x00).to_rgb555());
    assert_eq!(result.obj0[0], Color::from_rgb(0xFF, 0xFF, 0xFF).to_rgb555());
    assert_eq!(result.obj0[1], Color::from_rgb(0x00, 0xFF, 0x00).to_rgb555());
    assert_eq!(result.obj0[2], Color::from_rgb(0x31, 0x84, 0x00).to_rgb555());
    assert_eq!(result.obj0[3], Color::from_rgb(0x00, 0x4A, 0x00).to_rgb555());
    assert_eq!(result.obj1[0], Color::from_rgb(0xFF, 0xFF, 0xFF).to_rgb555());
    assert_eq!(result.obj1[1], Color::from_rgb(0x63, 0xA5, 0xFF).to_rgb555());
    assert_eq!(result.obj1[2], Color::from_rgb(0x00, 0x00, 0xFF).to_rgb555());
    assert_eq!(result.obj1[3], Color::from_rgb(0x00, 0x00, 0x00).to_rgb555());
}

#[test]
fn get_kirby_dream_land_compatibility_palette() {
    let result = CompatibilityPaletteLoader::get_compatibility_palettes(true, 0xB3, 0x42);
    assert_eq!(result.bgp[0], Color::from_rgb(0xA5, 0x9C, 0xFF).to_rgb555());
    assert_eq!(result.bgp[1], Color::from_rgb(0xFF, 0xFF, 0x00).to_rgb555());
    assert_eq!(result.bgp[2], Color::from_rgb(0x00, 0x63, 0x00).to_rgb555());
    assert_eq!(result.bgp[3], Color::from_rgb(0x00, 0x00, 0x00).to_rgb555());
}

#[test]
fn unlicensed_cartridge_gets_the_default_palette() {
    let licensed = CompatibilityPaletteLoader::get_compatibility_palettes(true, 0x99, 0x00);
    let unlicensed = CompatibilityPaletteLoader::get_compatibility_palettes(false, 0x14, 0x00);
    let unknown = CompatibilityPaletteLoader::get_compatibility_palettes(true, 0x02, 0x00);
    assert_ne!(licensed.bgp[1], unlicensed.bgp[1]);
    assert_eq!(unlicensed.bgp[1], unknown.bgp[1]);
    assert_eq!(unlicensed.bgp[0], Color::from_rgb(0x1F, 0x1F, 0x1F));
}

#[test]
fn palette_get_background_color_returns_correct_color() {
    let mut cram = CRAM::new();
    cram.write(0xFF68, 0xB4);
    cram.write(0xFF69, 0xD5);
    cram.write(0xFF69, 0x2B);
    let color = cram.get_background_color(6, 2);
    assert_eq!(color.red, 0x15);
    assert_eq!(color.green, 0x1E);
    assert_eq!(color.blue, 0x0A);
}

#[test]
fn palette_get_object_color_returns_correct_color() {
    let mut cram = CRAM::new();
    cram.write(0xFF6A, 0xB4);
    cram.write(0xFF6B, 0xD5);
    cram.write(0xFF6B, 0x2B);
    let color = cram.get_object_color(6, 2);
    assert_eq!(color.red, 0x15);
    assert_eq!(color.green, 0x1E);
    assert_eq!(color.blue, 0x0A);
}

#[test]
fn cram_get_background_color_returns_correct_color() {
    let mut cram = CRAMImpl::new();
    cram.write(0xFF68, 0xB4);
    cram.write(0xFF69, 0xD5);
    cram.write(0xFF69, 0x2B);
    let color = cram.background_color(ColorReference { color_index: 6, palette_index: 2 });
    assert_eq!(color.red, 0x15);
    assert_eq!(color.green, 0x1E);
    assert_eq!(color.blue, 0x0A);
}

#[test]
fn cram_get_object_color_returns_correct_color() {
    let mut cram = CRAMImpl::new();
    cram.write(0xFF6A, 0xB4);
    cram.write(0xFF6B, 0xD5);
    cram.write(0xFF6B, 0x2B);
    let color = cram.object_color(ColorReference { color_index: 6, palette_index: 2 });
    assert_eq!(color.red, 0x15);
    assert_eq!(color.green, 0x1E);
    assert_eq!(color.blue, 0x0A);
}

#[test]
fn writes_color_with_auto_increment_wraps_within_palette_memory() {
    let mut cram = CRAMImpl::new();
    cram.write(0xFF68, 0xBF);
    cram.write(0xFF69, 0x12);
    assert_eq!(cram.read(0xFF68), 0x80);
    cram.write(0xFF69, 0x34);
    cram.write(0xFF68, 0x3F);
    assert_eq!(cram.read(0xFF69), 0x12);
    cram.write(0xFF68, 0x00);
    assert_eq!(cram.read(0xFF69), 0x34);
}

#[test]
fn object_color_zero_is_transparent() {
    let cram = CRAMImpl::new();
    let color = cram.object_color(ColorReference { color_index: 0, palette_index: 3 });
    assert_eq!(color, Color::transparent());
}
