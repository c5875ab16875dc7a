use vstd::prelude::*;
use crate::cpu::interrupts::{Interrupt, InterruptController};
use crate::features::lcd::{DOTS_PER_FRAME, LCDMode, mode_at};
use crate::memory::memory::Memory;
use crate::memory::oam::{OAM, object_on_line};
use crate::renderer::renderer::{TileAddressingMode, TileMapIndex};
use crate::util::bit_util::{lemma_register_bit_facts, BitUtil, bit_of_u8};

verus! {

/// The mode bits of STAT for each mode.
pub open spec fn mode_bits(mode: LCDMode) -> u8 {
    match mode {
        LCDMode::HBlank => 0,
        LCDMode::VBlank => 1,
        LCDMode::Mode2 => 2,
        LCDMode::Mode3 => 3,
    }
}

/// Whether STAT enables the interrupt of mode `mode` (bits 3, 4, 5; mode 3 has none).
pub open spec fn mode_interrupt_enabled(stat: u8, mode: LCDMode) -> bool {
    match mode {
        LCDMode::HBlank => bit_of_u8(stat, 3),
        LCDMode::VBlank => bit_of_u8(stat, 4),
        LCDMode::Mode2 => bit_of_u8(stat, 5),
        LCDMode::Mode3 => false,
    }
}

/// The STAT interrupt line: the OR of the enabled mode source and the enabled LY=LYC source.
pub open spec fn stat_interrupt_line(stat: u8, mode: LCDMode) -> bool {
    mode_interrupt_enabled(stat, mode) || (bit_of_u8(stat, 2) && bit_of_u8(stat, 6))
}

/// STAT with the LY=LYC flag (bit 2) set to `equal` and the mode bits set to `mode`.
pub open spec fn updated_stat(stat: u8, equal: bool, mode: LCDMode) -> u8 {
    let flagged = if equal { stat | (1u8 << 2u8) } else { stat & !(1u8 << 2u8) };
    (flagged & !0x03u8) | mode_bits(mode)
}

/// The LCD status register STAT.
#[derive(Copy, Clone, PartialEq, Eq, Structural, Debug)]
pub struct Stat(pub u8);

impl Stat {
    /// Bit 6.
    pub fn lyc_interrupt_enabled(&self) -> (r: bool)
        ensures
            r == bit_of_u8(self.0, 6),
    {
        self.0.get_bit(6)
    }

    pub fn interrupt_enabled_for_mode(&self, mode: LCDMode) -> (r: bool)
        ensures
            r == mode_interrupt_enabled(self.0, mode),
    {
        match mode {
            LCDMode::HBlank => self.0.get_bit(3),
            LCDMode::VBlank => self.0.get_bit(4),
            LCDMode::Mode2 => self.0.get_bit(5),
            LCDMode::Mode3 => false,
        }
    }

    /// Bit 2.
    pub fn lyc_equals_line(&self) -> (r: bool)
        ensures
            r == bit_of_u8(self.0, 2),
    {
        self.0.get_bit(2)
    }

    pub fn set_lyc_equals_line(&mut self, lyc_equals_line: bool)
        ensures
            final(self).0 == (if lyc_equals_line { old(self).0 | (1u8 << 2u8) } else { old(self).0 & !(1u8 << 2u8) }),
    {
        self.0 = if lyc_equals_line {
            self.0.set_bit(2)
        } else {
            self.0.reset_bit(2)
        };
    }

    pub fn set_mode(&mut self, mode: LCDMode)
        ensures
            final(self).0 == (old(self).0 & !0x03u8) | mode_bits(mode),
    {
        let bits: u8 = match mode {
            LCDMode::HBlank => 0x00,
            LCDMode::VBlank => 0x01,
            LCDMode::Mode2 => 0x02,
            LCDMode::Mode3 => 0x03,
        };
        self.0 = (self.0 & !0x03u8) | bits;
    }
}

/// The LCD control register LCDC, as the renderer reads it.
#[derive(Copy, Clone, PartialEq, Eq, Structural, Debug)]
pub struct LCDC(pub u8);

impl LCDC {
    /// Bit 0.
    pub fn bg_enabled(&self) -> (r: bool)
        ensures
            r == bit_of_u8(self.0, 0),
    {
        self.0.get_bit(0)
    }

    /// Bit 1.
    pub fn obj_enabled(&self) -> (r: bool)
        ensures
            r == bit_of_u8(self.0, 1),
    {
        self.0.get_bit(1)
    }

    /// Bit 2.
    pub fn use_8_x_16_tiles(&self) -> (r: bool)
        ensures
            r == bit_of_u8(self.0, 2),
    {
        self.0.get_bit(2)
    }

    /// The second map when bit 3 is set.
    pub fn bg_tile_map_index(&self) -> (r: TileMapIndex)
        ensures
            r == (if bit_of_u8(self.0, 3) { TileMapIndex::TileMap2 } else { TileMapIndex::TileMap1 }),
    {
        if self.0.get_bit(3) {
            TileMapIndex::TileMap2
        } else {
            TileMapIndex::TileMap1
        }
    }

    /// The second map when bit 6 is set.
    pub fn window_tile_map_index(&self) -> (r: TileMapIndex)
        ensures
            r == (if bit_of_u8(self.0, 6) { TileMapIndex::TileMap2 } else { TileMapIndex::TileMap1 }),
    {
        if self.0.get_bit(6) {
            TileMapIndex::TileMap2
        } else {
            TileMapIndex::TileMap1
        }
    }

    /// 0x9000 when bit 4 is set, else 0x8000.
    pub fn bg_and_window_tile_data_address(&self) -> (r: u16)
        ensures
            r == (if bit_of_u8(self.0, 4) { 0x9000u16 } else { 0x8000u16 }),
    {
        if self.0.get_bit(4) {
            0x9000
        } else {
            0x8000
        }
    }

    /// The unsigned mode when bit 4 is set.
    pub fn bg_and_window_tile_addressing_mode(&self) -> (r: TileAddressingMode)
        ensures
            r == (if bit_of_u8(self.0, 4) { TileAddressingMode::Mode8000 } else { TileAddressingMode::Mode8800 }),
    {
        if self.0.get_bit(4) {
            TileAddressingMode::Mode8000
        } else {
            TileAddressingMode::Mode8800
        }
    }

    /// Bit 5.
    pub fn windowing_enabled(&self) -> (r: bool)
        ensures
            r == bit_of_u8(self.0, 5),
    {
        self.0.get_bit(5)
    }

    /// Bit 7.
    pub fn lcd_enabled(&self) -> (r: bool)
        ensures
            r == bit_of_u8(self.0, 7),
    {
        self.0.get_bit(7)
    }
}

/// What the display is doing.
pub trait LCDController {
    spec fn mode_spec(&self) -> LCDMode;

    fn get_mode(&self) -> (r: LCDMode)
        ensures
            r == self.mode_spec(),
    ;
}

/// The sprite search from slot `current` up to slot `last`: slots whose sprite is on the
/// line are added while fewer than ten are held. Gives the next slot and the sprites found.
pub open spec fn scan_objects(
    contents: Seq<u8>,
    line: u8,
    tall: bool,
    current: int,
    last: int,
    found: Seq<u8>,
) -> (int, Seq<u8>)
    decreases last + 1 - current,
{
    if current > last || found.len() >= 10 {
        (current, found)
    } else {
        let next_found = if object_on_line(contents[4 * current], line, tall) {
            found.push(current as u8)
        } else {
            found
        };
        scan_objects(contents, line, tall, current + 1, last, next_found)
    }
}

/// The display controller: a dot clock over the frame, the STAT machinery with its
/// interrupt line, the sprite search of mode 2, and the display registers.
pub struct LCDControllerImpl {
    pub current_object_index: u8,
    pub intersecting_object_indices: Vec<u8>,
    pub dot: u32,
    pub line: u8,
    pub column: u16,
    pub mode: LCDMode,
    pub lcdc: LCDC,
    pub stat: Stat,
    /// The STAT interrupt is requested on the rising edge of this line, the OR of the sources
    /// that STAT enables.
    pub interrupt_line: bool,
    pub opri: u8,
    pub scy: u8,
    pub scx: u8,
    pub lyc: u8,
    pub wy: u8,
    pub wx: u8,
}

impl LCDController for LCDControllerImpl {
    open spec fn mode_spec(&self) -> LCDMode {
        mode_at(self.line as u32, self.column as u32)
    }

    fn get_mode(&self) -> (r: LCDMode) {
        if self.line >= 144 {
            LCDMode::VBlank
        } else if self.column <= 79 {
            LCDMode::Mode2
        } else if self.column <= 247 {
            LCDMode::Mode3
        } else {
            LCDMode::HBlank
        }
    }
}

impl LCDControllerImpl {
    /// The controller at the first dot of the frame, in mode 2.
    pub fn new() -> (r: LCDControllerImpl)
        ensures
            r.current_object_index == 0,
            r.intersecting_object_indices@ == Seq::<u8>::empty(),
            r.dot == 0 && r.line == 0 && r.column == 0,
            r.mode == LCDMode::Mode2,
            r.lcdc == LCDC(0),
            r.stat == Stat(0x02),
            !r.interrupt_line,
            r.opri == 0 && r.scy == 0 && r.scx == 0 && r.lyc == 0 && r.wy == 0 && r.wx == 0,
    {
        LCDControllerImpl {
            current_object_index: 0,
            intersecting_object_indices: Vec::new(),
            dot: 0,
            line: 0,
            column: 0,
            mode: LCDMode::Mode2,
            lcdc: LCDC(0),
            stat: Stat(0x02),
            interrupt_line: false,
            opri: 0,
            scy: 0,
            scx: 0,
            lyc: 0,
            wy: 0,
            wx: 0,
        }
    }

    fn find_intersecting_objects(&mut self, oam: &OAM)
        requires
            oam.contents().len() == 160,
            old(self).dot < DOTS_PER_FRAME,
            mode_at(old(self).dot / 456, old(self).dot % 456) == LCDMode::Mode2,
            old(self).line == old(self).dot / 456,
            old(self).intersecting_object_indices@.len() <= 10,
        ensures
            ({
                let (next, found) = scan_objects(
                    oam.contents(),
                    old(self).line,
                    bit_of_u8(old(self).lcdc.0, 2),
                    old(self).current_object_index as int,
                    ((old(self).dot % 456) / 2) as int,
                    old(self).intersecting_object_indices@,
                );
                &&& final(self).current_object_index == next
                &&& final(self).intersecting_object_indices@ == found
            }),
            final(self).intersecting_object_indices@.len() <= 10,
            final(self).dot == old(self).dot,
            final(self).line == old(self).line,
            final(self).column == old(self).column,
            final(self).mode == old(self).mode,
            final(self).stat == old(self).stat,
            final(self).interrupt_line == old(self).interrupt_line,
            final(self).lcdc == old(self).lcdc,
            final(self).lyc == old(self).lyc,
            final(self).scx == old(self).scx && final(self).scy == old(self).scy,
            final(self).wx == old(self).wx && final(self).wy == old(self).wy,
            final(self).opri == old(self).opri,
    {
        let use_8_x_16_tiles = self.lcdc.use_8_x_16_tiles();
        let object_index_for_dot = ((self.dot % 456) / 2) as u8;
        let ghost contents = oam.contents();
        let ghost line = self.line;
        let ghost last = object_index_for_dot;
        while self.current_object_index <= object_index_for_dot && self.intersecting_object_indices.len() < 10
            invariant
                oam.contents() == contents,
                contents.len() == 160,
                line == self.line,
                line < 144,
                last == object_index_for_dot,
                object_index_for_dot < 40,
                use_8_x_16_tiles == bit_of_u8(self.lcdc.0, 2),
                self.intersecting_object_indices@.len() <= 10,
                scan_objects(
                    contents,
                    line,
                    use_8_x_16_tiles,
                    self.current_object_index as int,
                    last as int,
                    self.intersecting_object_indices@,
                ) == scan_objects(
                    contents,
                    old(self).line,
                    bit_of_u8(old(self).lcdc.0, 2),
                    old(self).current_object_index as int,
                    ((old(self).dot % 456) / 2) as int,
                    old(self).intersecting_object_indices@,
                ),
                self.dot == old(self).dot,
                self.line == old(self).line,
                self.column == old(self).column,
                self.mode == old(self).mode,
                self.stat == old(self).stat,
                self.interrupt_line == old(self).interrupt_line,
                self.lcdc == old(self).lcdc,
                self.lyc == old(self).lyc,
                self.scx == old(self).scx && self.scy == old(self).scy,
                self.wx == old(self).wx && self.wy == old(self).wy,
                self.opri == old(self).opri,
            decreases 256 - self.current_object_index,
        {
            if oam.object_intersects_with_line(self.current_object_index, self.line, use_8_x_16_tiles) {
                self.intersecting_object_indices.push(self.current_object_index);
            }
            self.current_object_index = self.current_object_index + 1;
        }
    }

    fn update_mode(&mut self)
        ensures
            final(self).mode == mode_at(old(self).line as u32, old(self).column as u32),
            final(self).stat.0 == (old(self).stat.0 & !0x03u8) | mode_bits(final(self).mode),
            *final(self) == (LCDControllerImpl { mode: final(self).mode, stat: final(self).stat, ..*old(self) }),
    {
        self.mode = self.get_mode();
        let mode = self.mode;
        self.stat.set_mode(mode);
    }

    /// Updates the STAT interrupt line from STAT and the current mode, and requests the STAT
    /// interrupt on its rising edge.
    pub fn maybe_request_interrupt<I: InterruptController>(&mut self, interrupt_controller: &mut I)
        ensures
            final(self).interrupt_line == stat_interrupt_line(old(self).stat.0, old(self).mode),
            *final(self) == (LCDControllerImpl { interrupt_line: final(self).interrupt_line, ..*old(self) }),
            (final(self).interrupt_line && !old(self).interrupt_line) ==> final(interrupt_controller).request_flags()
                == old(interrupt_controller).request_flags() | (1u8 << Interrupt::Stat.bit_spec()),
            !(final(self).interrupt_line && !old(self).interrupt_line) ==> *final(interrupt_controller)
                == *old(interrupt_controller),
            final(interrupt_controller).enable_flags() == old(interrupt_controller).enable_flags(),
            final(interrupt_controller).master_enable() == old(interrupt_controller).master_enable(),
    {
        let new_interrupt_line = self.stat.interrupt_enabled_for_mode(self.mode) || (self.stat.lyc_equals_line()
            && self.stat.lyc_interrupt_enabled());
        if new_interrupt_line && !self.interrupt_line {
            interrupt_controller.request_interrupt(Interrupt::Stat);
        }
        self.interrupt_line = new_interrupt_line;
    }

    /// Whether the window shows on the current line: WY is at or below it and on screen,
    /// and WX less 7 is on screen.
    pub fn should_draw_window_line(&self) -> (r: bool)
        ensures
            r == (self.wy >= self.line && self.wy < 144 && self.wx >= 7 && self.wx - 7 < 160),
    {
        self.wy >= self.line && self.wy < 144 && self.wx >= 7 && self.wx - 7 < 160
    }

    /// Whether the controller's counters agree: the dot is within the frame, the line and
    /// column are those of the dot, and at most ten sprites are held.
    pub open spec fn wf(&self) -> bool {
        &&& self.dot < DOTS_PER_FRAME
        &&& self.line == self.dot / 456
        &&& self.column == self.dot % 456
        &&& self.intersecting_object_indices@.len() <= 10
    }

    /// One machine tick: two dots at double speed, four otherwise. STAT's LY=LYC flag and
    /// mode bits follow the new position; a rising edge of the STAT interrupt line requests
    /// the STAT interrupt, and the first dot of each VBlank line the vertical blank interrupt.
    /// HBlank at dot 248 forgets the line's sprites, mode 2 continues the sprite search, and
    /// the result tells whether the tick falls in mode 3, when the line is drawn.
    pub fn tick<I: InterruptController>(&mut self, interrupt_controller: &mut I, oam: &OAM, double_speed: bool) -> (r: bool)
        requires
            old(self).wf(),
            oam.contents().len() == 160,
        ensures
            final(self).wf(),
            ({
                let dot = (old(self).dot + (if double_speed { 2int } else { 4int })) % DOTS_PER_FRAME as int;
                let line = (dot / 456) as u8;
                let column = (dot % 456) as u16;
                let mode = mode_at(line as u32, column as u32);
                let stat = updated_stat(old(self).stat.0, line == old(self).lyc, mode);
                let stat_edge = stat_interrupt_line(stat, mode) && !old(self).interrupt_line;
                let vblank = mode == LCDMode::VBlank && column == 0;
                let request = old(interrupt_controller).request_flags();
                let with_stat = if stat_edge { request | (1u8 << Interrupt::Stat.bit_spec()) } else { request };
                let (next_object, found) = scan_objects(
                    oam.contents(),
                    line,
                    bit_of_u8(old(self).lcdc.0, 2),
                    old(self).current_object_index as int,
                    (column / 2) as int,
                    old(self).intersecting_object_indices@,
                );
                &&& final(self).dot == dot
                &&& final(self).mode == mode
                &&& final(self).stat.0 == stat
                &&& final(self).interrupt_line == stat_interrupt_line(stat, mode)
                &&& final(interrupt_controller).request_flags() == (if vblank {
                    with_stat | (1u8 << Interrupt::VerticalBlank.bit_spec())
                } else {
                    with_stat
                })
                &&& final(self).intersecting_object_indices@ == (if mode == LCDMode::HBlank && column == 248 {
                    Seq::<u8>::empty()
                } else if mode == LCDMode::Mode2 {
                    found
                } else {
                    old(self).intersecting_object_indices@
                })
                &&& final(self).current_object_index == (if mode == LCDMode::Mode2 {
                    next_object
                } else {
                    old(self).current_object_index as int
                })
                &&& r == (mode == LCDMode::Mode3)
            }),
            final(self).interrupt_line == tick_interrupt_line(*old(self), double_speed),
            final(interrupt_controller).request_flags() == tick_requests(
                *old(self),
                double_speed,
                old(interrupt_controller).request_flags(),
            ),
            final(interrupt_controller).enable_flags() == old(interrupt_controller).enable_flags(),
            final(interrupt_controller).master_enable() == old(interrupt_controller).master_enable(),
            final(self).lcdc == old(self).lcdc,
            final(self).lyc == old(self).lyc,
            final(self).scx == old(self).scx && final(self).scy == old(self).scy,
            final(self).wx == old(self).wx && final(self).wy == old(self).wy,
            final(self).opri == old(self).opri,
    {
        let number_of_dots_for_tick: u32 = if double_speed { 2 } else { 4 };
        self.dot = (self.dot + number_of_dots_for_tick) % DOTS_PER_FRAME;
        self.line = (self.dot / 456) as u8;
        self.column = (self.dot % 456) as u16;
        let lyc_equals_line = self.line == self.lyc;
        self.stat.set_lyc_equals_line(lyc_equals_line);
        self.update_mode();
        self.maybe_request_interrupt(interrupt_controller);
        match self.mode {
            LCDMode::HBlank => {
                if self.column == 248 {
                    self.intersecting_object_indices.clear();
                }
                false
            },
            LCDMode::VBlank => {
                if self.column == 0 {
                    interrupt_controller.request_interrupt(Interrupt::VerticalBlank);
                }
                false
            },
            LCDMode::Mode2 => {
                self.find_intersecting_objects(oam);
                false
            },
            LCDMode::Mode3 => true,
        }
    }
}

impl Memory for LCDControllerImpl {
    open spec fn maps(&self, address: u16) -> bool {
        (0xFF40 <= address <= 0xFF45) || address == 0xFF4A || address == 0xFF4B || address == 0xFF6C
    }

    open spec fn peek(&self, address: u16) -> u8 {
        if address == 0xFF40 {
            self.lcdc.0
        } else if address == 0xFF41 {
            self.stat.0
        } else if address == 0xFF42 {
            self.scy
        } else if address == 0xFF43 {
            self.scx
        } else if address == 0xFF44 {
            self.line
        } else if address == 0xFF45 {
            self.lyc
        } else if address == 0xFF4A {
            self.wy
        } else if address == 0xFF4B {
            self.wx
        } else {
            self.opri
        }
    }

    /// Writes to STAT keep its three low, read-only bits; LY (0xFF44) is read-only and a
    /// write to it changes nothing.
    open spec fn written(&self, address: u16, value: u8, post: Self) -> bool {
        let same_vec = post.intersecting_object_indices@ == self.intersecting_object_indices@;
        let rest = LCDControllerImpl { intersecting_object_indices: post.intersecting_object_indices, ..*self };
        &&& same_vec
        &&& if address == 0xFF40 {
            post == LCDControllerImpl { lcdc: LCDC(value), ..rest }
        } else if address == 0xFF41 {
            post == LCDControllerImpl { stat: Stat((self.stat.0 & 0x7) | (value & 0xF8)), ..rest }
        } else if address == 0xFF42 {
            post == LCDControllerImpl { scy: value, ..rest }
        } else if address == 0xFF43 {
            post == LCDControllerImpl { scx: value, ..rest }
        } else if address == 0xFF44 {
            post == rest
        } else if address == 0xFF45 {
            post == LCDControllerImpl { lyc: value, ..rest }
        } else if address == 0xFF4A {
            post == LCDControllerImpl { wy: value, ..rest }
        } else if address == 0xFF4B {
            post == LCDControllerImpl { wx: value, ..rest }
        } else {
            post == LCDControllerImpl { opri: value, ..rest }
        }
    }

    fn read(&self, address: u16) -> (r: u8) {
        if address == 0xFF40 {
            self.lcdc.0
        } else if address == 0xFF41 {
            self.stat.0
        } else if address == 0xFF42 {
            self.scy
        } else if address == 0xFF43 {
            self.scx
        } else if address == 0xFF44 {
            self.line
        } else if address == 0xFF45 {
            self.lyc
        } else if address == 0xFF4A {
            self.wy
        } else if address == 0xFF4B {
            self.wx
        } else {
            self.opri
        }
    }

    fn write(&mut self, address: u16, value: u8) {
        if address == 0xFF40 {
            self.lcdc = LCDC(value);
        } else if address == 0xFF41 {
            self.stat = Stat((self.stat.0 & 0x7) | (value & 0xF8));
        } else if address == 0xFF42 {
            self.scy = value;
        } else if address == 0xFF43 {
            self.scx = value;
        } else if address == 0xFF44 {
        } else if address == 0xFF45 {
            self.lyc = value;
        } else if address == 0xFF4A {
            self.wy = value;
        } else if address == 0xFF4B {
            self.wx = value;
        } else {
            self.opri = value;
        }
    }
}

/// The dot a tick of `controller` moves to: two dots on at double speed, four otherwise.
pub open spec fn next_dot(controller: LCDControllerImpl, double_speed: bool) -> int {
    (controller.dot + (if double_speed { 2int } else { 4int })) % DOTS_PER_FRAME as int
}

/// The mode at the dot a tick of `controller` moves to.
pub open spec fn next_mode(controller: LCDControllerImpl, double_speed: bool) -> LCDMode {
    let dot = next_dot(controller, double_speed);
    mode_at(((dot / 456) as u8) as u32, ((dot % 456) as u16) as u32)
}

/// The STAT interrupt line after a tick of `controller`: high when STAT enables the new mode's
/// interrupt, or the LY=LYC interrupt while LY equals LYC.
pub open spec fn tick_interrupt_line(controller: LCDControllerImpl, double_speed: bool) -> bool {
    let dot = next_dot(controller, double_speed);
    let line = (dot / 456) as u8;
    let mode = next_mode(controller, double_speed);
    stat_interrupt_line(updated_stat(controller.stat.0, line == controller.lyc, mode), mode)
}

/// Whether a tick of `controller` enters a VBlank line at its first dot.
pub open spec fn vblank_starts(controller: LCDControllerImpl, double_speed: bool) -> bool {
    next_mode(controller, double_speed) == LCDMode::VBlank && ((next_dot(controller, double_speed) % 456) as u16) == 0
}

/// The interrupt request flags after a tick of `controller`, from `request` before it: the
/// STAT interrupt on a rising edge of the STAT line, the vertical blank interrupt at the
/// start of each VBlank line.
pub open spec fn tick_requests(controller: LCDControllerImpl, double_speed: bool, request: u8) -> u8 {
    let rising = tick_interrupt_line(controller, double_speed) && !controller.interrupt_line;
    let with_stat = if rising { request | (1u8 << Interrupt::Stat.bit_spec()) } else { request };
    if vblank_starts(controller, double_speed) {
        with_stat | (1u8 << Interrupt::VerticalBlank.bit_spec())
    } else {
        with_stat
    }
}

/// STAT blocking: a tick requests the STAT interrupt only on a rising edge of the STAT line.
/// When the tick that produced `controller` left the line high (`controller.interrupt_line`),
/// the next tick adds no STAT request, whatever STAT enables; only the vertical blank
/// request can come. When the line rises, the STAT request is made.
pub proof fn law_stat_interrupt_blocking(controller: LCDControllerImpl, double_speed: bool, request: u8)
    ensures
        controller.interrupt_line ==> tick_requests(controller, double_speed, request) == (if vblank_starts(
            controller,
            double_speed,
        ) {
            request | (1u8 << Interrupt::VerticalBlank.bit_spec())
        } else {
            request
        }),
        !controller.interrupt_line && tick_interrupt_line(controller, double_speed) ==> tick_requests(
            controller,
            double_speed,
            request,
        ) & (1u8 << Interrupt::Stat.bit_spec()) != 0,
{
    let stat_bit: u8 = 1u8 << Interrupt::Stat.bit_spec();
    let vblank_bit: u8 = 1u8 << Interrupt::VerticalBlank.bit_spec();
    assert((request | stat_bit) & stat_bit != 0 && ((request | stat_bit) | vblank_bit) & stat_bit != 0)
        by (bit_vector)
        requires stat_bit == 1u8 << 1u8;
}

/// The STAT interrupt sources are fixed bits of STAT: bit 3 enables the HBlank source, bit 4
/// the VBlank source, bit 5 the mode 2 (OAM search) source, and mode 3 has none. After a
/// tick, with the LY=LYC source (bit 6) off, the STAT line is high exactly when the bit of
/// the mode the tick enters is set; a set bit raises the line whatever bit 6 says.
pub proof fn law_stat_interrupt_sources(stat: u8, controller: LCDControllerImpl, double_speed: bool)
    ensures
        mode_interrupt_enabled(stat, LCDMode::HBlank) == (stat & 0x08 != 0),
        mode_interrupt_enabled(stat, LCDMode::VBlank) == (stat & 0x10 != 0),
        mode_interrupt_enabled(stat, LCDMode::Mode2) == (stat & 0x20 != 0),
        !mode_interrupt_enabled(stat, LCDMode::Mode3),
        ({
            let mode = next_mode(controller, double_speed);
            let enabled = if mode == LCDMode::HBlank {
                controller.stat.0 & 0x08 != 0
            } else if mode == LCDMode::VBlank {
                controller.stat.0 & 0x10 != 0
            } else if mode == LCDMode::Mode2 {
                controller.stat.0 & 0x20 != 0
            } else {
                false
            };
            &&& enabled ==> tick_interrupt_line(controller, double_speed)
            &&& controller.stat.0 & 0x40 == 0 ==> (tick_interrupt_line(controller, double_speed) == enabled)
        }),
{
    lemma_register_bit_facts(stat, false, 0, 0, 0, false);
    let dot = next_dot(controller, double_speed);
    let line = (dot / 456) as u8;
    let mode = next_mode(controller, double_speed);
    let stat0 = controller.stat.0;
    let updated = updated_stat(stat0, line == controller.lyc, mode);
    lemma_register_bit_facts(stat0, line == controller.lyc, mode_bits(mode), 0, 0, false);
    lemma_register_bit_facts(updated, false, 0, 0, 0, false);
}

} // verus!
