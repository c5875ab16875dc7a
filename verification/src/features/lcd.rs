use vstd::prelude::*;
use crate::cpu::interrupts::{Interrupt, InterruptController};
use crate::memory::memory::Memory;
use crate::memory::oam::{OAM, object_on_line};
use crate::time::time::ClockAware;
use crate::util::bit_util::{BitUtil, bit_of_u8};

verus! {

/// Dots in a frame: 154 lines of 456 dots.
pub const DOTS_PER_FRAME: u32 = 70224;

/// The phase of the display within a line or frame.
#[derive(Copy, Clone, PartialEq, Eq, Structural, Debug)]
pub enum LCDMode {
    HBlank,
    VBlank,
    Mode2,
    Mode3,
}

/// The phase of the display at line `line`, dot `column` of the line.
pub open spec fn mode_at(line: u32, column: u32) -> LCDMode {
    if line >= 144 {
        LCDMode::VBlank
    } else if column <= 79 {
        LCDMode::Mode2
    } else if column <= 247 {
        LCDMode::Mode3
    } else {
        LCDMode::HBlank
    }
}

/// The LCD control register LCDC.
#[derive(Copy, Clone, PartialEq, Eq, Structural, Debug)]
pub struct LCDC(pub u8);

impl LCDC {
    /// Bit 0.
    pub fn bg_enabled(&self) -> (r: bool)
        ensures
            r == bit_of_u8(self.0, 0),
    {
        self.0.get_bit(0)
    }

    /// Bit 1.
    pub fn obj_enabled(&self) -> (r: bool)
        ensures
            r == bit_of_u8(self.0, 1),
    {
        self.0.get_bit(1)
    }

    /// Bit 2.
    pub fn use_8_x_16_tiles(&self) -> (r: bool)
        ensures
            r == bit_of_u8(self.0, 2),
    {
        self.0.get_bit(2)
    }

    /// 0x9C00 when bit 3 is set, else 0x9800.
    pub fn bg_tile_map_address(&self) -> (r: u16)
        ensures
            r == (if bit_of_u8(self.0, 3) { 0x9C00u16 } else { 0x9800u16 }),
    {
        if self.0.get_bit(3) {
            0x9C00
        } else {
            0x9800
        }
    }

    /// 0x9000 when bit 4 is set, else 0x8000.
    pub fn bg_and_window_tile_data_address(&self) -> (r: u16)
        ensures
            r == (if bit_of_u8(self.0, 4) { 0x9000u16 } else { 0x8000u16 }),
    {
        if self.0.get_bit(4) {
            0x9000
        } else {
            0x8000
        }
    }

    /// Tile numbers are signed when bit 4 is clear.
    pub fn use_signed_bg_and_window_tile_addressing(&self) -> (r: bool)
        ensures
            r == !bit_of_u8(self.0, 4),
    {
        !self.0.get_bit(4)
    }

    /// Bit 5.
    pub fn windowing_enabled(&self) -> (r: bool)
        ensures
            r == bit_of_u8(self.0, 5),
    {
        self.0.get_bit(5)
    }

    /// 0x9C00 when bit 6 is set, else 0x9800.
    pub fn window_tile_map_address(&self) -> (r: u16)
        ensures
            r == (if bit_of_u8(self.0, 6) { 0x9C00u16 } else { 0x9800u16 }),
    {
        if self.0.get_bit(6) {
            0x9C00
        } else {
            0x9800
        }
    }

    /// Bit 7.
    pub fn lcd_enabled(&self) -> (r: bool)
        ensures
            r == bit_of_u8(self.0, 7),
    {
        self.0.get_bit(7)
    }
}

/// `found` with `index` added when the sprite is on the line and fewer than ten are held.
pub open spec fn push_if_room(found: Seq<u8>, index: u8, on_line: bool) -> Seq<u8> {
    if on_line && found.len() < 10 {
        found.push(index)
    } else {
        found
    }
}

/// The display timing: a dot counter over the frame, the sprites found on the current line,
/// and the display registers.
pub struct LCD<I: InterruptController, M: Memory> {
    pub intersecting_object_indices: Vec<u8>,
    pub interrupt_controller: I,
    pub memory: Option<M>,
    pub oam: Option<OAM>,
    pub dot: u32,
    pub lcdc: LCDC,
    pub stat: u8,
    pub scy: u8,
    pub scx: u8,
    pub ly: u8,
    pub lyc: u8,
    pub bgp: u8,
    pub obp0: u8,
    pub obp1: u8,
    pub wy: u8,
    pub wx: u8,
}

impl<I: InterruptController, M: Memory> LCD<I, M> {
    /// A display at the first dot of the frame, with every register zero and nothing attached.
    pub fn new(interrupt_controller: I) -> (r: LCD<I, M>)
        ensures
            r.intersecting_object_indices@ == Seq::<u8>::empty(),
            r.interrupt_controller == interrupt_controller,
            r.memory is None,
            r.oam is None,
            r.dot == 0,
            r.lcdc == LCDC(0),
            r.stat == 0 && r.scy == 0 && r.scx == 0 && r.ly == 0 && r.lyc == 0,
            r.bgp == 0 && r.obp0 == 0 && r.obp1 == 0 && r.wy == 0 && r.wx == 0,
    {
        LCD {
            intersecting_object_indices: Vec::new(),
            interrupt_controller,
            memory: None,
            oam: None,
            dot: 0,
            lcdc: LCDC(0),
            stat: 0,
            scy: 0,
            scx: 0,
            ly: 0,
            lyc: 0,
            bgp: 0,
            obp0: 0,
            obp1: 0,
            wy: 0,
            wx: 0,
        }
    }

    pub fn set_memory(&mut self, memory: M)
        ensures
            final(self).memory == Some(memory),
            final(self).oam == old(self).oam,
            final(self).dot == old(self).dot,
            final(self).intersecting_object_indices@ == old(self).intersecting_object_indices@,
            final(self).interrupt_controller == old(self).interrupt_controller,
            final(self).lcdc == old(self).lcdc,
    {
        self.memory = Some(memory);
    }

    pub fn set_oam(&mut self, oam: OAM)
        ensures
            final(self).oam == Some(oam),
            final(self).memory == old(self).memory,
            final(self).dot == old(self).dot,
            final(self).intersecting_object_indices@ == old(self).intersecting_object_indices@,
            final(self).interrupt_controller == old(self).interrupt_controller,
            final(self).lcdc == old(self).lcdc,
    {
        self.oam = Some(oam);
    }

    /// The line of the frame that the dot counter is on.
    pub fn current_line(&self) -> (r: u8)
        requires
            self.dot < DOTS_PER_FRAME,
        ensures
            r == self.dot / 456,
    {
        (self.dot / 456) as u8
    }

    /// The dot within the current line.
    pub fn current_column(&self) -> (r: u16)
        ensures
            r == self.dot % 456,
    {
        (self.dot % 456) as u16
    }

    pub fn get_mode(&self) -> (r: LCDMode)
        requires
            self.dot < DOTS_PER_FRAME,
        ensures
            r == mode_at(self.dot / 456, self.dot % 456),
    {
        if self.current_line() >= 144 {
            LCDMode::VBlank
        } else {
            let column = self.current_column();
            if column <= 79 {
                LCDMode::Mode2
            } else if column <= 247 {
                LCDMode::Mode3
            } else {
                LCDMode::HBlank
            }
        }
    }

    /// The sprites after a search step at the current dot: the two sprites whose table
    /// slots this dot covers are taken when they are on the line and there is room.
    pub open spec fn found_after_search(&self) -> Seq<u8> {
        let index = ((self.dot % 456) / 2) as u8;
        let line = (self.dot / 456) as u8;
        let tall = bit_of_u8(self.lcdc.0, 2);
        let contents = self.oam->0.contents();
        let first = push_if_room(
            self.intersecting_object_indices@,
            index,
            object_on_line(contents[4 * index], line, tall),
        );
        push_if_room(first, (index + 1) as u8, object_on_line(contents[4 * (index + 1)], line, tall))
    }

    /// The dot counter stays a multiple of four within the frame, and the sprite table is attached.
    pub open spec fn search_ready(&self) -> bool {
        &&& self.oam is Some
        &&& self.oam->0.contents().len() == 160
        &&& self.dot % 4 == 0
        &&& self.dot < DOTS_PER_FRAME
    }

    fn find_intersecting_objects(&mut self)
        requires
            old(self).search_ready(),
            mode_at(old(self).dot / 456, old(self).dot % 456) == LCDMode::Mode2,
        ensures
            final(self).intersecting_object_indices@ == old(self).found_after_search(),
            final(self).dot == old(self).dot,
            final(self).oam == old(self).oam,
            final(self).memory == old(self).memory,
            final(self).lcdc == old(self).lcdc,
            final(self).interrupt_controller == old(self).interrupt_controller,
    {
        let object_index = ((self.dot % 456) / 2) as u8;
        let current_line = self.current_line();
        let use_8_x_16_tiles = self.lcdc.use_8_x_16_tiles();
        let first_on_line = match &self.oam {
            Some(oam) => oam.object_intersects_with_line(object_index, current_line, use_8_x_16_tiles),
            None => false,
        };
        if first_on_line && self.intersecting_object_indices.len() < 10 {
            self.intersecting_object_indices.push(object_index);
        }
        let second_on_line = match &self.oam {
            Some(oam) => oam.object_intersects_with_line(object_index + 1, current_line, use_8_x_16_tiles),
            None => false,
        };
        if second_on_line && self.intersecting_object_indices.len() < 10 {
            self.intersecting_object_indices.push(object_index + 1);
        }
    }
}

impl<I: InterruptController, M: Memory> ClockAware for LCD<I, M> {
    open spec fn ready_to_tick(&self) -> bool {
        self.search_ready()
    }

    /// Four dots pass. Entering a line's HBlank at dot 248 forgets the line's sprites,
    /// the first dot of each VBlank line requests the vertical blank interrupt, and each tick
    /// of mode 2 searches two sprite slots.
    fn handle_tick(&mut self, double_speed: bool)
        ensures
            final(self).dot == (old(self).dot + 4) % DOTS_PER_FRAME as int,
            final(self).search_ready(),
            ({
                let next = LCD { dot: final(self).dot, ..*old(self) };
                let line = final(self).dot / 456;
                let column = final(self).dot % 456;
                match mode_at(line, column) {
                    LCDMode::HBlank => {
                        &&& column == 248 ==> final(self).intersecting_object_indices@ == Seq::<u8>::empty()
                        &&& column != 248 ==> final(self).intersecting_object_indices@
                            == old(self).intersecting_object_indices@
                        &&& final(self).interrupt_controller == old(self).interrupt_controller
                    },
                    LCDMode::VBlank => {
                        &&& final(self).intersecting_object_indices@ == old(self).intersecting_object_indices@
                        &&& column == 0 ==> final(self).interrupt_controller.request_flags()
                            == old(self).interrupt_controller.request_flags() | (1u8
                            << Interrupt::VerticalBlank.bit_spec())
                        &&& column != 0 ==> final(self).interrupt_controller == old(self).interrupt_controller
                    },
                    LCDMode::Mode2 => {
                        &&& final(self).intersecting_object_indices@ == next.found_after_search()
                        &&& final(self).interrupt_controller == old(self).interrupt_controller
                    },
                    LCDMode::Mode3 => {
                        &&& final(self).intersecting_object_indices@ == old(self).intersecting_object_indices@
                        &&& final(self).interrupt_controller == old(self).interrupt_controller
                    },
                }
            }),
            final(self).interrupt_controller.enable_flags() == old(self).interrupt_controller.enable_flags(),
            final(self).interrupt_controller.master_enable() == old(self).interrupt_controller.master_enable(),
    {
        self.dot = (self.dot + 4) % DOTS_PER_FRAME;
        match self.get_mode() {
            LCDMode::HBlank => {
                if self.current_column() == 248 {
                    self.intersecting_object_indices.clear();
                }
            },
            LCDMode::VBlank => {
                if self.current_column() == 0 {
                    self.interrupt_controller.request_interrupt(Interrupt::VerticalBlank);
                }
            },
            LCDMode::Mode2 => {
                self.find_intersecting_objects();
            },
            LCDMode::Mode3 => {},
        }
    }

    fn tick(&mut self)
        ensures
            final(self).dot == (old(self).dot + 4) % DOTS_PER_FRAME as int,
            final(self).search_ready(),
            ({
                let next = LCD { dot: final(self).dot, ..*old(self) };
                let line = final(self).dot / 456;
                let column = final(self).dot % 456;
                match mode_at(line, column) {
                    LCDMode::HBlank => {
                        &&& column == 248 ==> final(self).intersecting_object_indices@ == Seq::<u8>::empty()
                        &&& column != 248 ==> final(self).intersecting_object_indices@
                            == old(self).intersecting_object_indices@
                        &&& final(self).interrupt_controller == old(self).interrupt_controller
                    },
                    LCDMode::VBlank => {
                        &&& final(self).intersecting_object_indices@ == old(self).intersecting_object_indices@
                        &&& column == 0 ==> final(self).interrupt_controller.request_flags()
                            == old(self).interrupt_controller.request_flags() | (1u8
                            << Interrupt::VerticalBlank.bit_spec())
                        &&& column != 0 ==> final(self).interrupt_controller == old(self).interrupt_controller
                    },
                    LCDMode::Mode2 => {
                        &&& final(self).intersecting_object_indices@ == next.found_after_search()
                        &&& final(self).interrupt_controller == old(self).interrupt_controller
                    },
                    LCDMode::Mode3 => {
                        &&& final(self).intersecting_object_indices@ == old(self).intersecting_object_indices@
                        &&& final(self).interrupt_controller == old(self).interrupt_controller
                    },
                }
            }),
            final(self).interrupt_controller.enable_flags() == old(self).interrupt_controller.enable_flags(),
            final(self).interrupt_controller.master_enable() == old(self).interrupt_controller.master_enable(),
    {
        self.handle_tick(false);
    }
}

} // verus!
