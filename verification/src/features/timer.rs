use vstd::prelude::*;
use crate::cpu::interrupts::{Interrupt, InterruptController};
use crate::memory::memory::Memory;
use crate::time::time::ClockAware;
use crate::util::bit_util::{BitUtil, bit_of_u16, bit_of_u8, lemma_register_bit_facts};

verus! {

/// The divider bit whose rising edge clocks the timer, for the clock select bits of TAC.
pub open spec fn clock_pulse_bit_for(tac: u8) -> u8 {
    let select = tac & 0x03;
    if select == 0 {
        10
    } else if select == 1 {
        4
    } else if select == 2 {
        6
    } else {
        8
    }
}

/// The timer: the divider DIV (0xFF04, the high byte of an internal 16-bit counter), the
/// counter TIMA (0xFF05), the modulo TMA (0xFF06) and the control register TAC (0xFF07).
pub struct Timer<I: InterruptController> {
    pub interrupt_controller: I,
    pub clock_pulse_bit: u8,
    pub divider: u16,
    pub timer_modulo: u8,
    pub timer_controller: u8,
    pub timer_counter: u8,
    pub enabled: bool,
}

impl<I: InterruptController> Timer<I> {
    /// A stopped timer with every register zero, raising its interrupts on `interrupt_controller`.
    pub fn new(interrupt_controller: I) -> (r: Timer<I>)
        ensures
            r.interrupt_controller == interrupt_controller,
            r.clock_pulse_bit == 10,
            r.divider == 0,
            r.timer_modulo == 0,
            r.timer_controller == 0,
            r.timer_counter == 0,
            !r.enabled,
    {
        Timer {
            interrupt_controller,
            clock_pulse_bit: 10,
            divider: 0,
            timer_modulo: 0,
            timer_controller: 0,
            timer_counter: 0,
            enabled: false,
        }
    }

    /// Whether a tick from divider value `divider` makes the counter overflow.
    pub open spec fn overflows_on_tick(&self) -> bool {
        let new_divider = self.divider.wrapping_add(4);
        &&& self.enabled
        &&& !bit_of_u16(self.divider, self.clock_pulse_bit)
        &&& bit_of_u16(new_divider, self.clock_pulse_bit)
        &&& self.timer_counter == 0xFF
    }
}

impl<I: InterruptController> ClockAware for Timer<I> {
    open spec fn ready_to_tick(&self) -> bool {
        self.clock_pulse_bit < 16
    }

    /// The divider advances by four. On a rising edge of the selected divider bit the counter
    /// is checked: when adding one to it would overflow, it is reloaded from the modulo and a
    /// timer interrupt is requested. The counter is not otherwise advanced.
    fn handle_tick(&mut self, double_speed: bool)
        ensures
            final(self).divider == old(self).divider.wrapping_add(4),
            final(self).clock_pulse_bit == old(self).clock_pulse_bit,
            final(self).enabled == old(self).enabled,
            final(self).timer_modulo == old(self).timer_modulo,
            final(self).timer_controller == old(self).timer_controller,
            final(self).timer_counter == (if old(self).overflows_on_tick() {
                old(self).timer_modulo
            } else {
                old(self).timer_counter
            }),
            old(self).overflows_on_tick() ==> final(self).interrupt_controller.request_flags()
                == old(self).interrupt_controller.request_flags() | (1u8 << Interrupt::TimerOverflow.bit_spec()),
            !old(self).overflows_on_tick() ==> final(self).interrupt_controller == old(self).interrupt_controller,
            final(self).interrupt_controller.enable_flags() == old(self).interrupt_controller.enable_flags(),
            final(self).interrupt_controller.master_enable() == old(self).interrupt_controller.master_enable(),
    {
        let old_div = self.divider;
        self.divider = self.divider.wrapping_add(4);
        if self.enabled {
            if !old_div.get_bit(self.clock_pulse_bit) && self.divider.get_bit(self.clock_pulse_bit) {
                let tima_overflowed = self.timer_counter.checked_add(1).is_none();
                if tima_overflowed {
                    self.timer_counter = self.timer_modulo;
                    self.interrupt_controller.request_interrupt(Interrupt::TimerOverflow);
                }
            }
        }
    }

    fn tick(&mut self)
        ensures
            final(self).divider == old(self).divider.wrapping_add(4),
            final(self).clock_pulse_bit == old(self).clock_pulse_bit,
            final(self).enabled == old(self).enabled,
            final(self).timer_modulo == old(self).timer_modulo,
            final(self).timer_controller == old(self).timer_controller,
            final(self).timer_counter == (if old(self).overflows_on_tick() {
                old(self).timer_modulo
            } else {
                old(self).timer_counter
            }),
            old(self).overflows_on_tick() ==> final(self).interrupt_controller.request_flags()
                == old(self).interrupt_controller.request_flags() | (1u8 << Interrupt::TimerOverflow.bit_spec()),
            !old(self).overflows_on_tick() ==> final(self).interrupt_controller == old(self).interrupt_controller,
            final(self).interrupt_controller.enable_flags() == old(self).interrupt_controller.enable_flags(),
            final(self).interrupt_controller.master_enable() == old(self).interrupt_controller.master_enable(),
    {
        self.handle_tick(false);
    }
}

impl<I: InterruptController> Memory for Timer<I> {
    open spec fn maps(&self, address: u16) -> bool {
        0xFF04 <= address <= 0xFF07
    }

    open spec fn peek(&self, address: u16) -> u8 {
        if address == 0xFF04 {
            (self.divider >> 8) as u8
        } else if address == 0xFF05 {
            self.timer_counter
        } else if address == 0xFF06 {
            self.timer_modulo
        } else {
            self.timer_controller
        }
    }

    open spec fn written(&self, address: u16, value: u8, post: Self) -> bool {
        if address == 0xFF04 {
            post == Timer { divider: 0, ..*self }
        } else if address == 0xFF05 {
            post == Timer { timer_counter: value, ..*self }
        } else if address == 0xFF06 {
            post == Timer { timer_modulo: value, ..*self }
        } else {
            post == Timer {
                enabled: bit_of_u8(value, 2),
                clock_pulse_bit: clock_pulse_bit_for(value),
                timer_controller: value,
                ..*self
            }
        }
    }

    fn read(&self, address: u16) -> (r: u8) {
        if address == 0xFF04 {
            (self.divider >> 8) as u8
        } else if address == 0xFF05 {
            self.timer_counter
        } else if address == 0xFF06 {
            self.timer_modulo
        } else {
            self.timer_controller
        }
    }

    fn write(&mut self, address: u16, value: u8) {
        if address == 0xFF04 {
            self.divider = 0;
        } else if address == 0xFF05 {
            self.timer_counter = value;
        } else if address == 0xFF06 {
            self.timer_modulo = value;
        } else {
            self.enabled = value.get_bit(2);
            let select = value & 0x03;
            self.clock_pulse_bit = if select == 0x00 {
                10
            } else if select == 0x01 {
                4
            } else if select == 0x02 {
                6
            } else {
                8
            };
            self.timer_controller = value;
        }
    }
}

/// Writing TAC selects the timer frequency by its low two bits: the counter is clocked by
/// divider bit 10 (4096 Hz), 4 (262144 Hz), 6 (65536 Hz) or 8 (16384 Hz) for selects 0, 1, 2
/// and 3; bit 2 starts or stops it, and the register reads back as written.
pub proof fn law_timer_control_selects_frequency<I: InterruptController>(
    timer: Timer<I>,
    post: Timer<I>,
    value: u8,
)
    requires
        timer.written(0xFF07, value, post),
    ensures
        value & 0x03 == 0 ==> post.clock_pulse_bit == 10,
        value & 0x03 == 1 ==> post.clock_pulse_bit == 4,
        value & 0x03 == 2 ==> post.clock_pulse_bit == 6,
        value & 0x03 == 3 ==> post.clock_pulse_bit == 8,
        post.enabled == (value & 0x04 != 0),
        post.peek(0xFF07) == value,
        post.divider == timer.divider && post.timer_counter == timer.timer_counter,
        post.timer_modulo == timer.timer_modulo,
{
    lemma_register_bit_facts(value, false, 0, 0, 0, false);
}

} // verus!
