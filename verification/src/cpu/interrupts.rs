use vstd::prelude::*;
use vstd::std_specs::bits::{u8_trailing_zeros, axiom_u8_trailing_zeros};
use crate::memory::memory::Memory;
use crate::util::bit_util::{BitUtil, bit_of_u8};

verus! {

/// The five interrupt sources, in priority order.
#[derive(Clone, Copy, PartialEq, Eq, Structural, Debug)]
pub enum Interrupt {
    VerticalBlank,
    Stat,
    TimerOverflow,
    SerialIOComplete,
    ButtonPressed,
}

impl Interrupt {
    /// The bit of the request and enable registers that stands for the interrupt.
    pub open spec fn bit_spec(self) -> u8 {
        match self {
            Interrupt::VerticalBlank => 0,
            Interrupt::Stat => 1,
            Interrupt::TimerOverflow => 2,
            Interrupt::SerialIOComplete => 3,
            Interrupt::ButtonPressed => 4,
        }
    }

    /// The interrupt that owns bit `bit` (meaningful for bits 0 to 4).
    pub open spec fn from_bit_spec(bit: u8) -> Interrupt {
        if bit == 0 {
            Interrupt::VerticalBlank
        } else if bit == 1 {
            Interrupt::Stat
        } else if bit == 2 {
            Interrupt::TimerOverflow
        } else if bit == 3 {
            Interrupt::SerialIOComplete
        } else {
            Interrupt::ButtonPressed
        }
    }

    pub fn get_bit(&self) -> (r: u8)
        ensures
            r == self.bit_spec(),
            r < 5,
    {
        match self {
            Interrupt::VerticalBlank => 0,
            Interrupt::Stat => 1,
            Interrupt::TimerOverflow => 2,
            Interrupt::SerialIOComplete => 3,
            Interrupt::ButtonPressed => 4,
        }
    }

    /// The address of the service routine of the interrupt.
    pub fn get_routine_address(&self) -> (r: u16)
        ensures
            r == 0x40 + 8 * self.bit_spec(),
    {
        match self {
            Interrupt::VerticalBlank => 0x40,
            Interrupt::Stat => 0x48,
            Interrupt::TimerOverflow => 0x50,
            Interrupt::SerialIOComplete => 0x58,
            Interrupt::ButtonPressed => 0x60,
        }
    }

    /// The interrupt of bit `bit`; bits above 4 name none.
    pub fn from_bit(bit: u8) -> (r: Interrupt)
        requires
            bit < 5,
        ensures
            r == Interrupt::from_bit_spec(bit),
            r.bit_spec() == bit,
    {
        match bit {
            0 => Interrupt::VerticalBlank,
            1 => Interrupt::Stat,
            2 => Interrupt::TimerOverflow,
            3 => Interrupt::SerialIOComplete,
            _ => Interrupt::ButtonPressed,
        }
    }
}

/// The interrupt that is served next: none while the master enable is off, else the
/// lowest-numbered of the five sources that is both requested and enabled.
pub open spec fn requested_interrupt_spec(master_enable: bool, enable: u8, request: u8) -> Option<Interrupt> {
    let masked = 0x1F & enable & request;
    if !master_enable || masked == 0 {
        None
    } else {
        Some(Interrupt::from_bit_spec(u8_trailing_zeros(masked) as u8))
    }
}

/// The interrupt request, interrupt enable and master enable flags.
pub trait InterruptController {
    /// The request register.
    spec fn request_flags(&self) -> u8;

    /// The enable register.
    spec fn enable_flags(&self) -> u8;

    /// The master enable.
    spec fn master_enable(&self) -> bool;

    fn get_requested_interrupt(&self) -> (r: Option<Interrupt>)
        ensures
            r == requested_interrupt_spec(self.master_enable(), self.enable_flags(), self.request_flags()),
    ;

    fn interrupts_enabled(&self) -> (r: bool)
        ensures
            r == self.master_enable(),
    ;

    fn enable_interrupts(&mut self)
        ensures
            final(self).master_enable(),
            final(self).request_flags() == old(self).request_flags(),
            final(self).enable_flags() == old(self).enable_flags(),
    ;

    fn disable_interrupts(&mut self)
        ensures
            !final(self).master_enable(),
            final(self).request_flags() == old(self).request_flags(),
            final(self).enable_flags() == old(self).enable_flags(),
    ;

    fn request_interrupt(&mut self, interrupt: Interrupt)
        ensures
            final(self).request_flags() == old(self).request_flags() | (1u8 << interrupt.bit_spec()),
            final(self).enable_flags() == old(self).enable_flags(),
            final(self).master_enable() == old(self).master_enable(),
    ;

    fn clear_interrupt(&mut self, interrupt: Interrupt)
        ensures
            final(self).request_flags() == old(self).request_flags() & !(1u8 << interrupt.bit_spec()),
            final(self).enable_flags() == old(self).enable_flags(),
            final(self).master_enable() == old(self).master_enable(),
    ;
}

/// The interrupt registers IF (0xFF0F) and IE (0xFFFF) and the master enable.
pub struct InterruptControllerImpl {
    pub interrupt_request: u8,
    pub interrupt_enable: u8,
    pub interrupt_master_enable: bool,
}

impl InterruptControllerImpl {
    /// Nothing requested, nothing enabled, master enable off.
    pub fn new() -> (r: InterruptControllerImpl)
        ensures
            r.interrupt_request == 0,
            r.interrupt_enable == 0,
            !r.interrupt_master_enable,
    {
        InterruptControllerImpl { interrupt_request: 0, interrupt_enable: 0, interrupt_master_enable: false }
    }
}

impl InterruptController for InterruptControllerImpl {
    open spec fn request_flags(&self) -> u8 {
        self.interrupt_request
    }

    open spec fn enable_flags(&self) -> u8 {
        self.interrupt_enable
    }

    open spec fn master_enable(&self) -> bool {
        self.interrupt_master_enable
    }

    fn get_requested_interrupt(&self) -> (r: Option<Interrupt>) {
        if !self.interrupt_master_enable {
            None
        } else {
            let masked_request: u8 = 0x1F & self.interrupt_enable & self.interrupt_request;
            if masked_request == 0 {
                None
            } else {
                proof {
                    let e = self.interrupt_enable;
                    let q = self.interrupt_request;
                    assert(masked_request == 0x1F & masked_request) by (bit_vector)
                        requires masked_request == 0x1F & e & q;
                    axiom_u8_trailing_zeros(masked_request);
                    lemma_low_five_bits(masked_request);
                }
                let bit = masked_request.trailing_zeros() as u8;
                Some(Interrupt::from_bit(bit))
            }
        }
    }

    fn interrupts_enabled(&self) -> (r: bool) {
        self.interrupt_master_enable
    }

    fn enable_interrupts(&mut self) {
        self.interrupt_master_enable = true;
    }

    fn disable_interrupts(&mut self) {
        self.interrupt_master_enable = false;
    }

    fn request_interrupt(&mut self, interrupt: Interrupt) {
        self.interrupt_request = self.interrupt_request.set_bit(interrupt.get_bit());
    }

    fn clear_interrupt(&mut self, interrupt: Interrupt) {
        self.interrupt_request = self.interrupt_request.reset_bit(interrupt.get_bit());
    }
}

/// A nonzero value below 32 has its lowest set bit among bits 0 to 4.
proof fn lemma_low_five_bits(m: u8)
    requires
        m != 0,
        m == 0x1F & m,
    ensures
        u8_trailing_zeros(m) < 5,
{
    axiom_u8_trailing_zeros(m);
    let t = u8_trailing_zeros(m) as u8;
    assert(m == 0x1F & m && t < 8 && (m >> t) & 1u8 == 1u8 ==> t < 5) by (bit_vector);
}

impl Memory for InterruptControllerImpl {
    open spec fn maps(&self, address: u16) -> bool {
        address == 0xFF0F || address == 0xFFFF
    }

    open spec fn peek(&self, address: u16) -> u8 {
        if address == 0xFF0F {
            self.interrupt_request
        } else {
            self.interrupt_enable
        }
    }

    open spec fn written(&self, address: u16, value: u8, post: Self) -> bool {
        if address == 0xFF0F {
            post == InterruptControllerImpl { interrupt_request: value, ..*self }
        } else {
            post == InterruptControllerImpl { interrupt_enable: value, ..*self }
        }
    }

    fn read(&self, address: u16) -> (r: u8) {
        if address == 0xFF0F {
            self.interrupt_request
        } else {
            self.interrupt_enable
        }
    }

    fn write(&mut self, address: u16, value: u8) {
        if address == 0xFF0F {
            self.interrupt_request = value;
        } else {
            self.interrupt_enable = value;
        }
    }
}

/// Interrupt priority: the interrupt that is served is requested and enabled, and no
/// interrupt of a lower bit (a higher priority) is both requested and enabled.
pub proof fn law_requested_interrupt_has_priority(master_enable: bool, enable: u8, request: u8)
    requires
        requested_interrupt_spec(master_enable, enable, request) is Some,
    ensures
        ({
            let i = requested_interrupt_spec(master_enable, enable, request)->0;
            &&& master_enable
            &&& bit_of_u8(enable, i.bit_spec())
            &&& bit_of_u8(request, i.bit_spec())
            &&& forall|other: Interrupt|
                other.bit_spec() < i.bit_spec() ==> !(bit_of_u8(enable, #[trigger] other.bit_spec())
                    && bit_of_u8(request, other.bit_spec()))
        }),
{
    let masked: u8 = 0x1F & enable & request;
    assert(masked == 0x1F & masked) by (bit_vector)
        requires masked == 0x1F & enable & request;
    axiom_u8_trailing_zeros(masked);
    lemma_low_five_bits(masked);
    let t = u8_trailing_zeros(masked) as u8;
    let i = Interrupt::from_bit_spec(t);
    assert(i.bit_spec() == t);
    assert(t < 5 && (masked >> t) & 1u8 == 1u8 && masked == 0x1F & enable & request
        ==> enable & (1u8 << t) != 0 && request & (1u8 << t) != 0) by (bit_vector);
    assert forall|other: Interrupt| other.bit_spec() < i.bit_spec() implies !(bit_of_u8(
        enable,
        #[trigger] other.bit_spec(),
    ) && bit_of_u8(request, other.bit_spec())) by {
        let j = other.bit_spec();
        assert((masked >> j) & 1u8 == 0u8);
        assert(j < 5 && (masked >> j) & 1u8 == 0u8 && masked == 0x1F & enable & request
            ==> !(enable & (1u8 << j) != 0 && request & (1u8 << j) != 0)) by (bit_vector);
    }
}

/// Requesting an interrupt and then clearing it leaves the request register as it was when
/// the interrupt had not been requested.
pub proof fn law_request_then_clear(request: u8, interrupt: Interrupt)
    requires
        !bit_of_u8(request, interrupt.bit_spec()),
    ensures
        (request | (1u8 << interrupt.bit_spec())) & !(1u8 << interrupt.bit_spec()) == request,
{
    let b = interrupt.bit_spec();
    assert(b < 5);
    assert(b < 8 && request & (1u8 << b) == 0 ==> (request | (1u8 << b)) & !(1u8 << b) == request)
        by (bit_vector);
}

} // verus!
