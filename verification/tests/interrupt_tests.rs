use gbemu::cpu::interrupts::{Interrupt, InterruptController, InterruptControllerImpl};
use gbemu::memory::memory::Memory;

#[test]
fn get_requested_interrupt_returns_highest_priority() {
    let mut interrupt_controller = InterruptControllerImpl::new();
    interrupt_controller.request_interrupt(Interrupt::SerialIOComplete);
    interrupt_controller.request_interrupt(Interrupt::Stat);
    interrupt_controller.enable_interrupts();
    interrupt_controller.write(0xFFFF, 0xFF);
    assert_eq!(interrupt_controller.get_requested_interrupt(), Some(Interrupt::Stat));
    interrupt_controller.clear_interrupt(Interrupt::Stat);
    assert_eq!(interrupt_controller.get_requested_interrupt(), Some(Interrupt::SerialIOComplete));
    interrupt_controller.clear_interrupt(Interrupt::SerialIOComplete);
    assert_eq!(interrupt_controller.get_requested_interrupt(), None);
}

#[test]
fn interrupts_are_correctly_enabled() {
    let mut interrupt_controller = InterruptControllerImpl::new();
    interrupt_controller.request_interrupt(Interrupt::SerialIOComplete);
    interrupt_controller.request_interrupt(Interrupt::Stat);
    interrupt_controller.enable_interrupts();
    interrupt_controller.write(0xFFFF, 0x08);
    assert_eq!(interrupt_controller.get_requested_interrupt(), Some(Interrupt::SerialIOComplete));
    interrupt_controller.clear_interrupt(Interrupt::SerialIOComplete);
    assert_eq!(interrupt_controller.get_requested_interrupt(), None);
    interrupt_controller.write(0xFFFF, 0x02);
    assert_eq!(interrupt_controller.get_requested_interrupt(), Some(Interrupt::Stat));
}

#[test]
fn master_enable_toggles_interrupts() {
    let mut interrupt_controller = InterruptControllerImpl::new();
    interrupt_controller.request_interrupt(Interrupt::SerialIOComplete);
    interrupt_controller.request_interrupt(Interrupt::Stat);
    interrupt_controller.write(0xFFFF, 0xFF);
    interrupt_controller.disable_interrupts();
    assert_eq!(interrupt_controller.get_requested_interrupt(), None);
    interrupt_controller.enable_interrupts();
    assert_eq!(interrupt_controller.get_requested_interrupt(), Some(Interrupt::Stat));
}

#[test]
fn interrupt_bits_and_routines() {
    assert_eq!(Interrupt::VerticalBlank.get_bit(), 0);
    assert_eq!(Interrupt::ButtonPressed.get_bit(), 4);
    assert_eq!(Interrupt::VerticalBlank.get_routine_address(), 0x40);
    assert_eq!(Interrupt::TimerOverflow.get_routine_address(), 0x50);
    assert_eq!(Interrupt::ButtonPressed.get_routine_address(), 0x60);
    assert_eq!(Interrupt::from_bit(3), Interrupt::SerialIOComplete);
    assert_eq!(Interrupt::from_bit(1), Interrupt::Stat);
}

#[test]
fn interrupt_registers_read_back() {
    let mut interrupt_controller = InterruptControllerImpl::new();
    interrupt_controller.request_interrupt(Interrupt::TimerOverflow);
    assert_eq!(interrupt_controller.read(0xFF0F), 0x04);
    interrupt_controller.write(0xFF0F, 0x11);
    assert_eq!(interrupt_controller.read(0xFF0F), 0x11);
    interrupt_controller.write(0xFFFF, 0x10);
    interrupt_controller.enable_interrupts();
    assert_eq!(interrupt_controller.get_requested_interrupt(), Some(Interrupt::ButtonPressed));
}
