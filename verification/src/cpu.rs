pub mod alu;
pub mod cpu;
pub mod execution;
pub mod instruction;
pub mod interrupts;
pub mod register;
