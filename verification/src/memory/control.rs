use vstd::prelude::*;
use crate::memory::memory::Memory;

verus! {

/// The speed-switch and boot-ROM control registers at 0xFF4C, 0xFF4D and 0xFF50.
pub struct ControlRegisters {
    pub key0: u8,
    pub key1: u8,
    pub bank: u8,
}

impl ControlRegisters {
    pub fn new() -> (r: ControlRegisters)
        ensures
            r == (ControlRegisters { key0: 0, key1: 0, bank: 0 }),
    {
        ControlRegisters { key0: 0, key1: 0, bank: 0 }
    }
}

impl Memory for ControlRegisters {
    open spec fn maps(&self, address: u16) -> bool {
        address == 0xFF4C || address == 0xFF4D || address == 0xFF50
    }

    open spec fn peek(&self, address: u16) -> u8 {
        if address == 0xFF4C {
            self.key0
        } else if address == 0xFF4D {
            self.key1
        } else {
            self.bank
        }
    }

    open spec fn written(&self, address: u16, value: u8, post: Self) -> bool {
        if address == 0xFF4C {
            post == ControlRegisters { key0: value, ..*self }
        } else if address == 0xFF4D {
            post == ControlRegisters { key1: value, ..*self }
        } else {
            post == ControlRegisters { bank: value, ..*self }
        }
    }

    fn read(&self, address: u16) -> (r: u8) {
        if address == 0xFF4C {
            self.key0
        } else if address == 0xFF4D {
            self.key1
        } else {
            self.bank
        }
    }

    fn write(&mut self, address: u16, value: u8) {
        if address == 0xFF4C {
            self.key0 = value;
        } else if address == 0xFF4D {
            self.key1 = value;
        } else {
            self.bank = value;
        }
    }
}

} // verus!
