use vstd::prelude::*;
use crate::memory::memory::{Memory, MemoryAddress};

verus! {

/// Work RAM: eight 4 KiB banks; bank 0 sits at 0xC000, the bank chosen through SVBK
/// (never bank 0) at 0xD000.
pub struct WRAMImpl {
    bytes: Vec<u8>,
    bank_index: u8,
}

/// Where in the eight banks the address `address` of the work-RAM window lies.
pub open spec fn wram_offset(bank_index: u8, address: u16) -> int {
    if address <= 0xCFFF {
        address - 0xC000
    } else {
        bank_index * 0x1000 + address - 0xD000
    }
}

impl WRAMImpl {
    pub const START_ADDRESS: u16 = 0xC000;
    pub const END_ADDRESS: u16 = 0xDFFF;
    pub const BANK_SIZE: u16 = 0x1000;
    pub const BANK_0_END_ADDRESS: u16 = 0xCFFF;
    pub const DYNAMIC_BANK_START_ADDRESS: u16 = 0xD000;

    /// The bytes of all eight banks, bank after bank.
    pub closed spec fn contents(&self) -> Seq<u8> {
        self.bytes@
    }

    /// The bank seen at 0xD000.
    pub closed spec fn bank(&self) -> u8 {
        self.bank_index
    }

    /// A zeroed work RAM with bank 1 selected.
    pub fn new() -> (r: WRAMImpl)
        ensures
            r.contents() == Seq::new(0x8000, |i: int| 0u8),
            r.bank() == 1,
    {
        let mut bytes: Vec<u8> = Vec::new();
        let mut i: usize = 0;
        while i < 0x8000
            invariant
                i <= 0x8000,
                bytes@ == Seq::new(i as nat, |j: int| 0u8),
            decreases 0x8000 - i,
        {
            bytes.push(0);
            i = i + 1;
        }
        WRAMImpl { bytes, bank_index: 1 }
    }
}

impl Memory for WRAMImpl {
    open spec fn maps(&self, address: u16) -> bool {
        &&& (0xC000 <= address <= 0xDFFF || address == 0xFF70)
        &&& self.contents().len() == 0x8000
        &&& 1 <= self.bank() <= 7
    }

    open spec fn peek(&self, address: u16) -> u8 {
        if address == 0xFF70 {
            self.bank()
        } else {
            self.contents()[wram_offset(self.bank(), address)]
        }
    }

    open spec fn written(&self, address: u16, value: u8, post: Self) -> bool {
        if address == 0xFF70 {
            &&& post.contents() == self.contents()
            &&& post.bank() == (if value & 0x07 == 0 { 1 } else { value & 0x07 })
        } else {
            &&& post.contents() == self.contents().update(wram_offset(self.bank(), address), value)
            &&& post.bank() == self.bank()
        }
    }

    fn read(&self, address: u16) -> (r: u8) {
        if address == MemoryAddress::SVBK {
            self.bank_index
        } else if address <= WRAMImpl::BANK_0_END_ADDRESS {
            self.bytes[(address - WRAMImpl::START_ADDRESS) as usize]
        } else {
            self.bytes[(self.bank_index as u16 * WRAMImpl::BANK_SIZE + (address - WRAMImpl::DYNAMIC_BANK_START_ADDRESS)) as usize]
        }
    }

    fn write(&mut self, address: u16, value: u8) {
        if address == MemoryAddress::SVBK {
            assert(value & 0x07 <= 7) by (bit_vector);
            self.bank_index = value & 0x07;
            if self.bank_index == 0 {
                self.bank_index = 1;
            }
        } else if address <= WRAMImpl::BANK_0_END_ADDRESS {
            self.bytes.set((address - WRAMImpl::START_ADDRESS) as usize, value);
        } else {
            self.bytes.set(
                (self.bank_index as u16 * WRAMImpl::BANK_SIZE + (address - WRAMImpl::DYNAMIC_BANK_START_ADDRESS)) as usize,
                value,
            );
        }
    }
}

/// What work RAM reads back after a byte is written to its window: the byte at that address,
/// and every other address (SVBK included) as before.
pub proof fn law_wram_read_after_write(memory: WRAMImpl, post: WRAMImpl, address: u16, value: u8, other: u16)
    requires
        memory.maps(address),
        address != 0xFF70,
        memory.written(address, value, post),
    ensures
        post.maps(other) == memory.maps(other),
        post.peek(address) == value,
        other != address && memory.maps(other) ==> post.peek(other) == memory.peek(other),
{
}

/// Selecting a bank through SVBK keeps every byte of every bank: bank 0 reads as before, SVBK
/// reads back the bank chosen (bank 1 in place of bank 0), and selecting the former bank again
/// shows its bytes unchanged.
pub proof fn law_wram_bank_switch(
    memory: WRAMImpl,
    switched: WRAMImpl,
    back: WRAMImpl,
    value: u8,
    address: u16,
)
    requires
        memory.maps(0xFF70),
        memory.written(0xFF70, value, switched),
        switched.written(0xFF70, memory.bank(), back),
        memory.maps(address),
    ensures
        switched.maps(address),
        switched.peek(0xFF70) == (if value & 0x07 == 0 { 1 } else { value & 0x07 }),
        address <= 0xCFFF ==> switched.peek(address) == memory.peek(address),
        back.peek(address) == memory.peek(address),
{
    let bank: u8 = memory.bank();
    assert(bank & 0x07 == bank && value & 0x07 <= 7) by (bit_vector)
        requires 1 <= bank <= 7;
}

} // verus!
