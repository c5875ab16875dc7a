use vstd::prelude::*;
use crate::memory::memory::Memory;

verus! {

/// High RAM, 127 bytes at 0xFF80 to 0xFFFE.
pub struct Stack {
    bytes: Vec<u8>,
}

impl Stack {
    pub const START_ADDRESS: u16 = 0xFF80;
    pub const END_ADDRESS: u16 = 0xFFFE;
    pub const SIZE: usize = 127;

    /// The bytes held, the first at 0xFF80.
    pub closed spec fn contents(&self) -> Seq<u8> {
        self.bytes@
    }

    /// A zeroed stack.
    pub fn new() -> (r: Stack)
        ensures
            r.contents() == Seq::new(127, |i: int| 0u8),
    {
        let mut bytes: Vec<u8> = Vec::new();
        let mut i: usize = 0;
        while i < Stack::SIZE
            invariant
                i <= 127,
                bytes@ == Seq::new(i as nat, |j: int| 0u8),
            decreases 127 - i,
        {
            bytes.push(0);
            i = i + 1;
        }
        Stack { bytes }
    }
}

impl Memory for Stack {
    open spec fn maps(&self, address: u16) -> bool {
        &&& 0xFF80 <= address <= 0xFFFE
        &&& self.contents().len() == 127
    }

    open spec fn peek(&self, address: u16) -> u8 {
        self.contents()[address - 0xFF80]
    }

    open spec fn written(&self, address: u16, value: u8, post: Self) -> bool {
        post.contents() == self.contents().update(address - 0xFF80, value)
    }

    fn read(&self, address: u16) -> (r: u8) {
        self.bytes[(address - Stack::START_ADDRESS) as usize]
    }

    fn write(&mut self, address: u16, value: u8) {
        self.bytes.set((address - Stack::START_ADDRESS) as usize, value);
    }
}

/// What high RAM reads back after a write: the value written at that address, the old byte elsewhere.
pub proof fn law_stack_read_after_write(memory: Stack, post: Stack, address: u16, value: u8, other: u16)
    requires
        memory.maps(address),
        memory.written(address, value, post),
    ensures
        post.maps(other) == memory.maps(other),
        post.peek(address) == value,
        other != address && memory.maps(other) ==> post.peek(other) == memory.peek(other),
{
}

} // verus!
