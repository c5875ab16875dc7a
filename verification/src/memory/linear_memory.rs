use vstd::prelude::*;
use crate::memory::memory::Memory;

verus! {

/// `SIZE` bytes of RAM mapped from `START_ADDRESS` on.
pub struct LinearMemory<const SIZE: usize, const START_ADDRESS: u16> {
    bytes: Vec<u8>,
}

impl<const SIZE: usize, const START_ADDRESS: u16> LinearMemory<SIZE, START_ADDRESS> {
    /// The bytes held, the first at `START_ADDRESS`.
    pub closed spec fn contents(&self) -> Seq<u8> {
        self.bytes@
    }

    /// A zeroed memory.
    pub fn new() -> (r: Self)
        ensures
            r.contents() == Seq::new(SIZE as nat, |i: int| 0u8),
    {
        let mut bytes: Vec<u8> = Vec::new();
        let mut i: usize = 0;
        while i < SIZE
            invariant
                i <= SIZE,
                bytes@ == Seq::new(i as nat, |j: int| 0u8),
            decreases SIZE - i,
        {
            bytes.push(0);
            i = i + 1;
        }
        LinearMemory { bytes }
    }

    /// A memory holding `bytes`, which must be exactly `SIZE` long.
    pub fn from_bytes(bytes: Vec<u8>) -> (r: Self)
        requires
            bytes@.len() == SIZE,
        ensures
            r.contents() == bytes@,
    {
        LinearMemory { bytes }
    }

    /// A copy of the bytes held.
    pub fn to_bytes(&self) -> (r: Vec<u8>)
        ensures
            r@ == self.contents(),
    {
        self.bytes.clone()
    }
}

impl<const SIZE: usize, const START_ADDRESS: u16> Memory for LinearMemory<SIZE, START_ADDRESS> {
    open spec fn maps(&self, address: u16) -> bool {
        &&& START_ADDRESS <= address
        &&& address - START_ADDRESS < SIZE
        &&& self.contents().len() == SIZE
    }

    open spec fn peek(&self, address: u16) -> u8 {
        self.contents()[address - START_ADDRESS]
    }

    open spec fn written(&self, address: u16, value: u8, post: Self) -> bool {
        post.contents() == self.contents().update(address - START_ADDRESS, value)
    }

    fn read(&self, address: u16) -> (r: u8) {
        self.bytes[address as usize - START_ADDRESS as usize]
    }

    fn write(&mut self, address: u16, value: u8) {
        self.bytes.set(address as usize - START_ADDRESS as usize, value);
    }
}

/// What a linear memory reads back after a write: the value written at that address, the old byte
/// elsewhere.
pub proof fn law_linear_memory_read_after_write<const SIZE: usize, const START_ADDRESS: u16>(
    memory: LinearMemory<SIZE, START_ADDRESS>,
    post: LinearMemory<SIZE, START_ADDRESS>,
    address: u16,
    value: u8,
    other: u16,
)
    requires
        memory.maps(address),
        memory.written(address, value, post),
    ensures
        post.maps(other) == memory.maps(other),
        post.peek(address) == value,
        other != address && memory.maps(other) ==> post.peek(other) == memory.peek(other),
{
}

} // verus!
