use vstd::prelude::*;

verus! {

/// A cartridge whose ROM can be filled in.
pub trait Loadable {
    /// The ROM bytes.
    spec fn rom_contents(&self) -> Seq<u8>;

    fn load_byte(&mut self, address: usize, value: u8)
        requires
            address < old(self).rom_contents().len(),
        ensures
            final(self).rom_contents() == old(self).rom_contents().update(address as int, value),
    ;

    fn load_bytes(&mut self, address: usize, values: &[u8])
        requires
            address + values@.len() <= old(self).rom_contents().len(),
        ensures
            final(self).rom_contents().len() == old(self).rom_contents().len(),
            forall|i: int|
                #![trigger final(self).rom_contents()[i]]
                0 <= i < old(self).rom_contents().len() ==> final(self).rom_contents()[i] == (if address <= i
                    < address + values@.len() {
                    values@[i - address]
                } else {
                    old(self).rom_contents()[i]
                }),
    ;
}

/// Writes `values` into `bytes` from `address` on.
pub fn copy_into(bytes: &mut Vec<u8>, address: usize, values: &[u8])
    requires
        address + values@.len() <= old(bytes)@.len(),
    ensures
        final(bytes)@.len() == old(bytes)@.len(),
        forall|i: int|
            #![trigger final(bytes)@[i]]
            0 <= i < old(bytes)@.len() ==> final(bytes)@[i] == (if address <= i < address + values@.len() {
                values@[i - address]
            } else {
                old(bytes)@[i]
            }),
{
    let length = bytes.len();
    let mut k: usize = 0;
    while k < values.len()
        invariant
            length == bytes@.len(),
            k <= values@.len(),
            address + values@.len() <= old(bytes)@.len(),
            bytes@.len() == old(bytes)@.len(),
            forall|i: int|
                #![trigger bytes@[i]]
                0 <= i < old(bytes)@.len() ==> bytes@[i] == (if address <= i < address + k {
                    values@[i - address]
                } else {
                    old(bytes)@[i]
                }),
        decreases values@.len() - k,
    {
        bytes.set(address + k, values[k]);
        k = k + 1;
    }
}

/// A vector of `size` zero bytes.
pub fn zeroed(size: usize) -> (r: Vec<u8>)
    ensures
        r@ == Seq::new(size as nat, |i: int| 0u8),
{
    let mut bytes: Vec<u8> = Vec::new();
    let mut i: usize = 0;
    while i < size
        invariant
            i <= size,
            bytes@ == Seq::new(i as nat, |j: int| 0u8),
        decreases size - i,
    {
        bytes.push(0);
        i = i + 1;
    }
    bytes
}

/// The byte at `index` of `bytes`, or 0xFF (an undriven bus) when `index` lies beyond them.
pub open spec fn byte_or_open_bus(bytes: Seq<u8>, index: int) -> u8 {
    if 0 <= index < bytes.len() {
        bytes[index]
    } else {
        0xFF
    }
}

/// `bytes` with `value` at `index`, or unchanged when `index` lies beyond them.
pub open spec fn store_if_present(bytes: Seq<u8>, index: int, value: u8) -> Seq<u8> {
    if 0 <= index < bytes.len() {
        bytes.update(index, value)
    } else {
        bytes
    }
}

/// Reads `bytes[index]`, or 0xFF past the end.
pub fn read_or_open_bus(bytes: &Vec<u8>, index: usize) -> (r: u8)
    ensures
        r == byte_or_open_bus(bytes@, index as int),
{
    if index < bytes.len() {
        bytes[index]
    } else {
        0xFF
    }
}

/// Writes `bytes[index]` when it exists.
pub fn store(bytes: &mut Vec<u8>, index: usize, value: u8)
    ensures
        final(bytes)@ == store_if_present(old(bytes)@, index as int, value),
{
    if index < bytes.len() {
        bytes.set(index, value);
    }
}

} // verus!
