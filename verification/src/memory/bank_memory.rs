use vstd::prelude::*;

verus! {

/// `BANK_COUNT` banks of `BANK_SIZE` bytes, of which one is seen at a time.
pub struct BankMemory<const BANK_SIZE: usize, const BANK_COUNT: usize> {
    bank_index: usize,
    bytes: Vec<u8>,
}

impl<const BANK_SIZE: usize, const BANK_COUNT: usize> BankMemory<BANK_SIZE, BANK_COUNT> {
    /// The bytes of all banks, bank after bank.
    pub closed spec fn contents(&self) -> Seq<u8> {
        self.bytes@
    }

    /// The bank in view.
    pub closed spec fn bank(&self) -> usize {
        self.bank_index
    }

    /// Every byte of the bank in view can be reached.
    pub open spec fn wf(&self) -> bool {
        &&& self.bank() < BANK_COUNT
        &&& self.contents().len() == BANK_SIZE * BANK_COUNT
    }

    /// Zeroed banks with bank 0 in view.
    pub fn new() -> (r: Self)
        requires
            BANK_SIZE * BANK_COUNT <= usize::MAX,
        ensures
            r.contents() == Seq::new((BANK_SIZE * BANK_COUNT) as nat, |i: int| 0u8),
            r.bank() == 0,
    {
        let total: usize = BANK_SIZE * BANK_COUNT;
        let mut bytes: Vec<u8> = Vec::new();
        let mut i: usize = 0;
        while i < total
            invariant
                i <= total,
                bytes@ == Seq::new(i as nat, |j: int| 0u8),
            decreases total - i,
        {
            bytes.push(0);
            i = i + 1;
        }
        BankMemory { bank_index: 0, bytes }
    }

    pub fn set_bank_index(&mut self, index: usize)
        ensures
            final(self).bank() == index,
            final(self).contents() == old(self).contents(),
    {
        self.bank_index = index;
    }

    /// The byte at `address` of the bank in view.
    pub fn read(&self, address: usize) -> (r: u8)
        requires
            self.wf(),
            address < BANK_SIZE,
        ensures
            r == self.contents()[self.bank() * BANK_SIZE + address],
    {
        let len = self.bytes.len();
        proof {
            lemma_bank_offset(self.bank() as int, BANK_COUNT as int, BANK_SIZE as int, address as int);
        }
        self.bytes[self.bank_index * BANK_SIZE + address]
    }

    /// Writes `value` at `address` of the bank in view.
    pub fn write(&mut self, address: usize, value: u8)
        requires
            old(self).wf(),
            address < BANK_SIZE,
        ensures
            final(self).contents() == old(self).contents().update(old(self).bank() * BANK_SIZE + address, value),
            final(self).bank() == old(self).bank(),
    {
        let len = self.bytes.len();
        proof {
            lemma_bank_offset(self.bank() as int, BANK_COUNT as int, BANK_SIZE as int, address as int);
        }
        let index = self.bank_index * BANK_SIZE + address;
        self.bytes.set(index, value);
    }
}

/// An offset within bank `bank` lies below the total size of `count` banks.
proof fn lemma_bank_offset(bank: int, count: int, size: int, offset: int)
    requires
        0 <= bank < count,
        0 <= offset < size,
    ensures
        0 <= bank * size,
        bank * size + offset < size * count,
{
    vstd::arithmetic::mul::lemma_mul_nonnegative(bank, size);
    vstd::arithmetic::mul::lemma_mul_inequality(bank + 1, count, size);
    vstd::arithmetic::mul::lemma_mul_is_commutative(size, count);
    vstd::arithmetic::mul::lemma_mul_is_distributive_add_other_way(size, bank, 1);
}

/// Banks do not overlap: after a write through the bank in view, that byte reads back as
/// written, and the byte at any other address of any bank keeps its value.
pub proof fn law_bank_memory_write_isolation<const BANK_SIZE: usize, const BANK_COUNT: usize>(
    memory: BankMemory<BANK_SIZE, BANK_COUNT>,
    post: BankMemory<BANK_SIZE, BANK_COUNT>,
    address: usize,
    value: u8,
    other_bank: usize,
    other_address: usize,
)
    requires
        memory.wf(),
        address < BANK_SIZE,
        post.contents() == memory.contents().update(memory.bank() * BANK_SIZE + address, value),
        post.bank() == memory.bank(),
        other_bank < BANK_COUNT,
        other_address < BANK_SIZE,
        other_bank != memory.bank() || other_address != address,
    ensures
        post.contents()[post.bank() * BANK_SIZE + address] == value,
        post.contents()[other_bank * BANK_SIZE + other_address]
            == memory.contents()[other_bank * BANK_SIZE + other_address],
{
    let bank = memory.bank() as int;
    let size = BANK_SIZE as int;
    lemma_bank_offset(bank, BANK_COUNT as int, size, address as int);
    lemma_bank_offset(other_bank as int, BANK_COUNT as int, size, other_address as int);
    assert(bank * size + address != other_bank * size + other_address) by (nonlinear_arith)
        requires
            0 <= address < size,
            0 <= other_address < size,
            other_bank != bank || other_address != address,
    {
        if other_bank != bank {
            if other_bank < bank {
                assert(other_bank * size + size <= bank * size);
            } else {
                assert(bank * size + size <= other_bank * size);
            }
        }
    }
}

} // verus!
