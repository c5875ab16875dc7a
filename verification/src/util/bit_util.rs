use vstd::prelude::*;

verus! {

/// Bit `bit` of an 8-bit value.
pub open spec fn bit_of_u8(value: u8, bit: u8) -> bool {
    value & (1u8 << bit) != 0
}

/// Bit `bit` of a 16-bit value.
pub open spec fn bit_of_u16(value: u16, bit: u8) -> bool {
    value & (1u16 << bit) != 0
}

/// Bit `bit` of a machine word.
pub open spec fn bit_of_usize(value: usize, bit: u8) -> bool {
    value & (1usize << bit) != 0
}

/// The byte whose set bits are the positions `(flag, position)` of `bits` with `flag` true.
pub open spec fn compose_u8(bits: Seq<(bool, u8)>) -> u8
    decreases bits.len(),
{
    if bits.len() == 0 {
        0
    } else {
        let last = bits.last();
        compose_u8(bits.drop_last()) | (if last.0 { 1u8 << last.1 } else { 0u8 })
    }
}

/// The 16-bit word whose set bits are the positions of `bits` flagged true.
pub open spec fn compose_u16(bits: Seq<(bool, u8)>) -> u16
    decreases bits.len(),
{
    if bits.len() == 0 {
        0
    } else {
        let last = bits.last();
        compose_u16(bits.drop_last()) | (if last.0 { 1u16 << last.1 } else { 0u16 })
    }
}

/// The machine word whose set bits are the positions of `bits` flagged true.
pub open spec fn compose_usize(bits: Seq<(bool, u8)>) -> usize
    decreases bits.len(),
{
    if bits.len() == 0 {
        0
    } else {
        let last = bits.last();
        compose_usize(bits.drop_last()) | (if last.0 { 1usize << last.1 } else { 0usize })
    }
}

/// Every position named in `bits` lies below `width`.
pub open spec fn positions_below(bits: Seq<(bool, u8)>, width: u8) -> bool {
    forall|i: int| 0 <= i < bits.len() ==> #[trigger] bits[i].1 < width
}

/// Single-bit access and composition of unsigned integers.
pub trait BitUtil: Sized {
    /// Number of bits of the type.
    spec fn bit_width() -> u8;

    /// Whether `bit` names a bit of the value.
    spec fn has_bit(&self, bit: u8) -> bool;

    fn compose(bits: &[(bool, u8)]) -> Self
        requires
            bits@.len() > 0,
            positions_below(bits@, Self::bit_width()),
    ;

    fn get_bit(&self, bit: u8) -> bool
        requires
            self.has_bit(bit),
    ;

    fn set_bit(&self, bit: u8) -> Self
        requires
            self.has_bit(bit),
    ;

    fn reset_bit(&self, bit: u8) -> Self
        requires
            self.has_bit(bit),
    ;
}

impl BitUtil for u8 {
    open spec fn bit_width() -> u8 {
        8
    }

    open spec fn has_bit(&self, bit: u8) -> bool {
        bit < 8
    }

    fn compose(bits: &[(bool, u8)]) -> (r: u8)
        ensures
            r == compose_u8(bits@),
    {
        let mut result: u8 = 0;
        let mut i: usize = 0;
        while i < bits.len()
            invariant
                i <= bits@.len(),
                positions_below(bits@, 8),
                result == compose_u8(bits@.subrange(0, i as int)),
            decreases bits@.len() - i,
        {
            let (flag, position) = bits[i];
            assert(position < 8);
            let term: u8 = if flag { 1u8 << position } else { 0u8 };
            proof {
                assert(bits@.subrange(0, i as int + 1).drop_last() =~= bits@.subrange(0, i as int));
            }
            result = result | term;
            i = i + 1;
        }
        assert(bits@.subrange(0, bits@.len() as int) =~= bits@);
        result
    }

    fn get_bit(&self, bit: u8) -> (r: bool)
        ensures
            r == bit_of_u8(*self, bit),
    {
        (*self & (1u8 << bit)) != 0
    }

    fn set_bit(&self, bit: u8) -> (r: u8)
        ensures
            r == *self | (1u8 << bit),
    {
        *self | (1u8 << bit)
    }

    fn reset_bit(&self, bit: u8) -> (r: u8)
        ensures
            r == *self & !(1u8 << bit),
    {
        *self & !(1u8 << bit)
    }
}

impl BitUtil for u16 {
    open spec fn bit_width() -> u8 {
        16
    }

    open spec fn has_bit(&self, bit: u8) -> bool {
        bit < 16
    }

    fn compose(bits: &[(bool, u8)]) -> (r: u16)
        ensures
            r == compose_u16(bits@),
    {
        let mut result: u16 = 0;
        let mut i: usize = 0;
        while i < bits.len()
            invariant
                i <= bits@.len(),
                positions_below(bits@, 16),
                result == compose_u16(bits@.subrange(0, i as int)),
            decreases bits@.len() - i,
        {
            let (flag, position) = bits[i];
            assert(position < 16);
            let term: u16 = if flag { 1u16 << position } else { 0u16 };
            proof {
                assert(bits@.subrange(0, i as int + 1).drop_last() =~= bits@.subrange(0, i as int));
            }
            result = result | term;
            i = i + 1;
        }
        assert(bits@.subrange(0, bits@.len() as int) =~= bits@);
        result
    }

    fn get_bit(&self, bit: u8) -> (r: bool)
        ensures
            r == bit_of_u16(*self, bit),
    {
        (*self & (1u16 << bit)) != 0
    }

    fn set_bit(&self, bit: u8) -> (r: u16)
        ensures
            r == *self | (1u16 << bit),
    {
        *self | (1u16 << bit)
    }

    fn reset_bit(&self, bit: u8) -> (r: u16)
        ensures
            r == *self & !(1u16 << bit),
    {
        *self & !(1u16 << bit)
    }
}

impl BitUtil for usize {
    open spec fn bit_width() -> u8 {
        32
    }

    open spec fn has_bit(&self, bit: u8) -> bool {
        bit < 32
    }

    fn compose(bits: &[(bool, u8)]) -> (r: usize)
        ensures
            r == compose_usize(bits@),
    {
        let mut result: usize = 0;
        let mut i: usize = 0;
        while i < bits.len()
            invariant
                i <= bits@.len(),
                positions_below(bits@, 32),
                result == compose_usize(bits@.subrange(0, i as int)),
            decreases bits@.len() - i,
        {
            let (flag, position) = bits[i];
            assert(position < 32);
            let term: usize = if flag { 1usize << position } else { 0usize };
            proof {
                assert(bits@.subrange(0, i as int + 1).drop_last() =~= bits@.subrange(0, i as int));
            }
            result = result | term;
            i = i + 1;
        }
        assert(bits@.subrange(0, bits@.len() as int) =~= bits@);
        result
    }

    fn get_bit(&self, bit: u8) -> (r: bool)
        ensures
            r == bit_of_usize(*self, bit),
    {
        (*self & (1usize << bit)) != 0
    }

    fn set_bit(&self, bit: u8) -> (r: usize)
        ensures
            r == *self | (1usize << bit),
    {
        *self | (1usize << bit)
    }

    fn reset_bit(&self, bit: u8) -> (r: usize)
        ensures
            r == *self & !(1usize << bit),
    {
        *self & !(1usize << bit)
    }
}

/// Setting a bit makes it read as set and leaves every other bit as it was; resetting it
/// makes it read as clear and leaves every other bit as it was.
pub proof fn law_set_and_reset_bit(value: u8, bit: u8, other: u8)
    requires
        bit < 8,
        other < 8,
    ensures
        bit_of_u8(value | (1u8 << bit), bit),
        !bit_of_u8(value & !(1u8 << bit), bit),
        other != bit ==> bit_of_u8(value | (1u8 << bit), other) == bit_of_u8(value, other),
        other != bit ==> bit_of_u8(value & !(1u8 << bit), other) == bit_of_u8(value, other),
{
    assert(bit < 8 && other < 8 ==> {
        &&& (value | (1u8 << bit)) & (1u8 << bit) != 0
        &&& (value & !(1u8 << bit)) & (1u8 << bit) == 0
        &&& other != bit ==> (((value | (1u8 << bit)) & (1u8 << other) != 0) == (value & (1u8 << other) != 0))
        &&& other != bit ==> (((value & !(1u8 << bit)) & (1u8 << other) != 0) == (value & (1u8 << other) != 0))
    }) by (bit_vector);
}

/// Facts about single bits and byte operations that the register laws rest on: bit tests
/// by shift and by mask agree, a status byte rewritten in bits 0 to 2 keeps bits 3 to 6,
/// AND, OR and XOR commute, and the zero-flag byte is 0x80 or 0.
pub proof fn lemma_register_bit_facts(stat: u8, equal: bool, mode: u8, a: u8, v: u8, zero: bool)
    by (bit_vector)
    ensures
        bit_of_u8(stat, 2) == (stat & 0x04 != 0),
        bit_of_u8(stat, 3) == (stat & 0x08 != 0),
        bit_of_u8(stat, 4) == (stat & 0x10 != 0),
        bit_of_u8(stat, 5) == (stat & 0x20 != 0),
        bit_of_u8(stat, 6) == (stat & 0x40 != 0),
        mode <= 3 ==> ({
            let rewritten = ((if equal { stat | (1u8 << 2u8) } else { stat & !(1u8 << 2u8) }) & !0x03u8) | mode;
            &&& rewritten & 0x08 == stat & 0x08
            &&& rewritten & 0x10 == stat & 0x10
            &&& rewritten & 0x20 == stat & 0x20
            &&& rewritten & 0x40 == stat & 0x40
            &&& bit_of_u8(rewritten, 2) == equal
        }),
        a ^ v == v ^ a,
        a | v == v | a,
        a & v == v & a,
        ((if zero { 0x80u8 } else { 0u8 }) | 0u8 | 0u8 | 0u8) as u8 == (if zero { 0x80u8 } else { 0u8 }),
{
}

} // verus!
