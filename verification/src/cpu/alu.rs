use vstd::prelude::*;
use crate::util::bit_util::{BitUtil, bit_of_u8, bit_of_u16};
use crate::util::byte_order::word_from_le_bytes;

verus! {

/// The outcome of an ALU operation: the value and the flags it raises.
pub struct Result<T> {
    pub value: T,
    pub carry: bool,
    pub half_carry: bool,
    pub zero: bool,
}

/// Arithmetic and logic on bytes and words, with the flags of the Game Boy CPU.
pub struct ALU {}

/// `true` as 1, `false` as 0.
pub open spec fn bit_value(b: bool) -> int {
    if b { 1 } else { 0 }
}

/// The 8-bit sum `a + b + c` and its flags.
pub open spec fn add_spec(a: u8, b: u8, c: bool) -> (u8, bool, bool) {
    let sum = a + b + bit_value(c);
    ((sum % 256) as u8, sum > 255, (a % 16) + (b % 16) + bit_value(c) > 15)
}

/// The 8-bit difference `a - b - c` (modulo 256) and its borrow flags.
pub open spec fn sub_spec(a: u8, b: u8, c: bool) -> (u8, bool, bool) {
    let diff = a - b - bit_value(c);
    (((diff + 256) % 256) as u8, diff < 0, (a % 16) - (b % 16) - bit_value(c) < 0)
}

/// A word split into its low and high bytes.
proof fn lemma_split_word(word: u16, low: u8, high: u8) by (bit_vector)
    requires
        low == (word & 0xFF) as u8,
        high == (word >> 8) as u8,
    ensures
        word == low + 256 * high,
        word % 4096 == low + 256 * (high % 16),
{
}

proof fn lemma_add_flags(a: u8, b: u8, c: u8, result: u16)
    requires
        c <= 1,
        result == a as u16 + b as u16 + c as u16,
    ensures
        bit_of_u16(a as u16 ^ b as u16 ^ result, 8) == (a + b + c > 255),
        bit_of_u16(a as u16 ^ b as u16 ^ result, 4) == ((a % 16) + (b % 16) + c > 15),
        result as u8 == (a + b + c) % 256,
{
    assert({
        &&& bit_of_u16(a as u16 ^ b as u16 ^ result, 8) == (a + b + c > 255)
        &&& bit_of_u16(a as u16 ^ b as u16 ^ result, 4) == ((a % 16) + (b % 16) + c > 15)
        &&& result as u8 == (a + b + c) % 256
    }) by (bit_vector)
        requires
            c <= 1,
            result == a as u16 + b as u16 + c as u16,
    ;
}

proof fn lemma_sub_flags(a: u8, b: u8, c: u8, result: u16)
    requires
        c <= 1,
        result == 0x100 + a - b - c,
    ensures
        bit_of_u16(((0x100 + a) as u16) ^ b as u16 ^ result, 8) == (a - b - c < 0),
        bit_of_u16(((0x100 + a) as u16) ^ b as u16 ^ result, 4) == ((a % 16) - (b % 16) - c < 0),
        result as u8 == (a - b - c + 256) % 256,
{
    assert({
        &&& bit_of_u16(((0x100 + a) as u16) ^ b as u16 ^ result, 8) == (a - b - c < 0)
        &&& bit_of_u16(((0x100 + a) as u16) ^ b as u16 ^ result, 4) == ((a % 16) - (b % 16) - c < 0)
        &&& result as u8 == (a - b - c + 256) % 256
    }) by (bit_vector)
        requires
            c <= 1,
            result == 0x100 + a - b - c,
    ;
}


/// Two-digit base-256 addition (`sign == 1`) or subtraction (`sign == -1`) with carry between digits.
#[verifier::spinoff_prover]
proof fn lemma_pair_digits(l1: int, h1: int, l2: int, h2: int, sign: int)
    requires
        0 <= l1 < 256,
        0 <= h1 < 256,
        0 <= l2 < 256,
        0 <= h2 < 256,
        sign == 1 || sign == -1,
    ensures
        ({
            let s1 = l1 + sign * l2;
            let c1: int = if s1 > 255 || s1 < 0 { 1 } else { 0 };
            let r1 = (s1 + 256) % 256;
            let s2 = h1 + sign * h2 + sign * c1;
            let r2 = (s2 + 256) % 256;
            let total = (l1 + 256 * h1) + sign * (l2 + 256 * h2);
            &&& r1 + 256 * r2 == (total + 65536) % 65536
            &&& (s2 > 255 || s2 < 0) == (total > 65535 || total < 0)
        }),
{
    if sign == 1 {
        assert(sign * l2 == l2 && sign * h2 == h2);
    } else {
        assert(sign * l2 == -l2 && sign * h2 == -h2);
    }
}


proof fn lemma_add_pair(
    op1: int,
    op2: int,
    l1: int,
    h1: int,
    l2: int,
    h2: int,
    v1: int,
    c1: bool,
    v2: int,
    c2: bool,
    hc2: bool,
    result: int,
)
    requires
        0 <= l1 < 256,
        0 <= h1 < 256,
        0 <= l2 < 256,
        0 <= h2 < 256,
        op1 == l1 + 256 * h1,
        op2 == l2 + 256 * h2,
        op1 % 4096 == l1 + 256 * (h1 % 16),
        op2 % 4096 == l2 + 256 * (h2 % 16),
        v1 == (l1 + l2) % 256,
        c1 == (l1 + l2 > 255),
        v2 == (h1 + h2 + bit_value(c1)) % 256,
        c2 == (h1 + h2 + bit_value(c1) > 255),
        hc2 == ((h1 % 16) + (h2 % 16) + bit_value(c1) > 15),
        result == v1 + 256 * v2,
    ensures
        result == (op1 + op2) % 65536,
        c2 == (op1 + op2 > 65535),
        hc2 == ((op1 % 4096) + (op2 % 4096) > 4095),
{
    if l1 + l2 > 255 {
        assert(v1 == l1 + l2 - 256);
    } else {
        assert(v1 == l1 + l2);
    }
    let s2 = h1 + h2 + bit_value(c1);
    if s2 > 255 {
        assert(v2 == s2 - 256);
        assert(op1 + op2 == result + 65536);
    } else {
        assert(v2 == s2);
        assert(op1 + op2 == result);
    }
}

impl ALU {
    pub fn add(operand1: u8, operand2: u8) -> (r: Result<u8>)
        ensures
            (r.value, r.carry, r.half_carry) == add_spec(operand1, operand2, false),
            r.zero == (r.value == 0),
    {
        ALU::add_with_carry(operand1, operand2, false)
    }

    pub fn add_with_carry(operand1: u8, operand2: u8, carry: bool) -> (r: Result<u8>)
        ensures
            (r.value, r.carry, r.half_carry) == add_spec(operand1, operand2, carry),
            r.zero == (r.value == 0),
    {
        let c: u16 = if carry { 1 } else { 0 };
        let result: u16 = (operand1 as u16) + (operand2 as u16) + c;
        let carry_bits: u16 = (operand1 as u16) ^ (operand2 as u16) ^ result;
        proof {
            lemma_add_flags(operand1, operand2, c as u8, result);
        }
        let truncated_result = result as u8;
        Result {
            value: truncated_result,
            carry: carry_bits.get_bit(8),
            half_carry: carry_bits.get_bit(4),
            zero: truncated_result == 0,
        }
    }

    pub fn add_pair(operand1: u16, operand2: u16) -> (r: Result<u16>)
        ensures
            r.value == (operand1 + operand2) % 65536,
            r.carry == (operand1 + operand2 > 65535),
            r.half_carry == ((operand1 % 4096) + (operand2 % 4096) > 4095),
            r.zero == (r.value == 0),
    {
        let low1 = (operand1 & 0xFF) as u8;
        let high1 = (operand1 >> 8) as u8;
        let low2 = (operand2 & 0xFF) as u8;
        let high2 = (operand2 >> 8) as u8;
        let result1 = ALU::add(low1, low2);
        let result2 = ALU::add_with_carry(high1, high2, result1.carry);
        let result = word_from_le_bytes(result1.value, result2.value);
        proof {
            lemma_split_word(operand1, low1, high1);
            lemma_split_word(operand2, low2, high2);
            lemma_add_pair(operand1 as int, operand2 as int, low1 as int, high1 as int, low2 as int, high2 as int, result1.value as int, result1.carry, result2.value as int, result2.carry, result2.half_carry, result as int);
        }
        Result {
            value: result,
            carry: result2.carry,
            half_carry: result2.half_carry,
            zero: result == 0,
        }
    }

    pub fn subtract(operand1: u8, operand2: u8) -> (r: Result<u8>)
        ensures
            (r.value, r.carry, r.half_carry) == sub_spec(operand1, operand2, false),
            r.zero == (r.value == 0),
    {
        ALU::subtract_with_carry(operand1, operand2, false)
    }

    pub fn subtract_with_carry(operand1: u8, operand2: u8, carry: bool) -> (r: Result<u8>)
        ensures
            (r.value, r.carry, r.half_carry) == sub_spec(operand1, operand2, carry),
            r.zero == (r.value == 0),
    {
        let c: u16 = if carry { 1 } else { 0 };
        let result: u16 = 0x100u16 + (operand1 as u16) - (operand2 as u16) - c;
        let borrow: u16 = (0x100u16 + operand1 as u16) ^ (operand2 as u16) ^ result;
        proof {
            lemma_sub_flags(operand1, operand2, c as u8, result);
        }
        let truncated_result = result as u8;
        Result {
            value: truncated_result,
            carry: borrow.get_bit(8),
            half_carry: borrow.get_bit(4),
            zero: truncated_result == 0,
        }
    }

    pub fn subtract_pair(operand1: u16, operand2: u16) -> (r: Result<u16>)
        ensures
            r.value == (operand1 - operand2 + 65536) % 65536,
            r.carry == (operand1 < operand2),
            r.half_carry == ((operand1 % 4096) < (operand2 % 4096)),
            r.zero == (r.value == 0),
    {
        let low1 = (operand1 & 0xFF) as u8;
        let high1 = (operand1 >> 8) as u8;
        let low2 = (operand2 & 0xFF) as u8;
        let high2 = (operand2 >> 8) as u8;
        let result1 = ALU::subtract(low1, low2);
        let result2 = ALU::subtract_with_carry(high1, high2, result1.carry);
        let result = word_from_le_bytes(result1.value, result2.value);
        proof {
            lemma_split_word(operand1, low1, high1);
            lemma_split_word(operand2, low2, high2);
            lemma_pair_digits(low1 as int, high1 as int, low2 as int, high2 as int, -1);
        }
        Result {
            value: result,
            carry: result2.carry,
            half_carry: result2.half_carry,
            zero: result == 0,
        }
    }

    pub fn and(operand1: u8, operand2: u8) -> (r: Result<u8>)
        ensures
            r.value == operand1 & operand2,
            !r.carry,
            r.half_carry,
            r.zero == (r.value == 0),
    {
        let result = operand1 & operand2;
        Result { value: result, carry: false, half_carry: true, zero: result == 0 }
    }

    pub fn or(operand1: u8, operand2: u8) -> (r: Result<u8>)
        ensures
            r.value == operand1 | operand2,
            !r.carry,
            !r.half_carry,
            r.zero == (r.value == 0),
    {
        let result = operand1 | operand2;
        Result { value: result, carry: false, half_carry: false, zero: result == 0 }
    }

    pub fn xor(operand1: u8, operand2: u8) -> (r: Result<u8>)
        ensures
            r.value == operand1 ^ operand2,
            !r.carry,
            !r.half_carry,
            r.zero == (r.value == 0),
    {
        let result = operand1 ^ operand2;
        Result { value: result, carry: false, half_carry: false, zero: result == 0 }
    }

    pub fn rotate_left(value: u8) -> (r: Result<u8>)
        ensures
            r.value == ((value << 1u8) | (value >> 7u8)),
            r.carry == bit_of_u8(value, 7),
            !r.half_carry,
            r.zero == (r.value == 0),
    {
        let result = (value << 1) | (value >> 7);
        proof {
            assert(((value << 1u8) | (value >> 7u8)) % 2 == 1 <==> value & (1u8 << 7u8) != 0)
                by (bit_vector);
        }
        Result { value: result, half_carry: false, zero: result == 0, carry: result % 2 == 1 }
    }

    pub fn rotate_left_through_carry(value: u8, carry: bool) -> (r: Result<u8>)
        ensures
            r.value == ((value << 1u8) | (if carry { 1u8 } else { 0u8 })),
            r.carry == bit_of_u8(value, 7),
            !r.half_carry,
            r.zero == (r.value == 0),
    {
        let c: u8 = if carry { 1 } else { 0 };
        let result = (value << 1) | c;
        Result { value: result, half_carry: false, zero: result == 0, carry: value.get_bit(7) }
    }

    pub fn rotate_right(value: u8) -> (r: Result<u8>)
        ensures
            r.value == ((value >> 1u8) | (value << 7u8)),
            r.carry == bit_of_u8(value, 0),
            !r.half_carry,
            r.zero == (r.value == 0),
    {
        let result = (value >> 1) | (value << 7);
        Result { value: result, half_carry: false, zero: result == 0, carry: value.get_bit(0) }
    }

    pub fn rotate_right_through_carry(value: u8, carry: bool) -> (r: Result<u8>)
        ensures
            r.value == ((value >> 1u8) | (if carry { 0x80u8 } else { 0u8 })),
            r.carry == bit_of_u8(value, 0),
            !r.half_carry,
            r.zero == (r.value == 0),
    {
        let result = (value >> 1) | (if carry { 0x80u8 } else { 0x00u8 });
        Result { value: result, half_carry: false, zero: result == 0, carry: value.get_bit(0) }
    }

    pub fn shift_left(value: u8) -> (r: Result<u8>)
        ensures
            r.value == value << 1u8,
            r.carry == bit_of_u8(value, 7),
            !r.half_carry,
            r.zero == (r.value == 0),
    {
        let result = value << 1;
        Result { value: result, half_carry: false, zero: result == 0, carry: value.get_bit(7) }
    }

    pub fn shift_right(value: u8) -> (r: Result<u8>)
        ensures
            r.value == value >> 1u8,
            r.carry == bit_of_u8(value, 0),
            !r.half_carry,
            r.zero == (r.value == 0),
    {
        let result = value >> 1;
        Result { value: result, half_carry: false, zero: result == 0, carry: value.get_bit(0) }
    }

    pub fn shift_right_arithmetic(value: u8) -> (r: Result<u8>)
        ensures
            r.value == ((value >> 1u8) | (value & 0x80u8)),
            r.carry == bit_of_u8(value, 0),
            !r.half_carry,
            r.zero == (r.value == 0),
    {
        let result = (value >> 1) | (value & 0x80);
        Result { value: result, half_carry: false, zero: result == 0, carry: value.get_bit(0) }
    }

    pub fn swap(value: u8) -> (r: Result<u8>)
        ensures
            r.value == ((value << 4u8) | (value >> 4u8)),
            !r.half_carry,
            !r.carry,
            r.zero == (r.value == 0),
    {
        let result = (value << 4) | (value >> 4);
        Result { value: result, half_carry: false, carry: false, zero: result == 0 }
    }
}

/// Adding a byte and then subtracting it again, both without carry, gives the first operand back.
pub proof fn law_add_then_subtract(a: u8, b: u8)
    ensures
        sub_spec(add_spec(a, b, false).0, b, false).0 == a,
{
    let sum = a + b;
    let wrapped = (sum % 256) as u8;
    if sum > 255 {
        assert(wrapped == sum - 256);
    } else {
        assert(wrapped == sum);
    }
    let diff = wrapped - b;
    assert((diff + 256) % 256 == a);
}

/// Swapping the nibbles of a byte twice gives the byte back.
pub proof fn law_swap_twice(value: u8)
    ensures
        ((((value << 4u8) | (value >> 4u8)) as u8) << 4u8) | ((((value << 4u8) | (value >> 4u8)) as u8) >> 4u8)
            == value,
{
    assert(((((value << 4u8) | (value >> 4u8)) as u8) << 4u8) | ((((value << 4u8) | (value >> 4u8)) as u8) >> 4u8)
        == value) by (bit_vector);
}

/// Rotating a byte left and then right gives it back.
pub proof fn law_rotate_left_then_right(value: u8)
    ensures
        ({
            let left = ((value << 1u8) | (value >> 7u8)) as u8;
            ((left >> 1u8) | (left << 7u8)) as u8 == value
        }),
{
    assert(({
        let left = ((value << 1u8) | (value >> 7u8)) as u8;
        ((left >> 1u8) | (left << 7u8)) as u8 == value
    })) by (bit_vector);
}

/// Rotating left through the carry and then right through the carry that came out restores
/// both the byte and the carry.
pub proof fn law_rotate_through_carry_round_trip(value: u8, carry: bool)
    ensures
        ({
            let left = ((value << 1u8) | (if carry { 1u8 } else { 0u8 })) as u8;
            let carry_out = bit_of_u8(value, 7);
            &&& ((left >> 1u8) | (if carry_out { 0x80u8 } else { 0u8 })) as u8 == value
            &&& bit_of_u8(left, 0) == carry
        }),
{
    let c: u8 = if carry { 1u8 } else { 0u8 };
    assert(c <= 1 ==> {
        let left = ((value << 1u8) | c) as u8;
        &&& ((left >> 1u8) | (if value & (1u8 << 7u8) != 0 { 0x80u8 } else { 0u8 })) as u8 == value
        &&& (left & (1u8 << 0u8) != 0) == (c == 1)
    }) by (bit_vector);
}

} // verus!
