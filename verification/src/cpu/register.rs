use vstd::prelude::*;

verus! {

/// An 8-bit register, or one half of a 16-bit register.
#[derive(Copy, Clone, PartialEq, Eq, Structural, Debug)]
pub enum ByteRegister {
    A,
    F,
    B,
    C,
    D,
    E,
    UpperHL,
    LowerHL,
    UpperSP,
    LowerSP,
    UpperPC,
    LowerPC,
}

/// A 16-bit register or register pair.
#[derive(Copy, Clone, PartialEq, Eq, Structural, Debug)]
pub enum WordRegister {
    AF,
    BC,
    DE,
    HL,
    SP,
    PC,
}

/// The register file of the CPU.
#[derive(Copy, Clone, PartialEq, Eq, Structural, Debug)]
pub struct Registers {
    pub a: u8,
    pub f: u8,
    pub b: u8,
    pub c: u8,
    pub d: u8,
    pub e: u8,
    pub h: u8,
    pub l: u8,
    pub sp: u16,
    pub pc: u16,
}

/// The 16-bit word with upper byte `upper` and lower byte `lower`.
pub open spec fn word_of(upper: u8, lower: u8) -> u16 {
    (upper * 256 + lower) as u16
}

/// The upper byte of a word.
pub open spec fn upper_byte(word: u16) -> u8 {
    (word / 256) as u8
}

/// The lower byte of a word.
pub open spec fn lower_byte(word: u16) -> u8 {
    (word % 256) as u8
}

/// The shifts and masks that split and join words agree with `word_of`, `upper_byte` and `lower_byte`.
pub proof fn lemma_word_bytes(word: u16, upper: u8, lower: u8)
    ensures
        (word >> 8) as u8 == upper_byte(word),
        (word & 0xFF) as u8 == lower_byte(word),
        ((upper as u16) << 8) | (lower as u16) == word_of(upper, lower),
        (word & 0x00FF) | ((upper as u16) << 8) == word_of(upper, lower_byte(word)),
        (word & 0xFF00) | (lower as u16) == word_of(upper_byte(word), lower),
        word_of(upper_byte(word), lower_byte(word)) == word,
        upper_byte(word_of(upper, lower)) == upper,
        lower_byte(word_of(upper, lower)) == lower,
{
    assert({
        &&& (word >> 8) as u8 == (word / 256) as u8
        &&& (word & 0xFF) as u8 == (word % 256) as u8
        &&& ((upper as u16) << 8) | (lower as u16) == (upper * 256 + lower) as u16
        &&& (word & 0x00FF) | ((upper as u16) << 8) == (upper * 256 + ((word % 256) as u8)) as u16
        &&& (word & 0xFF00) | (lower as u16) == (((word / 256) as u8) * 256 + lower) as u16
        &&& (((word / 256) as u8) * 256 + ((word % 256) as u8)) as u16 == word
        &&& (((upper * 256 + lower) as u16) / 256) as u8 == upper
        &&& (((upper * 256 + lower) as u16) % 256) as u8 == lower
    }) by (bit_vector);
}

impl ByteRegister {
    /// The register that an `r` field of an opcode (bits other than 6) names.
    pub open spec fn from_r_bits_spec(bits: u8) -> ByteRegister {
        if bits == 0 {
            ByteRegister::B
        } else if bits == 1 {
            ByteRegister::C
        } else if bits == 2 {
            ByteRegister::D
        } else if bits == 3 {
            ByteRegister::E
        } else if bits == 4 {
            ByteRegister::UpperHL
        } else if bits == 5 {
            ByteRegister::LowerHL
        } else {
            ByteRegister::A
        }
    }

    pub fn from_r_bits(bits: u8) -> (r: ByteRegister)
        requires
            bits < 8,
            bits != 6,
        ensures
            r == ByteRegister::from_r_bits_spec(bits),
    {
        match bits {
            0 => ByteRegister::B,
            1 => ByteRegister::C,
            2 => ByteRegister::D,
            3 => ByteRegister::E,
            4 => ByteRegister::UpperHL,
            5 => ByteRegister::LowerHL,
            _ => ByteRegister::A,
        }
    }
}

impl WordRegister {
    /// The register pair that a `dd` field of an opcode names.
    pub open spec fn from_dd_bits_spec(bits: u8) -> WordRegister {
        if bits == 0 {
            WordRegister::BC
        } else if bits == 1 {
            WordRegister::DE
        } else if bits == 2 {
            WordRegister::HL
        } else {
            WordRegister::SP
        }
    }

    /// The register pair that a `qq` field of an opcode names.
    pub open spec fn from_qq_bits_spec(bits: u8) -> WordRegister {
        if bits == 0 {
            WordRegister::BC
        } else if bits == 1 {
            WordRegister::DE
        } else if bits == 2 {
            WordRegister::HL
        } else {
            WordRegister::AF
        }
    }

    pub fn from_dd_bits(bits: u8) -> (r: WordRegister)
        requires
            bits < 4,
        ensures
            r == WordRegister::from_dd_bits_spec(bits),
    {
        match bits {
            0 => WordRegister::BC,
            1 => WordRegister::DE,
            2 => WordRegister::HL,
            _ => WordRegister::SP,
        }
    }

    pub fn from_qq_bits(bits: u8) -> (r: WordRegister)
        requires
            bits < 4,
        ensures
            r == WordRegister::from_qq_bits_spec(bits),
    {
        match bits {
            0 => WordRegister::BC,
            1 => WordRegister::DE,
            2 => WordRegister::HL,
            _ => WordRegister::AF,
        }
    }

    pub open spec fn lower_spec(self) -> ByteRegister {
        match self {
            WordRegister::AF => ByteRegister::F,
            WordRegister::BC => ByteRegister::C,
            WordRegister::DE => ByteRegister::E,
            WordRegister::HL => ByteRegister::LowerHL,
            WordRegister::SP => ByteRegister::LowerSP,
            WordRegister::PC => ByteRegister::LowerPC,
        }
    }

    pub open spec fn upper_spec(self) -> ByteRegister {
        match self {
            WordRegister::AF => ByteRegister::A,
            WordRegister::BC => ByteRegister::B,
            WordRegister::DE => ByteRegister::D,
            WordRegister::HL => ByteRegister::UpperHL,
            WordRegister::SP => ByteRegister::UpperSP,
            WordRegister::PC => ByteRegister::UpperPC,
        }
    }

    pub fn get_lower_byte_register(&self) -> (r: ByteRegister)
        ensures
            r == self.lower_spec(),
    {
        match self {
            WordRegister::AF => ByteRegister::F,
            WordRegister::BC => ByteRegister::C,
            WordRegister::DE => ByteRegister::E,
            WordRegister::HL => ByteRegister::LowerHL,
            WordRegister::SP => ByteRegister::LowerSP,
            WordRegister::PC => ByteRegister::LowerPC,
        }
    }

    pub fn get_upper_byte_register(&self) -> (r: ByteRegister)
        ensures
            r == self.upper_spec(),
    {
        match self {
            WordRegister::AF => ByteRegister::A,
            WordRegister::BC => ByteRegister::B,
            WordRegister::DE => ByteRegister::D,
            WordRegister::HL => ByteRegister::UpperHL,
            WordRegister::SP => ByteRegister::UpperSP,
            WordRegister::PC => ByteRegister::UpperPC,
        }
    }
}

impl Registers {
    /// The value of a byte register.
    pub open spec fn byte(self, register: ByteRegister) -> u8 {
        match register {
            ByteRegister::A => self.a,
            ByteRegister::F => self.f,
            ByteRegister::B => self.b,
            ByteRegister::C => self.c,
            ByteRegister::D => self.d,
            ByteRegister::E => self.e,
            ByteRegister::UpperHL => self.h,
            ByteRegister::LowerHL => self.l,
            ByteRegister::UpperSP => upper_byte(self.sp),
            ByteRegister::LowerSP => lower_byte(self.sp),
            ByteRegister::UpperPC => upper_byte(self.pc),
            ByteRegister::LowerPC => lower_byte(self.pc),
        }
    }

    /// The value of a word register.
    pub open spec fn word(self, register: WordRegister) -> u16 {
        match register {
            WordRegister::AF => word_of(self.a, self.f),
            WordRegister::BC => word_of(self.b, self.c),
            WordRegister::DE => word_of(self.d, self.e),
            WordRegister::HL => word_of(self.h, self.l),
            WordRegister::SP => self.sp,
            WordRegister::PC => self.pc,
        }
    }

    /// The register file with one byte register replaced.
    pub open spec fn with_byte(self, register: ByteRegister, value: u8) -> Registers {
        match register {
            ByteRegister::A => Registers { a: value, ..self },
            ByteRegister::F => Registers { f: value, ..self },
            ByteRegister::B => Registers { b: value, ..self },
            ByteRegister::C => Registers { c: value, ..self },
            ByteRegister::D => Registers { d: value, ..self },
            ByteRegister::E => Registers { e: value, ..self },
            ByteRegister::UpperHL => Registers { h: value, ..self },
            ByteRegister::LowerHL => Registers { l: value, ..self },
            ByteRegister::UpperSP => Registers { sp: word_of(value, lower_byte(self.sp)), ..self },
            ByteRegister::LowerSP => Registers { sp: word_of(upper_byte(self.sp), value), ..self },
            ByteRegister::UpperPC => Registers { pc: word_of(value, lower_byte(self.pc)), ..self },
            ByteRegister::LowerPC => Registers { pc: word_of(upper_byte(self.pc), value), ..self },
        }
    }

    /// The register file with one word register replaced.
    pub open spec fn with_word(self, register: WordRegister, value: u16) -> Registers {
        match register {
            WordRegister::AF => Registers { a: upper_byte(value), f: lower_byte(value), ..self },
            WordRegister::BC => Registers { b: upper_byte(value), c: lower_byte(value), ..self },
            WordRegister::DE => Registers { d: upper_byte(value), e: lower_byte(value), ..self },
            WordRegister::HL => Registers { h: upper_byte(value), l: lower_byte(value), ..self },
            WordRegister::SP => Registers { sp: value, ..self },
            WordRegister::PC => Registers { pc: value, ..self },
        }
    }

    /// All registers start at zero.
    pub fn new() -> (r: Registers)
        ensures
            r == (Registers { a: 0, f: 0, b: 0, c: 0, d: 0, e: 0, h: 0, l: 0, sp: 0, pc: 0 }),
            forall|reg: ByteRegister| #[trigger] r.byte(reg) == 0,
            forall|reg: WordRegister| #[trigger] r.word(reg) == 0,
    {
        Registers { a: 0, f: 0, b: 0, c: 0, d: 0, e: 0, h: 0, l: 0, sp: 0, pc: 0 }
    }

    pub fn read_byte(&self, register: ByteRegister) -> (r: u8)
        ensures
            r == self.byte(register),
    {
        match register {
            ByteRegister::A => self.a,
            ByteRegister::F => self.f,
            ByteRegister::B => self.b,
            ByteRegister::C => self.c,
            ByteRegister::D => self.d,
            ByteRegister::E => self.e,
            ByteRegister::UpperHL => self.h,
            ByteRegister::LowerHL => self.l,
            ByteRegister::UpperSP => {
                proof {
                    lemma_word_bytes(self.sp, 0, 0);
                }
                (self.sp >> 8) as u8
            },
            ByteRegister::LowerSP => {
                proof {
                    lemma_word_bytes(self.sp, 0, 0);
                }
                (self.sp & 0xFF) as u8
            },
            ByteRegister::UpperPC => {
                proof {
                    lemma_word_bytes(self.pc, 0, 0);
                }
                (self.pc >> 8) as u8
            },
            ByteRegister::LowerPC => {
                proof {
                    lemma_word_bytes(self.pc, 0, 0);
                }
                (self.pc & 0xFF) as u8
            },
        }
    }

    pub fn write_byte(&mut self, register: ByteRegister, value: u8)
        ensures
            *final(self) == old(self).with_byte(register, value),
    {
        proof {
            lemma_word_bytes(self.sp, value, value);
            lemma_word_bytes(self.pc, value, value);
        }
        match register {
            ByteRegister::A => self.a = value,
            ByteRegister::F => self.f = value,
            ByteRegister::B => self.b = value,
            ByteRegister::C => self.c = value,
            ByteRegister::D => self.d = value,
            ByteRegister::E => self.e = value,
            ByteRegister::UpperHL => self.h = value,
            ByteRegister::LowerHL => self.l = value,
            ByteRegister::UpperSP => self.sp = (self.sp & 0x00FF) | ((value as u16) << 8),
            ByteRegister::LowerSP => self.sp = (self.sp & 0xFF00) | (value as u16),
            ByteRegister::UpperPC => self.pc = (self.pc & 0x00FF) | ((value as u16) << 8),
            ByteRegister::LowerPC => self.pc = (self.pc & 0xFF00) | (value as u16),
        }
    }

    /// Replaces the bits of `register` that `mask` selects by those of `value`.
    pub fn write_byte_masked(&mut self, register: ByteRegister, value: u8, mask: u8)
        ensures
            *final(self) == old(self).with_byte(
                register,
                (old(self).byte(register) & !mask) | (value & mask),
            ),
    {
        let current = self.read_byte(register);
        self.write_byte(register, (current & !mask) | (value & mask));
    }

    pub fn read_word(&self, register: WordRegister) -> (r: u16)
        ensures
            r == self.word(register),
    {
        match register {
            WordRegister::AF => {
                proof {
                    lemma_word_bytes(0, self.a, self.f);
                }
                ((self.a as u16) << 8) | (self.f as u16)
            },
            WordRegister::BC => {
                proof {
                    lemma_word_bytes(0, self.b, self.c);
                }
                ((self.b as u16) << 8) | (self.c as u16)
            },
            WordRegister::DE => {
                proof {
                    lemma_word_bytes(0, self.d, self.e);
                }
                ((self.d as u16) << 8) | (self.e as u16)
            },
            WordRegister::HL => {
                proof {
                    lemma_word_bytes(0, self.h, self.l);
                }
                ((self.h as u16) << 8) | (self.l as u16)
            },
            WordRegister::SP => self.sp,
            WordRegister::PC => self.pc,
        }
    }

    pub fn write_word(&mut self, register: WordRegister, value: u16)
        ensures
            *final(self) == old(self).with_word(register, value),
    {
        proof {
            lemma_word_bytes(value, 0, 0);
        }
        let upper = (value >> 8) as u8;
        let lower = (value & 0xFF) as u8;
        match register {
            WordRegister::AF => {
                self.a = upper;
                self.f = lower;
            },
            WordRegister::BC => {
                self.b = upper;
                self.c = lower;
            },
            WordRegister::DE => {
                self.d = upper;
                self.e = lower;
            },
            WordRegister::HL => {
                self.h = upper;
                self.l = lower;
            },
            WordRegister::SP => self.sp = value,
            WordRegister::PC => self.pc = value,
        }
    }
}

/// What a register read gives back after a write: the value written; a word written is read
/// back whole, and a byte write leaves the other byte registers unchanged.
pub proof fn law_register_read_after_write(
    registers: Registers,
    register: ByteRegister,
    other: ByteRegister,
    value: u8,
    word_register: WordRegister,
    word: u16,
)
    ensures
        registers.with_byte(register, value).byte(register) == value,
        registers.with_word(word_register, word).word(word_register) == word,
        !same_storage(register, other) ==> registers.with_byte(register, value).byte(other) == registers.byte(other),
{
    lemma_word_bytes(registers.sp, value, lower_byte(registers.sp));
    lemma_word_bytes(registers.sp, upper_byte(registers.sp), value);
    lemma_word_bytes(registers.pc, value, lower_byte(registers.pc));
    lemma_word_bytes(registers.pc, upper_byte(registers.pc), value);
    lemma_word_bytes(word, upper_byte(word), lower_byte(word));
}

/// Whether two byte registers are halves of the same word register or the same register.
pub open spec fn same_storage(first: ByteRegister, second: ByteRegister) -> bool {
    first == second || ((first == ByteRegister::UpperSP || first == ByteRegister::LowerSP) && (second
        == ByteRegister::UpperSP || second == ByteRegister::LowerSP)) || ((first == ByteRegister::UpperPC
        || first == ByteRegister::LowerPC) && (second == ByteRegister::UpperPC || second == ByteRegister::LowerPC))
}

} // verus!
