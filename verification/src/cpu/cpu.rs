use vstd::prelude::*;
use std::collections::VecDeque;
use crate::cpu::alu::{ALU, add_spec, sub_spec};
use crate::cpu::instruction::{
    ByteArithmeticParams, ByteCastingParams, ByteLocation, ByteLogicParams, ByteOperationParams,
    ByteRotationParams, ByteShiftParams, Instruction, WordArithmeticParams, WordLocation,
    WordOperationParams,
};
use crate::cpu::register::{
    ByteRegister, Registers, WordRegister, lemma_word_bytes, lower_byte, upper_byte, word_of,
};
use crate::memory::memory::Memory;
use crate::time::time::ClockAware;

use crate::util::bit_util::{BitUtil, bit_of_u8};

verus! {

/// The decoding context of the instruction being carried out.
#[derive(Copy, Clone, PartialEq, Eq, Structural, Debug)]
pub struct InstructionContext {
    pub opcode: u8,
    pub byte_buffer: u8,
    pub word_buffer: u16,
    pub address_buffer: u16,
}

/// The micro-operations of one machine cycle: `first`, then `second`.
#[derive(Copy, Clone, PartialEq, Eq, Structural, Debug)]
pub struct Step {
    pub first: Instruction,
    pub second: Instruction,
}

/// The CPU apart from its memory.
pub ghost struct CpuState {
    pub registers: Registers,
    pub context: InstructionContext,
    pub ime: bool,
    pub queue: Seq<Step>,
}

/// A memory write: address and value.
pub type Write = Option<(u16, u8)>;

/// The byte with flags zero (bit 7), subtract (bit 6), half carry (bit 5) and carry (bit 4).
pub open spec fn flag_byte(zero: bool, subtract: bool, half_carry: bool, carry: bool) -> u8 {
    ((if zero { 0x80u8 } else { 0u8 }) | (if subtract { 0x40u8 } else { 0u8 }) | (if half_carry {
        0x20u8
    } else {
        0u8
    }) | (if carry { 0x10u8 } else { 0u8 })) as u8
}

/// `value` with the bits selected by `mask` taken from `bits`.
pub open spec fn masked(value: u8, bits: u8, mask: u8) -> u8 {
    (value & !mask) | (bits & mask)
}

/// A byte read as a signed offset and widened to 16 bits.
pub open spec fn sign_extend(value: u8) -> u16 {
    if value < 128 {
        value as u16
    } else {
        (value + 0xFF00) as u16
    }
}

/// The carry flag of `f`.
pub open spec fn carry_flag(f: u8) -> bool {
    bit_of_u8(f, 4)
}

/// Whether a `cc` condition (the opcode's bits 3 and 4) holds for flags `f`.
pub open spec fn condition_holds(f: u8, opcode: u8) -> bool {
    let cc = (opcode / 8) % 4;
    if cc == 0 {
        !bit_of_u8(f, 7)
    } else if cc == 1 {
        bit_of_u8(f, 7)
    } else if cc == 2 {
        !bit_of_u8(f, 4)
    } else {
        bit_of_u8(f, 4)
    }
}

impl CpuState {
    pub open spec fn with_registers(self, registers: Registers) -> CpuState {
        CpuState { registers, ..self }
    }

    pub open spec fn with_context(self, context: InstructionContext) -> CpuState {
        CpuState { context, ..self }
    }

    pub open spec fn with_f(self, f: u8) -> CpuState {
        self.with_registers(self.registers.with_byte(ByteRegister::F, f))
    }

    pub open spec fn push(self, first: Instruction, second: Instruction) -> CpuState {
        CpuState { queue: self.queue.push(Step { first, second }), ..self }
    }
}

/// Reads a byte location: the value, and the state after the read (reading the next
/// program byte advances the program counter).
pub open spec fn read_location(s: CpuState, mem: spec_fn(u16) -> u8, location: ByteLocation) -> (
    u8,
    CpuState,
) {
    match location {
        ByteLocation::Value(v) => (v, s),
        ByteLocation::Register(r) => (s.registers.byte(r), s),
        ByteLocation::ByteBuffer => (s.context.byte_buffer, s),
        ByteLocation::LowerAddressBuffer => (lower_byte(s.context.address_buffer), s),
        ByteLocation::UpperAddressBuffer => (upper_byte(s.context.address_buffer), s),
        ByteLocation::LowerWordBuffer => (lower_byte(s.context.word_buffer), s),
        ByteLocation::UpperWordBuffer => (upper_byte(s.context.word_buffer), s),
        ByteLocation::NextMemoryByte => (
            mem(s.registers.pc),
            s.with_registers(Registers { pc: ((s.registers.pc + 1) % 65536) as u16, ..s.registers }),
        ),
        ByteLocation::MemoryReferencedByAddressBuffer => (mem(s.context.address_buffer), s),
        ByteLocation::MemoryReferencedByRegister(w) => (mem(s.registers.word(w)), s),
    }
}

/// Writes a byte location: the state after, and the memory write it makes, if any.
pub open spec fn write_location(s: CpuState, location: ByteLocation, value: u8) -> (CpuState, Write) {
    match location {
        ByteLocation::Register(r) => (s.with_registers(s.registers.with_byte(r, value)), None),
        ByteLocation::ByteBuffer => (
            s.with_context(InstructionContext { byte_buffer: value, ..s.context }),
            None,
        ),
        ByteLocation::LowerAddressBuffer => (
            s.with_context(
                InstructionContext {
                    address_buffer: word_of(upper_byte(s.context.address_buffer), value),
                    ..s.context
                },
            ),
            None,
        ),
        ByteLocation::UpperAddressBuffer => (
            s.with_context(
                InstructionContext {
                    address_buffer: word_of(value, lower_byte(s.context.address_buffer)),
                    ..s.context
                },
            ),
            None,
        ),
        ByteLocation::LowerWordBuffer => (
            s.with_context(
                InstructionContext {
                    word_buffer: word_of(upper_byte(s.context.word_buffer), value),
                    ..s.context
                },
            ),
            None,
        ),
        ByteLocation::UpperWordBuffer => (
            s.with_context(
                InstructionContext {
                    word_buffer: word_of(value, lower_byte(s.context.word_buffer)),
                    ..s.context
                },
            ),
            None,
        ),
        ByteLocation::MemoryReferencedByAddressBuffer => (
            s,
            Some((s.context.address_buffer, value)),
        ),
        ByteLocation::MemoryReferencedByRegister(w) => (s, Some((s.registers.word(w), value))),
        _ => (s, None),
    }
}

/// Reads a word location.
pub open spec fn read_word_location(s: CpuState, location: WordLocation) -> u16 {
    match location {
        WordLocation::Value(v) => v,
        WordLocation::Register(r) => s.registers.word(r),
        WordLocation::WordBuffer => s.context.word_buffer,
        WordLocation::AddressBuffer => s.context.address_buffer,
    }
}

/// Writes a word location.
pub open spec fn write_word_location(s: CpuState, location: WordLocation, value: u16) -> CpuState {
    match location {
        WordLocation::Register(r) => s.with_registers(s.registers.with_word(r, value)),
        WordLocation::WordBuffer => s.with_context(
            InstructionContext { word_buffer: value, ..s.context },
        ),
        WordLocation::AddressBuffer => s.with_context(
            InstructionContext { address_buffer: value, ..s.context },
        ),
        WordLocation::Value(_) => s,
    }
}

/// Reads two operands, then writes `result(a, b)` and the flags it yields.
pub open spec fn byte_arithmetic(
    s: CpuState,
    mem: spec_fn(u16) -> u8,
    p: ByteArithmeticParams,
    subtract: bool,
) -> (CpuState, Write) {
    let (a, s1) = read_location(s, mem, p.first);
    let (b, s2) = read_location(s1, mem, p.second);
    let carry_in = p.use_carry && carry_flag(s2.registers.f);
    let (value, carry, half_carry) = if subtract {
        sub_spec(a, b, carry_in)
    } else {
        add_spec(a, b, carry_in)
    };
    let s3 = if p.flag_mask != 0 {
        s2.with_f(masked(s2.registers.f, flag_byte(value == 0, subtract, half_carry, carry), p.flag_mask))
    } else {
        s2
    };
    write_location(s3, p.destination, value)
}

/// Reads two operands, writes `a op b` and sets the flags to `flags`.
pub open spec fn byte_logic(
    s: CpuState,
    mem: spec_fn(u16) -> u8,
    p: ByteLogicParams,
    op: int,
) -> (CpuState, Write) {
    let (a, s1) = read_location(s, mem, p.first);
    let (b, s2) = read_location(s1, mem, p.second);
    let value = if op == 0 { a & b } else if op == 1 { a | b } else { a ^ b };
    let f = if op == 0 { flag_byte(value == 0, false, true, false) } else { flag_byte(value == 0, false, false, false) };
    write_location(s2.with_f(f), p.destination, value)
}

/// Reads one operand, writes `value` and sets the flags to zero/carry.
pub open spec fn byte_unary(
    s1: CpuState,
    destination: ByteLocation,
    value: u8,
    zero: bool,
    carry: bool,
) -> (CpuState, Write) {
    write_location(s1.with_f(flag_byte(zero, false, false, carry)), destination, value)
}

pub open spec fn rotate_left_value(v: u8) -> u8 {
    ((v << 1u8) | (v >> 7u8)) as u8
}

pub open spec fn rotate_right_value(v: u8) -> u8 {
    ((v >> 1u8) | (v << 7u8)) as u8
}

pub open spec fn swap_value(v: u8) -> u8 {
    ((v << 4u8) | (v >> 4u8)) as u8
}

/// What one micro-operation other than a decode or a conditional return does: the state
/// after it, and its memory write.
pub open spec fn basic_spec(s: CpuState, mem: spec_fn(u16) -> u8, instruction: Instruction) -> (
    CpuState,
    Write,
) {
    match instruction {
        Instruction::MoveByte(p) => {
            let (v, s1) = read_location(s, mem, p.source);
            write_location(s1, p.destination, v)
        },
        Instruction::CastByteToSignedWord(p) => {
            let (v, s1) = read_location(s, mem, p.source);
            (write_word_location(s1, p.destination, sign_extend(v)), None)
        },
        Instruction::MoveWord(p) => (
            write_word_location(s, p.destination, read_word_location(s, p.source)),
            None,
        ),
        Instruction::IncrementWord(l) => (
            write_word_location(s, l, ((read_word_location(s, l) + 1) % 65536) as u16),
            None,
        ),
        Instruction::DecrementWord(l) => (
            write_word_location(s, l, ((read_word_location(s, l) + 65535) % 65536) as u16),
            None,
        ),
        Instruction::AddBytes(p) => byte_arithmetic(s, mem, p, false),
        Instruction::SubtractBytes(p) => byte_arithmetic(s, mem, p, true),
        Instruction::AndBytes(p) => byte_logic(s, mem, p, 0),
        Instruction::OrBytes(p) => byte_logic(s, mem, p, 1),
        Instruction::XorBytes(p) => byte_logic(s, mem, p, 2),
        Instruction::RotateByteLeft(p) => {
            let (v, s1) = read_location(s, mem, p.source);
            let r = rotate_left_value(v);
            byte_unary(s1, p.destination, r, !p.unset_zero && r == 0, bit_of_u8(v, 7))
        },
        Instruction::RotateByteLeftThroughCarry(p) => {
            let (v, s1) = read_location(s, mem, p.source);
            let r = ((v << 1u8) | (if carry_flag(s1.registers.f) { 1u8 } else { 0u8 })) as u8;
            byte_unary(s1, p.destination, r, !p.unset_zero && r == 0, bit_of_u8(v, 7))
        },
        Instruction::RotateByteRight(p) => {
            let (v, s1) = read_location(s, mem, p.source);
            let r = rotate_right_value(v);
            byte_unary(s1, p.destination, r, !p.unset_zero && r == 0, bit_of_u8(v, 0))
        },
        Instruction::RotateByteRightThroughCarry(p) => {
            let (v, s1) = read_location(s, mem, p.source);
            let r = ((v >> 1u8) | (if carry_flag(s1.registers.f) { 0x80u8 } else { 0u8 })) as u8;
            byte_unary(s1, p.destination, r, !p.unset_zero && r == 0, bit_of_u8(v, 0))
        },
        Instruction::ShiftByteLeft(p) => {
            let (v, s1) = read_location(s, mem, p.source);
            let r = (v << 1u8) as u8;
            byte_unary(s1, p.destination, r, r == 0, bit_of_u8(v, 7))
        },
        Instruction::ShiftByteRight(p) => {
            let (v, s1) = read_location(s, mem, p.source);
            let r = ((v >> 1u8) | (if p.arithmetic { v & 0x80u8 } else { 0u8 })) as u8;
            byte_unary(s1, p.destination, r, r == 0, bit_of_u8(v, 0))
        },
        Instruction::SwapByte(p) => {
            let (v, s1) = read_location(s, mem, p.source);
            let r = swap_value(v);
            byte_unary(s1, p.destination, r, r == 0, false)
        },
        Instruction::AddWords(p) => {
            let a = read_word_location(s, p.first);
            let b = read_word_location(s, p.second);
            let value = ((a + b) % 65536) as u16;
            let s1 = if p.flag_mask != 0 {
                s.with_f(
                    masked(
                        s.registers.f,
                        flag_byte(
                            value == 0,
                            false,
                            (a % 4096) + (b % 4096) > 4095,
                            a + b > 65535,
                        ),
                        p.flag_mask,
                    ),
                )
            } else {
                s
            };
            (write_word_location(s1, p.destination, value), None)
        },
        Instruction::JumpRelative => (
            s.with_registers(
                Registers {
                    pc: ((s.registers.pc + sign_extend(s.context.byte_buffer)) % 65536) as u16,
                    ..s.registers
                },
            ),
            None,
        ),
        Instruction::GetBitFromByte(l, bit) => {
            let (v, s1) = read_location(s, mem, l);
            (
                s1.with_f(
                    masked(s1.registers.f, flag_byte(!bit_of_u8(v, bit), false, true, false), 0xE0),
                ),
                None,
            )
        },
        Instruction::SetBitOnByte(p, bit) => {
            let (v, s1) = read_location(s, mem, p.source);
            write_location(s1, p.destination, v | (1u8 << bit))
        },
        Instruction::ResetBitOnByte(p, bit) => {
            let (v, s1) = read_location(s, mem, p.source);
            write_location(s1, p.destination, v & !(1u8 << bit))
        },
        _ => (s, None),
    }
}

/// The state after a register-only micro-operation.
pub open spec fn run(s: CpuState, mem: spec_fn(u16) -> u8, instruction: Instruction) -> CpuState {
    basic_spec(s, mem, instruction).0
}

/// What one micro-operation does: the state after it, and its memory write.
pub open spec fn execute_spec(s: CpuState, mem: spec_fn(u16) -> u8, instruction: Instruction) -> (
    CpuState,
    Write,
) {
    match instruction {
        Instruction::DecodeCBInstruction => {
            let (op, s1) = read_location(s, mem, ByteLocation::NextMemoryByte);
            (
                decode_cb_spec(
                    s1.with_context(InstructionContext { opcode: op, ..s1.context }),
                    mem,
                    op,
                ),
                None,
            )
        },
        Instruction::ReturnIfConditionMet => (
            if condition_holds(s.registers.f, s.context.opcode) {
                return_from_call_spec(s)
            } else {
                s
            },
            None,
        ),
        _ => basic_spec(s, mem, instruction),
    }
}

/// Two micro-operations in one cycle; at most one of them touches memory.
pub open spec fn step_spec(s: CpuState, mem: spec_fn(u16) -> u8, step: Step) -> (CpuState, Write) {
    let (s1, w1) = execute_spec(s, mem, step.first);
    let (s2, w2) = execute_spec(s1, mem, step.second);
    (s2, if w2 is Some { w2 } else { w1 })
}

/// A queued cycle that can be carried out without a panic.
pub open spec fn step_ok(step: Step) -> bool {
    &&& step.first.well_formed()
    &&& step.second.well_formed()
    &&& step.first.touches_memory() ==> !step.second.touches_memory()
}

/// Every queued cycle can be carried out.
pub open spec fn queue_ok(queue: Seq<Step>) -> bool {
    forall|i: int| 0 <= i < queue.len() ==> step_ok(#[trigger] queue[i])
}

/// The `r` register named by bits `bits` of an opcode (not 6).
pub open spec fn r_reg(bits: u8) -> ByteLocation {
    ByteLocation::Register(ByteRegister::from_r_bits_spec(bits))
}

pub open spec fn y_bits(op: u8) -> u8 {
    ((op / 8) % 8) as u8
}

pub open spec fn z_bits(op: u8) -> u8 {
    op % 8
}

pub open spec fn pair_bits(op: u8) -> u8 {
    ((op / 16) % 4) as u8
}

pub open spec fn indirect_hl() -> ByteLocation {
    ByteLocation::MemoryReferencedByRegister(WordRegister::HL)
}

pub open spec fn move_byte(source: ByteLocation, destination: ByteLocation) -> Instruction {
    Instruction::MoveByte(ByteOperationParams { source, destination })
}

pub open spec fn move_word(source: WordLocation, destination: WordLocation) -> Instruction {
    Instruction::MoveWord(WordOperationParams { source, destination })
}

pub open spec fn push_word_cycle(upper: bool) -> Step {
    Step {
        first: Instruction::DecrementWord(WordLocation::Register(WordRegister::SP)),
        second: move_byte(
            ByteLocation::Register(if upper { ByteRegister::UpperPC } else { ByteRegister::LowerPC }),
            ByteLocation::MemoryReferencedByRegister(WordRegister::SP),
        ),
    }
}

/// Pops the return address into the word buffer and jumps there.
pub open spec fn return_from_call_spec(s: CpuState) -> CpuState {
    s.push(
        move_byte(
            ByteLocation::MemoryReferencedByRegister(WordRegister::SP),
            ByteLocation::LowerWordBuffer,
        ),
        Instruction::IncrementWord(WordLocation::Register(WordRegister::SP)),
    ).push(
        move_byte(
            ByteLocation::MemoryReferencedByRegister(WordRegister::SP),
            ByteLocation::UpperWordBuffer,
        ),
        Instruction::IncrementWord(WordLocation::Register(WordRegister::SP)),
    ).push(
        move_word(WordLocation::WordBuffer, WordLocation::Register(WordRegister::PC)),
        Instruction::Noop,
    )
}

/// The single-operand operation that a 0xCB opcode below 0x40 names, on `source` into `destination`.
pub open spec fn cb_unary(op: u8, source: ByteLocation, destination: ByteLocation) -> Instruction {
    let group = op / 8;
    if group == 0 {
        Instruction::RotateByteLeft(ByteRotationParams { source, destination, unset_zero: false })
    } else if group == 1 {
        Instruction::RotateByteRight(ByteRotationParams { source, destination, unset_zero: false })
    } else if group == 2 {
        Instruction::RotateByteLeftThroughCarry(
            ByteRotationParams { source, destination, unset_zero: false },
        )
    } else if group == 3 {
        Instruction::RotateByteRightThroughCarry(
            ByteRotationParams { source, destination, unset_zero: false },
        )
    } else if group == 4 {
        Instruction::ShiftByteLeft(ByteShiftParams { source, destination, arithmetic: false })
    } else if group == 5 {
        Instruction::ShiftByteRight(ByteShiftParams { source, destination, arithmetic: true })
    } else if group == 6 {
        Instruction::SwapByte(ByteOperationParams { source, destination })
    } else {
        Instruction::ShiftByteRight(ByteShiftParams { source, destination, arithmetic: false })
    }
}

/// What decoding the byte `op` after a 0xCB prefix does.
pub open spec fn decode_cb_spec(s: CpuState, mem: spec_fn(u16) -> u8, op: u8) -> CpuState {
    let y = y_bits(op);
    let z = z_bits(op);
    if op < 0x40 {
        if z != 6 {
            run(s, mem, cb_unary(op, r_reg(z), r_reg(z)))
        } else {
            s.push(move_byte(indirect_hl(), ByteLocation::ByteBuffer), Instruction::Noop).push(
                cb_unary(op, ByteLocation::ByteBuffer, indirect_hl()),
                Instruction::Noop,
            )
        }
    } else if op < 0x80 {
        if z != 6 {
            run(s, mem, Instruction::GetBitFromByte(r_reg(z), y))
        } else {
            s.push(Instruction::GetBitFromByte(indirect_hl(), y), Instruction::Noop)
        }
    } else if op < 0xC0 {
        if z != 6 {
            run(
                s,
                mem,
                Instruction::ResetBitOnByte(
                    ByteOperationParams { source: r_reg(z), destination: r_reg(z) },
                    y,
                ),
            )
        } else {
            s.push(move_byte(indirect_hl(), ByteLocation::ByteBuffer), Instruction::Noop).push(
                Instruction::ResetBitOnByte(
                    ByteOperationParams { source: ByteLocation::ByteBuffer, destination: indirect_hl() },
                    y,
                ),
                Instruction::Noop,
            )
        }
    } else {
        if z != 6 {
            run(
                s,
                mem,
                Instruction::SetBitOnByte(
                    ByteOperationParams { source: r_reg(z), destination: r_reg(z) },
                    y,
                ),
            )
        } else {
            s.push(move_byte(indirect_hl(), ByteLocation::ByteBuffer), Instruction::Noop).push(
                Instruction::SetBitOnByte(
                    ByteOperationParams { source: ByteLocation::ByteBuffer, destination: indirect_hl() },
                    y,
                ),
                Instruction::Noop,
            )
        }
    }
}


/// The ALU operation that bits 3-5 of an opcode name, applied to register A and `operand`.
pub open spec fn alu_instruction(y: u8, operand: ByteLocation) -> Instruction {
    let a = ByteLocation::Register(ByteRegister::A);
    if y == 0 {
        Instruction::AddBytes(
            ByteArithmeticParams { first: a, second: operand, destination: a, use_carry: false, flag_mask: 0xF0 },
        )
    } else if y == 1 {
        Instruction::AddBytes(
            ByteArithmeticParams { first: a, second: operand, destination: a, use_carry: true, flag_mask: 0xF0 },
        )
    } else if y == 2 {
        Instruction::SubtractBytes(
            ByteArithmeticParams { first: a, second: operand, destination: a, use_carry: false, flag_mask: 0xF0 },
        )
    } else if y == 3 {
        Instruction::SubtractBytes(
            ByteArithmeticParams { first: a, second: operand, destination: a, use_carry: true, flag_mask: 0xF0 },
        )
    } else if y == 4 {
        Instruction::AndBytes(ByteLogicParams { first: operand, second: a, destination: a })
    } else if y == 5 {
        Instruction::XorBytes(ByteLogicParams { first: operand, second: a, destination: a })
    } else if y == 6 {
        Instruction::OrBytes(ByteLogicParams { first: operand, second: a, destination: a })
    } else {
        Instruction::SubtractBytes(
            ByteArithmeticParams {
                first: a,
                second: operand,
                destination: ByteLocation::ByteBuffer,
                use_carry: false,
                flag_mask: 0xF0,
            },
        )
    }
}

/// Opcodes that name no instruction.
pub open spec fn is_unknown_opcode(op: u8) -> bool {
    op == 0xD3 || op == 0xDB || op == 0xDD || op == 0xE3 || op == 0xE4 || op == 0xEB || op == 0xEC
        || op == 0xED || op == 0xF4 || op == 0xFC || op == 0xFD
}

pub open spec fn next_to(destination: ByteLocation) -> Instruction {
    move_byte(ByteLocation::NextMemoryByte, destination)
}

pub open spec fn reg(r: ByteRegister) -> ByteLocation {
    ByteLocation::Register(r)
}

pub open spec fn word_reg(r: WordRegister) -> WordLocation {
    WordLocation::Register(r)
}

/// Loads the two bytes after the opcode into the address buffer.
pub open spec fn load_address_spec(s: CpuState) -> CpuState {
    s.push(next_to(ByteLocation::LowerAddressBuffer), Instruction::Noop).push(
        next_to(ByteLocation::UpperAddressBuffer),
        Instruction::Noop,
    )
}

/// Pushes the program counter and jumps to the address buffer.
pub open spec fn call_tail_spec(s: CpuState) -> CpuState {
    CpuState {
        queue: s.queue.push(push_word_cycle(true)).push(push_word_cycle(false)).push(
            Step {
                first: move_word(WordLocation::AddressBuffer, word_reg(WordRegister::PC)),
                second: Instruction::Noop,
            },
        ),
        ..s
    }
}

/// Increments (`up`) or decrements a register pair through the word buffer.
pub open spec fn step_pair_spec(s: CpuState, mem: spec_fn(u16) -> u8, r: WordRegister, up: bool) -> CpuState {
    let s1 = run(s, mem, move_word(word_reg(r), WordLocation::WordBuffer));
    let s2 = run(
        s1,
        mem,
        if up {
            Instruction::IncrementWord(WordLocation::WordBuffer)
        } else {
            Instruction::DecrementWord(WordLocation::WordBuffer)
        },
    );
    let s3 = run(s2, mem, move_byte(ByteLocation::LowerWordBuffer, reg(r.lower_spec())));
    s3.push(move_byte(ByteLocation::UpperWordBuffer, reg(r.upper_spec())), Instruction::Noop)
}

/// Decimal adjustment of register A after a BCD addition or subtraction.
pub open spec fn decimal_adjust_spec(s: CpuState, mem: spec_fn(u16) -> u8) -> CpuState {
    let a = s.registers.a;
    let f = s.registers.f;
    let n = bit_of_u8(f, 6);
    let carry = bit_of_u8(f, 4);
    let half_carry = bit_of_u8(f, 5);
    let s1 = if n {
        let adjust = ((if carry { 0x60u8 } else { 0u8 }) | (if half_carry { 6u8 } else { 0u8 })) as u8;
        run(
            s,
            mem,
            Instruction::SubtractBytes(
                ByteArithmeticParams {
                    first: ByteLocation::Value(a),
                    second: ByteLocation::Value(adjust),
                    destination: reg(ByteRegister::A),
                    use_carry: false,
                    flag_mask: 0xB0,
                },
            ),
        )
    } else {
        let adjust = ((if carry || a > 0x99 { 0x60u8 } else { 0u8 }) | (if half_carry || a % 16
            >= 10 {
            6u8
        } else {
            0u8
        })) as u8;
        run(
            s,
            mem,
            Instruction::AddBytes(
                ByteArithmeticParams {
                    first: ByteLocation::Value(a),
                    second: ByteLocation::Value(adjust),
                    destination: reg(ByteRegister::A),
                    use_carry: false,
                    flag_mask: 0xB0,
                },
            ),
        )
    };
    if carry {
        s1.with_f(masked(s1.registers.f, 0x10, 0x30))
    } else {
        s1.with_f(masked(s1.registers.f, 0x00, 0x20))
    }
}

/// What decoding an opcode from 0x00 to 0x3F does.
pub open spec fn decode_low_spec(s: CpuState, mem: spec_fn(u16) -> u8, op: u8) -> CpuState {
    let y = y_bits(op);
    let z = z_bits(op);
    let pair = WordRegister::from_dd_bits_spec(pair_bits(op));
    let hl = word_reg(WordRegister::HL);
    if z == 0 {
        if op == 0x08 {
            load_address_spec(s).push(
                move_byte(reg(ByteRegister::LowerSP), ByteLocation::MemoryReferencedByAddressBuffer),
                Instruction::Noop,
            ).push(
                Instruction::IncrementWord(WordLocation::AddressBuffer),
                move_byte(reg(ByteRegister::UpperSP), ByteLocation::MemoryReferencedByAddressBuffer),
            )
        } else if op == 0x18 {
            s.push(next_to(ByteLocation::ByteBuffer), Instruction::Noop).push(
                Instruction::JumpRelative,
                Instruction::Noop,
            )
        } else if op >= 0x20 {
            let s1 = s.push(next_to(ByteLocation::ByteBuffer), Instruction::Noop);
            if condition_holds(s.registers.f, op) {
                s1.push(Instruction::JumpRelative, Instruction::Noop)
            } else {
                s1
            }
        } else {
            s
        }
    } else if z == 1 {
        if y % 2 == 0 {
            s.push(next_to(reg(pair.lower_spec())), Instruction::Noop).push(
                next_to(reg(pair.upper_spec())),
                Instruction::Noop,
            )
        } else {
            let s1 = run(
                s,
                mem,
                Instruction::AddWords(
                    WordArithmeticParams {
                        first: word_reg(pair),
                        second: hl,
                        destination: WordLocation::WordBuffer,
                        flag_mask: 0x70,
                    },
                ),
            );
            let s2 = run(s1, mem, move_byte(ByteLocation::LowerWordBuffer, reg(ByteRegister::LowerHL)));
            s2.push(move_byte(ByteLocation::UpperWordBuffer, reg(ByteRegister::UpperHL)), Instruction::Noop)
        }
    } else if z == 2 {
        let a = reg(ByteRegister::A);
        if op == 0x02 {
            s.push(move_byte(a, ByteLocation::MemoryReferencedByRegister(WordRegister::BC)), Instruction::Noop)
        } else if op == 0x0A {
            s.push(move_byte(ByteLocation::MemoryReferencedByRegister(WordRegister::BC), a), Instruction::Noop)
        } else if op == 0x12 {
            s.push(move_byte(a, ByteLocation::MemoryReferencedByRegister(WordRegister::DE)), Instruction::Noop)
        } else if op == 0x1A {
            s.push(move_byte(ByteLocation::MemoryReferencedByRegister(WordRegister::DE), a), Instruction::Noop)
        } else if op == 0x22 {
            s.push(move_byte(a, indirect_hl()), Instruction::IncrementWord(hl))
        } else if op == 0x2A {
            s.push(move_byte(indirect_hl(), a), Instruction::IncrementWord(hl))
        } else if op == 0x32 {
            s.push(move_byte(a, indirect_hl()), Instruction::DecrementWord(hl))
        } else {
            s.push(move_byte(indirect_hl(), a), Instruction::DecrementWord(hl))
        }
    } else if z == 3 {
        step_pair_spec(s, mem, pair, y % 2 == 0)
    } else if z == 4 || z == 5 {
        let p = ByteArithmeticParams {
            first: if y == 6 { ByteLocation::ByteBuffer } else { r_reg(y) },
            second: ByteLocation::Value(1),
            destination: if y == 6 { indirect_hl() } else { r_reg(y) },
            use_carry: false,
            flag_mask: 0xE0,
        };
        let instruction = if z == 4 { Instruction::AddBytes(p) } else { Instruction::SubtractBytes(p) };
        if y == 6 {
            s.push(move_byte(indirect_hl(), ByteLocation::ByteBuffer), Instruction::Noop).push(
                instruction,
                Instruction::Noop,
            )
        } else {
            run(s, mem, instruction)
        }
    } else if z == 6 {
        if y == 6 {
            s.push(next_to(ByteLocation::ByteBuffer), Instruction::Noop).push(
                move_byte(ByteLocation::ByteBuffer, indirect_hl()),
                Instruction::Noop,
            )
        } else {
            s.push(next_to(r_reg(y)), Instruction::Noop)
        }
    } else {
        let a = reg(ByteRegister::A);
        if y == 0 {
            run(s, mem, Instruction::RotateByteLeft(ByteRotationParams { source: a, destination: a, unset_zero: true }))
        } else if y == 1 {
            run(s, mem, Instruction::RotateByteRight(ByteRotationParams { source: a, destination: a, unset_zero: true }))
        } else if y == 2 {
            run(
                s,
                mem,
                Instruction::RotateByteLeftThroughCarry(
                    ByteRotationParams { source: a, destination: a, unset_zero: true },
                ),
            )
        } else if y == 3 {
            run(
                s,
                mem,
                Instruction::RotateByteRightThroughCarry(
                    ByteRotationParams { source: a, destination: a, unset_zero: true },
                ),
            )
        } else if y == 4 {
            decimal_adjust_spec(s, mem)
        } else if y == 5 {
            let s1 = s.with_registers(Registers { a: !s.registers.a, ..s.registers });
            s1.with_f(masked(s1.registers.f, 0x60, 0x60))
        } else if y == 6 {
            s.with_f(masked(s.registers.f, 0x10, 0x70))
        } else {
            s.with_f(masked(s.registers.f, (s.registers.f ^ 0x10u8) & 0x90u8, 0x70))
        }
    }
}

/// What decoding an opcode from 0x40 to 0xBF does.
pub open spec fn decode_middle_spec(s: CpuState, mem: spec_fn(u16) -> u8, op: u8) -> CpuState {
    let y = y_bits(op);
    let z = z_bits(op);
    if op < 0x80 {
        if op == 0x76 {
            s
        } else if z == 6 {
            s.push(move_byte(indirect_hl(), r_reg(y)), Instruction::Noop)
        } else if y == 6 {
            s.push(move_byte(r_reg(z), indirect_hl()), Instruction::Noop)
        } else {
            run(s, mem, move_byte(r_reg(z), r_reg(y)))
        }
    } else {
        if z == 6 {
            s.push(alu_instruction(y, indirect_hl()), Instruction::Noop)
        } else {
            run(s, mem, alu_instruction(y, r_reg(z)))
        }
    }
}

/// What decoding a known opcode from 0xC0 to 0xFF does.
pub open spec fn decode_high_spec(s: CpuState, mem: spec_fn(u16) -> u8, op: u8) -> CpuState {
    let y = y_bits(op);
    let z = z_bits(op);
    let a = reg(ByteRegister::A);
    let sp = word_reg(WordRegister::SP);
    let pair = WordRegister::from_qq_bits_spec(pair_bits(op));
    if z == 0 {
        if op < 0xE0 {
            s.push(Instruction::ReturnIfConditionMet, Instruction::Noop)
        } else if op == 0xE0 {
            s.push(
                move_byte(ByteLocation::Value(0xFF), ByteLocation::UpperAddressBuffer),
                next_to(ByteLocation::LowerAddressBuffer),
            ).push(move_byte(a, ByteLocation::MemoryReferencedByAddressBuffer), Instruction::Noop)
        } else if op == 0xE8 {
            s.push(
                Instruction::CastByteToSignedWord(
                    ByteCastingParams { source: ByteLocation::NextMemoryByte, destination: WordLocation::WordBuffer },
                ),
                Instruction::Noop,
            ).push(
                Instruction::AddWords(
                    WordArithmeticParams {
                        first: sp,
                        second: WordLocation::WordBuffer,
                        destination: WordLocation::WordBuffer,
                        flag_mask: 0x30,
                    },
                ),
                move_byte(ByteLocation::LowerWordBuffer, reg(ByteRegister::LowerSP)),
            ).push(move_byte(ByteLocation::UpperWordBuffer, reg(ByteRegister::UpperSP)), Instruction::Noop)
        } else if op == 0xF0 {
            s.push(
                move_byte(ByteLocation::Value(0xFF), ByteLocation::UpperAddressBuffer),
                next_to(ByteLocation::LowerAddressBuffer),
            ).push(move_byte(ByteLocation::MemoryReferencedByAddressBuffer, a), Instruction::Noop)
        } else {
            let s1 = run(s, mem, move_byte(ByteLocation::Value(0), reg(ByteRegister::F)));
            s1.push(
                Instruction::CastByteToSignedWord(
                    ByteCastingParams { source: ByteLocation::NextMemoryByte, destination: WordLocation::WordBuffer },
                ),
                Instruction::Noop,
            ).push(
                Instruction::AddWords(
                    WordArithmeticParams {
                        first: sp,
                        second: WordLocation::WordBuffer,
                        destination: word_reg(WordRegister::HL),
                        flag_mask: 0x30,
                    },
                ),
                Instruction::Noop,
            )
        }
    } else if z == 1 {
        if y % 2 == 0 {
            s.push(
                move_byte(ByteLocation::MemoryReferencedByRegister(WordRegister::SP), reg(pair.lower_spec())),
                Instruction::IncrementWord(sp),
            ).push(
                move_byte(ByteLocation::MemoryReferencedByRegister(WordRegister::SP), reg(pair.upper_spec())),
                Instruction::IncrementWord(sp),
            )
        } else if op == 0xC9 {
            return_from_call_spec(s)
        } else if op == 0xD9 {
            CpuState { ime: true, ..return_from_call_spec(s) }
        } else if op == 0xE9 {
            run(s, mem, move_word(word_reg(WordRegister::HL), word_reg(WordRegister::PC)))
        } else {
            let s1 = run(s, mem, move_byte(reg(ByteRegister::LowerHL), reg(ByteRegister::LowerSP)));
            s1.push(move_byte(reg(ByteRegister::UpperHL), reg(ByteRegister::UpperSP)), Instruction::Noop)
        }
    } else if z == 2 {
        if op < 0xE0 {
            let s1 = load_address_spec(s);
            if condition_holds(s.registers.f, op) {
                s1.push(move_word(WordLocation::AddressBuffer, word_reg(WordRegister::PC)), Instruction::Noop)
            } else {
                s1
            }
        } else if op == 0xE2 || op == 0xF2 {
            let s1 = run(s, mem, move_byte(ByteLocation::Value(0xFF), ByteLocation::UpperAddressBuffer));
            let s2 = run(s1, mem, move_byte(reg(ByteRegister::C), ByteLocation::LowerAddressBuffer));
            if op == 0xE2 {
                s2.push(move_byte(a, ByteLocation::MemoryReferencedByAddressBuffer), Instruction::Noop)
            } else {
                s2.push(move_byte(ByteLocation::MemoryReferencedByAddressBuffer, a), Instruction::Noop)
            }
        } else if op == 0xEA {
            load_address_spec(s).push(
                move_byte(a, ByteLocation::MemoryReferencedByAddressBuffer),
                Instruction::Noop,
            )
        } else {
            load_address_spec(s).push(
                move_byte(ByteLocation::MemoryReferencedByAddressBuffer, a),
                Instruction::Noop,
            )
        }
    } else if z == 3 {
        if op == 0xC3 {
            load_address_spec(s).push(
                move_word(WordLocation::AddressBuffer, word_reg(WordRegister::PC)),
                Instruction::Noop,
            )
        } else if op == 0xCB {
            s.push(Instruction::DecodeCBInstruction, Instruction::Noop)
        } else if op == 0xF3 {
            CpuState { ime: false, ..s }
        } else {
            CpuState { ime: true, ..s }
        }
    } else if z == 4 {
        let s1 = load_address_spec(s);
        if condition_holds(s.registers.f, op) {
            call_tail_spec(s1)
        } else {
            s1
        }
    } else if z == 5 {
        if op == 0xCD {
            call_tail_spec(load_address_spec(s))
        } else {
            s.push(
                Instruction::DecrementWord(sp),
                move_byte(reg(pair.upper_spec()), ByteLocation::MemoryReferencedByRegister(WordRegister::SP)),
            ).push(
                Instruction::DecrementWord(sp),
                move_byte(reg(pair.lower_spec()), ByteLocation::MemoryReferencedByRegister(WordRegister::SP)),
            ).push(Instruction::Noop, Instruction::Noop)
        }
    } else if z == 6 {
        s.push(alu_instruction(y, ByteLocation::NextMemoryByte), Instruction::Noop)
    } else {
        CpuState {
            queue: s.queue.push(push_word_cycle(true)).push(push_word_cycle(false)).push(
                Step {
                    first: move_word(WordLocation::Value((y as u16 * 8) as u16), word_reg(WordRegister::PC)),
                    second: Instruction::Noop,
                },
            ),
            ..s
        }
    }
}

/// What decoding a known opcode does, once it has been fetched into the context.
pub open spec fn decode_spec(s: CpuState, mem: spec_fn(u16) -> u8, op: u8) -> CpuState {
    if op < 0x40 {
        decode_low_spec(s, mem, op)
    } else if op < 0xC0 {
        decode_middle_spec(s, mem, op)
    } else {
        decode_high_spec(s, mem, op)
    }
}

/// What one clock tick does: the next queued cycle, or else fetching and decoding the
/// next opcode.
pub open spec fn tick_spec(s: CpuState, mem: spec_fn(u16) -> u8) -> (CpuState, Write) {
    if s.queue.len() > 0 {
        step_spec(CpuState { queue: s.queue.drop_first(), ..s }, mem, s.queue[0])
    } else {
        let (op, s1) = read_location(s, mem, ByteLocation::NextMemoryByte);
        (decode_spec(s1.with_context(InstructionContext { opcode: op, ..s1.context }), mem, op), None)
    }
}

/// The memory after a cycle whose write, if any, is `write`.
pub open spec fn memory_after<M: Memory>(before: M, after: M, write: Write) -> bool {
    match write {
        None => after == before,
        Some((address, value)) => before.written(address, value, after),
    }
}

/// Reading `location` in state `s` touches only addresses that `maps` accepts.
pub open spec fn read_mapped(s: CpuState, maps: spec_fn(u16) -> bool, location: ByteLocation) -> bool {
    match location {
        ByteLocation::MemoryReferencedByAddressBuffer => maps(s.context.address_buffer),
        ByteLocation::MemoryReferencedByRegister(r) => maps(s.registers.word(r)),
        ByteLocation::NextMemoryByte => maps(s.registers.pc),
        _ => true,
    }
}

/// The memory write `write`, if any, goes to an address that `maps` accepts.
pub open spec fn write_mapped(write: Write, maps: spec_fn(u16) -> bool) -> bool {
    match write {
        Some((address, _)) => maps(address),
        None => true,
    }
}

/// The reads of the micro-operation `instruction`, carried out in state `s`, touch only
/// addresses that `maps` accepts: its operands in order, or the next program byte of a 0xCB
/// prefix.
pub open spec fn reads_mapped(s: CpuState, mem: spec_fn(u16) -> u8, maps: spec_fn(u16) -> bool, instruction: Instruction) -> bool {
    match instruction {
        Instruction::DecodeCBInstruction => maps(s.registers.pc),
        Instruction::MoveByte(p) => read_mapped(s, maps, p.source),
        Instruction::CastByteToSignedWord(p) => read_mapped(s, maps, p.source),
        Instruction::AddBytes(p) => read_mapped(s, maps, p.first) && read_mapped(read_location(s, mem, p.first).1, maps, p.second),
        Instruction::SubtractBytes(p) => read_mapped(s, maps, p.first) && read_mapped(read_location(s, mem, p.first).1, maps, p.second),
        Instruction::AndBytes(p) => read_mapped(s, maps, p.first) && read_mapped(read_location(s, mem, p.first).1, maps, p.second),
        Instruction::OrBytes(p) => read_mapped(s, maps, p.first) && read_mapped(read_location(s, mem, p.first).1, maps, p.second),
        Instruction::XorBytes(p) => read_mapped(s, maps, p.first) && read_mapped(read_location(s, mem, p.first).1, maps, p.second),
        Instruction::RotateByteLeft(p) => read_mapped(s, maps, p.source),
        Instruction::RotateByteLeftThroughCarry(p) => read_mapped(s, maps, p.source),
        Instruction::ShiftByteLeft(p) => read_mapped(s, maps, p.source),
        Instruction::RotateByteRight(p) => read_mapped(s, maps, p.source),
        Instruction::RotateByteRightThroughCarry(p) => read_mapped(s, maps, p.source),
        Instruction::ShiftByteRight(p) => read_mapped(s, maps, p.source),
        Instruction::SwapByte(p) => read_mapped(s, maps, p.source),
        Instruction::GetBitFromByte(l, _) => read_mapped(s, maps, l),
        Instruction::SetBitOnByte(p, _) => read_mapped(s, maps, p.source),
        Instruction::ResetBitOnByte(p, _) => read_mapped(s, maps, p.source),
        _ => true,
    }
}

/// The micro-operation `instruction`, carried out in state `s`, reads and writes only
/// addresses that `maps` accepts.
#[verifier::opaque]
pub open spec fn instruction_mapped(s: CpuState, mem: spec_fn(u16) -> u8, maps: spec_fn(u16) -> bool, instruction: Instruction) -> bool {
    &&& reads_mapped(s, mem, maps, instruction)
    &&& write_mapped(execute_spec(s, mem, instruction).1, maps)
}

/// The cycle `step`, carried out in state `s`, touches only addresses that `maps` accepts.
#[verifier::opaque]
pub open spec fn step_mapped(s: CpuState, mem: spec_fn(u16) -> u8, maps: spec_fn(u16) -> bool, step: Step) -> bool {
    &&& instruction_mapped(s, mem, maps, step.first)
    &&& instruction_mapped(execute_spec(s, mem, step.first).0, mem, maps, step.second)
}

/// The next tick from state `s` touches only addresses that `maps` accepts: the next queued
/// cycle, or the opcode fetch at the program counter.
pub open spec fn tick_mapped(s: CpuState, mem: spec_fn(u16) -> u8, maps: spec_fn(u16) -> bool) -> bool {
    if s.queue.len() > 0 {
        step_mapped(CpuState { queue: s.queue.drop_first(), ..s }, mem, maps, s.queue[0])
    } else {
        maps(s.registers.pc)
    }
}

/// The processor: registers, the instruction in progress, its queued cycles, and the memory
/// it runs on.
pub struct CPU<M: Memory> {
    pub context: InstructionContext,
    pub operations: VecDeque<Step>,
    pub memory: M,
    pub registers: Registers,
    pub ime: bool,
}

impl<M: Memory> CPU<M> {
    /// The processor apart from its memory.
    pub open spec fn state(&self) -> CpuState {
        CpuState {
            registers: self.registers,
            context: self.context,
            ime: self.ime,
            queue: self.operations@,
        }
    }

    /// What reads of the memory return.
    pub open spec fn mem(&self) -> spec_fn(u16) -> u8 {
        |a: u16| self.memory.peek(a)
    }

    /// The addresses the memory answers at.
    pub open spec fn maps_fn(&self) -> spec_fn(u16) -> bool {
        |a: u16| self.memory.maps(a)
    }

    /// Every queued cycle can be carried out.
    pub open spec fn wf(&self) -> bool {
        queue_ok(self.operations@)
    }

    /// The micro-operation `instruction` touches only addresses the memory answers at.
    pub open spec fn accesses_mapped(&self, instruction: Instruction) -> bool {
        instruction_mapped(self.state(), self.mem(), self.maps_fn(), instruction)
    }

    /// The next tick touches only addresses the memory answers at, and does not fetch an
    /// opcode that names no instruction.
    pub open spec fn tick_ready(&self) -> bool {
        &&& self.wf()
        &&& tick_mapped(self.state(), self.mem(), self.maps_fn())
        &&& self.operations@.len() == 0 ==> !is_unknown_opcode(self.memory.peek(self.registers.pc))
    }

    /// A processor with zeroed registers, interrupts enabled and nothing queued.
    pub fn new(memory: M) -> (r: CPU<M>)
        ensures
            r.wf(),
            r.memory == memory,
            r.registers == (Registers { a: 0, f: 0, b: 0, c: 0, d: 0, e: 0, h: 0, l: 0, sp: 0, pc: 0 }),
            r.context == (InstructionContext { opcode: 0, byte_buffer: 0, word_buffer: 0, address_buffer: 0 }),
            r.ime,
            r.operations@.len() == 0,
    {
        CPU {
            memory,
            context: InstructionContext { opcode: 0, byte_buffer: 0, word_buffer: 0, address_buffer: 0 },
            operations: VecDeque::with_capacity(5),
            registers: Registers::new(),
            ime: true,
        }
    }

    fn read_next_byte(&mut self) -> (r: u8)
        requires
            old(self).wf(),
            old(self).memory.maps(old(self).registers.pc),
        ensures
            (r, final(self).state()) == read_location(
                old(self).state(),
                old(self).mem(),
                ByteLocation::NextMemoryByte,
            ),
            final(self).memory == old(self).memory,
            final(self).wf(),
    {
        let address = self.registers.read_word(WordRegister::PC);
        self.registers.write_word(WordRegister::PC, address.wrapping_add(1));
        self.memory.read(address)
    }

    fn read_byte(&mut self, location: ByteLocation) -> (r: u8)
        requires
            old(self).wf(),
            read_mapped(old(self).state(), old(self).maps_fn(), location),
        ensures
            (r, final(self).state()) == read_location(old(self).state(), old(self).mem(), location),
            final(self).memory == old(self).memory,
            final(self).wf(),
    {
        proof {
            lemma_word_bytes(self.context.address_buffer, 0, 0);
            lemma_word_bytes(self.context.word_buffer, 0, 0);
        }
        match location {
            ByteLocation::Value(value) => value,
            ByteLocation::Register(register) => self.registers.read_byte(register),
            ByteLocation::ByteBuffer => self.context.byte_buffer,
            ByteLocation::LowerAddressBuffer => (self.context.address_buffer & 0xFF) as u8,
            ByteLocation::UpperAddressBuffer => (self.context.address_buffer >> 8) as u8,
            ByteLocation::LowerWordBuffer => (self.context.word_buffer & 0xFF) as u8,
            ByteLocation::UpperWordBuffer => (self.context.word_buffer >> 8) as u8,
            ByteLocation::MemoryReferencedByAddressBuffer => self.memory.read(self.context.address_buffer),
            ByteLocation::MemoryReferencedByRegister(register) => {
                let address = self.registers.read_word(register);
                self.memory.read(address)
            },
            ByteLocation::NextMemoryByte => self.read_next_byte(),
        }
    }

    fn write_byte(&mut self, location: ByteLocation, value: u8)
        requires
            old(self).wf(),
            write_mapped(write_location(old(self).state(), location, value).1, old(self).maps_fn()),
            location.writable(),
        ensures
            final(self).state() == write_location(old(self).state(), location, value).0,
            memory_after(old(self).memory, final(self).memory, write_location(old(self).state(), location, value).1),
            final(self).maps_fn() == old(self).maps_fn(),
            final(self).wf(),
    {
        proof {
            lemma_word_bytes(self.context.address_buffer, value, value);
            lemma_word_bytes(self.context.word_buffer, value, value);
        }
        match location {
            ByteLocation::Register(register) => self.registers.write_byte(register, value),
            ByteLocation::ByteBuffer => self.context.byte_buffer = value,
            ByteLocation::LowerAddressBuffer => self.context.address_buffer = (self.context.address_buffer & 0xFF00) | (value as u16),
            ByteLocation::UpperAddressBuffer => self.context.address_buffer = (self.context.address_buffer & 0x00FF) | ((value as u16) << 8),
            ByteLocation::LowerWordBuffer => self.context.word_buffer = (self.context.word_buffer & 0xFF00) | (value as u16),
            ByteLocation::UpperWordBuffer => self.context.word_buffer = (self.context.word_buffer & 0x00FF) | ((value as u16) << 8),
            ByteLocation::MemoryReferencedByAddressBuffer => {
                let address = self.context.address_buffer;
                self.memory.write(address, value);
            },
            ByteLocation::MemoryReferencedByRegister(register) => {
                let address = self.registers.read_word(register);
                self.memory.write(address, value);
            },
            _ => {},
        }
        assert(self.maps_fn() =~= old(self).maps_fn());
    }

    fn read_word(&self, location: WordLocation) -> (r: u16)
        ensures
            r == read_word_location(self.state(), location),
    {
        match location {
            WordLocation::Value(value) => value,
            WordLocation::Register(register) => self.registers.read_word(register),
            WordLocation::WordBuffer => self.context.word_buffer,
            WordLocation::AddressBuffer => self.context.address_buffer,
        }
    }

    fn write_word(&mut self, location: WordLocation, value: u16)
        requires
            old(self).wf(),
            location.writable(),
        ensures
            final(self).state() == write_word_location(old(self).state(), location, value),
            final(self).memory == old(self).memory,
            final(self).wf(),
    {
        match location {
            WordLocation::Register(register) => self.registers.write_word(register, value),
            WordLocation::WordBuffer => self.context.word_buffer = value,
            WordLocation::AddressBuffer => self.context.address_buffer = value,
            WordLocation::Value(_) => {},
        }
    }
}

/// The flag byte of `flag_byte`, computed.
fn flags(zero: bool, subtract: bool, half_carry: bool, carry: bool) -> (r: u8)
    ensures
        r == flag_byte(zero, subtract, half_carry, carry),
{
    (if zero { 0x80u8 } else { 0u8 }) | (if subtract { 0x40u8 } else { 0u8 }) | (if half_carry {
        0x20u8
    } else {
        0u8
    }) | (if carry { 0x10u8 } else { 0u8 })
}

/// A byte widened as a signed offset.
fn signed_offset(value: u8) -> (r: u16)
    ensures
        r == sign_extend(value),
{
    if value < 128 {
        value as u16
    } else {
        (value as u16) + 0xFF00
    }
}

impl<M: Memory> CPU<M> {
    /// `post` is this processor after the micro-operation `instruction`.
    pub open spec fn basic_post(self, post: Self, instruction: Instruction) -> bool {
        &&& post.state() == basic_spec(self.state(), self.mem(), instruction).0
        &&& memory_after(self.memory, post.memory, basic_spec(self.state(), self.mem(), instruction).1)
        &&& post.maps_fn() == self.maps_fn()
        &&& post.wf()
    }

    fn move_byte(&mut self, p: ByteOperationParams)
        requires
            old(self).wf(),
            old(self).accesses_mapped(Instruction::MoveByte(p)),
            p.destination.writable(),
        ensures
            old(self).basic_post(*final(self), Instruction::MoveByte(p)),
    {
        proof {
            reveal(instruction_mapped);
        }
        let byte = self.read_byte(p.source);
        self.write_byte(p.destination, byte);
    }

    fn move_word(&mut self, p: WordOperationParams)
        requires
            old(self).wf(),
            p.destination.writable(),
        ensures
            old(self).basic_post(*final(self), Instruction::MoveWord(p)),
    {
        let word = self.read_word(p.source);
        self.write_word(p.destination, word);
    }

    fn cast_byte_to_signed_word(&mut self, p: ByteCastingParams)
        requires
            old(self).wf(),
            old(self).accesses_mapped(Instruction::CastByteToSignedWord(p)),
            p.destination.writable(),
        ensures
            old(self).basic_post(*final(self), Instruction::CastByteToSignedWord(p)),
    {
        proof {
            reveal(instruction_mapped);
        }
        let byte = self.read_byte(p.source);
        let word = signed_offset(byte);
        self.write_word(p.destination, word);
    }

    fn increment_word(&mut self, location: WordLocation)
        requires
            old(self).wf(),
            location.writable(),
        ensures
            old(self).basic_post(*final(self), Instruction::IncrementWord(location)),
    {
        let word = self.read_word(location);
        self.write_word(location, word.wrapping_add(1));
    }

    fn decrement_word(&mut self, location: WordLocation)
        requires
            old(self).wf(),
            location.writable(),
        ensures
            old(self).basic_post(*final(self), Instruction::DecrementWord(location)),
    {
        let word = self.read_word(location);
        self.write_word(location, word.wrapping_sub(1));
    }

    fn add_bytes(&mut self, p: ByteArithmeticParams)
        requires
            old(self).wf(),
            old(self).accesses_mapped(Instruction::AddBytes(p)),
            p.destination.writable(),
        ensures
            old(self).basic_post(*final(self), Instruction::AddBytes(p)),
    {
        proof {
            reveal(instruction_mapped);
        }
        let first_value = self.read_byte(p.first);
        let second_value = self.read_byte(p.second);
        let carry = p.use_carry && self.registers.read_byte(ByteRegister::F).get_bit(4);
        let result = ALU::add_with_carry(first_value, second_value, carry);
        if p.flag_mask != 0 {
            let flag = flags(result.zero, false, result.half_carry, result.carry);
            self.registers.write_byte_masked(ByteRegister::F, flag, p.flag_mask);
        }
        self.write_byte(p.destination, result.value);
    }

    fn subtract_bytes(&mut self, p: ByteArithmeticParams)
        requires
            old(self).wf(),
            old(self).accesses_mapped(Instruction::SubtractBytes(p)),
            p.destination.writable(),
        ensures
            old(self).basic_post(*final(self), Instruction::SubtractBytes(p)),
    {
        proof {
            reveal(instruction_mapped);
        }
        let first_value = self.read_byte(p.first);
        let second_value = self.read_byte(p.second);
        let borrow = p.use_carry && self.registers.read_byte(ByteRegister::F).get_bit(4);
        let result = ALU::subtract_with_carry(first_value, second_value, borrow);
        if p.flag_mask != 0 {
            let flag = flags(result.zero, true, result.half_carry, result.carry);
            self.registers.write_byte_masked(ByteRegister::F, flag, p.flag_mask);
        }
        self.write_byte(p.destination, result.value);
    }

    fn and_bytes(&mut self, p: ByteLogicParams)
        requires
            old(self).wf(),
            old(self).accesses_mapped(Instruction::AndBytes(p)),
            p.destination.writable(),
        ensures
            old(self).basic_post(*final(self), Instruction::AndBytes(p)),
    {
        proof {
            reveal(instruction_mapped);
        }
        let first_value = self.read_byte(p.first);
        let second_value = self.read_byte(p.second);
        let result = first_value & second_value;
        let flag = flags(result == 0, false, true, false);
        self.registers.write_byte(ByteRegister::F, flag);
        self.write_byte(p.destination, result);
    }

    fn or_bytes(&mut self, p: ByteLogicParams)
        requires
            old(self).wf(),
            old(self).accesses_mapped(Instruction::OrBytes(p)),
            p.destination.writable(),
        ensures
            old(self).basic_post(*final(self), Instruction::OrBytes(p)),
    {
        proof {
            reveal(instruction_mapped);
        }
        let first_value = self.read_byte(p.first);
        let second_value = self.read_byte(p.second);
        let result = first_value | second_value;
        let flag = flags(result == 0, false, false, false);
        self.registers.write_byte(ByteRegister::F, flag);
        self.write_byte(p.destination, result);
    }

    fn xor_bytes(&mut self, p: ByteLogicParams)
        requires
            old(self).wf(),
            old(self).accesses_mapped(Instruction::XorBytes(p)),
            p.destination.writable(),
        ensures
            old(self).basic_post(*final(self), Instruction::XorBytes(p)),
    {
        proof {
            reveal(instruction_mapped);
        }
        let first_value = self.read_byte(p.first);
        let second_value = self.read_byte(p.second);
        let result = first_value ^ second_value;
        let flag = flags(result == 0, false, false, false);
        self.registers.write_byte(ByteRegister::F, flag);
        self.write_byte(p.destination, result);
    }

    fn rotate_byte_left(&mut self, p: ByteRotationParams)
        requires
            old(self).wf(),
            old(self).accesses_mapped(Instruction::RotateByteLeft(p)),
            p.destination.writable(),
        ensures
            old(self).basic_post(*final(self), Instruction::RotateByteLeft(p)),
    {
        proof {
            reveal(instruction_mapped);
        }
        let value = self.read_byte(p.source);
        let result = (value << 1) | (value >> 7);
        let flag = flags(!p.unset_zero && result == 0, false, false, value.get_bit(7));
        self.registers.write_byte(ByteRegister::F, flag);
        self.write_byte(p.destination, result);
    }

    fn rotate_byte_left_through_carry(&mut self, p: ByteRotationParams)
        requires
            old(self).wf(),
            old(self).accesses_mapped(Instruction::RotateByteLeftThroughCarry(p)),
            p.destination.writable(),
        ensures
            old(self).basic_post(*final(self), Instruction::RotateByteLeftThroughCarry(p)),
    {
        proof {
            reveal(instruction_mapped);
        }
        let value = self.read_byte(p.source);
        let carry = self.registers.read_byte(ByteRegister::F).get_bit(4);
        let result = (value << 1) | (if carry { 1u8 } else { 0u8 });
        let flag = flags(!p.unset_zero && result == 0, false, false, value.get_bit(7));
        self.registers.write_byte(ByteRegister::F, flag);
        self.write_byte(p.destination, result);
    }

    fn rotate_byte_right(&mut self, p: ByteRotationParams)
        requires
            old(self).wf(),
            old(self).accesses_mapped(Instruction::RotateByteRight(p)),
            p.destination.writable(),
        ensures
            old(self).basic_post(*final(self), Instruction::RotateByteRight(p)),
    {
        proof {
            reveal(instruction_mapped);
        }
        let value = self.read_byte(p.source);
        let result = (value >> 1) | (value << 7);
        let flag = flags(!p.unset_zero && result == 0, false, false, value.get_bit(0));
        self.registers.write_byte(ByteRegister::F, flag);
        self.write_byte(p.destination, result);
    }

    fn rotate_byte_right_through_carry(&mut self, p: ByteRotationParams)
        requires
            old(self).wf(),
            old(self).accesses_mapped(Instruction::RotateByteRightThroughCarry(p)),
            p.destination.writable(),
        ensures
            old(self).basic_post(*final(self), Instruction::RotateByteRightThroughCarry(p)),
    {
        proof {
            reveal(instruction_mapped);
        }
        let value = self.read_byte(p.source);
        let carry = self.registers.read_byte(ByteRegister::F).get_bit(4);
        let result = (value >> 1) | (if carry { 0x80u8 } else { 0x00u8 });
        let flag = flags(!p.unset_zero && result == 0, false, false, value.get_bit(0));
        self.registers.write_byte(ByteRegister::F, flag);
        self.write_byte(p.destination, result);
    }

    fn shift_byte_left(&mut self, p: ByteShiftParams)
        requires
            old(self).wf(),
            old(self).accesses_mapped(Instruction::ShiftByteLeft(p)),
            p.destination.writable(),
        ensures
            old(self).basic_post(*final(self), Instruction::ShiftByteLeft(p)),
    {
        proof {
            reveal(instruction_mapped);
        }
        let value = self.read_byte(p.source);
        let result = value << 1;
        let flag = flags(result == 0, false, false, value.get_bit(7));
        self.registers.write_byte(ByteRegister::F, flag);
        self.write_byte(p.destination, result);
    }

    fn shift_byte_right(&mut self, p: ByteShiftParams)
        requires
            old(self).wf(),
            old(self).accesses_mapped(Instruction::ShiftByteRight(p)),
            p.destination.writable(),
        ensures
            old(self).basic_post(*final(self), Instruction::ShiftByteRight(p)),
    {
        proof {
            reveal(instruction_mapped);
        }
        let value = self.read_byte(p.source);
        let result = (value >> 1) | (if p.arithmetic { value & 0x80 } else { 0u8 });
        let flag = flags(result == 0, false, false, value.get_bit(0));
        self.registers.write_byte(ByteRegister::F, flag);
        self.write_byte(p.destination, result);
    }

    fn swap_byte(&mut self, p: ByteOperationParams)
        requires
            old(self).wf(),
            old(self).accesses_mapped(Instruction::SwapByte(p)),
            p.destination.writable(),
        ensures
            old(self).basic_post(*final(self), Instruction::SwapByte(p)),
    {
        proof {
            reveal(instruction_mapped);
        }
        let value = self.read_byte(p.source);
        let result = (value << 4) | (value >> 4);
        let flag = flags(result == 0, false, false, false);
        self.registers.write_byte(ByteRegister::F, flag);
        self.write_byte(p.destination, result);
    }

    fn add_words(&mut self, p: WordArithmeticParams)
        requires
            old(self).wf(),
            p.destination.writable(),
        ensures
            old(self).basic_post(*final(self), Instruction::AddWords(p)),
    {
        let first_value = self.read_word(p.first);
        let second_value = self.read_word(p.second);
        let result = ALU::add_pair(first_value, second_value);
        if p.flag_mask != 0 {
            let flag = flags(result.zero, false, result.half_carry, result.carry);
            self.registers.write_byte_masked(ByteRegister::F, flag, p.flag_mask);
        }
        self.write_word(p.destination, result.value);
    }

    fn jump_relative_to_buffer(&mut self)
        requires
            old(self).wf(),
        ensures
            old(self).basic_post(*final(self), Instruction::JumpRelative),
    {
        let pc = self.registers.read_word(WordRegister::PC);
        let offset = signed_offset(self.context.byte_buffer);
        let target = pc.wrapping_add(offset);
        assert(target == ((pc + offset) % 65536) as u16);
        self.registers.write_word(WordRegister::PC, target);
    }

    fn get_bit_from_byte(&mut self, location: ByteLocation, bit: u8)
        requires
            old(self).wf(),
            old(self).accesses_mapped(Instruction::GetBitFromByte(location, bit)),
            bit < 8,
        ensures
            old(self).basic_post(*final(self), Instruction::GetBitFromByte(location, bit)),
    {
        proof {
            reveal(instruction_mapped);
        }
        let value = self.read_byte(location);
        let flag = flags(!value.get_bit(bit), false, true, false);
        self.registers.write_byte_masked(ByteRegister::F, flag, 0xE0);
    }

    fn set_bit_on_byte(&mut self, p: ByteOperationParams, bit: u8)
        requires
            old(self).wf(),
            old(self).accesses_mapped(Instruction::SetBitOnByte(p, bit)),
            p.destination.writable(),
            bit < 8,
        ensures
            old(self).basic_post(*final(self), Instruction::SetBitOnByte(p, bit)),
    {
        proof {
            reveal(instruction_mapped);
        }
        let value = self.read_byte(p.source);
        self.write_byte(p.destination, value.set_bit(bit));
    }

    fn reset_bit_on_byte(&mut self, p: ByteOperationParams, bit: u8)
        requires
            old(self).wf(),
            old(self).accesses_mapped(Instruction::ResetBitOnByte(p, bit)),
            p.destination.writable(),
            bit < 8,
        ensures
            old(self).basic_post(*final(self), Instruction::ResetBitOnByte(p, bit)),
    {
        proof {
            reveal(instruction_mapped);
        }
        let value = self.read_byte(p.source);
        self.write_byte(p.destination, value.reset_bit(bit));
    }

    /// Carries out a micro-operation other than a decode or a conditional return.
    fn execute_basic(&mut self, instruction: Instruction)
        requires
            old(self).wf(),
            old(self).accesses_mapped(instruction),
            instruction.well_formed(),
        ensures
            old(self).basic_post(*final(self), instruction),
    {
        match instruction {
            Instruction::MoveByte(p) => self.move_byte(p),
            Instruction::CastByteToSignedWord(p) => self.cast_byte_to_signed_word(p),
            Instruction::MoveWord(p) => self.move_word(p),
            Instruction::IncrementWord(l) => self.increment_word(l),
            Instruction::DecrementWord(l) => self.decrement_word(l),
            Instruction::AddBytes(p) => self.add_bytes(p),
            Instruction::SubtractBytes(p) => self.subtract_bytes(p),
            Instruction::AndBytes(p) => self.and_bytes(p),
            Instruction::OrBytes(p) => self.or_bytes(p),
            Instruction::XorBytes(p) => self.xor_bytes(p),
            Instruction::RotateByteLeft(p) => self.rotate_byte_left(p),
            Instruction::RotateByteLeftThroughCarry(p) => self.rotate_byte_left_through_carry(p),
            Instruction::ShiftByteLeft(p) => self.shift_byte_left(p),
            Instruction::RotateByteRight(p) => self.rotate_byte_right(p),
            Instruction::RotateByteRightThroughCarry(p) => self.rotate_byte_right_through_carry(p),
            Instruction::ShiftByteRight(p) => self.shift_byte_right(p),
            Instruction::SwapByte(p) => self.swap_byte(p),
            Instruction::AddWords(p) => self.add_words(p),
            Instruction::JumpRelative => self.jump_relative_to_buffer(),
            Instruction::GetBitFromByte(l, bit) => self.get_bit_from_byte(l, bit),
            Instruction::SetBitOnByte(p, bit) => self.set_bit_on_byte(p, bit),
            Instruction::ResetBitOnByte(p, bit) => self.reset_bit_on_byte(p, bit),
            _ => {},
        }
    }
}

/// Reading a location outside memory does not depend on the memory.
proof fn lemma_read_memory_free(s: CpuState, m1: spec_fn(u16) -> u8, m2: spec_fn(u16) -> u8, location: ByteLocation)
    requires
        !location.in_memory(),
    ensures
        read_location(s, m1, location) == read_location(s, m2, location),
{
}

proof fn lemma_arith_memory_free(s: CpuState, m1: spec_fn(u16) -> u8, m2: spec_fn(u16) -> u8, p: ByteArithmeticParams, subtract: bool)
    requires
        !p.first.in_memory(),
        !p.second.in_memory(),
        !p.destination.in_memory(),
    ensures
        byte_arithmetic(s, m1, p, subtract) == byte_arithmetic(s, m2, p, subtract),
        byte_arithmetic(s, m1, p, subtract).1 is None,
{
    lemma_read_memory_free(s, m1, m2, p.first);
    let (a, s1) = read_location(s, m1, p.first);
    lemma_read_memory_free(s1, m1, m2, p.second);
}

proof fn lemma_logic_memory_free(s: CpuState, m1: spec_fn(u16) -> u8, m2: spec_fn(u16) -> u8, p: ByteLogicParams, op: int)
    requires
        !p.first.in_memory(),
        !p.second.in_memory(),
        !p.destination.in_memory(),
    ensures
        byte_logic(s, m1, p, op) == byte_logic(s, m2, p, op),
        byte_logic(s, m1, p, op).1 is None,
{
    lemma_read_memory_free(s, m1, m2, p.first);
    let (a, s1) = read_location(s, m1, p.first);
    lemma_read_memory_free(s1, m1, m2, p.second);
}

/// A basic micro-operation that touches no memory acts the same whatever the memory holds,
/// and writes none.
#[verifier::rlimit(100)]
pub proof fn lemma_basic_memory_free(
    s: CpuState,
    m1: spec_fn(u16) -> u8,
    m2: spec_fn(u16) -> u8,
    instruction: Instruction,
)
    requires
        !instruction.touches_memory(),
    ensures
        basic_spec(s, m1, instruction) == basic_spec(s, m2, instruction),
        basic_spec(s, m1, instruction).1 is None,
{
    match instruction {
        Instruction::AddBytes(p) => lemma_arith_memory_free(s, m1, m2, p, false),
        Instruction::SubtractBytes(p) => lemma_arith_memory_free(s, m1, m2, p, true),
        Instruction::AndBytes(p) => lemma_logic_memory_free(s, m1, m2, p, 0),
        Instruction::OrBytes(p) => lemma_logic_memory_free(s, m1, m2, p, 1),
        Instruction::XorBytes(p) => lemma_logic_memory_free(s, m1, m2, p, 2),
        Instruction::MoveByte(p) => lemma_read_memory_free(s, m1, m2, p.source),
        Instruction::CastByteToSignedWord(p) => lemma_read_memory_free(s, m1, m2, p.source),
        Instruction::RotateByteLeft(p) => lemma_read_memory_free(s, m1, m2, p.source),
        Instruction::RotateByteLeftThroughCarry(p) => lemma_read_memory_free(s, m1, m2, p.source),
        Instruction::ShiftByteLeft(p) => lemma_read_memory_free(s, m1, m2, p.source),
        Instruction::RotateByteRight(p) => lemma_read_memory_free(s, m1, m2, p.source),
        Instruction::RotateByteRightThroughCarry(p) => lemma_read_memory_free(s, m1, m2, p.source),
        Instruction::ShiftByteRight(p) => lemma_read_memory_free(s, m1, m2, p.source),
        Instruction::SwapByte(p) => lemma_read_memory_free(s, m1, m2, p.source),
        Instruction::GetBitFromByte(l, _) => lemma_read_memory_free(s, m1, m2, l),
        Instruction::SetBitOnByte(p, _) => lemma_read_memory_free(s, m1, m2, p.source),
        Instruction::ResetBitOnByte(p, _) => lemma_read_memory_free(s, m1, m2, p.source),
        _ => {},
    }
}

/// A micro-operation that touches no memory acts the same whatever the memory holds, and
/// writes none.
pub proof fn lemma_memory_free(
    s: CpuState,
    m1: spec_fn(u16) -> u8,
    m2: spec_fn(u16) -> u8,
    instruction: Instruction,
)
    requires
        !instruction.touches_memory(),
    ensures
        execute_spec(s, m1, instruction) == execute_spec(s, m2, instruction),
        execute_spec(s, m1, instruction).1 is None,
        basic_spec(s, m1, instruction) == basic_spec(s, m2, instruction),
        basic_spec(s, m1, instruction).1 is None,
{
    lemma_basic_memory_free(s, m1, m2, instruction);
}

/// A cycle that touches only mapped addresses starts with such a micro-operation.
proof fn lemma_step_mapped_first(s: CpuState, mem: spec_fn(u16) -> u8, maps: spec_fn(u16) -> bool, step: Step)
    requires
        step_mapped(s, mem, maps, step),
    ensures
        instruction_mapped(s, mem, maps, step.first),
{
    reveal(step_mapped);
}

/// In a cycle that touches only mapped addresses, the second micro-operation does so too,
/// whatever the first wrote, when at most one of the two touches memory.
proof fn lemma_step_mapped_second(
    s0: CpuState,
    m0: spec_fn(u16) -> u8,
    s1: CpuState,
    m1: spec_fn(u16) -> u8,
    maps: spec_fn(u16) -> bool,
    step: Step,
)
    requires
        step_mapped(s0, m0, maps, step),
        step_ok(step),
        s1 == execute_spec(s0, m0, step.first).0,
        step.first.touches_memory() || m1 == m0,
    ensures
        instruction_mapped(s1, m1, maps, step.second),
{
    reveal(step_mapped);
    if step.first.touches_memory() {
        lemma_memory_free_mapped(s1, m0, m1, maps, step.second);
    }
}

/// Whether a micro-operation that touches no memory touches only mapped addresses does not
/// depend on what the memory holds.
proof fn lemma_memory_free_mapped(
    s: CpuState,
    m1: spec_fn(u16) -> u8,
    m2: spec_fn(u16) -> u8,
    maps: spec_fn(u16) -> bool,
    instruction: Instruction,
)
    requires
        !instruction.touches_memory(),
    ensures
        instruction_mapped(s, m2, maps, instruction),
{
    reveal(instruction_mapped);
    lemma_memory_free(s, m2, m1, instruction);
}

fn cb_unary_instruction(op: u8, source: ByteLocation, destination: ByteLocation) -> (r: Instruction)
    requires
        op < 0x40,
    ensures
        r == cb_unary(op, source, destination),
{
    let group = op / 8;
    if group == 0 {
        Instruction::RotateByteLeft(ByteRotationParams { source, destination, unset_zero: false })
    } else if group == 1 {
        Instruction::RotateByteRight(ByteRotationParams { source, destination, unset_zero: false })
    } else if group == 2 {
        Instruction::RotateByteLeftThroughCarry(
            ByteRotationParams { source, destination, unset_zero: false },
        )
    } else if group == 3 {
        Instruction::RotateByteRightThroughCarry(
            ByteRotationParams { source, destination, unset_zero: false },
        )
    } else if group == 4 {
        Instruction::ShiftByteLeft(ByteShiftParams { source, destination, arithmetic: false })
    } else if group == 5 {
        Instruction::ShiftByteRight(ByteShiftParams { source, destination, arithmetic: true })
    } else if group == 6 {
        Instruction::SwapByte(ByteOperationParams { source, destination })
    } else {
        Instruction::ShiftByteRight(ByteShiftParams { source, destination, arithmetic: false })
    }
}

fn alu_instruction_for(y: u8, operand: ByteLocation) -> (r: Instruction)
    requires
        y < 8,
    ensures
        r == alu_instruction(y, operand),
{
    let a = ByteLocation::Register(ByteRegister::A);
    if y == 0 {
        Instruction::AddBytes(
            ByteArithmeticParams { first: a, second: operand, destination: a, use_carry: false, flag_mask: 0xF0 },
        )
    } else if y == 1 {
        Instruction::AddBytes(
            ByteArithmeticParams { first: a, second: operand, destination: a, use_carry: true, flag_mask: 0xF0 },
        )
    } else if y == 2 {
        Instruction::SubtractBytes(
            ByteArithmeticParams { first: a, second: operand, destination: a, use_carry: false, flag_mask: 0xF0 },
        )
    } else if y == 3 {
        Instruction::SubtractBytes(
            ByteArithmeticParams { first: a, second: operand, destination: a, use_carry: true, flag_mask: 0xF0 },
        )
    } else if y == 4 {
        Instruction::AndBytes(ByteLogicParams { first: operand, second: a, destination: a })
    } else if y == 5 {
        Instruction::XorBytes(ByteLogicParams { first: operand, second: a, destination: a })
    } else if y == 6 {
        Instruction::OrBytes(ByteLogicParams { first: operand, second: a, destination: a })
    } else {
        Instruction::SubtractBytes(
            ByteArithmeticParams {
                first: a,
                second: operand,
                destination: ByteLocation::ByteBuffer,
                use_carry: false,
                flag_mask: 0xF0,
            },
        )
    }
}

impl<M: Memory> CPU<M> {
    /// `post` is this processor after the micro-operation `instruction`.
    pub open spec fn executed(self, post: Self, instruction: Instruction) -> bool {
        &&& post.state() == execute_spec(self.state(), self.mem(), instruction).0
        &&& memory_after(self.memory, post.memory, execute_spec(self.state(), self.mem(), instruction).1)
        &&& post.maps_fn() == self.maps_fn()
        &&& post.wf()
    }

    /// `post` is this processor with `state` and the same memory.
    pub open spec fn became(self, post: Self, state: CpuState) -> bool {
        &&& post.state() == state
        &&& post.memory == self.memory
        &&& post.wf()
    }

    /// Queues one cycle.
    fn enqueue(&mut self, first: Instruction, second: Instruction)
        requires
            old(self).wf(),
            step_ok(Step { first, second }),
        ensures
            old(self).became(*final(self), old(self).state().push(first, second)),
    {
        self.operations.push_back(Step { first, second });
    }

    /// Carries out a register-only micro-operation at once.
    fn run_now(&mut self, instruction: Instruction)
        requires
            old(self).wf(),
            instruction.well_formed(),
            !instruction.touches_memory(),
        ensures
            old(self).became(*final(self), run(old(self).state(), old(self).mem(), instruction)),
    {
        proof {
            lemma_memory_free(self.state(), self.mem(), self.mem(), instruction);
            lemma_memory_free_mapped(self.state(), self.mem(), self.mem(), self.maps_fn(), instruction);
        }
        self.execute_basic(instruction);
    }

    /// Whether the condition of `opcode` holds for the current flags.
    fn satisfies_condition(&self, opcode: u8) -> (r: bool)
        ensures
            r == condition_holds(self.registers.f, opcode),
    {
        let condition = (opcode / 8) % 4;
        let f = self.registers.read_byte(ByteRegister::F);
        if condition == 0 {
            !f.get_bit(7)
        } else if condition == 1 {
            f.get_bit(7)
        } else if condition == 2 {
            !f.get_bit(4)
        } else {
            f.get_bit(4)
        }
    }

    fn return_from_call(&mut self)
        requires
            old(self).wf(),
        ensures
            old(self).became(*final(self), return_from_call_spec(old(self).state())),
    {
        let sp = ByteLocation::MemoryReferencedByRegister(WordRegister::SP);
        let increment = Instruction::IncrementWord(WordLocation::Register(WordRegister::SP));
        self.enqueue(
            Instruction::MoveByte(ByteOperationParams { source: sp, destination: ByteLocation::LowerWordBuffer }),
            increment,
        );
        self.enqueue(
            Instruction::MoveByte(ByteOperationParams { source: sp, destination: ByteLocation::UpperWordBuffer }),
            increment,
        );
        self.enqueue(
            Instruction::MoveWord(
                WordOperationParams {
                    source: WordLocation::WordBuffer,
                    destination: WordLocation::Register(WordRegister::PC),
                },
            ),
            Instruction::Noop,
        );
    }

    /// Reads the byte after a 0xCB prefix and carries out that instruction.
    fn decode_cb_instruction(&mut self)
        requires
            old(self).wf(),
            old(self).memory.maps(old(self).registers.pc),
        ensures
            old(self).executed(*final(self), Instruction::DecodeCBInstruction),
    {
        let ghost mem = self.mem();
        let opcode_value = self.read_next_byte();
        self.context.opcode = opcode_value;
        let y = (opcode_value / 8) % 8;
        let z = opcode_value % 8;
        let hl = ByteLocation::MemoryReferencedByRegister(WordRegister::HL);
        let buffer = ByteLocation::ByteBuffer;
        if z != 6 {
            let register = ByteLocation::Register(ByteRegister::from_r_bits(z));
            let instruction = if opcode_value < 0x40 {
                cb_unary_instruction(opcode_value, register, register)
            } else if opcode_value < 0x80 {
                Instruction::GetBitFromByte(register, y)
            } else if opcode_value < 0xC0 {
                Instruction::ResetBitOnByte(ByteOperationParams { source: register, destination: register }, y)
            } else {
                Instruction::SetBitOnByte(ByteOperationParams { source: register, destination: register }, y)
            };
            self.run_now(instruction);
        } else if opcode_value < 0x40 {
            self.enqueue(Instruction::MoveByte(ByteOperationParams { source: hl, destination: buffer }), Instruction::Noop);
            let instruction = cb_unary_instruction(opcode_value, buffer, hl);
            self.enqueue(instruction, Instruction::Noop);
        } else if opcode_value < 0x80 {
            self.enqueue(Instruction::GetBitFromByte(hl, y), Instruction::Noop);
        } else if opcode_value < 0xC0 {
            self.enqueue(Instruction::MoveByte(ByteOperationParams { source: hl, destination: buffer }), Instruction::Noop);
            self.enqueue(
                Instruction::ResetBitOnByte(ByteOperationParams { source: buffer, destination: hl }, y),
                Instruction::Noop,
            );
        } else {
            self.enqueue(Instruction::MoveByte(ByteOperationParams { source: hl, destination: buffer }), Instruction::Noop);
            self.enqueue(
                Instruction::SetBitOnByte(ByteOperationParams { source: buffer, destination: hl }, y),
                Instruction::Noop,
            );
        }
    }

    /// Returns from a call when the condition of the current opcode holds.
    fn return_if_condition_met(&mut self)
        requires
            old(self).wf(),
        ensures
            old(self).executed(*final(self), Instruction::ReturnIfConditionMet),
    {
        if self.satisfies_condition(self.context.opcode) {
            self.return_from_call();
        }
    }

    fn execute_instruction(&mut self, instruction: Instruction)
        requires
            old(self).wf(),
            instruction.well_formed(),
            old(self).accesses_mapped(instruction),
        ensures
            old(self).executed(*final(self), instruction),
    {
        proof {
            reveal(instruction_mapped);
        }
        match instruction {
            Instruction::DecodeCBInstruction => self.decode_cb_instruction(),
            Instruction::ReturnIfConditionMet => self.return_if_condition_met(),
            _ => self.execute_basic(instruction),
        }
    }

    /// Carries out one queued cycle.
    #[verifier::rlimit(30)]
    fn execute_step(&mut self, step: Step)
        requires
            old(self).wf(),
            step_ok(step),
            step_mapped(old(self).state(), old(self).mem(), old(self).maps_fn(), step),
        ensures
            final(self).state() == step_spec(old(self).state(), old(self).mem(), step).0,
            memory_after(old(self).memory, final(self).memory, step_spec(old(self).state(), old(self).mem(), step).1),
            final(self).maps_fn() == old(self).maps_fn(),
            final(self).wf(),
    {
        let ghost s0 = self.state();
        let ghost m0 = self.mem();
        proof {
            lemma_step_mapped_first(s0, m0, self.maps_fn(), step);
        }
        self.execute_instruction(step.first);
        let ghost s1 = self.state();
        let ghost m1 = self.mem();
        proof {
            assert(self.maps_fn() =~= old(self).maps_fn());
            if step.first.touches_memory() {
                lemma_memory_free(s1, m1, m0, step.second);
            } else {
                lemma_memory_free(s0, m0, m0, step.first);
                assert(m1 =~= m0);
            }
            lemma_step_mapped_second(s0, m0, s1, m1, self.maps_fn(), step);
        }
        self.execute_instruction(step.second);
    }
}

fn byte_move(source: ByteLocation, destination: ByteLocation) -> (r: Instruction)
    ensures
        r == move_byte(source, destination),
{
    Instruction::MoveByte(ByteOperationParams { source, destination })
}

fn word_move(source: WordLocation, destination: WordLocation) -> (r: Instruction)
    ensures
        r == move_word(source, destination),
{
    Instruction::MoveWord(WordOperationParams { source, destination })
}

impl<M: Memory> CPU<M> {
    /// `post` is this processor after decoding the opcode held in its context.
    pub open spec fn decoded(self, post: Self) -> bool {
        self.became(post, decode_spec(self.state(), self.mem(), self.context.opcode))
    }

    fn reg_to_reg_ld(&mut self)
        requires
            old(self).wf(),
            0x40 <= old(self).context.opcode < 0x80,
            y_bits(old(self).context.opcode) != 6,
            z_bits(old(self).context.opcode) != 6,
        ensures
            old(self).decoded(*final(self)),
    {
        let op = self.context.opcode;
        let source = ByteLocation::Register(ByteRegister::from_r_bits(op % 8));
        let destination = ByteLocation::Register(ByteRegister::from_r_bits((op / 8) % 8));
        self.run_now(byte_move(source, destination));
    }

    fn immediate_to_reg_ld(&mut self)
        requires
            old(self).wf(),
            old(self).context.opcode < 0x40,
            y_bits(old(self).context.opcode) != 6,
            z_bits(old(self).context.opcode) == 6,
        ensures
            old(self).decoded(*final(self)),
    {
        let op = self.context.opcode;
        let destination = ByteLocation::Register(ByteRegister::from_r_bits((op / 8) % 8));
        self.enqueue(byte_move(ByteLocation::NextMemoryByte, destination), Instruction::Noop);
    }

    fn immediate_to_indirect_ld(&mut self)
        requires
            old(self).wf(),
            old(self).context.opcode == 0x36,
        ensures
            old(self).decoded(*final(self)),
    {
        self.enqueue(byte_move(ByteLocation::NextMemoryByte, ByteLocation::ByteBuffer), Instruction::Noop);
        self.enqueue(
            byte_move(ByteLocation::ByteBuffer, ByteLocation::MemoryReferencedByRegister(WordRegister::HL)),
            Instruction::Noop,
        );
    }

    fn indirect_to_reg_ld(&mut self)
        requires
            old(self).wf(),
            0x40 <= old(self).context.opcode < 0x80,
            y_bits(old(self).context.opcode) != 6,
            z_bits(old(self).context.opcode) == 6,
        ensures
            old(self).decoded(*final(self)),
    {
        let op = self.context.opcode;
        let destination = ByteLocation::Register(ByteRegister::from_r_bits((op / 8) % 8));
        self.enqueue(
            byte_move(ByteLocation::MemoryReferencedByRegister(WordRegister::HL), destination),
            Instruction::Noop,
        );
    }

    fn reg_to_indirect_ld(&mut self)
        requires
            old(self).wf(),
            0x40 <= old(self).context.opcode < 0x80,
            y_bits(old(self).context.opcode) == 6,
            z_bits(old(self).context.opcode) != 6,
        ensures
            old(self).decoded(*final(self)),
    {
        let op = self.context.opcode;
        let source = ByteLocation::Register(ByteRegister::from_r_bits(op % 8));
        self.enqueue(
            byte_move(source, ByteLocation::MemoryReferencedByRegister(WordRegister::HL)),
            Instruction::Noop,
        );
    }

    fn reg_a_to_indirect_hl_ld_and_increment(&mut self)
        requires
            old(self).wf(),
            old(self).context.opcode == 0x22,
        ensures
            old(self).decoded(*final(self)),
    {
        self.enqueue(
            byte_move(ByteLocation::Register(ByteRegister::A), ByteLocation::MemoryReferencedByRegister(WordRegister::HL)),
            Instruction::IncrementWord(WordLocation::Register(WordRegister::HL)),
        );
    }

    fn indirect_hl_to_reg_a_ld_and_increment(&mut self)
        requires
            old(self).wf(),
            old(self).context.opcode == 0x2A,
        ensures
            old(self).decoded(*final(self)),
    {
        self.enqueue(
            byte_move(ByteLocation::MemoryReferencedByRegister(WordRegister::HL), ByteLocation::Register(ByteRegister::A)),
            Instruction::IncrementWord(WordLocation::Register(WordRegister::HL)),
        );
    }

    fn reg_a_to_indirect_hl_ld_and_decrement(&mut self)
        requires
            old(self).wf(),
            old(self).context.opcode == 0x32,
        ensures
            old(self).decoded(*final(self)),
    {
        self.enqueue(
            byte_move(ByteLocation::Register(ByteRegister::A), ByteLocation::MemoryReferencedByRegister(WordRegister::HL)),
            Instruction::DecrementWord(WordLocation::Register(WordRegister::HL)),
        );
    }

    fn indirect_hl_to_reg_a_ld_and_decrement(&mut self)
        requires
            old(self).wf(),
            old(self).context.opcode == 0x3A,
        ensures
            old(self).decoded(*final(self)),
    {
        self.enqueue(
            byte_move(ByteLocation::MemoryReferencedByRegister(WordRegister::HL), ByteLocation::Register(ByteRegister::A)),
            Instruction::DecrementWord(WordLocation::Register(WordRegister::HL)),
        );
    }

    fn reg_a_to_indirect_bc_ld(&mut self)
        requires
            old(self).wf(),
            old(self).context.opcode == 0x02,
        ensures
            old(self).decoded(*final(self)),
    {
        self.enqueue(
            byte_move(
                ByteLocation::Register(ByteRegister::A),
                ByteLocation::MemoryReferencedByRegister(WordRegister::BC),
            ),
            Instruction::Noop,
        );
    }

    fn indirect_bc_to_reg_a_ld(&mut self)
        requires
            old(self).wf(),
            old(self).context.opcode == 0x0A,
        ensures
            old(self).decoded(*final(self)),
    {
        self.enqueue(
            byte_move(
                ByteLocation::MemoryReferencedByRegister(WordRegister::BC),
                ByteLocation::Register(ByteRegister::A),
            ),
            Instruction::Noop,
        );
    }

    fn reg_a_to_indirect_de_ld(&mut self)
        requires
            old(self).wf(),
            old(self).context.opcode == 0x12,
        ensures
            old(self).decoded(*final(self)),
    {
        self.enqueue(
            byte_move(
                ByteLocation::Register(ByteRegister::A),
                ByteLocation::MemoryReferencedByRegister(WordRegister::DE),
            ),
            Instruction::Noop,
        );
    }

    fn indirect_de_to_reg_a_ld(&mut self)
        requires
            old(self).wf(),
            old(self).context.opcode == 0x1A,
        ensures
            old(self).decoded(*final(self)),
    {
        self.enqueue(
            byte_move(
                ByteLocation::MemoryReferencedByRegister(WordRegister::DE),
                ByteLocation::Register(ByteRegister::A),
            ),
            Instruction::Noop,
        );
    }

    fn immediate_to_reg_pair_ld(&mut self)
        requires
            old(self).wf(),
            old(self).context.opcode < 0x40,
            z_bits(old(self).context.opcode) == 1,
            y_bits(old(self).context.opcode) % 2 == 0,
        ensures
            old(self).decoded(*final(self)),
    {
        let register = WordRegister::from_dd_bits((self.context.opcode / 16) % 4);
        let lower = ByteLocation::Register(register.get_lower_byte_register());
        let upper = ByteLocation::Register(register.get_upper_byte_register());
        self.enqueue(byte_move(ByteLocation::NextMemoryByte, lower), Instruction::Noop);
        self.enqueue(byte_move(ByteLocation::NextMemoryByte, upper), Instruction::Noop);
    }

    fn add_reg_pair_to_reg_hl(&mut self)
        requires
            old(self).wf(),
            old(self).context.opcode < 0x40,
            z_bits(old(self).context.opcode) == 1,
            y_bits(old(self).context.opcode) % 2 == 1,
        ensures
            old(self).decoded(*final(self)),
    {
        let register = WordRegister::from_dd_bits((self.context.opcode / 16) % 4);
        self.run_now(
            Instruction::AddWords(
                WordArithmeticParams {
                    first: WordLocation::Register(register),
                    second: WordLocation::Register(WordRegister::HL),
                    destination: WordLocation::WordBuffer,
                    flag_mask: 0x70,
                },
            ),
        );
        self.run_now(byte_move(ByteLocation::LowerWordBuffer, ByteLocation::Register(ByteRegister::LowerHL)));
        self.enqueue(
            byte_move(ByteLocation::UpperWordBuffer, ByteLocation::Register(ByteRegister::UpperHL)),
            Instruction::Noop,
        );
    }

    /// Increments or decrements the register pair of the opcode through the word buffer.
    fn step_reg_pair(&mut self, up: bool)
        requires
            old(self).wf(),
            old(self).context.opcode < 0x40,
            z_bits(old(self).context.opcode) == 3,
            up == (y_bits(old(self).context.opcode) % 2 == 0),
        ensures
            old(self).decoded(*final(self)),
    {
        let register = WordRegister::from_dd_bits((self.context.opcode / 16) % 4);
        self.run_now(word_move(WordLocation::Register(register), WordLocation::WordBuffer));
        if up {
            self.run_now(Instruction::IncrementWord(WordLocation::WordBuffer));
        } else {
            self.run_now(Instruction::DecrementWord(WordLocation::WordBuffer));
        }
        self.run_now(
            byte_move(ByteLocation::LowerWordBuffer, ByteLocation::Register(register.get_lower_byte_register())),
        );
        self.enqueue(
            byte_move(ByteLocation::UpperWordBuffer, ByteLocation::Register(register.get_upper_byte_register())),
            Instruction::Noop,
        );
    }

    fn increment_reg_pair(&mut self)
        requires
            old(self).wf(),
            old(self).context.opcode < 0x40,
            z_bits(old(self).context.opcode) == 3,
            y_bits(old(self).context.opcode) % 2 == 0,
        ensures
            old(self).decoded(*final(self)),
    {
        self.step_reg_pair(true);
    }

    fn decrement_reg_pair(&mut self)
        requires
            old(self).wf(),
            old(self).context.opcode < 0x40,
            z_bits(old(self).context.opcode) == 3,
            y_bits(old(self).context.opcode) % 2 == 1,
        ensures
            old(self).decoded(*final(self)),
    {
        self.step_reg_pair(false);
    }

    /// Adds (`up`) or subtracts one to the register or memory byte of the opcode.
    fn step_byte(&mut self, up: bool)
        requires
            old(self).wf(),
            old(self).context.opcode < 0x40,
            z_bits(old(self).context.opcode) == 4 || z_bits(old(self).context.opcode) == 5,
            up == (z_bits(old(self).context.opcode) == 4),
        ensures
            old(self).decoded(*final(self)),
    {
        let y = (self.context.opcode / 8) % 8;
        let hl_memory = ByteLocation::MemoryReferencedByRegister(WordRegister::HL);
        if y == 6 {
            let p = ByteArithmeticParams {
                first: ByteLocation::ByteBuffer,
                second: ByteLocation::Value(1),
                destination: hl_memory,
                use_carry: false,
                flag_mask: 0xE0,
            };
            self.enqueue(byte_move(hl_memory, ByteLocation::ByteBuffer), Instruction::Noop);
            if up {
                self.enqueue(Instruction::AddBytes(p), Instruction::Noop);
            } else {
                self.enqueue(Instruction::SubtractBytes(p), Instruction::Noop);
            }
        } else {
            let register = ByteLocation::Register(ByteRegister::from_r_bits(y));
            let p = ByteArithmeticParams {
                first: register,
                second: ByteLocation::Value(1),
                destination: register,
                use_carry: false,
                flag_mask: 0xE0,
            };
            if up {
                self.run_now(Instruction::AddBytes(p));
            } else {
                self.run_now(Instruction::SubtractBytes(p));
            }
        }
    }

    fn increment_reg(&mut self)
        requires
            old(self).wf(),
            old(self).context.opcode < 0x40,
            z_bits(old(self).context.opcode) == 4,
            y_bits(old(self).context.opcode) != 6,
        ensures
            old(self).decoded(*final(self)),
    {
        self.step_byte(true);
    }

    fn increment_indirect_hl(&mut self)
        requires
            old(self).wf(),
            old(self).context.opcode == 0x34,
        ensures
            old(self).decoded(*final(self)),
    {
        self.step_byte(true);
    }

    fn decrement_reg(&mut self)
        requires
            old(self).wf(),
            old(self).context.opcode < 0x40,
            z_bits(old(self).context.opcode) == 5,
            y_bits(old(self).context.opcode) != 6,
        ensures
            old(self).decoded(*final(self)),
    {
        self.step_byte(false);
    }

    fn decrement_indirect_hl(&mut self)
        requires
            old(self).wf(),
            old(self).context.opcode == 0x35,
        ensures
            old(self).decoded(*final(self)),
    {
        self.step_byte(false);
    }
}

impl<M: Memory> CPU<M> {
    #[verifier::spinoff_prover]
    #[verifier::rlimit(30)]
    fn rotate_reg_a(&mut self)
        requires
            old(self).wf(),
            old(self).context.opcode < 0x20,
            z_bits(old(self).context.opcode) == 7,
        ensures
            old(self).decoded(*final(self)),
    {
        let y = (self.context.opcode / 8) % 8;
        let a = ByteLocation::Register(ByteRegister::A);
        let p = ByteRotationParams { source: a, destination: a, unset_zero: true };
        if y == 0 {
            self.run_now(Instruction::RotateByteLeft(p));
        } else if y == 1 {
            self.run_now(Instruction::RotateByteRight(p));
        } else if y == 2 {
            self.run_now(Instruction::RotateByteLeftThroughCarry(p));
        } else {
            self.run_now(Instruction::RotateByteRightThroughCarry(p));
        }
    }

    fn rotate_reg_a_left(&mut self)
        requires
            old(self).wf(),
            old(self).context.opcode == 0x07,
        ensures
            old(self).decoded(*final(self)),
    {
        self.rotate_reg_a();
    }

    fn rotate_reg_a_right(&mut self)
        requires
            old(self).wf(),
            old(self).context.opcode == 0x0F,
        ensures
            old(self).decoded(*final(self)),
    {
        self.rotate_reg_a();
    }

    fn rotate_reg_a_left_through_carry(&mut self)
        requires
            old(self).wf(),
            old(self).context.opcode == 0x17,
        ensures
            old(self).decoded(*final(self)),
    {
        self.rotate_reg_a();
    }

    fn rotate_reg_a_right_through_carry(&mut self)
        requires
            old(self).wf(),
            old(self).context.opcode == 0x1F,
        ensures
            old(self).decoded(*final(self)),
    {
        self.rotate_reg_a();
    }

    fn decimal_adjust_reg_a(&mut self)
        requires
            old(self).wf(),
            old(self).context.opcode == 0x27,
        ensures
            old(self).decoded(*final(self)),
    {
        let a = self.registers.read_byte(ByteRegister::A);
        let f = self.registers.read_byte(ByteRegister::F);
        let n = f.get_bit(6);
        let carry = f.get_bit(4);
        let half_carry = f.get_bit(5);
        if n {
            let lower: u8 = if half_carry { 6 } else { 0 };
            let upper: u8 = if carry { 0x60 } else { 0 };
            self.run_now(
                Instruction::SubtractBytes(
                    ByteArithmeticParams {
                        first: ByteLocation::Value(a),
                        second: ByteLocation::Value(upper | lower),
                        destination: ByteLocation::Register(ByteRegister::A),
                        use_carry: false,
                        flag_mask: 0xB0,
                    },
                ),
            );
        } else {
            let lower: u8 = if half_carry || ((a & 0x0F) >= 0x0A) { 6 } else { 0 };
            let upper: u8 = if carry || (a > 0x99) { 0x60 } else { 0 };
            proof {
                assert(a & 0x0F == a % 16) by (bit_vector);
            }
            self.run_now(
                Instruction::AddBytes(
                    ByteArithmeticParams {
                        first: ByteLocation::Value(a),
                        second: ByteLocation::Value(upper | lower),
                        destination: ByteLocation::Register(ByteRegister::A),
                        use_carry: false,
                        flag_mask: 0xB0,
                    },
                ),
            );
        }
        if carry {
            self.registers.write_byte_masked(ByteRegister::F, 0x10, 0x30);
        } else {
            self.registers.write_byte_masked(ByteRegister::F, 0x00, 0x20);
        }
    }

    fn ones_complement_reg_a(&mut self)
        requires
            old(self).wf(),
            old(self).context.opcode == 0x2F,
        ensures
            old(self).decoded(*final(self)),
    {
        let a = self.registers.read_byte(ByteRegister::A);
        self.registers.write_byte(ByteRegister::A, !a);
        self.registers.write_byte_masked(ByteRegister::F, 0x60, 0x60);
    }

    fn flip_carry_flag(&mut self)
        requires
            old(self).wf(),
            old(self).context.opcode == 0x3F,
        ensures
            old(self).decoded(*final(self)),
    {
        let f = self.registers.read_byte(ByteRegister::F);
        self.registers.write_byte_masked(ByteRegister::F, (f ^ 0x10) & 0x90, 0x70);
    }

    fn set_carry_flag(&mut self)
        requires
            old(self).wf(),
            old(self).context.opcode == 0x37,
        ensures
            old(self).decoded(*final(self)),
    {
        self.registers.write_byte_masked(ByteRegister::F, 0x10, 0x70);
    }

    fn jump_relative(&mut self)
        requires
            old(self).wf(),
            old(self).context.opcode == 0x18,
        ensures
            old(self).decoded(*final(self)),
    {
        self.enqueue(byte_move(ByteLocation::NextMemoryByte, ByteLocation::ByteBuffer), Instruction::Noop);
        self.enqueue(Instruction::JumpRelative, Instruction::Noop);
    }

    fn jump_conditional_relative(&mut self)
        requires
            old(self).wf(),
            old(self).context.opcode < 0x40,
            old(self).context.opcode >= 0x20,
            z_bits(old(self).context.opcode) == 0,
        ensures
            old(self).decoded(*final(self)),
    {
        let condition = self.satisfies_condition(self.context.opcode);
        self.enqueue(byte_move(ByteLocation::NextMemoryByte, ByteLocation::ByteBuffer), Instruction::Noop);
        if condition {
            self.enqueue(Instruction::JumpRelative, Instruction::Noop);
        }
    }

    /// Queues the reads of the two bytes after the opcode into the address buffer.
    fn load_address(&mut self)
        requires
            old(self).wf(),
        ensures
            old(self).became(*final(self), load_address_spec(old(self).state())),
    {
        self.enqueue(byte_move(ByteLocation::NextMemoryByte, ByteLocation::LowerAddressBuffer), Instruction::Noop);
        self.enqueue(byte_move(ByteLocation::NextMemoryByte, ByteLocation::UpperAddressBuffer), Instruction::Noop);
    }

    fn reg_sp_to_immediate_indirect_ld(&mut self)
        requires
            old(self).wf(),
            old(self).context.opcode == 0x08,
        ensures
            old(self).decoded(*final(self)),
    {
        self.load_address();
        self.enqueue(
            byte_move(ByteLocation::Register(ByteRegister::LowerSP), ByteLocation::MemoryReferencedByAddressBuffer),
            Instruction::Noop,
        );
        self.enqueue(
            Instruction::IncrementWord(WordLocation::AddressBuffer),
            byte_move(ByteLocation::Register(ByteRegister::UpperSP), ByteLocation::MemoryReferencedByAddressBuffer),
        );
    }

    /// The ALU operations on register A and a register (0x80 to 0xBF, other than (HL)).
    fn alu_with_reg(&mut self)
        requires
            old(self).wf(),
            0x80 <= old(self).context.opcode < 0xC0,
            z_bits(old(self).context.opcode) != 6,
        ensures
            old(self).decoded(*final(self)),
    {
        let op = self.context.opcode;
        let register = ByteLocation::Register(ByteRegister::from_r_bits(op % 8));
        let instruction = alu_instruction_for((op / 8) % 8, register);
        self.run_now(instruction);
    }

    /// The ALU operations on register A and the byte at (HL).
    fn alu_with_indirect_hl(&mut self)
        requires
            old(self).wf(),
            0x80 <= old(self).context.opcode < 0xC0,
            z_bits(old(self).context.opcode) == 6,
        ensures
            old(self).decoded(*final(self)),
    {
        let op = self.context.opcode;
        let instruction = alu_instruction_for(
            (op / 8) % 8,
            ByteLocation::MemoryReferencedByRegister(WordRegister::HL),
        );
        self.enqueue(instruction, Instruction::Noop);
    }

    /// The ALU operations on register A and the byte after the opcode.
    fn alu_with_immediate(&mut self)
        requires
            old(self).wf(),
            0xC0 <= old(self).context.opcode,
            z_bits(old(self).context.opcode) == 6,
        ensures
            old(self).decoded(*final(self)),
    {
        let op = self.context.opcode;
        let instruction = alu_instruction_for((op / 8) % 8, ByteLocation::NextMemoryByte);
        self.enqueue(instruction, Instruction::Noop);
    }

    fn add_reg_to_reg_a_and_write_to_reg_a(&mut self, use_carry: bool)
        requires
            old(self).wf(),
            0x80 <= old(self).context.opcode < 0x90,
            z_bits(old(self).context.opcode) != 6,
            use_carry == (old(self).context.opcode >= 0x88),
        ensures
            old(self).decoded(*final(self)),
    {
        self.alu_with_reg();
    }

    fn add_indirect_hl_to_reg_a_and_write_to_reg_a(&mut self, use_carry: bool)
        requires
            old(self).wf(),
            old(self).context.opcode == 0x86 || old(self).context.opcode == 0x8E,
            use_carry == (old(self).context.opcode == 0x8E),
        ensures
            old(self).decoded(*final(self)),
    {
        self.alu_with_indirect_hl();
    }

    fn subtract_reg_from_reg_a_and_write_to_reg_a(&mut self, use_carry: bool)
        requires
            old(self).wf(),
            0x90 <= old(self).context.opcode < 0xA0,
            z_bits(old(self).context.opcode) != 6,
            use_carry == (old(self).context.opcode >= 0x98),
        ensures
            old(self).decoded(*final(self)),
    {
        self.alu_with_reg();
    }

    fn subtract_indirect_hl_from_reg_a_and_write_to_reg_a(&mut self, use_carry: bool)
        requires
            old(self).wf(),
            old(self).context.opcode == 0x96 || old(self).context.opcode == 0x9E,
            use_carry == (old(self).context.opcode == 0x9E),
        ensures
            old(self).decoded(*final(self)),
    {
        self.alu_with_indirect_hl();
    }

    fn and_reg_with_reg_a_and_write_to_reg_a(&mut self)
        requires
            old(self).wf(),
            0xA0 <= old(self).context.opcode < 0xA8,
            z_bits(old(self).context.opcode) != 6,
        ensures
            old(self).decoded(*final(self)),
    {
        self.alu_with_reg();
    }

    fn and_indirect_hl_with_reg_a_and_write_to_reg_a(&mut self)
        requires
            old(self).wf(),
            old(self).context.opcode == 0xA6,
        ensures
            old(self).decoded(*final(self)),
    {
        self.alu_with_indirect_hl();
    }

    fn xor_reg_with_reg_a_and_write_to_reg_a(&mut self)
        requires
            old(self).wf(),
            0xA8 <= old(self).context.opcode < 0xB0,
            z_bits(old(self).context.opcode) != 6,
        ensures
            old(self).decoded(*final(self)),
    {
        self.alu_with_reg();
    }

    fn xor_indirect_hl_with_reg_a_and_write_to_reg_a(&mut self)
        requires
            old(self).wf(),
            old(self).context.opcode == 0xAE,
        ensures
            old(self).decoded(*final(self)),
    {
        self.alu_with_indirect_hl();
    }

    fn or_reg_with_reg_a_and_write_to_reg_a(&mut self)
        requires
            old(self).wf(),
            0xB0 <= old(self).context.opcode < 0xB8,
            z_bits(old(self).context.opcode) != 6,
        ensures
            old(self).decoded(*final(self)),
    {
        self.alu_with_reg();
    }

    fn or_indirect_hl_with_reg_a_and_write_to_reg_a(&mut self)
        requires
            old(self).wf(),
            old(self).context.opcode == 0xB6,
        ensures
            old(self).decoded(*final(self)),
    {
        self.alu_with_indirect_hl();
    }

    fn compare_reg_with_reg_a(&mut self)
        requires
            old(self).wf(),
            0xB8 <= old(self).context.opcode < 0xC0,
            z_bits(old(self).context.opcode) != 6,
        ensures
            old(self).decoded(*final(self)),
    {
        self.alu_with_reg();
    }

    fn compare_indirect_hl_with_reg_a(&mut self)
        requires
            old(self).wf(),
            old(self).context.opcode == 0xBE,
        ensures
            old(self).decoded(*final(self)),
    {
        self.alu_with_indirect_hl();
    }

    fn add_immediate_to_reg_a_and_write_to_reg_a(&mut self, use_carry: bool)
        requires
            old(self).wf(),
            old(self).context.opcode == 0xC6 || old(self).context.opcode == 0xCE,
            use_carry == (old(self).context.opcode == 0xCE),
        ensures
            old(self).decoded(*final(self)),
    {
        self.alu_with_immediate();
    }

    fn subtract_immediate_from_reg_a_and_write_to_reg_a(&mut self, use_carry: bool)
        requires
            old(self).wf(),
            old(self).context.opcode == 0xD6 || old(self).context.opcode == 0xDE,
            use_carry == (old(self).context.opcode == 0xDE),
        ensures
            old(self).decoded(*final(self)),
    {
        self.alu_with_immediate();
    }

    fn and_immediate_with_reg_a_and_write_to_reg_a(&mut self)
        requires
            old(self).wf(),
            old(self).context.opcode == 0xE6,
        ensures
            old(self).decoded(*final(self)),
    {
        self.alu_with_immediate();
    }

    fn xor_immediate_with_reg_a_and_write_to_reg_a(&mut self)
        requires
            old(self).wf(),
            old(self).context.opcode == 0xEE,
        ensures
            old(self).decoded(*final(self)),
    {
        self.alu_with_immediate();
    }

    fn or_immediate_with_reg_a_and_write_to_reg_a(&mut self)
        requires
            old(self).wf(),
            old(self).context.opcode == 0xF6,
        ensures
            old(self).decoded(*final(self)),
    {
        self.alu_with_immediate();
    }

    fn compare_immediate_with_reg_a(&mut self)
        requires
            old(self).wf(),
            old(self).context.opcode == 0xFE,
        ensures
            old(self).decoded(*final(self)),
    {
        self.alu_with_immediate();
    }
}

impl<M: Memory> CPU<M> {
    fn return_conditionally(&mut self)
        requires
            old(self).wf(),
            0xC0 <= old(self).context.opcode < 0xE0,
            z_bits(old(self).context.opcode) == 0,
        ensures
            old(self).decoded(*final(self)),
    {
        self.enqueue(Instruction::ReturnIfConditionMet, Instruction::Noop);
    }

    fn pop_stack_to_reg_pair(&mut self)
        requires
            old(self).wf(),
            0xC0 <= old(self).context.opcode,
            z_bits(old(self).context.opcode) == 1,
            y_bits(old(self).context.opcode) % 2 == 0,
        ensures
            old(self).decoded(*final(self)),
    {
        let register = WordRegister::from_qq_bits((self.context.opcode / 16) % 4);
        let sp_memory = ByteLocation::MemoryReferencedByRegister(WordRegister::SP);
        let increment = Instruction::IncrementWord(WordLocation::Register(WordRegister::SP));
        self.enqueue(byte_move(sp_memory, ByteLocation::Register(register.get_lower_byte_register())), increment);
        self.enqueue(byte_move(sp_memory, ByteLocation::Register(register.get_upper_byte_register())), increment);
    }

    fn push_reg_pair_to_stack(&mut self)
        requires
            old(self).wf(),
            0xC0 <= old(self).context.opcode,
            z_bits(old(self).context.opcode) == 5,
            y_bits(old(self).context.opcode) % 2 == 0,
        ensures
            old(self).decoded(*final(self)),
    {
        let register = WordRegister::from_qq_bits((self.context.opcode / 16) % 4);
        let sp_memory = ByteLocation::MemoryReferencedByRegister(WordRegister::SP);
        let decrement = Instruction::DecrementWord(WordLocation::Register(WordRegister::SP));
        self.enqueue(decrement, byte_move(ByteLocation::Register(register.get_upper_byte_register()), sp_memory));
        self.enqueue(decrement, byte_move(ByteLocation::Register(register.get_lower_byte_register()), sp_memory));
        // The stack pointer has already moved by two in the cycles above.
        self.enqueue(Instruction::Noop, Instruction::Noop);
    }

    fn jump(&mut self)
        requires
            old(self).wf(),
            old(self).context.opcode == 0xC3,
        ensures
            old(self).decoded(*final(self)),
    {
        self.load_address();
        self.enqueue(
            word_move(WordLocation::AddressBuffer, WordLocation::Register(WordRegister::PC)),
            Instruction::Noop,
        );
    }

    fn jump_conditional(&mut self)
        requires
            old(self).wf(),
            0xC0 <= old(self).context.opcode < 0xE0,
            z_bits(old(self).context.opcode) == 2,
        ensures
            old(self).decoded(*final(self)),
    {
        let condition = self.satisfies_condition(self.context.opcode);
        self.load_address();
        if condition {
            self.enqueue(
                word_move(WordLocation::AddressBuffer, WordLocation::Register(WordRegister::PC)),
                Instruction::Noop,
            );
        }
    }

    /// Queues the push of the program counter and the jump to the address buffer.
    fn call_tail(&mut self)
        requires
            old(self).wf(),
        ensures
            old(self).became(*final(self), call_tail_spec(old(self).state())),
    {
        let sp_memory = ByteLocation::MemoryReferencedByRegister(WordRegister::SP);
        let decrement = Instruction::DecrementWord(WordLocation::Register(WordRegister::SP));
        self.enqueue(decrement, byte_move(ByteLocation::Register(ByteRegister::UpperPC), sp_memory));
        self.enqueue(decrement, byte_move(ByteLocation::Register(ByteRegister::LowerPC), sp_memory));
        self.enqueue(
            word_move(WordLocation::AddressBuffer, WordLocation::Register(WordRegister::PC)),
            Instruction::Noop,
        );
    }

    fn call(&mut self)
        requires
            old(self).wf(),
            old(self).context.opcode == 0xCD,
        ensures
            old(self).decoded(*final(self)),
    {
        self.load_address();
        self.call_tail();
    }

    fn call_conditional(&mut self)
        requires
            old(self).wf(),
            0xC0 <= old(self).context.opcode < 0xE0,
            z_bits(old(self).context.opcode) == 4,
        ensures
            old(self).decoded(*final(self)),
    {
        let condition = self.satisfies_condition(self.context.opcode);
        self.load_address();
        if condition {
            self.call_tail();
        }
    }

    fn restart(&mut self)
        requires
            old(self).wf(),
            0xC0 <= old(self).context.opcode,
            z_bits(old(self).context.opcode) == 7,
        ensures
            old(self).decoded(*final(self)),
    {
        let address: u16 = match (self.context.opcode / 8) % 8 {
            0 => 0x0000u16,
            1 => 0x0008u16,
            2 => 0x0010u16,
            3 => 0x0018u16,
            4 => 0x0020u16,
            5 => 0x0028u16,
            6 => 0x0030u16,
            _ => 0x0038u16,
        };
        let sp_memory = ByteLocation::MemoryReferencedByRegister(WordRegister::SP);
        let decrement = Instruction::DecrementWord(WordLocation::Register(WordRegister::SP));
        self.enqueue(decrement, byte_move(ByteLocation::Register(ByteRegister::UpperPC), sp_memory));
        self.enqueue(decrement, byte_move(ByteLocation::Register(ByteRegister::LowerPC), sp_memory));
        self.enqueue(
            word_move(WordLocation::Value(address), WordLocation::Register(WordRegister::PC)),
            Instruction::Noop,
        );
    }

    fn execute_cb(&mut self)
        requires
            old(self).wf(),
            old(self).context.opcode == 0xCB,
        ensures
            old(self).decoded(*final(self)),
    {
        self.enqueue(Instruction::DecodeCBInstruction, Instruction::Noop);
    }

    fn return_from_interrupt(&mut self)
        requires
            old(self).wf(),
            old(self).context.opcode == 0xD9,
        ensures
            old(self).decoded(*final(self)),
    {
        self.return_from_call();
        self.ime = true;
    }

    fn reg_a_to_immediate_indirect_with_offset_ld(&mut self)
        requires
            old(self).wf(),
            old(self).context.opcode == 0xE0,
        ensures
            old(self).decoded(*final(self)),
    {
        self.enqueue(
            byte_move(ByteLocation::Value(0xFF), ByteLocation::UpperAddressBuffer),
            byte_move(ByteLocation::NextMemoryByte, ByteLocation::LowerAddressBuffer),
        );
        self.enqueue(
            byte_move(ByteLocation::Register(ByteRegister::A), ByteLocation::MemoryReferencedByAddressBuffer),
            Instruction::Noop,
        );
    }

    fn immediate_indirect_with_offset_to_reg_a_ld(&mut self)
        requires
            old(self).wf(),
            old(self).context.opcode == 0xF0,
        ensures
            old(self).decoded(*final(self)),
    {
        self.enqueue(
            byte_move(ByteLocation::Value(0xFF), ByteLocation::UpperAddressBuffer),
            byte_move(ByteLocation::NextMemoryByte, ByteLocation::LowerAddressBuffer),
        );
        self.enqueue(
            byte_move(ByteLocation::MemoryReferencedByAddressBuffer, ByteLocation::Register(ByteRegister::A)),
            Instruction::Noop,
        );
    }

    /// Points the address buffer at 0xFF00 plus register C.
    fn address_high_page_from_c(&mut self)
        requires
            old(self).wf(),
        ensures
            old(self).became(
                *final(self),
                run(
                    run(
                        old(self).state(),
                        old(self).mem(),
                        move_byte(ByteLocation::Value(0xFF), ByteLocation::UpperAddressBuffer),
                    ),
                    old(self).mem(),
                    move_byte(reg(ByteRegister::C), ByteLocation::LowerAddressBuffer),
                ),
            ),
    {
        self.run_now(byte_move(ByteLocation::Value(0xFF), ByteLocation::UpperAddressBuffer));
        self.run_now(byte_move(ByteLocation::Register(ByteRegister::C), ByteLocation::LowerAddressBuffer));
    }

    fn reg_a_to_indirect_c_ld(&mut self)
        requires
            old(self).wf(),
            old(self).context.opcode == 0xE2,
        ensures
            old(self).decoded(*final(self)),
    {
        self.address_high_page_from_c();
        self.enqueue(
            byte_move(ByteLocation::Register(ByteRegister::A), ByteLocation::MemoryReferencedByAddressBuffer),
            Instruction::Noop,
        );
    }

    fn indirect_c_with_offset_to_reg_a_ld(&mut self)
        requires
            old(self).wf(),
            old(self).context.opcode == 0xF2,
        ensures
            old(self).decoded(*final(self)),
    {
        self.address_high_page_from_c();
        self.enqueue(
            byte_move(ByteLocation::MemoryReferencedByAddressBuffer, ByteLocation::Register(ByteRegister::A)),
            Instruction::Noop,
        );
    }

    fn reg_a_to_immediate_indirect_ld(&mut self)
        requires
            old(self).wf(),
            old(self).context.opcode == 0xEA,
        ensures
            old(self).decoded(*final(self)),
    {
        self.load_address();
        self.enqueue(
            byte_move(ByteLocation::Register(ByteRegister::A), ByteLocation::MemoryReferencedByAddressBuffer),
            Instruction::Noop,
        );
    }

    fn immediate_indirect_to_reg_a_ld(&mut self)
        requires
            old(self).wf(),
            old(self).context.opcode == 0xFA,
        ensures
            old(self).decoded(*final(self)),
    {
        self.load_address();
        self.enqueue(
            byte_move(ByteLocation::MemoryReferencedByAddressBuffer, ByteLocation::Register(ByteRegister::A)),
            Instruction::Noop,
        );
    }

    fn add_immediate_to_reg_sp(&mut self)
        requires
            old(self).wf(),
            old(self).context.opcode == 0xE8,
        ensures
            old(self).decoded(*final(self)),
    {
        self.enqueue(
            Instruction::CastByteToSignedWord(
                ByteCastingParams { source: ByteLocation::NextMemoryByte, destination: WordLocation::WordBuffer },
            ),
            Instruction::Noop,
        );
        self.enqueue(
            Instruction::AddWords(
                WordArithmeticParams {
                    first: WordLocation::Register(WordRegister::SP),
                    second: WordLocation::WordBuffer,
                    destination: WordLocation::WordBuffer,
                    flag_mask: 0x30,
                },
            ),
            byte_move(ByteLocation::LowerWordBuffer, ByteLocation::Register(ByteRegister::LowerSP)),
        );
        self.enqueue(
            byte_move(ByteLocation::UpperWordBuffer, ByteLocation::Register(ByteRegister::UpperSP)),
            Instruction::Noop,
        );
    }

    fn reg_sp_plus_signed_immediate_to_hl_ld(&mut self)
        requires
            old(self).wf(),
            old(self).context.opcode == 0xF8,
        ensures
            old(self).decoded(*final(self)),
    {
        self.run_now(byte_move(ByteLocation::Value(0x00), ByteLocation::Register(ByteRegister::F)));
        self.enqueue(
            Instruction::CastByteToSignedWord(
                ByteCastingParams { source: ByteLocation::NextMemoryByte, destination: WordLocation::WordBuffer },
            ),
            Instruction::Noop,
        );
        self.enqueue(
            Instruction::AddWords(
                WordArithmeticParams {
                    first: WordLocation::Register(WordRegister::SP),
                    second: WordLocation::WordBuffer,
                    destination: WordLocation::Register(WordRegister::HL),
                    flag_mask: 0x30,
                },
            ),
            Instruction::Noop,
        );
    }

    fn jump_to_indirect_hl(&mut self)
        requires
            old(self).wf(),
            old(self).context.opcode == 0xE9,
        ensures
            old(self).decoded(*final(self)),
    {
        self.run_now(word_move(WordLocation::Register(WordRegister::HL), WordLocation::Register(WordRegister::PC)));
    }

    fn reg_hl_to_reg_sp_ld(&mut self)
        requires
            old(self).wf(),
            old(self).context.opcode == 0xF9,
        ensures
            old(self).decoded(*final(self)),
    {
        self.run_now(byte_move(ByteLocation::Register(ByteRegister::LowerHL), ByteLocation::Register(ByteRegister::LowerSP)));
        self.enqueue(
            byte_move(ByteLocation::Register(ByteRegister::UpperHL), ByteLocation::Register(ByteRegister::UpperSP)),
            Instruction::Noop,
        );
    }

    fn disable_interrupts(&mut self)
        requires
            old(self).wf(),
            old(self).context.opcode == 0xF3,
        ensures
            old(self).decoded(*final(self)),
    {
        self.ime = false;
    }

    fn enable_interrupts(&mut self)
        requires
            old(self).wf(),
            old(self).context.opcode == 0xFB,
        ensures
            old(self).decoded(*final(self)),
    {
        self.ime = true;
    }

    /// Halting is not modelled: the instruction does nothing.
    fn halt(&mut self)
        requires
            old(self).wf(),
            old(self).context.opcode == 0x76,
        ensures
            old(self).decoded(*final(self)),
    {
    }

    /// Stopping is not modelled: the instruction does nothing.
    fn stop(&mut self)
        requires
            old(self).wf(),
            old(self).context.opcode == 0x10,
        ensures
            old(self).decoded(*final(self)),
    {
    }
}

impl<M: Memory> CPU<M> {
    #[verifier::rlimit(40)]
    fn decode_row_0(&mut self)
        requires
            old(self).wf(),
            0x00 <= old(self).context.opcode <= 0x0F,
            !is_unknown_opcode(old(self).context.opcode),
        ensures
            old(self).decoded(*final(self)),
    {
        match self.context.opcode {
            0x00 => {},
            0x01 => self.immediate_to_reg_pair_ld(),
            0x02 => self.reg_a_to_indirect_bc_ld(),
            0x03 => self.increment_reg_pair(),
            0x04 => self.increment_reg(),
            0x05 => self.decrement_reg(),
            0x06 => self.immediate_to_reg_ld(),
            0x07 => self.rotate_reg_a_left(),
            0x08 => self.reg_sp_to_immediate_indirect_ld(),
            0x09 => self.add_reg_pair_to_reg_hl(),
            0x0A => self.indirect_bc_to_reg_a_ld(),
            0x0B => self.decrement_reg_pair(),
            0x0C => self.increment_reg(),
            0x0D => self.decrement_reg(),
            0x0E => self.immediate_to_reg_ld(),
            0x0F => self.rotate_reg_a_right(),
            _ => {},
        }
    }

    fn decode_row_1(&mut self)
        requires
            old(self).wf(),
            0x10 <= old(self).context.opcode <= 0x1F,
            !is_unknown_opcode(old(self).context.opcode),
        ensures
            old(self).decoded(*final(self)),
    {
        match self.context.opcode {
            0x10 => self.stop(),
            0x11 => self.immediate_to_reg_pair_ld(),
            0x12 => self.reg_a_to_indirect_de_ld(),
            0x13 => self.increment_reg_pair(),
            0x14 => self.increment_reg(),
            0x15 => self.decrement_reg(),
            0x16 => self.immediate_to_reg_ld(),
            0x17 => self.rotate_reg_a_left_through_carry(),
            0x18 => self.jump_relative(),
            0x19 => self.add_reg_pair_to_reg_hl(),
            0x1A => self.indirect_de_to_reg_a_ld(),
            0x1B => self.decrement_reg_pair(),
            0x1C => self.increment_reg(),
            0x1D => self.decrement_reg(),
            0x1E => self.immediate_to_reg_ld(),
            0x1F => self.rotate_reg_a_right_through_carry(),
            _ => {},
        }
    }

    fn decode_row_2(&mut self)
        requires
            old(self).wf(),
            0x20 <= old(self).context.opcode <= 0x2F,
            !is_unknown_opcode(old(self).context.opcode),
        ensures
            old(self).decoded(*final(self)),
    {
        match self.context.opcode {
            0x20 => self.jump_conditional_relative(),
            0x21 => self.immediate_to_reg_pair_ld(),
            0x22 => self.reg_a_to_indirect_hl_ld_and_increment(),
            0x23 => self.increment_reg_pair(),
            0x24 => self.increment_reg(),
            0x25 => self.decrement_reg(),
            0x26 => self.immediate_to_reg_ld(),
            0x27 => self.decimal_adjust_reg_a(),
            0x28 => self.jump_conditional_relative(),
            0x29 => self.add_reg_pair_to_reg_hl(),
            0x2A => self.indirect_hl_to_reg_a_ld_and_increment(),
            0x2B => self.decrement_reg_pair(),
            0x2C => self.increment_reg(),
            0x2D => self.decrement_reg(),
            0x2E => self.immediate_to_reg_ld(),
            0x2F => self.ones_complement_reg_a(),
            _ => {},
        }
    }

    fn decode_row_3(&mut self)
        requires
            old(self).wf(),
            0x30 <= old(self).context.opcode <= 0x3F,
            !is_unknown_opcode(old(self).context.opcode),
        ensures
            old(self).decoded(*final(self)),
    {
        match self.context.opcode {
            0x30 => self.jump_conditional_relative(),
            0x31 => self.immediate_to_reg_pair_ld(),
            0x32 => self.reg_a_to_indirect_hl_ld_and_decrement(),
            0x33 => self.increment_reg_pair(),
            0x34 => self.increment_indirect_hl(),
            0x35 => self.decrement_indirect_hl(),
            0x36 => self.immediate_to_indirect_ld(),
            0x37 => self.set_carry_flag(),
            0x38 => self.jump_conditional_relative(),
            0x39 => self.add_reg_pair_to_reg_hl(),
            0x3A => self.indirect_hl_to_reg_a_ld_and_decrement(),
            0x3B => self.decrement_reg_pair(),
            0x3C => self.increment_reg(),
            0x3D => self.decrement_reg(),
            0x3E => self.immediate_to_reg_ld(),
            0x3F => self.flip_carry_flag(),
            _ => {},
        }
    }

    fn decode_row_4(&mut self)
        requires
            old(self).wf(),
            0x40 <= old(self).context.opcode <= 0x4F,
            !is_unknown_opcode(old(self).context.opcode),
        ensures
            old(self).decoded(*final(self)),
    {
        match self.context.opcode {
            0x40..=0x45 => self.reg_to_reg_ld(),
            0x46 => self.indirect_to_reg_ld(),
            0x47..=0x4D => self.reg_to_reg_ld(),
            0x4E => self.indirect_to_reg_ld(),
            0x4F => self.reg_to_reg_ld(),
            _ => {},
        }
    }

    fn decode_row_5(&mut self)
        requires
            old(self).wf(),
            0x50 <= old(self).context.opcode <= 0x5F,
            !is_unknown_opcode(old(self).context.opcode),
        ensures
            old(self).decoded(*final(self)),
    {
        match self.context.opcode {
            0x50..=0x55 => self.reg_to_reg_ld(),
            0x56 => self.indirect_to_reg_ld(),
            0x57..=0x5D => self.reg_to_reg_ld(),
            0x5E => self.indirect_to_reg_ld(),
            0x5F => self.reg_to_reg_ld(),
            _ => {},
        }
    }

    fn decode_row_6(&mut self)
        requires
            old(self).wf(),
            0x60 <= old(self).context.opcode <= 0x6F,
            !is_unknown_opcode(old(self).context.opcode),
        ensures
            old(self).decoded(*final(self)),
    {
        match self.context.opcode {
            0x60..=0x65 => self.reg_to_reg_ld(),
            0x66 => self.indirect_to_reg_ld(),
            0x67..=0x6D => self.reg_to_reg_ld(),
            0x6E => self.indirect_to_reg_ld(),
            0x6F => self.reg_to_reg_ld(),
            _ => {},
        }
    }

    fn decode_row_7(&mut self)
        requires
            old(self).wf(),
            0x70 <= old(self).context.opcode <= 0x7F,
            !is_unknown_opcode(old(self).context.opcode),
        ensures
            old(self).decoded(*final(self)),
    {
        match self.context.opcode {
            0x70..=0x75 => self.reg_to_indirect_ld(),
            0x76 => self.halt(),
            0x77 => self.reg_to_indirect_ld(),
            0x78..=0x7D => self.reg_to_reg_ld(),
            0x7E => self.indirect_to_reg_ld(),
            0x7F => self.reg_to_reg_ld(),
            _ => {},
        }
    }

    fn decode_row_8(&mut self)
        requires
            old(self).wf(),
            0x80 <= old(self).context.opcode <= 0x8F,
            !is_unknown_opcode(old(self).context.opcode),
        ensures
            old(self).decoded(*final(self)),
    {
        match self.context.opcode {
            0x80..=0x85 => self.add_reg_to_reg_a_and_write_to_reg_a(false),
            0x86 => self.add_indirect_hl_to_reg_a_and_write_to_reg_a(false),
            0x87 => self.add_reg_to_reg_a_and_write_to_reg_a(false),
            0x88..=0x8D => self.add_reg_to_reg_a_and_write_to_reg_a(true),
            0x8E => self.add_indirect_hl_to_reg_a_and_write_to_reg_a(true),
            0x8F => self.add_reg_to_reg_a_and_write_to_reg_a(true),
            _ => {},
        }
    }

    fn decode_row_9(&mut self)
        requires
            old(self).wf(),
            0x90 <= old(self).context.opcode <= 0x9F,
            !is_unknown_opcode(old(self).context.opcode),
        ensures
            old(self).decoded(*final(self)),
    {
        match self.context.opcode {
            0x90..=0x95 => self.subtract_reg_from_reg_a_and_write_to_reg_a(false),
            0x96 => self.subtract_indirect_hl_from_reg_a_and_write_to_reg_a(false),
            0x97 => self.subtract_reg_from_reg_a_and_write_to_reg_a(false),
            0x98..=0x9D => self.subtract_reg_from_reg_a_and_write_to_reg_a(true),
            0x9E => self.subtract_indirect_hl_from_reg_a_and_write_to_reg_a(true),
            0x9F => self.subtract_reg_from_reg_a_and_write_to_reg_a(true),
            _ => {},
        }
    }

    fn decode_row_a(&mut self)
        requires
            old(self).wf(),
            0xA0 <= old(self).context.opcode <= 0xAF,
            !is_unknown_opcode(old(self).context.opcode),
        ensures
            old(self).decoded(*final(self)),
    {
        match self.context.opcode {
            0xA0..=0xA5 => self.and_reg_with_reg_a_and_write_to_reg_a(),
            0xA6 => self.and_indirect_hl_with_reg_a_and_write_to_reg_a(),
            0xA7 => self.and_reg_with_reg_a_and_write_to_reg_a(),
            0xA8..=0xAD => self.xor_reg_with_reg_a_and_write_to_reg_a(),
            0xAE => self.xor_indirect_hl_with_reg_a_and_write_to_reg_a(),
            0xAF => self.xor_reg_with_reg_a_and_write_to_reg_a(),
            _ => {},
        }
    }

    fn decode_row_b(&mut self)
        requires
            old(self).wf(),
            0xB0 <= old(self).context.opcode <= 0xBF,
            !is_unknown_opcode(old(self).context.opcode),
        ensures
            old(self).decoded(*final(self)),
    {
        match self.context.opcode {
            0xB0..=0xB5 => self.or_reg_with_reg_a_and_write_to_reg_a(),
            0xB6 => self.or_indirect_hl_with_reg_a_and_write_to_reg_a(),
            0xB7 => self.or_reg_with_reg_a_and_write_to_reg_a(),
            0xB8..=0xBD => self.compare_reg_with_reg_a(),
            0xBE => self.compare_indirect_hl_with_reg_a(),
            0xBF => self.compare_reg_with_reg_a(),
            _ => {},
        }
    }

    fn decode_row_c(&mut self)
        requires
            old(self).wf(),
            0xC0 <= old(self).context.opcode <= 0xCF,
            !is_unknown_opcode(old(self).context.opcode),
        ensures
            old(self).decoded(*final(self)),
    {
        match self.context.opcode {
            0xC0 => self.return_conditionally(),
            0xC1 => self.pop_stack_to_reg_pair(),
            0xC2 => self.jump_conditional(),
            0xC3 => self.jump(),
            0xC4 => self.call_conditional(),
            0xC5 => self.push_reg_pair_to_stack(),
            0xC6 => self.add_immediate_to_reg_a_and_write_to_reg_a(false),
            0xC7 => self.restart(),
            0xC8 => self.return_conditionally(),
            0xC9 => self.return_from_call(),
            0xCA => self.jump_conditional(),
            0xCB => self.execute_cb(),
            0xCC => self.call_conditional(),
            0xCD => self.call(),
            0xCE => self.add_immediate_to_reg_a_and_write_to_reg_a(true),
            0xCF => self.restart(),
            _ => {},
        }
    }

    fn decode_row_d(&mut self)
        requires
            old(self).wf(),
            0xD0 <= old(self).context.opcode <= 0xDF,
            !is_unknown_opcode(old(self).context.opcode),
        ensures
            old(self).decoded(*final(self)),
    {
        match self.context.opcode {
            0xD0 => self.return_conditionally(),
            0xD1 => self.pop_stack_to_reg_pair(),
            0xD2 => self.jump_conditional(),
            0xD3 => {},
            0xD4 => self.call_conditional(),
            0xD5 => self.push_reg_pair_to_stack(),
            0xD6 => self.subtract_immediate_from_reg_a_and_write_to_reg_a(false),
            0xD7 => self.restart(),
            0xD8 => self.return_conditionally(),
            0xD9 => self.return_from_interrupt(),
            0xDA => self.jump_conditional(),
            0xDB => {},
            0xDC => self.call_conditional(),
            0xDD => {},
            0xDE => self.subtract_immediate_from_reg_a_and_write_to_reg_a(true),
            0xDF => self.restart(),
            _ => {},
        }
    }

    fn decode_row_e(&mut self)
        requires
            old(self).wf(),
            0xE0 <= old(self).context.opcode <= 0xEF,
            !is_unknown_opcode(old(self).context.opcode),
        ensures
            old(self).decoded(*final(self)),
    {
        match self.context.opcode {
            0xE0 => self.reg_a_to_immediate_indirect_with_offset_ld(),
            0xE1 => self.pop_stack_to_reg_pair(),
            0xE2 => self.reg_a_to_indirect_c_ld(),
            0xE3 => {},
            0xE4 => {},
            0xE5 => self.push_reg_pair_to_stack(),
            0xE6 => self.and_immediate_with_reg_a_and_write_to_reg_a(),
            0xE7 => self.restart(),
            0xE8 => self.add_immediate_to_reg_sp(),
            0xE9 => self.jump_to_indirect_hl(),
            0xEA => self.reg_a_to_immediate_indirect_ld(),
            0xEB => {},
            0xEC => {},
            0xED => {},
            0xEE => self.xor_immediate_with_reg_a_and_write_to_reg_a(),
            0xEF => self.restart(),
            _ => {},
        }
    }

    fn decode_row_f(&mut self)
        requires
            old(self).wf(),
            0xF0 <= old(self).context.opcode <= 0xFF,
            !is_unknown_opcode(old(self).context.opcode),
        ensures
            old(self).decoded(*final(self)),
    {
        match self.context.opcode {
            0xF0 => self.immediate_indirect_with_offset_to_reg_a_ld(),
            0xF1 => self.pop_stack_to_reg_pair(),
            0xF2 => self.indirect_c_with_offset_to_reg_a_ld(),
            0xF3 => self.disable_interrupts(),
            0xF4 => {},
            0xF5 => self.push_reg_pair_to_stack(),
            0xF6 => self.or_immediate_with_reg_a_and_write_to_reg_a(),
            0xF7 => self.restart(),
            0xF8 => self.reg_sp_plus_signed_immediate_to_hl_ld(),
            0xF9 => self.reg_hl_to_reg_sp_ld(),
            0xFA => self.immediate_indirect_to_reg_a_ld(),
            0xFB => self.enable_interrupts(),
            0xFC => {},
            0xFD => {},
            0xFE => self.compare_immediate_with_reg_a(),
            0xFF => self.restart(),
            _ => {},
        }
    }

    /// Reads the next opcode and decodes it: register-only work is done at once, the rest is
    /// queued as cycles.
    fn fetch_and_execute_instruction(&mut self)
        requires
            old(self).wf(),
            old(self).memory.maps(old(self).registers.pc),
            !is_unknown_opcode(old(self).memory.peek(old(self).registers.pc)),
        ensures
            ({
                let (op, s1) = read_location(old(self).state(), old(self).mem(), ByteLocation::NextMemoryByte);
                old(self).became(
                    *final(self),
                    decode_spec(s1.with_context(InstructionContext { opcode: op, ..s1.context }), old(self).mem(), op),
                )
            }),
    {
        let opcode_value = self.read_next_byte();
        self.context.opcode = opcode_value;
        match opcode_value / 16 {
            0 => self.decode_row_0(),
            1 => self.decode_row_1(),
            2 => self.decode_row_2(),
            3 => self.decode_row_3(),
            4 => self.decode_row_4(),
            5 => self.decode_row_5(),
            6 => self.decode_row_6(),
            7 => self.decode_row_7(),
            8 => self.decode_row_8(),
            9 => self.decode_row_9(),
            10 => self.decode_row_a(),
            11 => self.decode_row_b(),
            12 => self.decode_row_c(),
            13 => self.decode_row_d(),
            14 => self.decode_row_e(),
            15 => self.decode_row_f(),
            _ => {},
        }
    }

    /// One clock tick: carries out the next queued cycle, or fetches and decodes the next
    /// opcode when nothing is queued.
    pub fn run_tick(&mut self)
        requires
            old(self).tick_ready(),
        ensures
            final(self).wf(),
            final(self).state() == tick_spec(old(self).state(), old(self).mem()).0,
            memory_after(old(self).memory, final(self).memory, tick_spec(old(self).state(), old(self).mem()).1),
            final(self).maps_fn() == old(self).maps_fn(),
    {
        proof {
            if self.operations@.len() > 0 {
                assert(step_ok(self.operations@[0]));
            }
        }
        match self.operations.pop_front() {
            Some(step) => {
                proof {
                    assert forall|i: int| 0 <= i < self.operations@.len() implies step_ok(#[trigger] self.operations@[i]) by {
                        assert(self.operations@[i] == old(self).operations@[i + 1]);
                    }
                }
                self.execute_step(step);
            },
            None => self.fetch_and_execute_instruction(),
        }
    }
}


impl<M: Memory> ClockAware for CPU<M> {
    open spec fn ready_to_tick(&self) -> bool {
        self.tick_ready()
    }

    /// The processor runs at the same pace in either speed mode.
    fn handle_tick(&mut self, double_speed: bool)
        ensures
            final(self).wf(),
            final(self).state() == tick_spec(old(self).state(), old(self).mem()).0,
            memory_after(old(self).memory, final(self).memory, tick_spec(old(self).state(), old(self).mem()).1),
            final(self).maps_fn() == old(self).maps_fn(),
    {
        self.run_tick();
    }

    fn tick(&mut self)
        ensures
            final(self).wf(),
            final(self).state() == tick_spec(old(self).state(), old(self).mem()).0,
            memory_after(old(self).memory, final(self).memory, tick_spec(old(self).state(), old(self).mem()).1),
            final(self).maps_fn() == old(self).maps_fn(),
    {
        self.run_tick();
    }
}

} // verus!
