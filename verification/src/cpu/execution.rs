use vstd::prelude::*;
use crate::cpu::cpu::{
    CpuState, InstructionContext, Write, call_tail_spec, decimal_adjust_spec, decode_spec, execute_spec, flag_byte,
    load_address_spec, masked, move_byte, move_word, pair_bits, return_from_call_spec, run, tick_spec, y_bits, z_bits,
};
use crate::cpu::alu::{add_spec, sub_spec};
use crate::util::bit_util::{bit_of_u8, lemma_register_bit_facts};
use crate::cpu::instruction::{ByteArithmeticParams, ByteLocation, Instruction, WordLocation};
use crate::cpu::register::{ByteRegister, Registers, WordRegister, lemma_word_bytes, lower_byte, upper_byte, word_of};

verus! {

/// A memory that reads back what was written: `mem` after the write `write`, if any.
pub open spec fn after_write(mem: spec_fn(u16) -> u8, write: Write) -> spec_fn(u16) -> u8 {
    match write {
        None => mem,
        Some((address, value)) => |a: u16| if a == address { value } else { mem(a) },
    }
}

/// One clock tick of the processor, as `tick_spec` states it; kept folded so that proofs
/// over several ticks unfold one tick at a time.
#[verifier::opaque]
pub open spec fn tick(s: CpuState, mem: spec_fn(u16) -> u8) -> (CpuState, Write) {
    tick_spec(s, mem)
}

/// The processor and such a memory after `ticks` clock ticks.
pub open spec fn run_ticks(s: CpuState, mem: spec_fn(u16) -> u8, ticks: nat) -> (CpuState, spec_fn(u16) -> u8)
    decreases ticks,
{
    if ticks == 0 {
        (s, mem)
    } else {
        let (next, write) = tick(s, mem);
        run_ticks(next, after_write(mem, write), (ticks - 1) as nat)
    }
}

/// The PUSH opcode of a register pair (BC, DE, HL or AF).
pub open spec fn push_opcode(pair: WordRegister) -> u8 {
    match pair {
        WordRegister::BC => 0xC5,
        WordRegister::DE => 0xD5,
        WordRegister::HL => 0xE5,
        _ => 0xF5,
    }
}

/// The POP opcode of a register pair (BC, DE, HL or AF).
pub open spec fn pop_opcode(pair: WordRegister) -> u8 {
    match pair {
        WordRegister::BC => 0xC1,
        WordRegister::DE => 0xD1,
        WordRegister::HL => 0xE1,
        _ => 0xF1,
    }
}

/// A pair that PUSH and POP can name.
pub open spec fn stackable(pair: WordRegister) -> bool {
    pair is BC || pair is DE || pair is HL || pair is AF
}

/// The processor once the opcode at the program counter has been fetched.
spec fn fetched(s: CpuState, mem: spec_fn(u16) -> u8) -> CpuState {
    CpuState {
        registers: Registers { pc: ((s.registers.pc + 1) % 65536) as u16, ..s.registers },
        context: InstructionContext { opcode: mem(s.registers.pc), ..s.context },
        ..s
    }
}

/// Decoding, kept folded as `tick` is.
#[verifier::opaque]
spec fn decoded(x: CpuState, mem: spec_fn(u16) -> u8, op: u8) -> CpuState {
    decode_spec(x, mem, op)
}

proof fn lemma_tick_fetch(s: CpuState, mem: spec_fn(u16) -> u8)
    requires
        s.queue.len() == 0,
    ensures
        tick(s, mem) == (decoded(fetched(s, mem), mem, mem(s.registers.pc)), None::<(u16, u8)>),
{
    reveal(tick);
    reveal(decoded);
}

/// One micro-operation, kept folded as `tick` is.
#[verifier::opaque]
spec fn exec(x: CpuState, mem: spec_fn(u16) -> u8, instruction: Instruction) -> (CpuState, Write) {
    execute_spec(x, mem, instruction)
}

proof fn lemma_tick_queued(s: CpuState, mem: spec_fn(u16) -> u8)
    requires
        s.queue.len() > 0,
    ensures
        ({
            let (x1, w1) = exec(CpuState { queue: s.queue.drop_first(), ..s }, mem, s.queue[0].first);
            let (x2, w2) = exec(x1, mem, s.queue[0].second);
            tick(s, mem) == (x2, if w2 is Some { w2 } else { w1 })
        }),
{
    reveal(tick);
    reveal(exec);
}

proof fn lemma_exec_stack_pointer(x: CpuState, mem: spec_fn(u16) -> u8)
    ensures
        exec(x, mem, Instruction::DecrementWord(WordLocation::Register(WordRegister::SP))) == (
            CpuState { registers: Registers { sp: ((x.registers.sp + 65535) % 65536) as u16, ..x.registers }, ..x },
            None::<(u16, u8)>,
        ),
        exec(x, mem, Instruction::IncrementWord(WordLocation::Register(WordRegister::SP))) == (
            CpuState { registers: Registers { sp: ((x.registers.sp + 1) % 65536) as u16, ..x.registers }, ..x },
            None::<(u16, u8)>,
        ),
        exec(x, mem, Instruction::Noop) == (x, None::<(u16, u8)>),
{
    reveal(exec);
}

proof fn lemma_exec_stack_byte(x: CpuState, mem: spec_fn(u16) -> u8, r: ByteRegister)
    ensures
        exec(x, mem, move_byte(ByteLocation::Register(r), ByteLocation::MemoryReferencedByRegister(WordRegister::SP)))
            == (x, Some((x.registers.sp, x.registers.byte(r)))),
        exec(x, mem, move_byte(ByteLocation::MemoryReferencedByRegister(WordRegister::SP), ByteLocation::Register(r)))
            == (x.with_registers(x.registers.with_byte(r, mem(x.registers.sp))), None::<(u16, u8)>),
{
    reveal(exec);
}

/// Running `first + second` ticks is running `first` ticks, then `second` more.
pub proof fn lemma_run_ticks_split(s: CpuState, mem: spec_fn(u16) -> u8, first: nat, second: nat)
    ensures
        run_ticks(s, mem, first + second) == run_ticks(run_ticks(s, mem, first).0, run_ticks(s, mem, first).1, second),
    decreases first,
{
    if first > 0 {
        let (next, write) = tick(s, mem);
        lemma_run_ticks_split(next, after_write(mem, write), (first - 1) as nat, second);
        assert((first + second - 1) as nat == (first - 1) as nat + second);
    }
}

proof fn lemma_decode_push(x: CpuState, mem: spec_fn(u16) -> u8, pushed: WordRegister)
    requires
        stackable(pushed),
    ensures
        decoded(x, mem, push_opcode(pushed)) == x.push(
            Instruction::DecrementWord(WordLocation::Register(WordRegister::SP)),
            move_byte(
                ByteLocation::Register(pushed.upper_spec()),
                ByteLocation::MemoryReferencedByRegister(WordRegister::SP),
            ),
        ).push(
            Instruction::DecrementWord(WordLocation::Register(WordRegister::SP)),
            move_byte(
                ByteLocation::Register(pushed.lower_spec()),
                ByteLocation::MemoryReferencedByRegister(WordRegister::SP),
            ),
        ).push(Instruction::Noop, Instruction::Noop),
{
    reveal(decoded);
    let op = push_opcode(pushed);
    assert(z_bits(op) == 5);
    assert(WordRegister::from_qq_bits_spec(pair_bits(op)) == pushed);
}

proof fn lemma_decode_pop(x: CpuState, mem: spec_fn(u16) -> u8, popped: WordRegister)
    requires
        stackable(popped),
    ensures
        decoded(x, mem, pop_opcode(popped)) == x.push(
            move_byte(ByteLocation::MemoryReferencedByRegister(WordRegister::SP), ByteLocation::Register(popped.lower_spec())),
            Instruction::IncrementWord(WordLocation::Register(WordRegister::SP)),
        ).push(
            move_byte(ByteLocation::MemoryReferencedByRegister(WordRegister::SP), ByteLocation::Register(popped.upper_spec())),
            Instruction::IncrementWord(WordLocation::Register(WordRegister::SP)),
        ),
{
    reveal(decoded);
    let op = pop_opcode(popped);
    assert(z_bits(op) == 1);
    assert(WordRegister::from_qq_bits_spec(pair_bits(op)) == popped);
}

/// The processor with the first queued cycle taken off the queue.
spec fn dequeued(s: CpuState) -> CpuState {
    CpuState { queue: s.queue.drop_first(), ..s }
}

/// The processor with the stack pointer moved down by one.
spec fn sp_down(x: CpuState) -> CpuState {
    CpuState { registers: Registers { sp: ((x.registers.sp + 65535) % 65536) as u16, ..x.registers }, ..x }
}

/// The processor with the stack pointer moved up by one.
spec fn sp_up(x: CpuState) -> CpuState {
    CpuState { registers: Registers { sp: ((x.registers.sp + 1) % 65536) as u16, ..x.registers }, ..x }
}

/// The four ticks of PUSH: the pair's upper byte goes below the stack pointer, its lower byte
/// below that, and the stack pointer moves down by two.
proof fn lemma_push(s: CpuState, mem: spec_fn(u16) -> u8, pushed: WordRegister)
    requires
        s.queue.len() == 0,
        stackable(pushed),
        mem(s.registers.pc) == push_opcode(pushed),
    ensures
        run_ticks(s, mem, 4).0.registers == (Registers {
            pc: ((s.registers.pc + 1) % 65536) as u16,
            sp: ((s.registers.sp + 65534) % 65536) as u16,
            ..s.registers
        }),
        run_ticks(s, mem, 4).0.queue.len() == 0,
        run_ticks(s, mem, 4).1(((s.registers.sp + 65535) % 65536) as u16) == upper_byte(s.registers.word(pushed)),
        run_ticks(s, mem, 4).1(((s.registers.sp + 65534) % 65536) as u16) == lower_byte(s.registers.word(pushed)),
        forall|a: u16|
            a != ((s.registers.sp + 65535) % 65536) && a != ((s.registers.sp + 65534) % 65536)
                ==> #[trigger] run_ticks(s, mem, 4).1(a) == mem(a),
{
    reveal_with_fuel(run_ticks, 5);
    lemma_tick_fetch(s, mem);
    lemma_decode_push(fetched(s, mem), mem, pushed);
    let s1 = tick(s, mem).0;
    assert(s1.queue.len() == 3);

    lemma_tick_queued(s1, mem);
    lemma_exec_stack_pointer(dequeued(s1), mem);
    lemma_exec_stack_byte(sp_down(dequeued(s1)), mem, pushed.upper_spec());
    let (s2, w2) = tick(s1, mem);
    assert(s2 == sp_down(dequeued(s1)));
    let m2 = after_write(mem, w2);

    lemma_tick_queued(s2, m2);
    lemma_exec_stack_pointer(dequeued(s2), m2);
    lemma_exec_stack_byte(sp_down(dequeued(s2)), m2, pushed.lower_spec());
    let (s3, w3) = tick(s2, m2);
    assert(s3 == sp_down(dequeued(s2)));
    let m3 = after_write(m2, w3);

    lemma_tick_queued(s3, m3);
    lemma_exec_stack_pointer(dequeued(s3), m3);
    let (s4, w4) = tick(s3, m3);
    assert(s4 == dequeued(s3));
    assert(w4 is None);
    assert(run_ticks(s, mem, 4) == (s4, m3));
    lemma_word_bytes(s.registers.word(pushed), s.registers.byte(pushed.upper_spec()), s.registers.byte(pushed.lower_spec()));
}

/// The three ticks of POP: the pair takes the two bytes at the stack pointer, the lower byte
/// first, and the stack pointer moves up by two.
proof fn lemma_pop(s: CpuState, mem: spec_fn(u16) -> u8, popped: WordRegister)
    requires
        s.queue.len() == 0,
        stackable(popped),
        mem(s.registers.pc) == pop_opcode(popped),
    ensures
        run_ticks(s, mem, 3).0.registers == (Registers {
            pc: ((s.registers.pc + 1) % 65536) as u16,
            sp: ((s.registers.sp + 2) % 65536) as u16,
            ..s.registers.with_word(
                popped,
                word_of(mem(((s.registers.sp + 1) % 65536) as u16), mem(s.registers.sp)),
            )
        }),
        run_ticks(s, mem, 3).0.queue.len() == 0,
{
    reveal_with_fuel(run_ticks, 4);
    lemma_tick_fetch(s, mem);
    lemma_decode_pop(fetched(s, mem), mem, popped);
    let s1 = tick(s, mem).0;
    assert(s1.queue.len() == 2);

    lemma_tick_queued(s1, mem);
    let x1 = dequeued(s1);
    lemma_exec_stack_byte(x1, mem, popped.lower_spec());
    let y1 = x1.with_registers(x1.registers.with_byte(popped.lower_spec(), mem(x1.registers.sp)));
    lemma_exec_stack_pointer(y1, mem);
    let (s2, w2) = tick(s1, mem);
    assert(s2 == sp_up(y1));
    assert(w2 is None);

    lemma_tick_queued(s2, mem);
    let x2 = dequeued(s2);
    lemma_exec_stack_byte(x2, mem, popped.upper_spec());
    let y2 = x2.with_registers(x2.registers.with_byte(popped.upper_spec(), mem(x2.registers.sp)));
    lemma_exec_stack_pointer(y2, mem);
    let (s3, w3) = tick(s2, mem);
    assert(s3 == sp_up(y2));
    assert(w3 is None);
    assert(run_ticks(s, mem, 3) == (s3, mem));
}

/// PUSH of one register pair followed by POP into another copies the first pair into the
/// second and leaves the stack pointer where it was: four ticks for the push, three for the
/// pop, on a memory that reads back what is written, where the two stack bytes do not overlay
/// the POP opcode.
pub proof fn law_push_then_pop(s: CpuState, mem: spec_fn(u16) -> u8, pushed: WordRegister, popped: WordRegister)
    requires
        s.queue.len() == 0,
        stackable(pushed),
        stackable(popped),
        mem(s.registers.pc) == push_opcode(pushed),
        mem(((s.registers.pc + 1) % 65536) as u16) == pop_opcode(popped),
        ((s.registers.pc + 1) % 65536) != ((s.registers.sp + 65535) % 65536),
        ((s.registers.pc + 1) % 65536) != ((s.registers.sp + 65534) % 65536),
    ensures
        run_ticks(s, mem, 7).0.registers.word(popped) == s.registers.word(pushed),
        run_ticks(s, mem, 7).0.registers.sp == s.registers.sp,
        run_ticks(s, mem, 7).0.registers.pc == (s.registers.pc + 2) % 65536,
        run_ticks(s, mem, 7).0.queue.len() == 0,
{
    lemma_run_ticks_split(s, mem, 4, 3);
    lemma_push(s, mem, pushed);
    let (t, m) = run_ticks(s, mem, 4);
    lemma_pop(t, m, popped);
    assert(((t.registers.sp + 1) % 65536) == ((s.registers.sp + 65535) % 65536));
    lemma_word_bytes(s.registers.word(pushed), s.registers.byte(pushed.upper_spec()), s.registers.byte(pushed.lower_spec()));
    let popped_word = word_of(m(((t.registers.sp + 1) % 65536) as u16), m(t.registers.sp));
    lemma_word_bytes(popped_word, m(((t.registers.sp + 1) % 65536) as u16), m(t.registers.sp));
}

proof fn lemma_decode_call_and_return(x: CpuState, mem: spec_fn(u16) -> u8)
    ensures
        decoded(x, mem, 0xCD) == call_tail_spec(load_address_spec(x)),
        decoded(x, mem, 0xC9) == return_from_call_spec(x),
{
    reveal(decoded);
    assert(z_bits(0xCD) == 5);
    assert(z_bits(0xC9) == 1);
}

proof fn lemma_exec_address_bytes(x: CpuState, mem: spec_fn(u16) -> u8)
    ensures
        exec(x, mem, move_byte(ByteLocation::NextMemoryByte, ByteLocation::LowerAddressBuffer)) == (
            CpuState {
                registers: Registers { pc: ((x.registers.pc + 1) % 65536) as u16, ..x.registers },
                context: InstructionContext {
                    address_buffer: word_of(upper_byte(x.context.address_buffer), mem(x.registers.pc)),
                    ..x.context
                },
                ..x
            },
            None::<(u16, u8)>,
        ),
        exec(x, mem, move_byte(ByteLocation::NextMemoryByte, ByteLocation::UpperAddressBuffer)) == (
            CpuState {
                registers: Registers { pc: ((x.registers.pc + 1) % 65536) as u16, ..x.registers },
                context: InstructionContext {
                    address_buffer: word_of(mem(x.registers.pc), lower_byte(x.context.address_buffer)),
                    ..x.context
                },
                ..x
            },
            None::<(u16, u8)>,
        ),
{
    reveal(exec);
}

proof fn lemma_exec_return_bytes(x: CpuState, mem: spec_fn(u16) -> u8)
    ensures
        exec(x, mem, move_byte(ByteLocation::MemoryReferencedByRegister(WordRegister::SP), ByteLocation::LowerWordBuffer)) == (
            CpuState {
                context: InstructionContext {
                    word_buffer: word_of(upper_byte(x.context.word_buffer), mem(x.registers.sp)),
                    ..x.context
                },
                ..x
            },
            None::<(u16, u8)>,
        ),
        exec(x, mem, move_byte(ByteLocation::MemoryReferencedByRegister(WordRegister::SP), ByteLocation::UpperWordBuffer)) == (
            CpuState {
                context: InstructionContext {
                    word_buffer: word_of(mem(x.registers.sp), lower_byte(x.context.word_buffer)),
                    ..x.context
                },
                ..x
            },
            None::<(u16, u8)>,
        ),
{
    reveal(exec);
}

proof fn lemma_exec_jumps(x: CpuState, mem: spec_fn(u16) -> u8)
    ensures
        exec(x, mem, move_word(WordLocation::AddressBuffer, WordLocation::Register(WordRegister::PC))) == (
            CpuState { registers: Registers { pc: x.context.address_buffer, ..x.registers }, ..x },
            None::<(u16, u8)>,
        ),
        exec(x, mem, move_word(WordLocation::WordBuffer, WordLocation::Register(WordRegister::PC))) == (
            CpuState { registers: Registers { pc: x.context.word_buffer, ..x.registers }, ..x },
            None::<(u16, u8)>,
        ),
{
    reveal(exec);
}

/// The six ticks of CALL: the two address bytes are read, the address of the next instruction
/// goes below the stack pointer (upper byte first), and the program counter takes the address.
proof fn lemma_call(s: CpuState, mem: spec_fn(u16) -> u8)
    requires
        s.queue.len() == 0,
        mem(s.registers.pc) == 0xCD,
    ensures
        run_ticks(s, mem, 6).0.registers == (Registers {
            pc: word_of(
                mem(((s.registers.pc + 2) % 65536) as u16),
                mem(((s.registers.pc + 1) % 65536) as u16),
            ),
            sp: ((s.registers.sp + 65534) % 65536) as u16,
            ..s.registers
        }),
        run_ticks(s, mem, 6).0.queue.len() == 0,
        run_ticks(s, mem, 6).1(((s.registers.sp + 65535) % 65536) as u16)
            == upper_byte(((s.registers.pc + 3) % 65536) as u16),
        run_ticks(s, mem, 6).1(((s.registers.sp + 65534) % 65536) as u16)
            == lower_byte(((s.registers.pc + 3) % 65536) as u16),
        forall|a: u16|
            a != ((s.registers.sp + 65535) % 65536) && a != ((s.registers.sp + 65534) % 65536)
                ==> #[trigger] run_ticks(s, mem, 6).1(a) == mem(a),
{
    reveal_with_fuel(run_ticks, 7);
    lemma_tick_fetch(s, mem);
    lemma_decode_call_and_return(fetched(s, mem), mem);
    let s1 = tick(s, mem).0;
    assert(s1.queue.len() == 5);

    lemma_tick_queued(s1, mem);
    lemma_exec_address_bytes(dequeued(s1), mem);
    let (s2, w2) = tick(s1, mem);
    lemma_exec_stack_pointer(exec(dequeued(s1), mem, s1.queue[0].first).0, mem);
    assert(w2 is None);
    assert(s2.queue.len() == 4);

    lemma_tick_queued(s2, mem);
    lemma_exec_address_bytes(dequeued(s2), mem);
    let (s3, w3) = tick(s2, mem);
    lemma_exec_stack_pointer(exec(dequeued(s2), mem, s2.queue[0].first).0, mem);
    assert(w3 is None);
    assert(s3.queue.len() == 3);
    assert(s3.registers.pc == (s.registers.pc + 3) % 65536);

    lemma_tick_queued(s3, mem);
    lemma_exec_stack_pointer(dequeued(s3), mem);
    lemma_exec_stack_byte(sp_down(dequeued(s3)), mem, ByteRegister::UpperPC);
    let (s4, w4) = tick(s3, mem);
    assert(s4 == sp_down(dequeued(s3)));
    let m4 = after_write(mem, w4);

    lemma_tick_queued(s4, m4);
    lemma_exec_stack_pointer(dequeued(s4), m4);
    lemma_exec_stack_byte(sp_down(dequeued(s4)), m4, ByteRegister::LowerPC);
    let (s5, w5) = tick(s4, m4);
    assert(s5 == sp_down(dequeued(s4)));
    let m5 = after_write(m4, w5);

    lemma_tick_queued(s5, m5);
    lemma_exec_jumps(dequeued(s5), m5);
    let x6 = exec(dequeued(s5), m5, s5.queue[0].first).0;
    lemma_exec_stack_pointer(x6, m5);
    let (s6, w6) = tick(s5, m5);
    assert(w6 is None);
    assert(run_ticks(s, mem, 6) == (s6, m5));
}

/// The four ticks of RET: the program counter takes the two bytes at the stack pointer, the
/// lower byte first, and the stack pointer moves up by two.
proof fn lemma_return(s: CpuState, mem: spec_fn(u16) -> u8)
    requires
        s.queue.len() == 0,
        mem(s.registers.pc) == 0xC9,
    ensures
        run_ticks(s, mem, 4).0.registers == (Registers {
            pc: word_of(mem(((s.registers.sp + 1) % 65536) as u16), mem(s.registers.sp)),
            sp: ((s.registers.sp + 2) % 65536) as u16,
            ..s.registers
        }),
        run_ticks(s, mem, 4).0.queue.len() == 0,
{
    reveal_with_fuel(run_ticks, 5);
    lemma_tick_fetch(s, mem);
    lemma_decode_call_and_return(fetched(s, mem), mem);
    let s1 = tick(s, mem).0;
    assert(s1.queue.len() == 3);

    lemma_tick_queued(s1, mem);
    lemma_exec_return_bytes(dequeued(s1), mem);
    let y1 = exec(dequeued(s1), mem, s1.queue[0].first).0;
    lemma_exec_stack_pointer(y1, mem);
    let (s2, w2) = tick(s1, mem);
    assert(s2 == sp_up(y1));
    assert(w2 is None);

    lemma_tick_queued(s2, mem);
    lemma_exec_return_bytes(dequeued(s2), mem);
    let y2 = exec(dequeued(s2), mem, s2.queue[0].first).0;
    lemma_exec_stack_pointer(y2, mem);
    let (s3, w3) = tick(s2, mem);
    assert(s3 == sp_up(y2));
    assert(w3 is None);

    lemma_tick_queued(s3, mem);
    lemma_exec_jumps(dequeued(s3), mem);
    let y3 = exec(dequeued(s3), mem, s3.queue[0].first).0;
    lemma_exec_stack_pointer(y3, mem);
    let (s4, w4) = tick(s3, mem);
    assert(w4 is None);
    assert(run_ticks(s, mem, 4) == (s4, mem));
    lemma_word_bytes(s1.context.word_buffer, mem(((s.registers.sp + 1) % 65536) as u16), mem(s.registers.sp));
}

/// CALL followed, at the address it names, by RET resumes at the instruction after the CALL
/// with the stack pointer where it was: six ticks for the call, four for the return, on a
/// memory that reads back what is written, where the two stack bytes do not overlay the RET
/// opcode.
pub proof fn law_call_then_return(s: CpuState, mem: spec_fn(u16) -> u8)
    requires
        s.queue.len() == 0,
        mem(s.registers.pc) == 0xCD,
        mem(word_of(mem(((s.registers.pc + 2) % 65536) as u16), mem(((s.registers.pc + 1) % 65536) as u16))) == 0xC9,
        word_of(mem(((s.registers.pc + 2) % 65536) as u16), mem(((s.registers.pc + 1) % 65536) as u16))
            != ((s.registers.sp + 65535) % 65536),
        word_of(mem(((s.registers.pc + 2) % 65536) as u16), mem(((s.registers.pc + 1) % 65536) as u16))
            != ((s.registers.sp + 65534) % 65536),
    ensures
        run_ticks(s, mem, 10).0.registers.pc == (s.registers.pc + 3) % 65536,
        run_ticks(s, mem, 10).0.registers.sp == s.registers.sp,
        run_ticks(s, mem, 10).0.queue.len() == 0,
{
    lemma_run_ticks_split(s, mem, 6, 4);
    lemma_call(s, mem);
    let (t, m) = run_ticks(s, mem, 6);
    lemma_return(t, m);
    assert(((t.registers.sp + 1) % 65536) == ((s.registers.sp + 65535) % 65536));
    let return_address = ((s.registers.pc + 3) % 65536) as u16;
    lemma_word_bytes(return_address, upper_byte(return_address), lower_byte(return_address));
}

/// The packed BCD byte of a number below 100.
pub open spec fn bcd(n: int) -> u8 {
    (n % 10 + 16 * (n / 10)) as u8
}

/// Decimal adjustment after adding two packed BCD bytes gives the BCD sum modulo 100, with a
/// carry exactly when the sum reaches 100.
proof fn lemma_adjust_after_add(
    x: u8,
    y: u8,
    a: u8,
    d: u8,
    a1: u8,
    c: bool,
    h: bool,
    adjust: u8,
    a2: u8,
    c2: bool,
    sum: u8,
)
    by (bit_vector)
    requires
        x < 100,
        y < 100,
        a == (x % 10 + 16 * (x / 10)) as u8,
        d == (y % 10 + 16 * (y / 10)) as u8,
        sum == ((x + y) % 100) as u8,
        a1 == ((a + d) % 256) as u8,
        c == (a + d > 255),
        h == (a % 16 + d % 16 > 15),
        adjust == ((if c || a1 > 0x99 { 0x60u8 } else { 0u8 }) | (if h || a1 % 16 >= 10 { 6u8 } else { 0u8 })),
        a2 == ((a1 + adjust) % 256) as u8,
        c2 == (a1 + adjust > 255),
    ensures
        a2 == (sum % 10 + 16 * (sum / 10)) as u8,
        (c || c2) == (x + y >= 100),
{
}

/// Decimal adjustment after subtracting two packed BCD bytes gives the BCD difference modulo
/// 100, with a borrow exactly when the subtrahend is the larger.
proof fn lemma_adjust_after_subtract(
    x: u8,
    y: u8,
    a: u8,
    d: u8,
    a1: u8,
    c: bool,
    h: bool,
    adjust: u8,
    a2: u8,
    c2: bool,
    difference: u8,
)
    by (bit_vector)
    requires
        x < 100,
        y < 100,
        a == (x % 10 + 16 * (x / 10)) as u8,
        d == (y % 10 + 16 * (y / 10)) as u8,
        difference == ((100 + x - y) % 100) as u8,
        a1 == ((a - d + 256) % 256) as u8,
        c == (a < d),
        h == (a % 16 < d % 16),
        adjust == ((if c { 0x60u8 } else { 0u8 }) | (if h { 6u8 } else { 0u8 })),
        a2 == ((a1 - adjust + 256) % 256) as u8,
        c2 == (a1 < adjust),
    ensures
        a2 == (difference % 10 + 16 * (difference / 10)) as u8,
        (c || c2) == (x < y),
{
}

/// The flags after an 8-bit addition or subtraction (`f1`) and the decimal adjustment that
/// follows it (`f2`, then `f3`): DAA reads back the subtract, half-carry and carry flags of
/// the first step, and leaves zero from its own result, half carry clear, subtract as it was,
/// and carry set when either step carried.
proof fn lemma_adjusted_flags(
    f0: u8,
    z1: bool,
    n: bool,
    h1: bool,
    c1: bool,
    z2: bool,
    n2: bool,
    h2: bool,
    c2: bool,
    f1: u8,
    f2: u8,
    f3: u8,
)
    by (bit_vector)
    requires
        f1 == masked(f0, flag_byte(z1, n, h1, c1), 0xF0),
        f2 == masked(f1, flag_byte(z2, n2, h2, c2), 0xB0),
        f3 == (if c1 { masked(f2, 0x10, 0x30) } else { masked(f2, 0x00, 0x20) }),
    ensures
        bit_of_u8(f1, 6) == n,
        bit_of_u8(f1, 5) == h1,
        bit_of_u8(f1, 4) == c1,
        f3 & 0xB0 == ((if z2 { 0x80u8 } else { 0u8 }) | (if c1 || c2 { 0x10u8 } else { 0u8 })),
        f3 & 0x40 == (if n { 0x40u8 } else { 0u8 }),
{
}

/// ADD A,D or SUB D (register A less or plus register D, with flags).
spec fn arith_d(subtract: bool) -> Instruction {
    let p = ByteArithmeticParams {
        first: ByteLocation::Register(ByteRegister::A),
        second: ByteLocation::Register(ByteRegister::D),
        destination: ByteLocation::Register(ByteRegister::A),
        use_carry: false,
        flag_mask: 0xF0,
    };
    if subtract { Instruction::SubtractBytes(p) } else { Instruction::AddBytes(p) }
}

/// A and the flags after ADD A,D or SUB D, from A, D and the flags before.
spec fn after_arith(a: u8, d: u8, f: u8, subtract: bool) -> (u8, u8) {
    let (v, c, h) = if subtract { sub_spec(a, d, false) } else { add_spec(a, d, false) };
    (v, masked(f, flag_byte(v == 0, subtract, h, c), 0xF0))
}

/// A and the flags after DAA, from A and the flags before.
spec fn after_adjust(a: u8, f: u8) -> (u8, u8) {
    let n = bit_of_u8(f, 6);
    let carry = bit_of_u8(f, 4);
    let half_carry = bit_of_u8(f, 5);
    let adjust = if n {
        ((if carry { 0x60u8 } else { 0u8 }) | (if half_carry { 6u8 } else { 0u8 })) as u8
    } else {
        ((if carry || a > 0x99 { 0x60u8 } else { 0u8 }) | (if half_carry || a % 16 >= 10 { 6u8 } else { 0u8 })) as u8
    };
    let (v, c, h) = if n { sub_spec(a, adjust, false) } else { add_spec(a, adjust, false) };
    let f2 = masked(f, flag_byte(v == 0, n, h, c), 0xB0);
    (v, if carry { masked(f2, 0x10, 0x30) } else { masked(f2, 0x00, 0x20) })
}

/// ADD A,D or SUB D: A takes the result and the four flags follow it.
proof fn lemma_run_arith_d(x: CpuState, mem: spec_fn(u16) -> u8, subtract: bool)
    ensures
        run(x, mem, arith_d(subtract)) == (CpuState {
            registers: Registers {
                a: after_arith(x.registers.a, x.registers.d, x.registers.f, subtract).0,
                f: after_arith(x.registers.a, x.registers.d, x.registers.f, subtract).1,
                ..x.registers
            },
            ..x
        }),
{
}

/// DAA: A is adjusted by 0x60 and 6 as the flags and A call for, added after an addition and
/// subtracted after a subtraction.
proof fn lemma_run_adjust(x: CpuState, mem: spec_fn(u16) -> u8)
    ensures
        decimal_adjust_spec(x, mem) == (CpuState {
            registers: Registers {
                a: after_adjust(x.registers.a, x.registers.f).0,
                f: after_adjust(x.registers.a, x.registers.f).1,
                ..x.registers
            },
            ..x
        }),
{
}

proof fn lemma_decode_add_d(x: CpuState, mem: spec_fn(u16) -> u8)
    ensures
        decoded(x, mem, 0x82) == run(x, mem, arith_d(false)),
{
    reveal(decoded);
    assert(z_bits(0x82) == 2);
}

proof fn lemma_decode_subtract_d(x: CpuState, mem: spec_fn(u16) -> u8)
    ensures
        decoded(x, mem, 0x92) == run(x, mem, arith_d(true)),
{
    reveal(decoded);
    assert(z_bits(0x92) == 2);
}

proof fn lemma_decode_adjust_run(x: CpuState, mem: spec_fn(u16) -> u8)
    ensures
        decoded(x, mem, 0x27) == decimal_adjust_spec(x, mem),
{
    reveal(decoded);
}

/// Decoding ADD A,D (0x82) or SUB D (0x92) carries it out at once.
proof fn lemma_decode_arith(x: CpuState, mem: spec_fn(u16) -> u8, subtract: bool)
    ensures
        decoded(x, mem, if subtract { 0x92u8 } else { 0x82u8 }) == (CpuState {
            registers: Registers {
                a: after_arith(x.registers.a, x.registers.d, x.registers.f, subtract).0,
                f: after_arith(x.registers.a, x.registers.d, x.registers.f, subtract).1,
                ..x.registers
            },
            ..x
        }),
{
    if subtract {
        lemma_decode_subtract_d(x, mem);
    } else {
        lemma_decode_add_d(x, mem);
    }
    lemma_run_arith_d(x, mem, subtract);
}

/// Decoding DAA (0x27) carries it out at once.
proof fn lemma_decode_adjust(x: CpuState, mem: spec_fn(u16) -> u8)
    ensures
        decoded(x, mem, 0x27) == (CpuState {
            registers: Registers {
                a: after_adjust(x.registers.a, x.registers.f).0,
                f: after_adjust(x.registers.a, x.registers.f).1,
                ..x.registers
            },
            ..x
        }),
{
    lemma_decode_adjust_run(x, mem);
    lemma_run_adjust(x, mem);
}

/// The two ticks of an arithmetic instruction on A and D followed by DAA.
proof fn lemma_arith_then_adjust_ticks(s: CpuState, mem: spec_fn(u16) -> u8, subtract: bool)
    requires
        s.queue.len() == 0,
        mem(s.registers.pc) == (if subtract { 0x92u8 } else { 0x82u8 }),
        mem(((s.registers.pc + 1) % 65536) as u16) == 0x27,
    ensures
        ({
            let r1 = after_arith(s.registers.a, s.registers.d, s.registers.f, subtract);
            let r2 = after_adjust(r1.0, r1.1);
            &&& run_ticks(s, mem, 2).0.registers == (Registers {
                a: r2.0,
                f: r2.1,
                pc: ((s.registers.pc + 2) % 65536) as u16,
                ..s.registers
            })
            &&& run_ticks(s, mem, 2).0.queue.len() == 0
        }),
{
    reveal_with_fuel(run_ticks, 3);
    lemma_tick_fetch(s, mem);
    lemma_decode_arith(fetched(s, mem), mem, subtract);
    let s1 = tick(s, mem).0;
    assert(s1.queue.len() == 0);
    assert(s1.registers.pc == (s.registers.pc + 1) % 65536);
    lemma_tick_fetch(s1, mem);
    lemma_decode_adjust(fetched(s1, mem), mem);
}

/// ADD A,D followed by DAA adds two packed BCD numbers: with A holding `x` and D holding `y`
/// (both below 100), A ends holding the BCD sum modulo 100, the zero flag tells whether that
/// is 0, half carry and subtract are clear, and carry tells whether the sum reached 100.
pub proof fn law_add_then_decimal_adjust(s: CpuState, mem: spec_fn(u16) -> u8, x: u8, y: u8)
    requires
        s.queue.len() == 0,
        x < 100,
        y < 100,
        s.registers.a == bcd(x as int),
        s.registers.d == bcd(y as int),
        mem(s.registers.pc) == 0x82,
        mem(((s.registers.pc + 1) % 65536) as u16) == 0x27,
    ensures
        run_ticks(s, mem, 2).0.registers.a == bcd((x + y) % 100),
        run_ticks(s, mem, 2).0.registers.f & 0xB0 == ((if (x + y) % 100 == 0 { 0x80u8 } else { 0u8 }) | (if x + y
            >= 100 {
            0x10u8
        } else {
            0u8
        })),
        run_ticks(s, mem, 2).0.registers.f & 0x40 == 0,
        run_ticks(s, mem, 2).0.registers.pc == (s.registers.pc + 2) % 65536,
        run_ticks(s, mem, 2).0.queue.len() == 0,
{
    lemma_arith_then_adjust_ticks(s, mem, false);
    let a = s.registers.a;
    let d = s.registers.d;
    let (a1, c, h) = add_spec(a, d, false);
    let f1 = masked(s.registers.f, flag_byte(a1 == 0, false, h, c), 0xF0);
    assert(after_arith(a, d, s.registers.f, false) == (a1, f1));
    let adjust = ((if c || a1 > 0x99 { 0x60u8 } else { 0u8 }) | (if h || a1 % 16 >= 10 { 6u8 } else { 0u8 })) as u8;
    let (a2, c2, h2) = add_spec(a1, adjust, false);
    let f2 = masked(f1, flag_byte(a2 == 0, false, h2, c2), 0xB0);
    let f3 = if c { masked(f2, 0x10, 0x30) } else { masked(f2, 0x00, 0x20) };
    lemma_adjusted_flags(s.registers.f, a1 == 0, false, h, c, a2 == 0, false, h2, c2, f1, f2, f3);
    assert(after_adjust(a1, f1) == (a2, f3));
    let sum = ((x + y) % 100) as u8;
    lemma_adjust_after_add(x, y, a, d, a1, c, h, adjust, a2, c2, sum);
}

/// SUB D followed by DAA subtracts two packed BCD numbers: with A holding `x` and D holding
/// `y` (both below 100), A ends holding the BCD difference modulo 100, the zero flag tells
/// whether that is 0, subtract is set, half carry clear, and carry tells whether `y` was the
/// larger.
pub proof fn law_subtract_then_decimal_adjust(s: CpuState, mem: spec_fn(u16) -> u8, x: u8, y: u8)
    requires
        s.queue.len() == 0,
        x < 100,
        y < 100,
        s.registers.a == bcd(x as int),
        s.registers.d == bcd(y as int),
        mem(s.registers.pc) == 0x92,
        mem(((s.registers.pc + 1) % 65536) as u16) == 0x27,
    ensures
        run_ticks(s, mem, 2).0.registers.a == bcd((100 + x - y) % 100),
        run_ticks(s, mem, 2).0.registers.f & 0xB0 == ((if (100 + x - y) % 100 == 0 { 0x80u8 } else { 0u8 }) | (if x
            < y {
            0x10u8
        } else {
            0u8
        })),
        run_ticks(s, mem, 2).0.registers.f & 0x40 == 0x40,
        run_ticks(s, mem, 2).0.registers.pc == (s.registers.pc + 2) % 65536,
        run_ticks(s, mem, 2).0.queue.len() == 0,
{
    lemma_arith_then_adjust_ticks(s, mem, true);
    let a = s.registers.a;
    let d = s.registers.d;
    let (a1, c, h) = sub_spec(a, d, false);
    let f1 = masked(s.registers.f, flag_byte(a1 == 0, true, h, c), 0xF0);
    assert(after_arith(a, d, s.registers.f, true) == (a1, f1));
    let adjust = ((if c { 0x60u8 } else { 0u8 }) | (if h { 6u8 } else { 0u8 })) as u8;
    let (a2, c2, h2) = sub_spec(a1, adjust, false);
    let f2 = masked(f1, flag_byte(a2 == 0, true, h2, c2), 0xB0);
    let f3 = if c { masked(f2, 0x10, 0x30) } else { masked(f2, 0x00, 0x20) };
    lemma_adjusted_flags(s.registers.f, a1 == 0, true, h, c, a2 == 0, true, h2, c2, f1, f2, f3);
    assert(after_adjust(a1, f1) == (a2, f3));
    let difference = ((100 + x - y) % 100) as u8;
    lemma_adjust_after_subtract(x, y, a, d, a1, c, h, adjust, a2, c2, difference);
}

/// The register that the low three bits `z` of an ALU opcode name (not 6, which names (HL)):
/// B, C, D, E, H, L, -, A.
pub open spec fn register_operand(registers: Registers, z: u8) -> u8 {
    if z == 0 {
        registers.b
    } else if z == 1 {
        registers.c
    } else if z == 2 {
        registers.d
    } else if z == 3 {
        registers.e
    } else if z == 4 {
        registers.h
    } else if z == 5 {
        registers.l
    } else {
        registers.a
    }
}

/// Decoding XOR r (0xA8 to 0xAF) or OR r (0xB0 to 0xB7), r a register, carries it out at once.
proof fn lemma_decode_xor_or(x: CpuState, mem: spec_fn(u16) -> u8, op: u8)
    requires
        0xA8 <= op <= 0xB7,
        op % 8 != 6,
    ensures
        ({
            let v = register_operand(x.registers, op % 8);
            let a = x.registers.a;
            let r = if op < 0xB0 { v ^ a } else { v | a };
            decoded(x, mem, op) == (CpuState {
                registers: Registers { a: r, f: flag_byte(r == 0, false, false, false), ..x.registers },
                ..x
            })
        }),
{
    reveal(decoded);
    assert(z_bits(op) == op % 8);
    assert(y_bits(op) == (if op < 0xB0 { 5u8 } else { 6u8 }));
}

/// XOR r and OR r: one tick from an empty queue sets A to A XOR r (opcodes 0xA8 to 0xAF) or
/// A OR r (0xB0 to 0xB7), where r is B, C, D, E, H, L or A as the low three bits say; F
/// becomes 0x80 when the result is zero and 0 otherwise; nothing is written to memory.
pub proof fn law_xor_or_register(s: CpuState, mem: spec_fn(u16) -> u8, op: u8)
    requires
        s.queue.len() == 0,
        0xA8 <= op <= 0xB7,
        op % 8 != 6,
        mem(s.registers.pc) == op,
    ensures
        ({
            let a = s.registers.a;
            let v = register_operand(s.registers, op % 8);
            let r = if op < 0xB0 { a ^ v } else { a | v };
            &&& tick(s, mem).0.registers.a == r
            &&& tick(s, mem).0.registers.f == (if r == 0 { 0x80u8 } else { 0u8 })
            &&& tick(s, mem).0.registers.pc == (s.registers.pc + 1) % 65536
            &&& tick(s, mem).0.queue.len() == 0
            &&& tick(s, mem).1 is None
        }),
{
    lemma_tick_fetch(s, mem);
    let x = fetched(s, mem);
    lemma_decode_xor_or(x, mem, op);
    let a = s.registers.a;
    let v = register_operand(s.registers, op % 8);
    let r = if op < 0xB0 { a ^ v } else { a | v };
    lemma_register_bit_facts(0, false, 0, a, v, r == 0);
}

} // verus!
