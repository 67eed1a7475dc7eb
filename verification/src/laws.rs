//! What holds of the machine for every state, proved once and for all.
//!
//! Everything here is stated over [`MachineState`], the model against which
//! the executable machine is specified, so each law holds of every run of
//! [`crate::machine::VirtualMachine::step`].

use vstd::prelude::*;
use crate::error::ErrorKind;
use crate::model::{
    complement, flag, image_fault, image_word, load_image, operand_fault, product_mod, sum_mod,
    target_fault, Action, MachineState, MEMORY_SIZE,
};
use crate::op_code::OpCode;
use crate::value::MAX_LITERAL;

verus! {

/// Every word of `words` fits in fifteen bits.
pub open spec fn fifteen_bit(words: Seq<u16>) -> bool {
    forall|i: int| 0 <= i < words.len() ==> #[trigger] words[i] <= MAX_LITERAL
}

/// The bytes of the first `len / 2` words of `memory`, low byte first.
pub open spec fn image_bytes(memory: Seq<u16>, len: nat) -> Seq<u8> {
    Seq::new(
        len,
        |k: int|
            if k % 2 == 0 {
                (memory[k / 2] % 256) as u8
            } else {
                (memory[k / 2] / 256) as u8
            },
    )
}

/// The instruction at the program counter can be fetched and executes
/// without a fault.
pub open spec fn executes(s: MachineState, op: OpCode) -> bool {
    &&& s.wf()
    &&& s.fetch() == Ok::<OpCode, ErrorKind>(op)
    &&& s.fault(op) is None
}

proof fn lemma_bits(x: u16, y: u16)
    ensures
        x & y <= x,
        x <= 0x7FFF && y <= 0x7FFF ==> x | y <= 0x7FFF,
        !x & 0x7FFF <= 0x7FFF,
        x <= 0x7FFF ==> !x & 0x7FFF == 0x7FFF - x,
{
    assert(x & y <= x) by (bit_vector);
    assert(x <= 0x7FFF && y <= 0x7FFF ==> x | y <= 0x7FFF) by (bit_vector);
    assert(!x & 0x7FFF <= 0x7FFF) by (bit_vector);
    assert(x <= 0x7FFF ==> !x & 0x7FFF == 0x7FFF - x) by (bit_vector);
}

/// A machine starts with every word zero, so within fifteen bits.
pub proof fn lemma_initial_range()
    ensures
        MachineState::initial().wf(),
        fifteen_bit(MachineState::initial().memory),
        fifteen_bit(MachineState::initial().registers),
        fifteen_bit(MachineState::initial().stack),
{
}

/// A step keeps every word within fifteen bits, with two exceptions that the
/// instruction set leaves open.
///
/// Registers stay within fifteen bits unless `rmem` copies a wider word out
/// of memory. The stack stays within fifteen bits unless a `call` in the last
/// two words of memory pushes the return address 32768. A word of memory
/// either stays as it was or receives a fifteen-bit value. So a state whose
/// memory, registers and stack all fit in fifteen bits is followed by one of
/// the same kind, but for that one `call`.
pub proof fn lemma_step_keeps_range(s: MachineState)
    requires
        s.wf(),
        fifteen_bit(s.registers),
        fifteen_bit(s.stack),
        s.step() is Ok,
    ensures
        ({
            let op = s.fetch()->Ok_0;
            let next = s.step()->Ok_0.0;
            &&& next.wf()
            &&& !(op matches OpCode::RMem(_, b) && s.memory[s.value(b) as int] > MAX_LITERAL)
                ==> fifteen_bit(next.registers)
            &&& !(op is Call && s.pc + 2 == MEMORY_SIZE) ==> fifteen_bit(next.stack)
            &&& forall|i: int|
                0 <= i < MEMORY_SIZE ==> #[trigger] next.memory[i] == s.memory[i] || next.memory[i]
                    <= MAX_LITERAL
            &&& fifteen_bit(s.memory) ==> fifteen_bit(next.memory)
        }),
{
    match s.fetch()->Ok_0 {
        OpCode::And(_, b, c) | OpCode::Or(_, b, c) => {
            lemma_bits(s.value(b), s.value(c));
        },
        OpCode::Not(_, b) => {
            lemma_bits(s.value(b), 0);
        },
        _ => {},
    }
}

/// Every instruction that writes a register leaves in it exactly the value
/// that its formula gives, and leaves the other registers as they were.
/// Sums and products are reduced modulo 32768.
pub proof fn lemma_register_results(s: MachineState, op: OpCode)
    requires
        executes(s, op),
    ensures
        ({
            let next = s.retire(op).0;
            match op {
                OpCode::SetReg(a, b) => next.registers == s.registers.update(
                    a - 32768,
                    s.value(b),
                ),
                OpCode::Pop(a) => next.registers == s.registers.update(a - 32768, s.stack.last()),
                OpCode::Eq(a, b, c) => next.registers == s.registers.update(
                    a - 32768,
                    if s.value(b) == s.value(c) {
                        1u16
                    } else {
                        0u16
                    },
                ),
                OpCode::Gt(a, b, c) => next.registers == s.registers.update(
                    a - 32768,
                    if s.value(b) > s.value(c) {
                        1u16
                    } else {
                        0u16
                    },
                ),
                OpCode::Add(a, b, c) => next.registers == s.registers.update(
                    a - 32768,
                    ((s.value(b) + s.value(c)) % 32768) as u16,
                ),
                OpCode::Mult(a, b, c) => next.registers == s.registers.update(
                    a - 32768,
                    ((s.value(b) * s.value(c)) % 32768) as u16,
                ),
                OpCode::Mod(a, b, c) => next.registers == s.registers.update(
                    a - 32768,
                    (s.value(b) % s.value(c)) as u16,
                ),
                OpCode::And(a, b, c) => next.registers == s.registers.update(
                    a - 32768,
                    s.value(b) & s.value(c),
                ),
                OpCode::Or(a, b, c) => next.registers == s.registers.update(
                    a - 32768,
                    s.value(b) | s.value(c),
                ),
                OpCode::Not(a, b) => next.registers == s.registers.update(
                    a - 32768,
                    !s.value(b) & 0x7FFF,
                ),
                OpCode::RMem(a, b) => next.registers == s.registers.update(
                    a - 32768,
                    s.memory[s.value(b) as int],
                ),
                OpCode::In(a) => if s.input.len() > 0 {
                    next.registers == s.registers.update(a - 32768, s.input[0] as u16)
                } else {
                    next.registers == s.registers
                },
                _ => next.registers == s.registers,
            }
        }),
        s.step() == Ok::<(MachineState, Action), ErrorKind>(s.retire(op)),
{
}

/// `call` followed at once by `ret` comes back to the instruction after the
/// `call`, with the stack and everything else as before.
pub proof fn lemma_call_then_ret(s: MachineState, a: u16)
    requires
        executes(s, OpCode::Call(a)),
        s.at(s.value(a) as int).fetch() == Ok::<OpCode, ErrorKind>(OpCode::Ret),
    ensures
        s.step() matches Ok((called, Action::Proceed)) && called.step() == Ok::<
            (MachineState, Action),
            ErrorKind,
        >((s.at(s.pc + 2), Action::Proceed)),
{
    let called = s.step()->Ok_0.0;
    assert(called.stack.drop_last() =~= s.stack);
}

/// `push x` followed at once by `pop r` puts the value of `x` into `r` and
/// leaves the stack, and everything else but the program counter, as before.
pub proof fn lemma_push_then_pop(s: MachineState, x: u16, r: u16)
    requires
        executes(s, OpCode::Push(x)),
        s.at(s.pc + 2).fetch() == Ok::<OpCode, ErrorKind>(OpCode::Pop(r)),
        target_fault(r) is None,
    ensures
        s.step() matches Ok((pushed, Action::Proceed)) && pushed.step() == Ok::<
            (MachineState, Action),
            ErrorKind,
        >((s.at(s.pc + 4).with_register(r, s.value(x)), Action::Proceed)),
{
    let pushed = s.step()->Ok_0.0;
    assert(pushed.stack.drop_last() =~= s.stack);
}

/// On fifteen-bit operands `add` and `mult` wrap at 32768, `not` is the
/// complement in fifteen bits, and `eq` and `gt` give exactly 0 or 1.
pub proof fn lemma_arithmetic(b: u16, c: u16)
    requires
        b <= MAX_LITERAL,
        c <= MAX_LITERAL,
    ensures
        sum_mod(b, c) == (b + c) % 32768,
        sum_mod(b, c) == if b + c < 32768 {
            b + c
        } else {
            b + c - 32768
        },
        product_mod(b, c) == (b * c) % 32768,
        product_mod(b, c) <= MAX_LITERAL,
        complement(b) == !b & 0x7FFF,
        complement(b) == 32767 - b,
        flag(b == c) == 0 || flag(b == c) == 1,
        flag(b > c) == 0 || flag(b > c) == 1,
        flag(b == c) == 1 <==> b == c,
        flag(b > c) == 1 <==> b > c,
{
    lemma_bits(b, c);
}

/// Reading back the words that an image was loaded into gives the bytes of
/// the image, and memory behind the image is what it was before.
pub proof fn lemma_load_round_trip(memory: Seq<u16>, bytes: Seq<u8>)
    requires
        memory.len() == MEMORY_SIZE,
        image_fault(bytes) is None,
    ensures
        image_bytes(load_image(memory, bytes), bytes.len()) == bytes,
        forall|i: int|
            bytes.len() / 2 <= i < MEMORY_SIZE ==> #[trigger] load_image(memory, bytes)[i]
                == memory[i],
{
    let loaded = load_image(memory, bytes);
    assert(image_bytes(loaded, bytes.len()) =~= bytes);
}

/// Loading keeps memory within fifteen bits exactly when every word of the
/// image fits in fifteen bits. An image that names a register holds the word
/// 32768 or more, so memory in general does not stay in that range.
pub proof fn lemma_load_keeps_range(memory: Seq<u16>, bytes: Seq<u8>)
    requires
        memory.len() == MEMORY_SIZE,
        fifteen_bit(memory),
        image_fault(bytes) is None,
    ensures
        fifteen_bit(load_image(memory, bytes)) <==> forall|i: int|
            0 <= i < bytes.len() / 2 ==> #[trigger] image_word(bytes, i) <= MAX_LITERAL,
{
    let loaded = load_image(memory, bytes);
    if fifteen_bit(loaded) {
        assert forall|i: int| 0 <= i < bytes.len() / 2 implies #[trigger] image_word(bytes, i)
            <= MAX_LITERAL by {
            assert(loaded[i] == image_word(bytes, i));
        }
    }
}

/// `noop` changes nothing but the program counter, which moves on by one.
pub proof fn lemma_noop(s: MachineState)
    requires
        s.wf(),
        s.fetch() == Ok::<OpCode, ErrorKind>(OpCode::NoOp),
    ensures
        s.step() == Ok::<(MachineState, Action), ErrorKind>((s.at(s.pc + 1), Action::Proceed)),
{
}

/// `mod` by zero is a fault, whatever the dividend.
pub proof fn lemma_mod_by_zero(s: MachineState, a: u16, b: u16, c: u16)
    requires
        s.wf(),
        s.fetch() == Ok::<OpCode, ErrorKind>(OpCode::Mod(a, b, c)),
        operand_fault(b) is None,
        operand_fault(c) is None,
        target_fault(a) is None,
        s.value(c) == 0,
    ensures
        s.step() == Err::<(MachineState, Action), ErrorKind>(ErrorKind::DivisionByZero),
{
}

/// `pop` and `ret` on an empty stack are faults.
pub proof fn lemma_empty_stack(s: MachineState)
    requires
        s.wf(),
        s.fetch() matches Ok(op) && (op is Pop || op is Ret),
        s.stack.len() == 0,
    ensures
        s.step() == Err::<(MachineState, Action), ErrorKind>(ErrorKind::StackUnderflow),
{
}

/// With the program counter beyond address 32767 nothing can be fetched,
/// so a jump to such an address is followed by a fault.
pub proof fn lemma_jump_beyond_memory(s: MachineState, a: u16)
    requires
        executes(s, OpCode::Jmp(a)),
        s.value(a) >= MEMORY_SIZE,
    ensures
        s.step() matches Ok((jumped, Action::Proceed)) && jumped.pc == s.value(a) && jumped.step()
            == Err::<(MachineState, Action), ErrorKind>(ErrorKind::PcOutOfRange),
        forall|t: MachineState|
            t.pc >= MEMORY_SIZE ==> #[trigger] t.step() == Err::<
                (MachineState, Action),
                ErrorKind,
            >(ErrorKind::PcOutOfRange),
{
}

} // verus!
