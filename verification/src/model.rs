//! The machine as mathematics.
//!
//! [`MachineState`] is the model of a machine and [`MachineState::step`] is
//! the meaning of the instruction set: one function from a state to either
//! the next state and what the host must do, or the fault that stopped the
//! program. The executable machine is specified against it.

use vstd::prelude::*;
use crate::error::ErrorKind;
use crate::op_code::{decode, OpCode};
use crate::value::{classify, Value, REGISTER_BASE, REGISTER_COUNT};

verus! {

/// The number of words of memory, and the first address that is not one.
pub const MEMORY_SIZE: usize = 32768;

/// The modulus of all arithmetic.
pub const MODULUS: u32 = 32768;

/// The largest number of bytes an image may have.
pub const MAX_IMAGE_BYTES: usize = 65536;

/// What the host must do after an instruction has been executed.
#[derive(Clone, Copy, Debug, PartialEq, Eq, Structural)]
pub enum Action {
    /// Nothing: go on with the next instruction.
    Proceed,
    /// Write this character to the output, then go on.
    Emit(char),
    /// The program wants a byte and the input buffer is empty. Read a line,
    /// hand it over with [`crate::machine::VirtualMachine::feed_line`], and
    /// step again: the instruction has not been consumed.
    AwaitInput,
    /// The program has ended normally.
    Halt,
}

/// The state of a machine as plain mathematics.
pub struct MachineState {
    /// The 32768 words of memory.
    pub memory: Seq<u16>,
    /// The address of the next instruction.
    pub pc: int,
    /// The eight registers.
    pub registers: Seq<u16>,
    /// The stack, its top last.
    pub stack: Seq<u16>,
    /// The bytes that `in` has yet to deliver, the next one first.
    pub input: Seq<u8>,
}

/// `(b + c) mod 32768`.
pub open spec fn sum_mod(b: u16, c: u16) -> u16 {
    ((b + c) % (MODULUS as int)) as u16
}

/// `(b * c) mod 32768`.
pub open spec fn product_mod(b: u16, c: u16) -> u16 {
    ((b * c) % (MODULUS as int)) as u16
}

/// The bitwise complement of `b` in fifteen bits.
pub open spec fn complement(b: u16) -> u16 {
    !b & 0x7FFF
}

/// 1 if `holds`, else 0.
pub open spec fn flag(holds: bool) -> u16 {
    if holds {
        1
    } else {
        0
    }
}

/// The character with code `code`, if `code` is a Unicode scalar value.
pub open spec fn scalar_value(code: u32) -> Option<char> {
    if code <= 0xD7FF || (0xE000 <= code && code <= 0x10FFFF) {
        Some(code as char)
    } else {
        None
    }
}

/// The word that the bytes `2 * index` and `2 * index + 1` of an image form,
/// low byte first.
pub open spec fn image_word(bytes: Seq<u8>, index: int) -> u16 {
    (bytes[2 * index] + 256 * bytes[2 * index + 1]) as u16
}

/// Why an image cannot be loaded, if it cannot.
pub open spec fn image_fault(bytes: Seq<u8>) -> Option<ErrorKind> {
    if bytes.len() > MAX_IMAGE_BYTES {
        Some(ErrorKind::ImageTooLarge)
    } else if bytes.len() % 2 != 0 {
        Some(ErrorKind::ImageTruncated)
    } else {
        None
    }
}

/// Memory after an image has been laid over it from address 0: the words of
/// the image, then what memory held before.
pub open spec fn load_image(memory: Seq<u16>, bytes: Seq<u8>) -> Seq<u16> {
    Seq::new(
        memory.len(),
        |i: int|
            if i < bytes.len() / 2 {
                image_word(bytes, i)
            } else {
                memory[i]
            },
    )
}

/// The value that `operand` reads from `registers`.
pub open spec fn read_value(registers: Seq<u16>, operand: Value) -> u16 {
    match operand {
        Value::Literal(n) => n,
        Value::Register(r) => registers[r as int],
    }
}

/// The fault that reading the argument word `word` raises, if any.
pub open spec fn operand_fault(word: u16) -> Option<ErrorKind> {
    match classify(word) {
        Ok(_) => None,
        Err(e) => Some(e),
    }
}

/// The fault that writing through the argument word `word` raises, if any.
pub open spec fn target_fault(word: u16) -> Option<ErrorKind> {
    match classify(word) {
        Ok(Value::Register(_)) => None,
        Ok(Value::Literal(_)) => Some(ErrorKind::InvalidWriteTarget),
        Err(e) => Some(e),
    }
}

/// The fault that using `address` as a memory address raises, if any.
pub open spec fn address_fault(address: u16) -> Option<ErrorKind> {
    if address < MEMORY_SIZE {
        None
    } else {
        Some(ErrorKind::InvalidOperand)
    }
}

/// The value of the argument word `word`: the word itself if it is a
/// literal, the content of the register it names otherwise.
pub open spec fn operand_value(registers: Seq<u16>, word: u16) -> u16 {
    match classify(word) {
        Ok(v) => read_value(registers, v),
        Err(_) => 0,
    }
}

/// The index of the register that the argument word `word` names.
pub open spec fn target_index(word: u16) -> int {
    word - REGISTER_BASE
}

/// The first fault of two checks made in order.
pub open spec fn first_fault(first: Option<ErrorKind>, second: Option<ErrorKind>) -> Option<
    ErrorKind,
> {
    if first is Some {
        first
    } else {
        second
    }
}

impl MachineState {
    /// The shape that every machine has: 32768 words, eight registers, and
    /// a program counter that fits in a word.
    pub open spec fn wf(self) -> bool {
        &&& self.memory.len() == MEMORY_SIZE
        &&& self.registers.len() == REGISTER_COUNT
        &&& 0 <= self.pc <= u16::MAX
    }

    /// A machine as it is before an image is loaded: everything zero or
    /// empty.
    pub open spec fn initial() -> MachineState {
        MachineState {
            memory: Seq::new(MEMORY_SIZE as nat, |i: int| 0u16),
            pc: 0,
            registers: Seq::new(REGISTER_COUNT as nat, |i: int| 0u16),
            stack: Seq::empty(),
            input: Seq::empty(),
        }
    }

    /// The value of the argument word `word` in this state.
    pub open spec fn value(self, word: u16) -> u16 {
        operand_value(self.registers, word)
    }

    /// This state with the program counter at `pc`.
    pub open spec fn at(self, pc: int) -> MachineState {
        MachineState { pc, ..self }
    }

    /// This state with `value` in the register that `word` names.
    pub open spec fn with_register(self, word: u16, value: u16) -> MachineState {
        MachineState { registers: self.registers.update(target_index(word), value), ..self }
    }

    /// This state with `value` on top of the stack.
    pub open spec fn pushed(self, value: u16) -> MachineState {
        MachineState { stack: self.stack.push(value), ..self }
    }

    /// This state without the top of the stack.
    pub open spec fn popped(self) -> MachineState {
        MachineState { stack: self.stack.drop_last(), ..self }
    }

    /// The instruction at the program counter, or why none can be fetched.
    pub open spec fn fetch(self) -> Result<OpCode, ErrorKind> {
        if 0 <= self.pc < MEMORY_SIZE {
            decode(self.memory.subrange(self.pc, MEMORY_SIZE as int))
        } else {
            Err(ErrorKind::PcOutOfRange)
        }
    }

    /// The fault that executing `op` in this state raises, if any.
    ///
    /// Operands are checked in the order in which the instruction uses them:
    /// what it reads, then where it writes, then what it computes.
    pub open spec fn fault(self, op: OpCode) -> Option<ErrorKind> {
        match op {
            OpCode::Halt | OpCode::NoOp => None,
            OpCode::Push(a) | OpCode::Jmp(a) | OpCode::Call(a) | OpCode::Out(a) => operand_fault(a),
            OpCode::SetReg(a, b) | OpCode::Not(a, b) => first_fault(
                operand_fault(b),
                target_fault(a),
            ),
            OpCode::Jt(a, b) | OpCode::Jf(a, b) => first_fault(operand_fault(a), operand_fault(b)),
            OpCode::Eq(a, b, c)
            | OpCode::Gt(a, b, c)
            | OpCode::Add(a, b, c)
            | OpCode::Mult(a, b, c)
            | OpCode::And(a, b, c)
            | OpCode::Or(a, b, c) => first_fault(
                operand_fault(b),
                first_fault(operand_fault(c), target_fault(a)),
            ),
            OpCode::Mod(a, b, c) => first_fault(
                operand_fault(b),
                first_fault(
                    operand_fault(c),
                    first_fault(
                        target_fault(a),
                        if self.value(c) == 0 {
                            Some(ErrorKind::DivisionByZero)
                        } else {
                            None
                        },
                    ),
                ),
            ),
            OpCode::Pop(a) => if self.stack.len() == 0 {
                Some(ErrorKind::StackUnderflow)
            } else {
                target_fault(a)
            },
            OpCode::Ret => if self.stack.len() == 0 {
                Some(ErrorKind::StackUnderflow)
            } else {
                None
            },
            OpCode::RMem(a, b) => first_fault(
                operand_fault(b),
                first_fault(address_fault(self.value(b)), target_fault(a)),
            ),
            OpCode::WMem(a, b) => first_fault(
                operand_fault(a),
                first_fault(operand_fault(b), address_fault(self.value(a))),
            ),
            OpCode::In(a) => if self.input.len() == 0 {
                None
            } else {
                target_fault(a)
            },
        }
    }

    /// The state after `op`, fetched at the program counter, has been
    /// executed without a fault, and what the host must do.
    ///
    /// `next` below is the address behind the instruction. It is what `call`
    /// pushes and what every instruction but a taken jump leaves in `pc`.
    pub open spec fn retire(self, op: OpCode) -> (MachineState, Action) {
        let next = self.pc + 1 + op.arity();
        match op {
            OpCode::Halt => (self.at(next), Action::Halt),
            OpCode::NoOp => (self.at(next), Action::Proceed),
            OpCode::SetReg(a, b) => (self.at(next).with_register(a, self.value(b)), Action::Proceed),
            OpCode::Push(a) => (self.at(next).pushed(self.value(a)), Action::Proceed),
            OpCode::Pop(a) => (
                self.at(next).popped().with_register(a, self.stack.last()),
                Action::Proceed,
            ),
            OpCode::Eq(a, b, c) => (
                self.at(next).with_register(a, flag(self.value(b) == self.value(c))),
                Action::Proceed,
            ),
            OpCode::Gt(a, b, c) => (
                self.at(next).with_register(a, flag(self.value(b) > self.value(c))),
                Action::Proceed,
            ),
            OpCode::Jmp(a) => (self.at(self.value(a) as int), Action::Proceed),
            OpCode::Jt(a, b) => (
                self.at(
                    if self.value(a) != 0 {
                        self.value(b) as int
                    } else {
                        next
                    },
                ),
                Action::Proceed,
            ),
            OpCode::Jf(a, b) => (
                self.at(
                    if self.value(a) == 0 {
                        self.value(b) as int
                    } else {
                        next
                    },
                ),
                Action::Proceed,
            ),
            OpCode::Add(a, b, c) => (
                self.at(next).with_register(a, sum_mod(self.value(b), self.value(c))),
                Action::Proceed,
            ),
            OpCode::Mult(a, b, c) => (
                self.at(next).with_register(a, product_mod(self.value(b), self.value(c))),
                Action::Proceed,
            ),
            OpCode::Mod(a, b, c) => (
                self.at(next).with_register(a, (self.value(b) % self.value(c)) as u16),
                Action::Proceed,
            ),
            OpCode::And(a, b, c) => (
                self.at(next).with_register(a, self.value(b) & self.value(c)),
                Action::Proceed,
            ),
            OpCode::Or(a, b, c) => (
                self.at(next).with_register(a, self.value(b) | self.value(c)),
                Action::Proceed,
            ),
            OpCode::Not(a, b) => (
                self.at(next).with_register(a, complement(self.value(b))),
                Action::Proceed,
            ),
            OpCode::RMem(a, b) => (
                self.at(next).with_register(a, self.memory[self.value(b) as int]),
                Action::Proceed,
            ),
            OpCode::WMem(a, b) => (
                MachineState {
                    memory: self.memory.update(self.value(a) as int, self.value(b)),
                    ..self.at(next)
                },
                Action::Proceed,
            ),
            OpCode::Call(a) => (
                self.at(self.value(a) as int).pushed(next as u16),
                Action::Proceed,
            ),
            OpCode::Ret => (self.at(self.stack.last() as int).popped(), Action::Proceed),
            OpCode::Out(a) => (
                self.at(next),
                match scalar_value(self.value(a) as u32) {
                    Some(c) => Action::Emit(c),
                    None => Action::Proceed,
                },
            ),
            OpCode::In(a) => if self.input.len() == 0 {
                (self, Action::AwaitInput)
            } else {
                (
                    MachineState {
                        input: self.input.remove(0),
                        ..self.at(next).with_register(a, self.input[0] as u16)
                    },
                    Action::Proceed,
                )
            },
        }
    }

    /// One step of the machine: fetch the instruction at the program
    /// counter, then either fault, or execute it and say what the host must
    /// do. A step that faults has no next state.
    pub open spec fn step(self) -> Result<(MachineState, Action), ErrorKind> {
        match self.fetch() {
            Err(e) => Err(e),
            Ok(op) => match self.fault(op) {
                Some(e) => Err(e),
                None => Ok(self.retire(op)),
            },
        }
    }
}

} // verus!
