//! The ways in which loading or running a program can fail.

use vstd::prelude::*;

verus! {

/// Every fault is fatal to the run that raised it.
#[derive(Clone, Copy, Debug, PartialEq, Eq, Structural)]
pub enum ErrorKind {
    /// The image has an odd number of bytes.
    ImageTruncated,
    /// The image holds more than 32768 words.
    ImageTooLarge,
    /// An instruction would be fetched from beyond address 32767.
    PcOutOfRange,
    /// The opcode word is greater than 21.
    UnknownOpcode,
    /// An argument word is neither a literal nor a register reference,
    /// or an address operand resolves to a value beyond address 32767.
    InvalidOperand,
    /// A literal stands where a register is required.
    InvalidWriteTarget,
    /// `pop` or `ret` found the stack empty.
    StackUnderflow,
    /// `mod` was given a zero divisor.
    DivisionByZero,
    /// `in` found no buffered byte and the input stream had ended.
    InputExhausted,
    /// The host failed while reading input.
    IoFailure,
}

} // verus!
