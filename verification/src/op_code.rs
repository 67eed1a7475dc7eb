//! The instruction set and its decoder.
//!
//! An instruction is one opcode word followed by zero to three argument
//! words. The decoder hands the argument words on as they stand; whether a
//! word is a literal or names a register is decided when the instruction is
//! executed.

use vstd::prelude::*;
use crate::error::ErrorKind;

verus! {

/// The largest opcode number.
pub const MAX_OPCODE: u16 = 21;

/// One decoded instruction with its raw argument words.
#[derive(Clone, Copy, Debug, PartialEq, Eq, Structural)]
pub enum OpCode {
    /// 0: stop the program.
    Halt,
    /// 1: `a <- b`.
    SetReg(u16, u16),
    /// 2: push `a`.
    Push(u16),
    /// 3: pop into `a`.
    Pop(u16),
    /// 4: `a <- 1` if `b == c`, else 0.
    Eq(u16, u16, u16),
    /// 5: `a <- 1` if `b > c`, else 0.
    Gt(u16, u16, u16),
    /// 6: jump to `a`.
    Jmp(u16),
    /// 7: jump to `b` if `a` is nonzero.
    Jt(u16, u16),
    /// 8: jump to `b` if `a` is zero.
    Jf(u16, u16),
    /// 9: `a <- (b + c) mod 32768`.
    Add(u16, u16, u16),
    /// 10: `a <- (b * c) mod 32768`.
    Mult(u16, u16, u16),
    /// 11: `a <- b mod c`.
    Mod(u16, u16, u16),
    /// 12: `a <- b & c`.
    And(u16, u16, u16),
    /// 13: `a <- b | c`.
    Or(u16, u16, u16),
    /// 14: `a <-` the fifteen-bit complement of `b`.
    Not(u16, u16),
    /// 15: `a <- memory[b]`.
    RMem(u16, u16),
    /// 16: `memory[a] <- b`.
    WMem(u16, u16),
    /// 17: push the address of the next instruction, jump to `a`.
    Call(u16),
    /// 18: pop an address and jump to it.
    Ret,
    /// 19: write the character with code `a`.
    Out(u16),
    /// 20: read one byte into `a`.
    In(u16),
    /// 21: do nothing.
    NoOp,
}

impl OpCode {
    /// The opcode number of this instruction.
    pub open spec fn number(self) -> u16 {
        match self {
            OpCode::Halt => 0,
            OpCode::SetReg(..) => 1,
            OpCode::Push(..) => 2,
            OpCode::Pop(..) => 3,
            OpCode::Eq(..) => 4,
            OpCode::Gt(..) => 5,
            OpCode::Jmp(..) => 6,
            OpCode::Jt(..) => 7,
            OpCode::Jf(..) => 8,
            OpCode::Add(..) => 9,
            OpCode::Mult(..) => 10,
            OpCode::Mod(..) => 11,
            OpCode::And(..) => 12,
            OpCode::Or(..) => 13,
            OpCode::Not(..) => 14,
            OpCode::RMem(..) => 15,
            OpCode::WMem(..) => 16,
            OpCode::Call(..) => 17,
            OpCode::Ret => 18,
            OpCode::Out(..) => 19,
            OpCode::In(..) => 20,
            OpCode::NoOp => 21,
        }
    }

    /// The argument words of this instruction, in order.
    pub open spec fn args(self) -> Seq<u16> {
        match self {
            OpCode::Halt | OpCode::Ret | OpCode::NoOp => seq![],
            OpCode::Push(a)
            | OpCode::Pop(a)
            | OpCode::Jmp(a)
            | OpCode::Call(a)
            | OpCode::Out(a)
            | OpCode::In(a) => seq![a],
            OpCode::SetReg(a, b)
            | OpCode::Jt(a, b)
            | OpCode::Jf(a, b)
            | OpCode::Not(a, b)
            | OpCode::RMem(a, b)
            | OpCode::WMem(a, b) => seq![a, b],
            OpCode::Eq(a, b, c)
            | OpCode::Gt(a, b, c)
            | OpCode::Add(a, b, c)
            | OpCode::Mult(a, b, c)
            | OpCode::Mod(a, b, c)
            | OpCode::And(a, b, c)
            | OpCode::Or(a, b, c) => seq![a, b, c],
        }
    }

    /// How many argument words follow the opcode word.
    pub open spec fn arity(self) -> nat {
        arity_of(self.number())
    }

    /// The words that encode this instruction: the opcode, then its arguments.
    pub open spec fn encode(self) -> Seq<u16> {
        seq![self.number()] + self.args()
    }
}

/// The number of argument words that the opcode `code` takes.
pub open spec fn arity_of(code: u16) -> nat {
    if code == 0 || code == 18 || code == 21 {
        0
    } else if code == 2 || code == 3 || code == 6 || code == 17 || code == 19 || code == 20 {
        1
    } else if code == 1 || code == 7 || code == 8 || code == 14 || code == 15 || code == 16 {
        2
    } else {
        3
    }
}

/// The instruction with opcode `code` and the argument words `a`, `b`, `c`,
/// of which it keeps as many as its arity. Meaningful for `code <= 21`.
pub open spec fn assemble(code: u16, a: u16, b: u16, c: u16) -> OpCode {
    match code {
        0 => OpCode::Halt,
        1 => OpCode::SetReg(a, b),
        2 => OpCode::Push(a),
        3 => OpCode::Pop(a),
        4 => OpCode::Eq(a, b, c),
        5 => OpCode::Gt(a, b, c),
        6 => OpCode::Jmp(a),
        7 => OpCode::Jt(a, b),
        8 => OpCode::Jf(a, b),
        9 => OpCode::Add(a, b, c),
        10 => OpCode::Mult(a, b, c),
        11 => OpCode::Mod(a, b, c),
        12 => OpCode::And(a, b, c),
        13 => OpCode::Or(a, b, c),
        14 => OpCode::Not(a, b),
        15 => OpCode::RMem(a, b),
        16 => OpCode::WMem(a, b),
        17 => OpCode::Call(a),
        18 => OpCode::Ret,
        19 => OpCode::Out(a),
        20 => OpCode::In(a),
        _ => OpCode::NoOp,
    }
}

/// What the words at the head of `words` decode to.
///
/// `words` is memory from the program counter to its end. With no word left
/// there is nothing to fetch; an opcode above 21 is unknown; a known opcode
/// whose arguments would lie beyond the end of memory cannot be fetched.
pub open spec fn decode(words: Seq<u16>) -> Result<OpCode, ErrorKind> {
    if words.len() == 0 {
        Err(ErrorKind::PcOutOfRange)
    } else if words[0] > MAX_OPCODE {
        Err(ErrorKind::UnknownOpcode)
    } else if words.len() < 1 + arity_of(words[0]) {
        Err(ErrorKind::PcOutOfRange)
    } else {
        Ok(assemble(words[0], words[1], words[2], words[3]))
    }
}

/// Decoding undoes encoding: the words of an instruction, followed by
/// anything, decode to that instruction.
pub proof fn lemma_decode_encode(op: OpCode, rest: Seq<u16>)
    ensures
        decode(op.encode() + rest) == Ok::<OpCode, ErrorKind>(op),
        op.encode().len() == 1 + op.arity(),
        op.number() <= MAX_OPCODE,
{
}

/// A successful decode returns an instruction whose encoding is the head of
/// the words it was decoded from.
pub proof fn lemma_encode_decode(words: Seq<u16>)
    ensures
        decode(words) matches Ok(op) ==> {
            &&& 1 + op.arity() <= words.len()
            &&& op.encode() == words.subrange(0, 1 + op.arity() as int)
        },
{
}

/// The argument word at `index`, if memory reaches that far.
fn argument(mem: &[u16], index: usize) -> (r: Result<u16, ErrorKind>)
    ensures
        r == if index < mem@.len() {
            Ok::<u16, ErrorKind>(mem@[index as int])
        } else {
            Err::<u16, ErrorKind>(ErrorKind::PcOutOfRange)
        },
{
    if index < mem.len() {
        Ok(mem[index])
    } else {
        Err(ErrorKind::PcOutOfRange)
    }
}

impl OpCode {
    /// Decodes the instruction at the head of `mem` and moves `ptr` past it.
    ///
    /// `mem` is memory from the program counter on, and `ptr` is the program
    /// counter. On success `ptr` has grown by the length of the instruction;
    /// on failure it is unchanged.
    pub fn get_and_increment(mem: &[u16], ptr: &mut usize) -> (r: Result<OpCode, ErrorKind>)
        requires
            *old(ptr) + 4 <= usize::MAX,
        ensures
            r == decode(mem@),
            r matches Ok(op) ==> *final(ptr) == *old(ptr) + 1 + op.arity(),
            r is Err ==> *final(ptr) == *old(ptr),
    {
        if mem.len() == 0 {
            return Err(ErrorKind::PcOutOfRange);
        }
        let code: u16 = mem[0];
        match code {
            0 => {
                *ptr += 1;
                Ok(OpCode::Halt)
            },
            1 => {
                let a = argument(mem, 1)?;
                let b = argument(mem, 2)?;
                *ptr += 3;
                Ok(OpCode::SetReg(a, b))
            },
            2 => {
                let a = argument(mem, 1)?;
                *ptr += 2;
                Ok(OpCode::Push(a))
            },
            3 => {
                let a = argument(mem, 1)?;
                *ptr += 2;
                Ok(OpCode::Pop(a))
            },
            4 => {
                let a = argument(mem, 1)?;
                let b = argument(mem, 2)?;
                let c = argument(mem, 3)?;
                *ptr += 4;
                Ok(OpCode::Eq(a, b, c))
            },
            5 => {
                let a = argument(mem, 1)?;
                let b = argument(mem, 2)?;
                let c = argument(mem, 3)?;
                *ptr += 4;
                Ok(OpCode::Gt(a, b, c))
            },
            6 => {
                let a = argument(mem, 1)?;
                *ptr += 2;
                Ok(OpCode::Jmp(a))
            },
            7 => {
                let a = argument(mem, 1)?;
                let b = argument(mem, 2)?;
                *ptr += 3;
                Ok(OpCode::Jt(a, b))
            },
            8 => {
                let a = argument(mem, 1)?;
                let b = argument(mem, 2)?;
                *ptr += 3;
                Ok(OpCode::Jf(a, b))
            },
            9 => {
                let a = argument(mem, 1)?;
                let b = argument(mem, 2)?;
                let c = argument(mem, 3)?;
                *ptr += 4;
                Ok(OpCode::Add(a, b, c))
            },
            10 => {
                let a = argument(mem, 1)?;
                let b = argument(mem, 2)?;
                let c = argument(mem, 3)?;
                *ptr += 4;
                Ok(OpCode::Mult(a, b, c))
            },
            11 => {
                let a = argument(mem, 1)?;
                let b = argument(mem, 2)?;
                let c = argument(mem, 3)?;
                *ptr += 4;
                Ok(OpCode::Mod(a, b, c))
            },
            12 => {
                let a = argument(mem, 1)?;
                let b = argument(mem, 2)?;
                let c = argument(mem, 3)?;
                *ptr += 4;
                Ok(OpCode::And(a, b, c))
            },
            13 => {
                let a = argument(mem, 1)?;
                let b = argument(mem, 2)?;
                let c = argument(mem, 3)?;
                *ptr += 4;
                Ok(OpCode::Or(a, b, c))
            },
            14 => {
                let a = argument(mem, 1)?;
                let b = argument(mem, 2)?;
                *ptr += 3;
                Ok(OpCode::Not(a, b))
            },
            15 => {
                let a = argument(mem, 1)?;
                let b = argument(mem, 2)?;
                *ptr += 3;
                Ok(OpCode::RMem(a, b))
            },
            16 => {
                let a = argument(mem, 1)?;
                let b = argument(mem, 2)?;
                *ptr += 3;
                Ok(OpCode::WMem(a, b))
            },
            17 => {
                let a = argument(mem, 1)?;
                *ptr += 2;
                Ok(OpCode::Call(a))
            },
            18 => {
                *ptr += 1;
                Ok(OpCode::Ret)
            },
            19 => {
                let a = argument(mem, 1)?;
                *ptr += 2;
                Ok(OpCode::Out(a))
            },
            20 => {
                let a = argument(mem, 1)?;
                *ptr += 2;
                Ok(OpCode::In(a))
            },
            21 => {
                *ptr += 1;
                Ok(OpCode::NoOp)
            },
            _ => Err(ErrorKind::UnknownOpcode),
        }
    }
}

} // verus!
