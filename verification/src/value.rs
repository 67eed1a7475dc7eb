//! Operand words: how a 16-bit argument is read as a literal or a register.

use vstd::prelude::*;
use vstd::std_specs::convert::TryFromSpecImpl;
use crate::error::ErrorKind;

verus! {

/// The largest literal, and the largest value a fifteen-bit word can hold.
pub const MAX_LITERAL: u16 = 32767;

/// The word that names register 0.
pub const REGISTER_BASE: u16 = 32768;

/// The number of registers.
pub const REGISTER_COUNT: usize = 8;

/// An argument word after classification.
#[derive(Clone, Copy, Debug, PartialEq, Eq, Structural)]
pub enum Value {
    /// A number used as it stands.
    Literal(u16),
    /// The index of a register.
    Register(u8),
}

impl Value {
    /// A literal fits in fifteen bits and a register index names one of the
    /// eight registers.
    pub open spec fn wf(self) -> bool {
        match self {
            Value::Literal(n) => n <= MAX_LITERAL,
            Value::Register(r) => r < REGISTER_COUNT,
        }
    }
}

/// What an argument word stands for: `0..=32767` is a literal, `32768..=32775`
/// names register `word - 32768`, and anything above is no operand at all.
pub open spec fn classify(word: u16) -> Result<Value, ErrorKind> {
    if word <= MAX_LITERAL {
        Ok(Value::Literal(word))
    } else if word < REGISTER_BASE + REGISTER_COUNT {
        Ok(Value::Register((word - REGISTER_BASE) as u8))
    } else {
        Err(ErrorKind::InvalidOperand)
    }
}

/// Every word that classifies yields a well-formed operand.
pub proof fn lemma_classify_wf(word: u16)
    ensures
        classify(word) matches Ok(v) ==> v.wf(),
        classify(word) is Err <==> word > 32775,
{
}

impl TryFrom<u16> for Value {
    type Error = ErrorKind;

    fn try_from(word: u16) -> (r: Result<Value, ErrorKind>)
        ensures
            r == classify(word),
    {
        if word <= MAX_LITERAL {
            Ok(Value::Literal(word))
        } else if word <= 32775 {
            Ok(Value::Register((word - REGISTER_BASE) as u8))
        } else {
            Err(ErrorKind::InvalidOperand)
        }
    }
}

impl TryFromSpecImpl<u16> for Value {
    open spec fn obeys_try_from_spec() -> bool {
        true
    }

    open spec fn try_from_spec(word: u16) -> Result<Value, ErrorKind> {
        classify(word)
    }
}

} // verus!
