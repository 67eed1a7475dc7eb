//! A verified interpreter core for the Synacor Challenge virtual machine.
//!
//! The machine has 32768 words of memory, eight registers, an unbounded
//! stack and twenty-two instructions. This crate holds everything that can
//! be decided without touching the host: loading an image, decoding an
//! instruction, resolving operands, and executing one instruction at a
//! time. Character output and line input are handed to the caller as
//! [`Action`]s, so the host loop only performs I/O.

pub mod error;
pub mod laws;
pub mod machine;
pub mod model;
pub mod op_code;
pub mod value;

pub use error::ErrorKind;
pub use machine::VirtualMachine;
pub use model::Action;
pub use op_code::OpCode;
pub use value::Value;
