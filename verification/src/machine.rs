//! The executable machine: its image loader and its single-step executor.
//!
//! Every method is specified against [`MachineState`], the model of the
//! machine. Nothing here reads or writes a stream: [`VirtualMachine::step`]
//! says what the host must do, and the host does it.

use vstd::prelude::*;
use crate::error::ErrorKind;
use crate::model::{
    image_fault, image_word, load_image, product_mod, read_value, scalar_value, sum_mod, Action,
    MachineState, MAX_IMAGE_BYTES, MEMORY_SIZE, MODULUS,
};
use crate::op_code::OpCode;
use crate::value::{Value, REGISTER_COUNT};

verus! {

/// `char::from_u32` of the standard library returns the character whose code
/// is `code` when `code` is a Unicode scalar value, that is, at most
/// `0x10FFFF` and no surrogate (`0xD800..=0xDFFF`), and `None` otherwise.
pub assume_specification[ <char>::from_u32 ](code: u32) -> (r: Option<char>)
    ensures
        r == scalar_value(code),
;

/// The Synacor virtual machine.
pub struct VirtualMachine {
    memory: [u16; 32768],
    pc: u16,
    registers: [u16; 8],
    stack: Vec<u16>,
    input: Vec<u8>,
}

impl View for VirtualMachine {
    type V = MachineState;

    closed spec fn view(&self) -> MachineState {
        MachineState {
            memory: self.memory@,
            pc: self.pc as int,
            registers: self.registers@,
            stack: self.stack@,
            input: self.input@,
        }
    }
}

impl Default for VirtualMachine {
    /// A machine with everything zero or empty.
    fn default() -> (vm: VirtualMachine)
        ensures
            vm@ == MachineState::initial(),
    {
        let vm = VirtualMachine {
            memory: [0; 32768],
            pc: 0,
            registers: [0; 8],
            stack: Vec::new(),
            input: Vec::new(),
        };
        assert(vm@.memory =~= MachineState::initial().memory);
        assert(vm@.registers =~= MachineState::initial().registers);
        vm
    }
}

impl VirtualMachine {
    /// Every machine has the shape that [`MachineState::wf`] describes.
    pub proof fn lemma_wf(&self)
        ensures
            self@.wf(),
    {
    }

    /// The address of the next instruction.
    pub fn pc(&self) -> (pc: u16)
        ensures
            pc == self@.pc,
    {
        self.pc
    }

    /// The eight registers.
    pub fn registers(&self) -> (registers: &[u16; 8])
        ensures
            registers@ == self@.registers,
    {
        &self.registers
    }

    /// The whole of memory.
    pub fn memory(&self) -> (memory: &[u16; 32768])
        ensures
            memory@ == self@.memory,
    {
        &self.memory
    }

    /// The stack, its top last.
    pub fn stack(&self) -> (stack: &Vec<u16>)
        ensures
            stack@ == self@.stack,
    {
        &self.stack
    }

    /// The bytes that `in` has yet to deliver, the next one first.
    pub fn input(&self) -> (input: &Vec<u8>)
        ensures
            input@ == self@.input,
    {
        &self.input
    }

    /// Lays the image `binary` over memory from address 0, two bytes to a
    /// word, low byte first. Memory beyond the image keeps what it held.
    ///
    /// An image of more than 65536 bytes is too large, and one of odd length
    /// is truncated; neither touches the machine.
    pub fn copy_binary_to_mem(&mut self, binary: &[u8]) -> (r: Result<(), ErrorKind>)
        ensures
            match image_fault(binary@) {
                Some(e) => r == Err::<(), ErrorKind>(e) && final(self)@ == old(self)@,
                None => r == Ok::<(), ErrorKind>(()) && final(self)@ == (MachineState {
                    memory: load_image(old(self)@.memory, binary@),
                    ..old(self)@
                }),
            },
    {
        let len = binary.len();
        if len > MAX_IMAGE_BYTES {
            return Err(ErrorKind::ImageTooLarge);
        }
        if len % 2 != 0 {
            return Err(ErrorKind::ImageTruncated);
        }
        let words = len / 2;
        let mut addr: usize = 0;
        while addr < words
            invariant
                words == binary@.len() / 2,
                binary@.len() == 2 * words,
                words <= MEMORY_SIZE,
                addr <= words,
                self.pc == old(self).pc,
                self.registers == old(self).registers,
                self.stack == old(self).stack,
                self.input == old(self).input,
                forall|i: int| 0 <= i < addr ==> self.memory@[i] == image_word(binary@, i),
                forall|i: int| addr <= i < MEMORY_SIZE ==> self.memory@[i] == old(self).memory@[i],
            decreases words - addr,
        {
            let lo = binary[2 * addr];
            let hi = binary[2 * addr + 1];
            self.memory[addr] = lo as u16 + 256 * (hi as u16);
            addr += 1;
        }
        assert(self.memory@ =~= load_image(old(self).memory@, binary@));
        Ok(())
    }

    /// Appends a line read from the host to the input buffer, byte for byte.
    ///
    /// An empty `line` is how the host says that its input has ended: it is
    /// refused with `InputExhausted` and the machine is left as it was.
    pub fn feed_line(&mut self, line: &[u8]) -> (r: Result<(), ErrorKind>)
        ensures
            line@.len() == 0 ==> {
                &&& r == Err::<(), ErrorKind>(ErrorKind::InputExhausted)
                &&& final(self)@ == old(self)@
            },
            line@.len() > 0 ==> {
                &&& r == Ok::<(), ErrorKind>(())
                &&& final(self)@ == (MachineState {
                    input: old(self)@.input + line@,
                    ..old(self)@
                })
            },
    {
        if line.len() == 0 {
            return Err(ErrorKind::InputExhausted);
        }
        self.input.extend_from_slice(line);
        assert(self.input@ =~= old(self).input@ + line@);
        Ok(())
    }

    /// The value that `val` reads: a literal is itself, a register is its
    /// content. A register operand must name one of the eight registers.
    pub fn get_value_from_enum(&self, val: Value) -> (r: u16)
        requires
            val matches Value::Register(reg) ==> reg < REGISTER_COUNT,
        ensures
            r == read_value(self@.registers, val),
    {
        match val {
            Value::Literal(val) => val,
            Value::Register(reg) => self.registers[reg as usize],
        }
    }

    /// The index of the register that `val` names. A literal is no place to
    /// write to. A register operand must name one of the eight registers.
    pub fn get_register_from_enum(&self, val: Value) -> (r: Result<usize, ErrorKind>)
        requires
            val matches Value::Register(reg) ==> reg < REGISTER_COUNT,
        ensures
            r matches Ok(index) ==> index < REGISTER_COUNT,
            r == match val {
                Value::Register(reg) => Ok::<usize, ErrorKind>(reg as usize),
                Value::Literal(_) => Err::<usize, ErrorKind>(ErrorKind::InvalidWriteTarget),
            },
    {
        match val {
            Value::Register(reg) => Ok(reg as usize),
            Value::Literal(_) => Err(ErrorKind::InvalidWriteTarget),
        }
    }

    /// `(a + b) mod 32768`.
    pub fn add(a: u16, b: u16) -> (r: u16)
        ensures
            r == sum_mod(a, b),
            r == (a + b) % 32768,
    {
        ((a as u32 + b as u32) % MODULUS) as u16
    }

    /// `(a * b) mod 32768`.
    pub fn mult(a: u16, b: u16) -> (r: u16)
        ensures
            r == product_mod(a, b),
            r == (a * b) % 32768,
    {
        assert(a * b <= 65535 * 65535) by (nonlinear_arith)
            requires
                a <= 65535,
                b <= 65535,
        ;
        ((a as u32 * b as u32) % MODULUS) as u16
    }

    /// Executes the instruction at the program counter.
    ///
    /// The result and the machine afterwards are those of
    /// [`MachineState::step`]. A step that faults, or that finds the input
    /// buffer empty, leaves the machine exactly as it was.
    pub fn step(&mut self) -> (r: Result<Action, ErrorKind>)
        ensures
            match old(self)@.step() {
                Ok((next, action)) => r == Ok::<Action, ErrorKind>(action) && final(self)@ == next,
                Err(e) => r == Err::<Action, ErrorKind>(e) && final(self)@ == old(self)@,
            },
    {
        let mut ptr: usize = self.pc as usize;
        if ptr >= MEMORY_SIZE {
            return Err(ErrorKind::PcOutOfRange);
        }
        let code = OpCode::get_and_increment(&self.memory[ptr..MEMORY_SIZE], &mut ptr)?;
        let next: u16 = ptr as u16;
        match code {
            OpCode::Halt => {
                self.pc = next;
                Ok(Action::Halt)
            },
            OpCode::SetReg(a, b) => {
                let val = self.get_value_from_enum(Value::try_from(b)?);
                let reg = self.get_register_from_enum(Value::try_from(a)?)?;
                self.registers[reg] = val;
                self.pc = next;
                Ok(Action::Proceed)
            },
            OpCode::Push(a) => {
                let val = self.get_value_from_enum(Value::try_from(a)?);
                self.stack.push(val);
                self.pc = next;
                Ok(Action::Proceed)
            },
            OpCode::Pop(a) => {
                if self.stack.len() == 0 {
                    return Err(ErrorKind::StackUnderflow);
                }
                let reg = self.get_register_from_enum(Value::try_from(a)?)?;
                if let Some(val) = self.stack.pop() {
                    self.registers[reg] = val;
                }
                self.pc = next;
                Ok(Action::Proceed)
            },
            OpCode::Eq(a, b, c) => {
                let val_b = self.get_value_from_enum(Value::try_from(b)?);
                let val_c = self.get_value_from_enum(Value::try_from(c)?);
                let reg = self.get_register_from_enum(Value::try_from(a)?)?;
                self.registers[reg] = if val_b == val_c { 1 } else { 0 };
                self.pc = next;
                Ok(Action::Proceed)
            },
            OpCode::Gt(a, b, c) => {
                let val_b = self.get_value_from_enum(Value::try_from(b)?);
                let val_c = self.get_value_from_enum(Value::try_from(c)?);
                let reg = self.get_register_from_enum(Value::try_from(a)?)?;
                self.registers[reg] = if val_b > val_c { 1 } else { 0 };
                self.pc = next;
                Ok(Action::Proceed)
            },
            OpCode::Jmp(a) => {
                let val_a = self.get_value_from_enum(Value::try_from(a)?);
                self.pc = val_a;
                Ok(Action::Proceed)
            },
            OpCode::Jt(a, b) => {
                let val_a = self.get_value_from_enum(Value::try_from(a)?);
                let val_b = self.get_value_from_enum(Value::try_from(b)?);
                self.pc = if val_a != 0 { val_b } else { next };
                Ok(Action::Proceed)
            },
            OpCode::Jf(a, b) => {
                let val_a = self.get_value_from_enum(Value::try_from(a)?);
                let val_b = self.get_value_from_enum(Value::try_from(b)?);
                self.pc = if val_a == 0 { val_b } else { next };
                Ok(Action::Proceed)
            },
            OpCode::Add(a, b, c) => {
                let val_b = self.get_value_from_enum(Value::try_from(b)?);
                let val_c = self.get_value_from_enum(Value::try_from(c)?);
                let reg = self.get_register_from_enum(Value::try_from(a)?)?;
                self.registers[reg] = VirtualMachine::add(val_b, val_c);
                self.pc = next;
                Ok(Action::Proceed)
            },
            OpCode::Mult(a, b, c) => {
                let val_b = self.get_value_from_enum(Value::try_from(b)?);
                let val_c = self.get_value_from_enum(Value::try_from(c)?);
                let reg = self.get_register_from_enum(Value::try_from(a)?)?;
                self.registers[reg] = VirtualMachine::mult(val_b, val_c);
                self.pc = next;
                Ok(Action::Proceed)
            },
            OpCode::Mod(a, b, c) => {
                let val_b = self.get_value_from_enum(Value::try_from(b)?);
                let val_c = self.get_value_from_enum(Value::try_from(c)?);
                let reg = self.get_register_from_enum(Value::try_from(a)?)?;
                if val_c == 0 {
                    return Err(ErrorKind::DivisionByZero);
                }
                self.registers[reg] = val_b % val_c;
                self.pc = next;
                Ok(Action::Proceed)
            },
            OpCode::And(a, b, c) => {
                let val_b = self.get_value_from_enum(Value::try_from(b)?);
                let val_c = self.get_value_from_enum(Value::try_from(c)?);
                let reg = self.get_register_from_enum(Value::try_from(a)?)?;
                self.registers[reg] = val_b & val_c;
                self.pc = next;
                Ok(Action::Proceed)
            },
            OpCode::Or(a, b, c) => {
                let val_b = self.get_value_from_enum(Value::try_from(b)?);
                let val_c = self.get_value_from_enum(Value::try_from(c)?);
                let reg = self.get_register_from_enum(Value::try_from(a)?)?;
                self.registers[reg] = val_b | val_c;
                self.pc = next;
                Ok(Action::Proceed)
            },
            OpCode::Not(a, b) => {
                let val = self.get_value_from_enum(Value::try_from(b)?);
                let reg = self.get_register_from_enum(Value::try_from(a)?)?;
                self.registers[reg] = !val & 0x7FFF;
                self.pc = next;
                Ok(Action::Proceed)
            },
            OpCode::RMem(a, b) => {
                let addr = self.get_value_from_enum(Value::try_from(b)?) as usize;
                if addr >= MEMORY_SIZE {
                    return Err(ErrorKind::InvalidOperand);
                }
                let reg = self.get_register_from_enum(Value::try_from(a)?)?;
                self.registers[reg] = self.memory[addr];
                self.pc = next;
                Ok(Action::Proceed)
            },
            OpCode::WMem(a, b) => {
                let addr = self.get_value_from_enum(Value::try_from(a)?) as usize;
                let val_b = self.get_value_from_enum(Value::try_from(b)?);
                if addr >= MEMORY_SIZE {
                    return Err(ErrorKind::InvalidOperand);
                }
                self.memory[addr] = val_b;
                self.pc = next;
                Ok(Action::Proceed)
            },
            OpCode::Call(a) => {
                let val = self.get_value_from_enum(Value::try_from(a)?);
                self.stack.push(next);
                self.pc = val;
                Ok(Action::Proceed)
            },
            OpCode::Ret => {
                if let Some(val) = self.stack.pop() {
                    self.pc = val;
                    Ok(Action::Proceed)
                } else {
                    Err(ErrorKind::StackUnderflow)
                }
            },
            OpCode::Out(a) => {
                let val = self.get_value_from_enum(Value::try_from(a)?);
                self.pc = next;
                if let Some(c) = char::from_u32(val as u32) {
                    Ok(Action::Emit(c))
                } else {
                    Ok(Action::Proceed)
                }
            },
            OpCode::In(a) => {
                if self.input.len() == 0 {
                    return Ok(Action::AwaitInput);
                }
                let reg = self.get_register_from_enum(Value::try_from(a)?)?;
                let val = self.input.remove(0);
                self.registers[reg] = val as u16;
                self.pc = next;
                Ok(Action::Proceed)
            },
            OpCode::NoOp => {
                self.pc = next;
                Ok(Action::Proceed)
            },
        }
    }
}

} // verus!
