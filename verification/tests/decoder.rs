use synacore_rs::{ErrorKind, OpCode};

fn decode_at(words: &[u16], start: usize) -> (Result<OpCode, ErrorKind>, usize) {
    let mut ptr = start;
    let result = OpCode::get_and_increment(words, &mut ptr);
    (result, ptr)
}

#[test]
fn decodes_every_instruction_without_arguments() {
    assert_eq!(decode_at(&[0], 0), (Ok(OpCode::Halt), 1));
    assert_eq!(decode_at(&[18], 7), (Ok(OpCode::Ret), 8));
    assert_eq!(decode_at(&[21], 32767), (Ok(OpCode::NoOp), 32768));
}

#[test]
fn decodes_every_instruction_with_one_argument() {
    assert_eq!(decode_at(&[2, 11], 0), (Ok(OpCode::Push(11)), 2));
    assert_eq!(decode_at(&[3, 32768], 0), (Ok(OpCode::Pop(32768)), 2));
    assert_eq!(decode_at(&[6, 100], 5), (Ok(OpCode::Jmp(100)), 7));
    assert_eq!(decode_at(&[17, 4], 0), (Ok(OpCode::Call(4)), 2));
    assert_eq!(decode_at(&[19, 65], 0), (Ok(OpCode::Out(65)), 2));
    assert_eq!(decode_at(&[20, 32775], 0), (Ok(OpCode::In(32775)), 2));
}

#[test]
fn decodes_every_instruction_with_two_arguments() {
    assert_eq!(decode_at(&[1, 32768, 72], 0), (Ok(OpCode::SetReg(32768, 72)), 3));
    assert_eq!(decode_at(&[7, 1, 2], 0), (Ok(OpCode::Jt(1, 2)), 3));
    assert_eq!(decode_at(&[8, 32768, 6], 3), (Ok(OpCode::Jf(32768, 6)), 6));
    assert_eq!(decode_at(&[14, 32769, 5], 0), (Ok(OpCode::Not(32769, 5)), 3));
    assert_eq!(decode_at(&[15, 32768, 9], 0), (Ok(OpCode::RMem(32768, 9)), 3));
    assert_eq!(decode_at(&[16, 9, 32768], 0), (Ok(OpCode::WMem(9, 32768)), 3));
}

#[test]
fn decodes_every_instruction_with_three_arguments() {
    assert_eq!(decode_at(&[4, 32768, 1, 2], 0), (Ok(OpCode::Eq(32768, 1, 2)), 4));
    assert_eq!(decode_at(&[5, 32768, 1, 2], 0), (Ok(OpCode::Gt(32768, 1, 2)), 4));
    assert_eq!(decode_at(&[9, 32768, 32767, 2], 10), (Ok(OpCode::Add(32768, 32767, 2)), 14));
    assert_eq!(decode_at(&[10, 32768, 3, 4], 0), (Ok(OpCode::Mult(32768, 3, 4)), 4));
    assert_eq!(decode_at(&[11, 32768, 5, 0], 0), (Ok(OpCode::Mod(32768, 5, 0)), 4));
    assert_eq!(decode_at(&[12, 32768, 6, 3], 0), (Ok(OpCode::And(32768, 6, 3)), 4));
    assert_eq!(decode_at(&[13, 32768, 6, 3], 0), (Ok(OpCode::Or(32768, 6, 3)), 4));
}

#[test]
fn decoder_reads_only_the_head_of_memory() {
    assert_eq!(decode_at(&[19, 65, 19, 66, 0], 0), (Ok(OpCode::Out(65)), 2));
    assert_eq!(decode_at(&[21, 9, 9, 9, 9], 0), (Ok(OpCode::NoOp), 1));
}

#[test]
fn decoder_hands_argument_words_on_unresolved() {
    assert_eq!(decode_at(&[1, 5, 65535], 0), (Ok(OpCode::SetReg(5, 65535)), 3));
    assert_eq!(decode_at(&[3, 40000], 0), (Ok(OpCode::Pop(40000)), 2));
}

#[test]
fn decoding_nothing_is_out_of_range() {
    assert_eq!(decode_at(&[], 32768), (Err(ErrorKind::PcOutOfRange), 32768));
}

#[test]
fn opcode_above_twenty_one_is_unknown() {
    assert_eq!(decode_at(&[22], 0), (Err(ErrorKind::UnknownOpcode), 0));
    assert_eq!(decode_at(&[65, 0, 0, 0], 3), (Err(ErrorKind::UnknownOpcode), 3));
    assert_eq!(decode_at(&[65535], 0), (Err(ErrorKind::UnknownOpcode), 0));
}

#[test]
fn missing_arguments_are_out_of_range() {
    assert_eq!(decode_at(&[2], 32767), (Err(ErrorKind::PcOutOfRange), 32767));
    assert_eq!(decode_at(&[1, 32768], 32766), (Err(ErrorKind::PcOutOfRange), 32766));
    assert_eq!(decode_at(&[9, 32768, 1], 32765), (Err(ErrorKind::PcOutOfRange), 32765));
    assert_eq!(decode_at(&[9, 32768], 32766), (Err(ErrorKind::PcOutOfRange), 32766));
    assert_eq!(decode_at(&[9], 32767), (Err(ErrorKind::PcOutOfRange), 32767));
}

#[test]
fn instruction_that_ends_with_memory_decodes() {
    assert_eq!(decode_at(&[9, 32768, 1, 2], 32764), (Ok(OpCode::Add(32768, 1, 2)), 32768));
    assert_eq!(decode_at(&[17, 5], 32766), (Ok(OpCode::Call(5)), 32768));
}
