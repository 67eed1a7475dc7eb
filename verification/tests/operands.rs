use synacore_rs::{ErrorKind, Value, VirtualMachine};

fn machine_with_registers(words: &[u16]) -> VirtualMachine {
    // `set r_i words[i]` for each register, run to the end of the program.
    let mut image: Vec<u8> = Vec::new();
    for (i, w) in words.iter().enumerate() {
        for word in [1u16, 32768 + i as u16, *w] {
            image.push((word & 0xFF) as u8);
            image.push((word >> 8) as u8);
        }
    }
    let mut vm = VirtualMachine::default();
    vm.copy_binary_to_mem(&image).unwrap();
    for _ in 0..words.len() {
        vm.step().unwrap();
    }
    vm
}

#[test]
fn operand_boundaries() {
    assert_eq!(Value::try_from(32767u16), Ok(Value::Literal(32767)));
    assert_eq!(Value::try_from(32768u16), Ok(Value::Register(0)));
    assert_eq!(Value::try_from(32775u16), Ok(Value::Register(7)));
    assert_eq!(Value::try_from(32776u16), Err(ErrorKind::InvalidOperand));
}

#[test]
fn operand_classes() {
    assert_eq!(Value::try_from(0u16), Ok(Value::Literal(0)));
    assert_eq!(Value::try_from(72u16), Ok(Value::Literal(72)));
    assert_eq!(Value::try_from(32771u16), Ok(Value::Register(3)));
    assert_eq!(Value::try_from(35775u16), Err(ErrorKind::InvalidOperand));
    assert_eq!(Value::try_from(65535u16), Err(ErrorKind::InvalidOperand));
}

#[test]
fn every_word_is_classified_by_its_range() {
    for word in 0..=u16::MAX {
        let expected = if word <= 32767 {
            Ok(Value::Literal(word))
        } else if word <= 32775 {
            Ok(Value::Register((word - 32768) as u8))
        } else {
            Err(ErrorKind::InvalidOperand)
        };
        assert_eq!(Value::try_from(word), expected);
    }
}

#[test]
fn literal_reads_as_itself() {
    let vm = machine_with_registers(&[5, 6]);
    assert_eq!(vm.get_value_from_enum(Value::Literal(0)), 0);
    assert_eq!(vm.get_value_from_enum(Value::Literal(32767)), 32767);
}

#[test]
fn register_reads_as_its_content() {
    let vm = machine_with_registers(&[10, 20, 30, 40, 50, 60, 70, 80]);
    assert_eq!(vm.registers(), &[10, 20, 30, 40, 50, 60, 70, 80]);
    for reg in 0..8u8 {
        assert_eq!(vm.get_value_from_enum(Value::Register(reg)), 10 * (reg as u16 + 1));
    }
}

#[test]
fn only_a_register_is_a_write_target() {
    let vm = VirtualMachine::default();
    assert_eq!(vm.get_register_from_enum(Value::Register(0)), Ok(0));
    assert_eq!(vm.get_register_from_enum(Value::Register(7)), Ok(7));
    assert_eq!(
        vm.get_register_from_enum(Value::Literal(3)),
        Err(ErrorKind::InvalidWriteTarget)
    );
}

#[test]
fn add_wraps_at_32768() {
    assert_eq!(VirtualMachine::add(32767, 2), 1);
    assert_eq!(VirtualMachine::add(32767, 1), 0);
    assert_eq!(VirtualMachine::add(32767, 32767), 32766);
    assert_eq!(VirtualMachine::add(1, 2), 3);
    assert_eq!(VirtualMachine::add(0, 0), 0);
    assert_eq!(VirtualMachine::add(65535, 65535), 32766);
}

#[test]
fn mult_wraps_at_32768() {
    assert_eq!(VirtualMachine::mult(3, 4), 12);
    assert_eq!(VirtualMachine::mult(32767, 2), 32766);
    assert_eq!(VirtualMachine::mult(32767, 32767), 1);
    assert_eq!(VirtualMachine::mult(256, 128), 0);
    assert_eq!(VirtualMachine::mult(0, 32767), 0);
    assert_eq!(VirtualMachine::mult(65535, 65535), 1);
}

#[test]
fn add_and_mult_agree_with_wide_arithmetic() {
    let samples = [0u16, 1, 2, 3, 127, 128, 255, 256, 1000, 16383, 16384, 32766, 32767];
    for b in samples {
        for c in samples {
            let sum = (b as u32 + c as u32) % 32768;
            let product = (b as u32 * c as u32) % 32768;
            assert_eq!(VirtualMachine::add(b, c) as u32, sum);
            assert_eq!(VirtualMachine::mult(b, c) as u32, product);
            assert!(VirtualMachine::add(b, c) <= 32767);
            assert!(VirtualMachine::mult(b, c) <= 32767);
        }
    }
}
