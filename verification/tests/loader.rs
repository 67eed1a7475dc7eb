use synacore_rs::{ErrorKind, VirtualMachine};

fn bytes_of(words: &[u16]) -> Vec<u8> {
    let mut bytes = Vec::new();
    for w in words {
        bytes.push((w & 0xFF) as u8);
        bytes.push((w >> 8) as u8);
    }
    bytes
}

#[test]
fn new_machine_is_all_zero() {
    let vm = VirtualMachine::default();
    assert_eq!(vm.pc(), 0);
    assert_eq!(vm.registers(), &[0u16; 8]);
    assert!(vm.memory().iter().all(|w| *w == 0));
    assert_eq!(vm.memory().len(), 32768);
    assert!(vm.stack().is_empty());
    assert!(vm.input().is_empty());
}

#[test]
fn words_are_little_endian() {
    let mut vm = VirtualMachine::default();
    assert_eq!(vm.copy_binary_to_mem(&[0x34, 0x12, 0xFF, 0x7F, 0x00, 0x80]), Ok(()));
    assert_eq!(vm.memory()[0], 0x1234);
    assert_eq!(vm.memory()[1], 0x7FFF);
    assert_eq!(vm.memory()[2], 0x8000);
}

#[test]
fn memory_beyond_the_image_stays_zero() {
    let mut vm = VirtualMachine::default();
    assert_eq!(vm.copy_binary_to_mem(&bytes_of(&[19, 65, 19, 66, 0])), Ok(()));
    assert_eq!(&vm.memory()[..5], &[19, 65, 19, 66, 0]);
    assert!(vm.memory()[5..].iter().all(|w| *w == 0));
}

#[test]
fn loading_touches_nothing_but_memory() {
    let mut vm = VirtualMachine::default();
    vm.copy_binary_to_mem(&bytes_of(&[2, 7, 1, 32768, 9])).unwrap();
    vm.step().unwrap();
    vm.step().unwrap();
    vm.feed_line(b"hi\n").unwrap();
    assert_eq!(vm.copy_binary_to_mem(&bytes_of(&[21, 21])), Ok(()));
    assert_eq!(vm.pc(), 5);
    assert_eq!(vm.registers()[0], 9);
    assert_eq!(vm.stack(), &vec![7]);
    assert_eq!(vm.input(), &b"hi\n".to_vec());
    assert_eq!(&vm.memory()[..5], &[21, 21, 1, 32768, 9]);
}

#[test]
fn empty_image_loads() {
    let mut vm = VirtualMachine::default();
    assert_eq!(vm.copy_binary_to_mem(&[]), Ok(()));
    assert!(vm.memory().iter().all(|w| *w == 0));
}

#[test]
fn odd_length_is_truncated() {
    let mut vm = VirtualMachine::default();
    assert_eq!(vm.copy_binary_to_mem(&[19]), Err(ErrorKind::ImageTruncated));
    assert_eq!(vm.copy_binary_to_mem(&[19, 0, 65]), Err(ErrorKind::ImageTruncated));
    assert!(vm.memory().iter().all(|w| *w == 0));
}

#[test]
fn full_image_loads() {
    let mut image = vec![0u8; 65536];
    image[65534] = 0x15;
    image[65535] = 0x00;
    let mut vm = VirtualMachine::default();
    assert_eq!(vm.copy_binary_to_mem(&image), Ok(()));
    assert_eq!(vm.memory()[32767], 21);
}

#[test]
fn more_than_32768_words_is_too_large() {
    let mut vm = VirtualMachine::default();
    assert_eq!(vm.copy_binary_to_mem(&vec![1u8; 65538]), Err(ErrorKind::ImageTooLarge));
    assert_eq!(vm.copy_binary_to_mem(&vec![1u8; 65537]), Err(ErrorKind::ImageTooLarge));
    assert!(vm.memory().iter().all(|w| *w == 0));
}

#[test]
fn loaded_words_read_back_as_the_image() {
    let mut image: Vec<u8> = Vec::new();
    for i in 0..2000u32 {
        image.push((i * 37 % 256) as u8);
        image.push((i * 101 % 256) as u8);
    }
    let mut vm = VirtualMachine::default();
    assert_eq!(vm.copy_binary_to_mem(&image), Ok(()));
    let mut back: Vec<u8> = Vec::new();
    for w in &vm.memory()[..image.len() / 2] {
        back.push((w % 256) as u8);
        back.push((w / 256) as u8);
    }
    assert_eq!(back, image);
}

#[test]
fn empty_line_means_input_exhausted() {
    let mut vm = VirtualMachine::default();
    assert_eq!(vm.feed_line(b""), Err(ErrorKind::InputExhausted));
    assert!(vm.input().is_empty());
}

#[test]
fn lines_are_appended_byte_for_byte() {
    let mut vm = VirtualMachine::default();
    assert_eq!(vm.feed_line(b"  take  lamp \n"), Ok(()));
    assert_eq!(vm.input(), &b"  take  lamp \n".to_vec());
    assert_eq!(vm.feed_line(b"go"), Ok(()));
    assert_eq!(vm.input(), &b"  take  lamp \ngo".to_vec());
}
