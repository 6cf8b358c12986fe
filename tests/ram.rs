use rv32i_lib::fault::Fault;
use rv32i_lib::ram::{MemoryAccessSize, RAM, RAM_SIZE};

#[test]
fn test_ram_initialization() {
    let ram = RAM::new();
    println!("RAM initialized with size: {}", ram.data.len());
}

#[test]
fn ram_starts_zeroed_with_full_capacity() {
    let ram = RAM::new();
    assert_eq!(ram.data.len(), 64 * 1024);
    assert!(ram.data.iter().all(|&b| b == 0));
}

#[test]
fn word_is_stored_little_endian() {
    let mut ram = RAM::new();
    assert_eq!(ram.write_word(8, 0x1234_5678), Ok(()));
    assert_eq!(&ram.data[8..12], &[0x78, 0x56, 0x34, 0x12]);
    assert_eq!(ram.read_word(8), Ok(0x1234_5678));
    assert_eq!(ram.read_value(9, 2), Ok(0x3456));
    assert_eq!(ram.read_value(11, 1), Ok(0x12));
}

#[test]
fn last_word_fits_and_one_past_faults() {
    let mut ram = RAM::new();
    assert_eq!(ram.write_word(RAM_SIZE - 4, 0xAABB_CCDD), Ok(()));
    assert_eq!(ram.read_word(RAM_SIZE - 4), Ok(0xAABB_CCDD));
    assert_eq!(ram.write_word(RAM_SIZE - 3, 1), Err(Fault::OutOfBounds));
    assert_eq!(ram.read_word(RAM_SIZE - 3), Err(Fault::OutOfBounds));
    assert_eq!(ram.read_value(RAM_SIZE, 1), Err(Fault::OutOfBounds));
    assert_eq!(ram.read_word(RAM_SIZE - 4), Ok(0xAABB_CCDD));
}

#[test]
fn write_bytes_splices_and_rejects_overflow() {
    let mut ram = RAM::new();
    assert_eq!(ram.write_bytes(100, &[1, 2, 3]), Ok(()));
    assert_eq!(&ram.data[99..104], &[0, 1, 2, 3, 0]);
    assert_eq!(ram.write_bytes(RAM_SIZE - 1, &[9, 9]), Err(Fault::OutOfBounds));
    assert_eq!(ram.data[RAM_SIZE - 1], 0);
    assert_eq!(ram.write_bytes(RAM_SIZE, &[]), Ok(()));
}

#[test]
fn access_sizes() {
    assert_eq!(MemoryAccessSize::Byte.size(), 8);
    assert_eq!(MemoryAccessSize::HalfWord.size(), 16);
    assert_eq!(MemoryAccessSize::Word.size(), 32);
    assert_eq!(MemoryAccessSize::DoubleWord.size(), 64);
    assert_eq!(MemoryAccessSize::Byte.byte_size(), 1);
    assert_eq!(MemoryAccessSize::HalfWord.byte_size(), 2);
    assert_eq!(MemoryAccessSize::Word.byte_size(), 4);
    assert_eq!(MemoryAccessSize::DoubleWord.byte_size(), 8);
}

#[test]
fn default_ram_is_zeroed() {
    let ram = RAM::default();
    assert_eq!(ram.data.len(), RAM_SIZE);
    assert!(ram.data.iter().all(|&b| b == 0));
}
