use m68k_core::memory::{ByteMemory, Fault, Memory, MemoryIter, WordMemory, MEMORY_CAPACITY};

#[test]
fn byte_memory_round_trip_all_widths() {
    let mut m = ByteMemory::new(64);
    assert_eq!(m.write_at_address_byte(10, 0xAB), Ok(()));
    assert_eq!(m.read_at_address_byte(10), Some(0xAB));
    assert_eq!(m.write_at_address_word(20, 0xBEEF), Ok(()));
    assert_eq!(m.read_at_address_word(20), Some(0xBEEF));
    assert_eq!(m.write_at_address_long(30, 0xDEADBEEF), Ok(()));
    assert_eq!(m.read_at_address_long(30), Some(0xDEADBEEF));
}

#[test]
fn word_memory_round_trip_all_widths() {
    let mut m = WordMemory::new(32);
    assert_eq!(m.write_at_address_byte(10, 0xAB), Ok(()));
    assert_eq!(m.read_at_address_byte(10), Some(0xAB));
    assert_eq!(m.write_at_address_word(21, 0xBEEF), Ok(()));
    assert_eq!(m.read_at_address_word(21), Some(0xBEEF));
    assert_eq!(m.write_at_address_long(33, 0xDEADBEEF), Ok(()));
    assert_eq!(m.read_at_address_long(33), Some(0xDEADBEEF));
}

#[test]
fn out_of_bounds_fails_and_leaves_bytes_unmodified() {
    let mut m = ByteMemory::from_image(vec![1, 2, 3, 4]);
    assert_eq!(m.read_at_address_byte(4), None);
    assert_eq!(m.read_at_address_word(3), None);
    assert_eq!(m.read_at_address_long(1), None);
    assert_eq!(m.write_at_address_byte(4, 9), Err(Fault::OutOfBounds));
    assert_eq!(m.write_at_address_word(3, 0x0909), Err(Fault::OutOfBounds));
    assert_eq!(m.write_at_address_long(1, 0x09090909), Err(Fault::OutOfBounds));
    for a in 0..4 {
        assert_eq!(m.read_at_address_byte(a), Some((a + 1) as u8));
    }
}

#[test]
fn word_memory_out_of_bounds_fails_cleanly() {
    let mut m = WordMemory::from_cells(vec![0x0102, 0x0304]);
    assert_eq!(m.read_at_address_byte(4), None);
    assert_eq!(m.read_at_address_word(3), None);
    assert_eq!(m.write_at_address_word(3, 0xFFFF), Err(Fault::OutOfBounds));
    assert_eq!(m.write_at_address_long(2, 0xFFFF_FFFF), Err(Fault::OutOfBounds));
    for a in 0..4 {
        assert_eq!(m.read_at_address_byte(a), Some((a + 1) as u8));
    }
}

#[test]
fn words_and_longs_are_big_endian() {
    let mut m = ByteMemory::new(8);
    assert_eq!(m.write_at_address_word(0, 0x1234), Ok(()));
    assert_eq!(m.read_at_address_byte(0), Some(0x12));
    assert_eq!(m.read_at_address_byte(1), Some(0x34));
    assert_eq!(m.write_at_address_long(4, 0x01020304), Ok(()));
    assert_eq!(m.read_at_address_byte(4), Some(0x01));
    assert_eq!(m.read_at_address_byte(5), Some(0x02));
    assert_eq!(m.read_at_address_byte(6), Some(0x03));
    assert_eq!(m.read_at_address_byte(7), Some(0x04));
}

#[test]
fn both_backings_agree_on_identical_content() {
    let mut b = ByteMemory::from_image(vec![0x12, 0x34, 0x56, 0x78]);
    let mut w = WordMemory::from_cells(vec![0x1234, 0x5678]);
    for a in 0..4 {
        assert_eq!(b.read_at_address_byte(a), w.read_at_address_byte(a));
    }
    assert_eq!(b.read_at_address_word(1), Some(0x3456));
    assert_eq!(w.read_at_address_word(1), Some(0x3456));
    assert_eq!(b.read_at_address_long(0), w.read_at_address_long(0));
    assert_eq!(b.write_at_address_word(1, 0xA1B2), Ok(()));
    assert_eq!(w.write_at_address_word(1, 0xA1B2), Ok(()));
    for a in 0..4 {
        assert_eq!(b.read_at_address_byte(a), w.read_at_address_byte(a));
    }
}

#[test]
fn iterator_yields_successive_words() {
    let m = ByteMemory::from_image(vec![0x12, 0x34, 0x56, 0x78, 0x9A, 0xBC]);
    let mut it = m.iter(0);
    assert_eq!(it.next(&m), Ok(0x1234));
    assert_eq!(it.next(&m), Ok(0x5678));
    assert_eq!(it.next(&m), Ok(0x9ABC));
    assert_eq!(it.next(&m), Err(Fault::OutOfBounds));
}

#[test]
fn iterator_fails_on_odd_start() {
    let m = ByteMemory::from_image(vec![0x12, 0x34, 0x56, 0x78]);
    let mut it = MemoryIter::new(1);
    assert_eq!(it.next(&m), Err(Fault::MisalignedFetch));
    assert_eq!(it.next(&m), Err(Fault::MisalignedFetch));
}

#[test]
fn capacity_constant_is_the_reference_capacity() {
    assert_eq!(MEMORY_CAPACITY, 0x50_0000);
}
