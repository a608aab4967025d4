//! The arena and the string codec: round trips, checked failures, and the
//! release discipline.

use adding_machine::{Arena, ArenaError, CodecError};

#[test]
fn string_round_trip() {
    let mut arena = Arena::new(64);
    let ptr = arena.allocate(32).unwrap();
    let n = adding_machine::codec::encode_into(&mut arena, "h\u{e9}llo \u{2602}", ptr).unwrap();
    let text = adding_machine::codec::decode(&arena, ptr, n).unwrap();
    assert_eq!(text, "h\u{e9}llo \u{2602}");
    assert!(arena.deallocate(ptr, 32).is_ok());
}

#[test]
fn empty_string_round_trip() {
    let mut arena = Arena::new(8);
    let ptr = arena.allocate(0).unwrap();
    let n = adding_machine::codec::encode_into(&mut arena, "", ptr).unwrap();
    assert_eq!(n, 0);
    let text = adding_machine::codec::decode(&arena, ptr, 0).unwrap();
    assert_eq!(text, "");
}

#[test]
fn byte_round_trip_at_full_capacity() {
    let mut arena = Arena::new(16);
    let ptr = arena.allocate(4).unwrap();
    arena.write(ptr, &[9u8, 8, 7, 6]).unwrap();
    assert_eq!(arena.read(ptr, 4).unwrap(), vec![9u8, 8, 7, 6]);
}

#[test]
fn allocations_do_not_overlap() {
    let mut arena = Arena::new(32);
    let a = arena.allocate(8).unwrap();
    let b = arena.allocate(8).unwrap();
    assert!(a + 8 <= b || b + 8 <= a);
    arena.write(a, &[1u8; 8]).unwrap();
    arena.write(b, &[2u8; 8]).unwrap();
    assert_eq!(arena.read(a, 8).unwrap(), vec![1u8; 8]);
    assert_eq!(arena.read(b, 8).unwrap(), vec![2u8; 8]);
}

#[test]
fn allocate_fails_when_memory_is_exhausted() {
    let mut arena = Arena::new(4);
    assert_eq!(arena.allocate(8), Err(ArenaError::OutOfMemory));
    let ptr = arena.allocate(4).unwrap();
    assert_eq!(ptr, 0);
    assert_eq!(arena.allocate(1), Err(ArenaError::OutOfMemory));
}

#[test]
fn double_free_reports_error() {
    let mut arena = Arena::new(64);
    let ptr = arena.allocate(8).unwrap();
    assert!(arena.deallocate(ptr, 8).is_ok());
    assert_eq!(arena.deallocate(ptr, 8), Err(ArenaError::NotLive));
}

#[test]
fn deallocate_unknown_pair_reports_error() {
    let mut arena = Arena::new(64);
    let ptr = arena.allocate(8).unwrap();
    assert_eq!(arena.deallocate(ptr, 7), Err(ArenaError::NotLive));
    assert_eq!(arena.deallocate(ptr + 1, 8), Err(ArenaError::NotLive));
    assert!(arena.deallocate(ptr, 8).is_ok());
}

#[test]
fn write_checks_the_allocation() {
    let mut arena = Arena::new(16);
    let ptr = arena.allocate(4).unwrap();
    assert_eq!(arena.write(ptr + 1, &[1u8]), Err(ArenaError::NoSuchAllocation));
    assert_eq!(arena.write(ptr, &[1u8; 5]), Err(ArenaError::CapacityExceeded));
    assert!(arena.write(ptr, &[1u8; 4]).is_ok());
}

#[test]
fn read_checks_the_allocation() {
    let arena_empty = Arena::new(16);
    assert_eq!(arena_empty.read(0, 1), Err(ArenaError::NoSuchAllocation));
    let mut arena = Arena::new(16);
    let ptr = arena.allocate(4).unwrap();
    assert_eq!(arena.read(ptr, 5), Err(ArenaError::CapacityExceeded));
}

#[test]
fn decode_rejects_invalid_utf8() {
    let mut arena = Arena::new(16);
    let ptr = arena.allocate(2).unwrap();
    arena.write(ptr, &[0xffu8, 0xfe]).unwrap();
    assert_eq!(adding_machine::codec::decode(&arena, ptr, 2), Err(CodecError::InvalidUtf8));
}

#[test]
fn decode_checks_the_allocation() {
    let mut arena = Arena::new(16);
    let ptr = arena.allocate(4).unwrap();
    assert_eq!(
        adding_machine::codec::decode(&arena, ptr + 2, 1),
        Err(CodecError::NoSuchAllocation)
    );
    assert_eq!(adding_machine::codec::decode(&arena, ptr, 5), Err(CodecError::CapacityExceeded));
}

#[test]
fn encode_checks_the_capacity() {
    let mut arena = Arena::new(16);
    let ptr = arena.allocate(4).unwrap();
    assert_eq!(
        adding_machine::codec::encode_into(&mut arena, "hello", ptr),
        Err(CodecError::CapacityExceeded)
    );
    assert_eq!(
        adding_machine::codec::encode_into(&mut arena, "hi", ptr + 1),
        Err(CodecError::NoSuchAllocation)
    );
    assert_eq!(adding_machine::codec::encode_into(&mut arena, "hiya", ptr), Ok(4));
}
