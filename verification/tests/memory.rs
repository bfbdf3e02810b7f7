use hexagon_e::error::ExecuteError;
use hexagon_e::memory::{
    bounds_check, copy_into, read_u16, read_u32, read_u64, read_u8, write_u16, write_u32,
    write_u64, write_u8,
};

#[test]
fn bounds_check_accepts_ranges_inside() {
    let buf = [0u8; 8];
    assert!(bounds_check(&buf, 0, 8).is_ok());
    assert!(bounds_check(&buf, 7, 1).is_ok());
    assert!(bounds_check(&buf, 4, 0).is_ok());
}

#[test]
fn bounds_check_rejects_ranges_that_leave() {
    let buf = [0u8; 8];
    assert!(matches!(bounds_check(&buf, 0, 9), Err(ExecuteError::Bounds)));
    assert!(matches!(bounds_check(&buf, 7, 2), Err(ExecuteError::Bounds)));
    assert!(matches!(bounds_check(&buf, 1, usize::MAX), Err(ExecuteError::Bounds)));
}

#[test]
fn bounds_check_rejects_a_start_at_the_end_even_for_nothing() {
    let buf = [0u8; 8];
    assert!(matches!(bounds_check(&buf, 8, 0), Err(ExecuteError::Bounds)));
    let empty: [i64; 0] = [];
    assert!(matches!(bounds_check(&empty, 0, 0), Err(ExecuteError::Bounds)));
}

#[test]
fn reads_are_little_endian() {
    let mem = [0x01u8, 0x02, 0x03, 0x04, 0x05, 0x06, 0x07, 0x08, 0x09];
    assert_eq!(read_u8(&mem, 8).unwrap(), 0x09);
    assert_eq!(read_u16(&mem, 0).unwrap(), 0x0201);
    assert_eq!(read_u16(&mem, 7).unwrap(), 0x0908);
    assert_eq!(read_u32(&mem, 1).unwrap(), 0x05040302);
    assert_eq!(read_u64(&mem, 1).unwrap(), 0x0908070605040302);
}

#[test]
fn a_read_that_ends_at_the_end_is_in_bounds() {
    let mem = [0xFFu8; 8];
    assert_eq!(read_u8(&mem, 7).unwrap(), 0xFF);
    assert_eq!(read_u16(&mem, 6).unwrap(), 0xFFFF);
    assert_eq!(read_u32(&mem, 4).unwrap(), 0xFFFF_FFFF);
    assert_eq!(read_u64(&mem, 0).unwrap(), u64::MAX);
}

#[test]
fn a_read_that_passes_the_end_fails() {
    let mem = [0u8; 8];
    assert!(matches!(read_u8(&mem, 8), Err(ExecuteError::Bounds)));
    assert!(matches!(read_u16(&mem, 7), Err(ExecuteError::Bounds)));
    assert!(matches!(read_u32(&mem, 5), Err(ExecuteError::Bounds)));
    assert!(matches!(read_u64(&mem, 1), Err(ExecuteError::Bounds)));
    assert!(matches!(read_u32(&mem, usize::MAX), Err(ExecuteError::Bounds)));
}

#[test]
fn writes_are_little_endian_and_touch_only_their_range() {
    let mut mem = [0xAAu8; 12];
    write_u32(&mut mem, 2, 0xDEADBEEF).unwrap();
    assert_eq!(mem, [0xAA, 0xAA, 0xEF, 0xBE, 0xAD, 0xDE, 0xAA, 0xAA, 0xAA, 0xAA, 0xAA, 0xAA]);
    write_u16(&mut mem, 0, 0x1234).unwrap();
    assert_eq!(mem[..2], [0x34, 0x12]);
    write_u8(&mut mem, 11, 0x7F).unwrap();
    assert_eq!(mem[11], 0x7F);
    write_u64(&mut mem, 4, 0x0102030405060708).unwrap();
    assert_eq!(mem, [0x34, 0x12, 0xEF, 0xBE, 0x08, 0x07, 0x06, 0x05, 0x04, 0x03, 0x02, 0x01]);
}

#[test]
fn a_write_that_passes_the_end_fails_and_writes_nothing() {
    let mut mem = [0x55u8; 8];
    assert!(matches!(write_u8(&mut mem, 8, 1), Err(ExecuteError::Bounds)));
    assert!(matches!(write_u16(&mut mem, 7, 1), Err(ExecuteError::Bounds)));
    assert!(matches!(write_u32(&mut mem, 5, 1), Err(ExecuteError::Bounds)));
    assert!(matches!(write_u64(&mut mem, 1, 1), Err(ExecuteError::Bounds)));
    assert_eq!(mem, [0x55u8; 8]);
}

#[test]
fn what_was_written_is_read_back() {
    let mut mem = [0u8; 16];
    write_u16(&mut mem, 3, 0xBEEF).unwrap();
    assert_eq!(read_u16(&mem, 3).unwrap(), 0xBEEF);
    write_u32(&mut mem, 5, 0x89ABCDEF).unwrap();
    assert_eq!(read_u32(&mem, 5).unwrap(), 0x89ABCDEF);
    write_u64(&mut mem, 8, 0xFEDCBA9876543210).unwrap();
    assert_eq!(read_u64(&mem, 8).unwrap(), 0xFEDCBA9876543210);
}

#[test]
fn copy_into_replaces_a_range() {
    let mut mem = [9u8; 6];
    copy_into(&mut mem, 2, &[1, 2, 3]);
    assert_eq!(mem, [9, 9, 1, 2, 3, 9]);
    copy_into(&mut mem, 6, &[]);
    assert_eq!(mem, [9, 9, 1, 2, 3, 9]);
}
