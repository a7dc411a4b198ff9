use pe_header::cursor::{read_u16, read_u32, read_u8, ByteCursor};
use pe_header::error::PEError;

#[test]
fn new_cursor_stands_at_the_start() {
    let bytes: [u8; 3] = [1, 2, 3];
    let cur = ByteCursor::new(&bytes);
    assert_eq!(cur.position(), 0);
    assert_eq!(cur.remaining(), 3);
}

#[test]
fn read_u8_takes_one_byte() {
    let bytes: [u8; 2] = [0xab, 0xcd];
    let mut cur = ByteCursor::new(&bytes);
    assert!(matches!(read_u8(&mut cur), Ok(0xab)));
    assert_eq!(cur.position(), 1);
    assert!(matches!(read_u8(&mut cur), Ok(0xcd)));
    assert_eq!(cur.position(), 2);
}

#[test]
fn read_u8_at_the_end_is_truncated() {
    let bytes: [u8; 1] = [7];
    let mut cur = ByteCursor::new(&bytes);
    assert!(matches!(read_u8(&mut cur), Ok(7)));
    assert!(matches!(read_u8(&mut cur), Err(PEError::Truncated)));
    assert_eq!(cur.position(), 1);
}

#[test]
fn read_u8_of_an_empty_source_is_truncated() {
    let bytes: [u8; 0] = [];
    let mut cur = ByteCursor::new(&bytes);
    assert!(matches!(read_u8(&mut cur), Err(PEError::Truncated)));
    assert_eq!(cur.position(), 0);
}

#[test]
fn read_u16_is_little_endian() {
    let bytes: [u8; 4] = [0x34, 0x12, 0xff, 0x00];
    let mut cur = ByteCursor::new(&bytes);
    assert!(matches!(read_u16(&mut cur), Ok(0x1234)));
    assert_eq!(cur.position(), 2);
    assert!(matches!(read_u16(&mut cur), Ok(0x00ff)));
    assert_eq!(cur.position(), 4);
}

#[test]
fn read_u16_reaches_the_largest_value() {
    let bytes: [u8; 2] = [0xff, 0xff];
    let mut cur = ByteCursor::new(&bytes);
    assert!(matches!(read_u16(&mut cur), Ok(0xffff)));
}

#[test]
fn read_u16_with_one_byte_left_is_truncated_and_consumes_nothing() {
    let bytes: [u8; 3] = [1, 2, 3];
    let mut cur = ByteCursor::new(&bytes);
    assert!(matches!(read_u16(&mut cur), Ok(0x0201)));
    assert!(matches!(read_u16(&mut cur), Err(PEError::Truncated)));
    assert_eq!(cur.position(), 2);
    assert!(matches!(read_u8(&mut cur), Ok(3)));
}

#[test]
fn read_u32_is_little_endian() {
    let bytes: [u8; 4] = [0x78, 0x56, 0x34, 0x12];
    let mut cur = ByteCursor::new(&bytes);
    assert!(matches!(read_u32(&mut cur), Ok(0x1234_5678)));
    assert_eq!(cur.position(), 4);
}

#[test]
fn read_u32_reaches_the_largest_value() {
    let bytes: [u8; 4] = [0xff, 0xff, 0xff, 0xff];
    let mut cur = ByteCursor::new(&bytes);
    assert!(matches!(read_u32(&mut cur), Ok(0xffff_ffff)));
}

#[test]
fn read_u32_tells_its_bytes_apart() {
    let bytes: [u8; 8] = [0x80, 0, 0, 0, 0, 0, 0, 0x80];
    let mut cur = ByteCursor::new(&bytes);
    assert!(matches!(read_u32(&mut cur), Ok(0x0000_0080)));
    assert!(matches!(read_u32(&mut cur), Ok(0x8000_0000)));
}

#[test]
fn read_u32_with_three_bytes_left_is_truncated() {
    let bytes: [u8; 3] = [1, 2, 3];
    let mut cur = ByteCursor::new(&bytes);
    assert!(matches!(read_u32(&mut cur), Err(PEError::Truncated)));
    assert_eq!(cur.position(), 0);
}

#[test]
fn read_exact_hands_out_the_next_bytes() {
    let bytes: [u8; 6] = [10, 20, 30, 40, 50, 60];
    let mut cur = ByteCursor::new(&bytes);
    assert!(matches!(cur.read_exact::<2>(), Ok([10, 20])));
    assert!(matches!(cur.read_exact::<4>(), Ok([30, 40, 50, 60])));
    assert_eq!(cur.position(), 6);
    assert_eq!(cur.remaining(), 0);
}

#[test]
fn read_exact_never_delivers_a_part() {
    let bytes: [u8; 3] = [10, 20, 30];
    let mut cur = ByteCursor::new(&bytes);
    assert!(matches!(cur.read_exact::<4>(), Err(PEError::Truncated)));
    assert_eq!(cur.position(), 0);
    assert!(matches!(cur.read_exact::<3>(), Ok([10, 20, 30])));
}

#[test]
fn read_exact_of_nothing_always_succeeds() {
    let bytes: [u8; 1] = [9];
    let mut cur = ByteCursor::new(&bytes);
    assert!(matches!(cur.read_exact::<0>(), Ok([])));
    assert_eq!(cur.position(), 0);
    assert!(cur.seek_relative(5).is_ok());
    assert!(matches!(cur.read_exact::<0>(), Ok([])));
    assert_eq!(cur.position(), 5);
}

#[test]
fn seek_relative_moves_forward_and_backward() {
    let bytes: [u8; 5] = [0, 1, 2, 3, 4];
    let mut cur = ByteCursor::new(&bytes);
    assert!(cur.seek_relative(3).is_ok());
    assert_eq!(cur.position(), 3);
    assert!(matches!(read_u8(&mut cur), Ok(3)));
    assert!(cur.seek_relative(-4).is_ok());
    assert_eq!(cur.position(), 0);
    assert!(matches!(read_u8(&mut cur), Ok(0)));
    assert!(cur.seek_relative(0).is_ok());
    assert_eq!(cur.position(), 1);
}

#[test]
fn seek_relative_before_the_start_is_out_of_range() {
    let bytes: [u8; 5] = [0, 1, 2, 3, 4];
    let mut cur = ByteCursor::new(&bytes);
    assert!(matches!(cur.seek_relative(-1), Err(PEError::SeekOutOfRange)));
    assert_eq!(cur.position(), 0);
    assert!(cur.seek_relative(2).is_ok());
    assert!(matches!(cur.seek_relative(-3), Err(PEError::SeekOutOfRange)));
    assert_eq!(cur.position(), 2);
    assert!(matches!(cur.seek_relative(i64::MIN), Err(PEError::SeekOutOfRange)));
    assert_eq!(cur.position(), 2);
    assert!(cur.seek_relative(-2).is_ok());
    assert_eq!(cur.position(), 0);
}

#[test]
fn seek_relative_past_the_end_fails_only_at_the_next_read() {
    let bytes: [u8; 2] = [1, 2];
    let mut cur = ByteCursor::new(&bytes);
    assert!(cur.seek_relative(10).is_ok());
    assert_eq!(cur.position(), 10);
    assert_eq!(cur.remaining(), 0);
    assert!(matches!(read_u8(&mut cur), Err(PEError::Truncated)));
    assert!(matches!(read_u16(&mut cur), Err(PEError::Truncated)));
    assert!(matches!(read_u32(&mut cur), Err(PEError::Truncated)));
    assert_eq!(cur.position(), 10);
    assert!(cur.seek_relative(-9).is_ok());
    assert!(matches!(read_u8(&mut cur), Ok(2)));
}

#[test]
fn seek_relative_beyond_the_largest_position_is_out_of_range() {
    let bytes: [u8; 1] = [0];
    let mut cur = ByteCursor::new(&bytes);
    assert!(cur.seek_relative(i64::MAX).is_ok());
    assert!(cur.seek_relative(i64::MAX).is_ok());
    assert_eq!(cur.position(), u64::MAX - 1);
    assert!(cur.seek_relative(1).is_ok());
    assert_eq!(cur.position(), u64::MAX);
    assert!(matches!(cur.seek_relative(1), Err(PEError::SeekOutOfRange)));
    assert_eq!(cur.position(), u64::MAX);
    assert!(cur.seek_relative(i64::MIN).is_ok());
    assert_eq!(cur.position(), u64::MAX - (1u64 << 63));
}
