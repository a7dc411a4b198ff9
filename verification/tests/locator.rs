use pe_header::cursor::ByteCursor;
use pe_header::error::PEError;
use pe_header::locator::{locate_pe_signature, PE_SIGNATURE};

/// `len` bytes of padding with `signature` written at `offset`.
fn padding_with(len: usize, offset: usize, signature: &[u8]) -> Vec<u8> {
    let mut bytes: Vec<u8> = vec![0xcc; len];
    bytes[offset..offset + signature.len()].copy_from_slice(signature);
    bytes
}

#[test]
fn the_pe_signature_is_pe_and_two_zeros() {
    assert_eq!(PE_SIGNATURE, [0x50, 0x45, 0x00, 0x00]);
    assert_eq!(PE_SIGNATURE, *b"PE\0\0");
}

#[test]
fn locate_moves_forward_and_reads_the_signature() {
    let bytes = padding_with(0x84, 0x80, b"PE\0\0");
    let mut cur = ByteCursor::new(&bytes);
    assert!(cur.seek_relative(64).is_ok());
    assert!(matches!(locate_pe_signature(&mut cur, 0x80), Ok([0x50, 0x45, 0, 0])));
    assert_eq!(cur.position(), 0x84);
}

#[test]
fn locate_accepts_a_signature_where_the_cursor_stands() {
    let bytes = padding_with(0x90, 0x40, b"PE\0\0");
    let mut cur = ByteCursor::new(&bytes);
    assert!(cur.seek_relative(0x40).is_ok());
    assert!(matches!(locate_pe_signature(&mut cur, 0x40), Ok([0x50, 0x45, 0, 0])));
    assert_eq!(cur.position(), 0x44);
}

#[test]
fn locate_refuses_to_move_backward() {
    let bytes = padding_with(0x90, 0x80, b"PE\0\0");
    let mut cur = ByteCursor::new(&bytes);
    assert!(cur.seek_relative(0x81).is_ok());
    assert!(matches!(locate_pe_signature(&mut cur, 0x80), Err(PEError::InvalidHeaderOffset)));
    assert_eq!(cur.position(), 0x81);
    assert!(cur.seek_relative(-1).is_ok());
    assert!(matches!(locate_pe_signature(&mut cur, 0x80), Ok([0x50, 0x45, 0, 0])));
    assert_eq!(cur.position(), 0x84);
}

#[test]
fn locate_refuses_to_move_backward_from_beyond_the_end() {
    let bytes = padding_with(0x84, 0x80, b"PE\0\0");
    let mut cur = ByteCursor::new(&bytes);
    assert!(cur.seek_relative(i64::MAX).is_ok());
    assert!(cur.seek_relative(i64::MAX).is_ok());
    assert!(matches!(locate_pe_signature(&mut cur, 0x80), Err(PEError::InvalidHeaderOffset)));
    assert!(matches!(
        locate_pe_signature(&mut cur, u32::MAX),
        Err(PEError::InvalidHeaderOffset)
    ));
    assert_eq!(cur.position(), u64::MAX - 1);
}

#[test]
fn locate_leaves_the_cursor_when_it_fails() {
    let bytes = padding_with(0x84, 0x80, b"NE\0\0");
    let mut cur = ByteCursor::new(&bytes);
    assert!(cur.seek_relative(64).is_ok());
    assert!(matches!(locate_pe_signature(&mut cur, 0x80), Err(PEError::InvalidPeSignature)));
    assert_eq!(cur.position(), 64);
    assert!(matches!(locate_pe_signature(&mut cur, 0x81), Err(PEError::Truncated)));
    assert_eq!(cur.position(), 64);
    assert!(matches!(locate_pe_signature(&mut cur, 0x84), Err(PEError::Truncated)));
    assert_eq!(cur.position(), 64);
    assert!(matches!(locate_pe_signature(&mut cur, u32::MAX), Err(PEError::Truncated)));
    assert_eq!(cur.position(), 64);
}

#[test]
fn locate_compares_all_four_bytes() {
    for wrong in [*b"XE\0\0", *b"PX\0\0", *b"PE\x01\0", *b"PE\0\x01", *b"EP\0\0", [0; 4]] {
        let bytes = padding_with(0x84, 0x80, &wrong);
        let mut cur = ByteCursor::new(&bytes);
        assert!(matches!(locate_pe_signature(&mut cur, 0x80), Err(PEError::InvalidPeSignature)));
        assert_eq!(cur.position(), 0);
    }
}
