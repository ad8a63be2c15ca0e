use threebody::bytes::{copy_range, read_u16, read_u32, read_u64, same_bytes};
use threebody::path::to_vec;

const BYTES: [u8; 10] = [0x00, 0x11, 0x22, 0x33, 0x44, 0x55, 0x66, 0x77, 0x88, 0x99];

#[test]
fn numbers_are_read_least_significant_byte_first() {
    assert_eq!(read_u16(&BYTES, 1, false), 0x2211);
    assert_eq!(read_u32(&BYTES, 1, false), 0x4433_2211);
    assert_eq!(read_u64(&BYTES, 1, false), 0x8877_6655_4433_2211);
    assert_eq!(read_u64(&[0xff; 8], 0, false), u64::MAX);
}

#[test]
fn numbers_are_read_most_significant_byte_first() {
    assert_eq!(read_u16(&BYTES, 1, true), 0x1122);
    assert_eq!(read_u32(&BYTES, 1, true), 0x1122_3344);
    assert_eq!(read_u64(&BYTES, 2, true), 0x2233_4455_6677_8899);
    assert_eq!(read_u16(&[0xff, 0xff], 0, true), u16::MAX);
}

#[test]
fn byte_strings_are_compared_and_copied() {
    assert!(same_bytes(b"abc", b"abc"));
    assert!(!same_bytes(b"abc", b"abd"));
    assert!(!same_bytes(b"abc", b"ab"));
    assert!(same_bytes(b"", b""));
    assert_eq!(copy_range(&BYTES, 2, 5), vec![0x22, 0x33, 0x44]);
    assert_eq!(copy_range(&BYTES, 4, 4), Vec::<u8>::new());
    assert_eq!(to_vec(b"xyz"), b"xyz".to_vec());
}

