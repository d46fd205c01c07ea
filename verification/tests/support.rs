use pngme::big_endian::{read_u32, write_u32};
use pngme::error::ChunkError;
use pngme::text::push_decimal;

#[test]
fn numbers_are_written_most_significant_byte_first() {
    assert_eq!(write_u32(0), [0, 0, 0, 0]);
    assert_eq!(write_u32(42), [0, 0, 0, 42]);
    assert_eq!(write_u32(0x0102_0304), [1, 2, 3, 4]);
    assert_eq!(write_u32(2882656334), [0xab, 0xd1, 0xd8, 0x4e]);
    assert_eq!(write_u32(u32::MAX), [255, 255, 255, 255]);
}

#[test]
fn numbers_are_read_most_significant_byte_first() {
    assert_eq!(read_u32([0, 0, 0, 0]), 0);
    assert_eq!(read_u32([0, 0, 0, 42]), 42);
    assert_eq!(read_u32([1, 2, 3, 4]), 0x0102_0304);
    assert_eq!(read_u32([0xab, 0xd1, 0xd8, 0x4e]), 2882656334);
    assert_eq!(read_u32([255, 255, 255, 255]), u32::MAX);
}

#[test]
fn reading_and_writing_numbers_agree_with_std() {
    let mut x: u32 = 1;
    for _ in 0..1000 {
        x = x.wrapping_mul(1664525).wrapping_add(1013904223);
        assert_eq!(write_u32(x), x.to_be_bytes());
        assert_eq!(read_u32(x.to_be_bytes()), x);
        assert_eq!(read_u32(write_u32(x)), x);
    }
}

#[test]
fn numbers_are_written_in_base_ten() {
    for (n, expected) in [
        (0u64, "0"),
        (7, "7"),
        (9, "9"),
        (10, "10"),
        (42, "42"),
        (100, "100"),
        (2882656334, "2882656334"),
        (u64::MAX, "18446744073709551615"),
    ] {
        let mut out = String::from("n = ");
        push_decimal(&mut out, n);
        assert_eq!(out, format!("n = {}", expected));
        assert_eq!(out, format!("n = {}", n));
    }
}

#[test]
fn each_error_has_its_message() {
    assert_eq!(ChunkError::InvalidLength.message(), "String must have a 4-byte length");
    assert_eq!(
        ChunkError::InvalidChunkType.message(),
        "Bytes must be uppercase or lowercase letters"
    );
    assert_eq!(ChunkError::TruncatedInput.message(), "Input is too short to hold a chunk");
    assert_eq!(
        ChunkError::ChecksumMismatch.message(),
        "The provided CRC does not match the expected one"
    );
    assert_eq!(ChunkError::TextDecodeError.message(), "Data cannot be converted to String");
}
