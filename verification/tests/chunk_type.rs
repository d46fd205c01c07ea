use pngme::chunk_type::{are_bytes_uppercase_lowercase_chars, ChunkType};
use pngme::error::ChunkError;
use std::convert::TryFrom;
use std::str::FromStr;

#[test]
pub fn test_chunk_type_from_bytes() {
    let expected = [82, 117, 83, 116];
    let actual = ChunkType::try_from([82, 117, 83, 116]).unwrap();

    assert_eq!(expected, actual.bytes());
}

#[test]
pub fn test_chunk_type_from_str() {
    let expected = ChunkType::try_from([82, 117, 83, 116]).unwrap();
    let actual = ChunkType::from_str("RuSt").unwrap();
    assert_eq!(expected, actual);
}

#[test]
pub fn test_chunk_type_is_critical() {
    let chunk = ChunkType::from_str("RuSt").unwrap();
    assert!(chunk.is_critical());
}

#[test]
pub fn test_chunk_type_is_not_critical() {
    let chunk = ChunkType::from_str("ruSt").unwrap();
    assert!(!chunk.is_critical());
}

#[test]
pub fn test_chunk_type_is_public() {
    let chunk = ChunkType::from_str("RUSt").unwrap();
    assert!(chunk.is_public());
}

#[test]
pub fn test_chunk_type_is_not_public() {
    let chunk = ChunkType::from_str("RuSt").unwrap();
    assert!(!chunk.is_public());
}

#[test]
pub fn test_chunk_type_is_reserved_bit_valid() {
    let chunk = ChunkType::from_str("RuSt").unwrap();
    assert!(chunk.is_reserved_bit_valid());
}

#[test]
pub fn test_chunk_type_is_reserved_bit_invalid() {
    let chunk = ChunkType::from_str("Rust").unwrap();
    assert!(!chunk.is_reserved_bit_valid());
}

#[test]
pub fn test_chunk_type_is_safe_to_copy() {
    let chunk = ChunkType::from_str("RuSt").unwrap();
    assert!(chunk.is_safe_to_copy());
}

#[test]
pub fn test_chunk_type_is_unsafe_to_copy() {
    let chunk = ChunkType::from_str("RuST").unwrap();
    assert!(!chunk.is_safe_to_copy());
}

#[test]
pub fn test_valid_chunk_is_valid() {
    let chunk = ChunkType::from_str("RuSt").unwrap();
    assert!(chunk.is_valid());
}

#[test]
pub fn test_invalid_chunk_is_valid() {
    let chunk = ChunkType::from_str("Rust").unwrap();
    assert!(!chunk.is_valid());

    let chunk = ChunkType::from_str("Ru1t");
    assert!(chunk.is_err());
}

#[test]
pub fn test_chunk_type_string() {
    let chunk = ChunkType::from_str("RuSt").unwrap();
    assert_eq!(&chunk.to_string(), "RuSt");
}

#[test]
pub fn test_chunk_type_trait_impls() {
    let chunk_type_1: ChunkType = TryFrom::try_from([82, 117, 83, 116]).unwrap();
    let chunk_type_2: ChunkType = FromStr::from_str("RuSt").unwrap();
    let _chunk_string = chunk_type_1.to_string();
    let _are_chunks_equal = chunk_type_1 == chunk_type_2;
}

#[test]
fn letters_are_told_from_other_bytes() {
    assert!(are_bytes_uppercase_lowercase_chars(*b"AZaz"));
    assert!(are_bytes_uppercase_lowercase_chars(*b"IHDR"));
    // The bytes just outside the two ranges of letters.
    assert!(!are_bytes_uppercase_lowercase_chars([0x40, b'A', b'A', b'A']));
    assert!(!are_bytes_uppercase_lowercase_chars([b'A', 0x5b, b'A', b'A']));
    assert!(!are_bytes_uppercase_lowercase_chars([b'A', b'A', 0x60, b'A']));
    assert!(!are_bytes_uppercase_lowercase_chars([b'A', b'A', b'A', 0x7b]));
    assert!(!are_bytes_uppercase_lowercase_chars([0, 0, 0, 0]));
    assert!(!are_bytes_uppercase_lowercase_chars([0xc1, 0xe1, 0xff, 0x80]));
}

#[test]
fn every_four_letters_make_a_type_that_holds_them() {
    let letters: Vec<u8> = (b'A'..=b'Z').chain(b'a'..=b'z').collect();
    for &a in &letters {
        for &b in &letters {
            let bytes = [a, b, b, a];
            let made = ChunkType::try_from(bytes).unwrap();
            assert_eq!(made.bytes(), bytes);
        }
    }
}

#[test]
fn a_byte_that_is_no_letter_is_refused_wherever_it_stands() {
    for position in 0..4 {
        for byte in 0..=255u8 {
            if byte.is_ascii_alphabetic() {
                continue;
            }
            let mut bytes = *b"RuSt";
            bytes[position] = byte;
            assert_eq!(ChunkType::try_from(bytes), Err(ChunkError::InvalidChunkType));
        }
    }
}

#[test]
fn text_of_another_length_is_refused() {
    assert_eq!(ChunkType::from_str(""), Err(ChunkError::InvalidLength));
    assert_eq!(ChunkType::from_str("RuS"), Err(ChunkError::InvalidLength));
    assert_eq!(ChunkType::from_str("RuStx"), Err(ChunkError::InvalidLength));
    // Four characters, but six bytes.
    assert_eq!(ChunkType::from_str("Ru\u{e9}\u{e9}"), Err(ChunkError::InvalidLength));
    // Two characters, and four bytes, none of them a letter.
    assert_eq!(ChunkType::from_str("\u{e9}\u{e9}"), Err(ChunkError::InvalidChunkType));
}

#[test]
fn text_of_four_bytes_must_be_letters() {
    assert_eq!(ChunkType::from_str("Ru1t"), Err(ChunkError::InvalidChunkType));
    assert_eq!(ChunkType::from_str("Ru t"), Err(ChunkError::InvalidChunkType));
    assert_eq!(ChunkType::from_str("RuSt").unwrap().bytes(), [82, 117, 83, 116]);
}

#[test]
fn flags_of_rust_type() {
    let chunk_type = ChunkType::try_from([82, 117, 83, 116]).unwrap();
    assert!(chunk_type.is_critical());
    assert!(!chunk_type.is_public());
    assert!(chunk_type.is_reserved_bit_valid());
    assert!(chunk_type.is_safe_to_copy());
    assert!(chunk_type.is_valid());
    assert_eq!(chunk_type.get_ancillary_bit(), 0);
    assert_eq!(chunk_type.get_private_bit(), 1);
    assert_eq!(chunk_type.get_reserved_bit(), 0);
    assert_eq!(chunk_type.get_safe_to_copy_bit(), 1);
}

#[test]
fn a_type_with_the_reserved_bit_set_is_made_but_not_valid() {
    let chunk_type = ChunkType::from_str("Rust").unwrap();
    assert_eq!(chunk_type.get_reserved_bit(), 1);
    assert!(!chunk_type.is_reserved_bit_valid());
    assert!(!chunk_type.is_valid());
    assert_eq!(chunk_type.to_string(), "Rust");
}

#[test]
fn each_flag_follows_the_case_of_its_letter() {
    let letters: Vec<u8> = (b'A'..=b'Z').chain(b'a'..=b'z').collect();
    for &letter in &letters {
        let upper = letter.is_ascii_uppercase();
        let bit = u8::from(!upper);

        let first = ChunkType::try_from([letter, b'A', b'A', b'A']).unwrap();
        assert_eq!(first.is_critical(), upper);
        assert_eq!(first.get_ancillary_bit(), bit);

        let second = ChunkType::try_from([b'A', letter, b'A', b'A']).unwrap();
        assert_eq!(second.is_public(), upper);
        assert_eq!(second.get_private_bit(), bit);

        let third = ChunkType::try_from([b'A', b'A', letter, b'A']).unwrap();
        assert_eq!(third.is_reserved_bit_valid(), upper);
        assert_eq!(third.is_valid(), upper);
        assert_eq!(third.get_reserved_bit(), bit);

        let fourth = ChunkType::try_from([b'A', b'A', b'A', letter]).unwrap();
        assert_eq!(fourth.is_safe_to_copy(), !upper);
        assert_eq!(fourth.get_safe_to_copy_bit(), bit);
    }
}

#[test]
fn chunk_types_are_equal_when_their_bytes_are() {
    let a = ChunkType::from_str("IDAT").unwrap();
    let b = ChunkType::try_from(*b"IDAT").unwrap();
    let c = ChunkType::from_str("IDAt").unwrap();
    assert!(a == b);
    assert!(a != c);
}
