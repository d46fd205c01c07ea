//! PNG chunks: the length-prefixed, type-tagged, checksummed records that a
//! PNG file is made of.
//!
//! [`chunk_type::ChunkType`] is the four-letter tag of a chunk, with the flags
//! that the case of its letters encodes. [`chunk::Chunk`] is one record: it is
//! decoded from bytes, built from a type and a payload, and encoded back.
//!
//! A record is laid out as a length of four bytes, a type of four bytes, the
//! payload, and a checksum of four bytes over the type and the payload. Both
//! numbers are big-endian ([`big_endian`]); the checksum is CRC-32/ISO-HDLC,
//! computed by the `crc` crate ([`checksum`]).
//!
//! Decoding takes a buffer that holds one record and nothing else, so the
//! payload is what lies between the type and the last four bytes. The length
//! that the record declares is kept and written back as it was read, and is
//! not held against the payload's size: [`chunk::Chunk::length`] and
//! [`chunk::Chunk::data`] give both.

pub mod big_endian;
pub mod checksum;
pub mod chunk;
pub mod chunk_type;
pub mod error;
pub mod text;
