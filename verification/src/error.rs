use vstd::prelude::*;

verus! {

/// Why a chunk type or a chunk was refused.
#[derive(Clone, Copy, Debug, PartialEq, Eq, Structural)]
pub enum ChunkError {
    /// A chunk type was given as text that is not exactly four bytes long.
    InvalidLength,
    /// One of the four bytes of a chunk type is not an ASCII letter.
    InvalidChunkType,
    /// A buffer is too short to hold a length, a type and a checksum.
    TruncatedInput,
    /// The checksum stored in a buffer is not the checksum of its contents.
    ChecksumMismatch,
    /// A payload was asked for as text and is not UTF-8.
    TextDecodeError,
}

impl ChunkError {
    /// The text that goes with each error.
    pub open spec fn message_text(self) -> Seq<char> {
        match self {
            ChunkError::InvalidLength => "String must have a 4-byte length"@,
            ChunkError::InvalidChunkType => "Bytes must be uppercase or lowercase letters"@,
            ChunkError::TruncatedInput => "Input is too short to hold a chunk"@,
            ChunkError::ChecksumMismatch => "The provided CRC does not match the expected one"@,
            ChunkError::TextDecodeError => "Data cannot be converted to String"@,
        }
    }

    /// A sentence that says what went wrong.
    pub fn message(&self) -> (text: &'static str)
        ensures
            text@ == self.message_text(),
    {
        match self {
            ChunkError::InvalidLength => "String must have a 4-byte length",
            ChunkError::InvalidChunkType => "Bytes must be uppercase or lowercase letters",
            ChunkError::TruncatedInput => "Input is too short to hold a chunk",
            ChunkError::ChecksumMismatch => "The provided CRC does not match the expected one",
            ChunkError::TextDecodeError => "Data cannot be converted to String",
        }
    }
}

} // verus!
