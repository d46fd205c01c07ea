use crate::error::ChunkError;
use crate::text::{ascii_is_utf8, ascii_text, text_of_bytes};
use vstd::prelude::*;
use vstd::string::StringExecFns;
use vstd::string::StringSliceAdditionalSpecFns;
use vstd::std_specs::cmp::PartialEqSpecImpl;
use vstd::std_specs::convert::{TryFromSpec, TryFromSpecImpl};

verus! {

/// Whether `b` is one of `A` (0x41) to `Z` (0x5a).
pub open spec fn is_upper(b: u8) -> bool {
    0x41 <= b <= 0x5a
}

/// Whether `b` is one of `a` (0x61) to `z` (0x7a).
pub open spec fn is_lower(b: u8) -> bool {
    0x61 <= b <= 0x7a
}

/// Whether `b` is an ASCII letter.
pub open spec fn is_letter(b: u8) -> bool {
    is_upper(b) || is_lower(b)
}

/// Bit 5 of a byte, as 0 or 1. In a letter it is the bit of the case.
pub open spec fn case_bit(b: u8) -> u8 {
    (b >> 5) & 1
}

/// In a letter, bit 5 is 0 for upper case and 1 for lower case.
pub proof fn case_bit_of_letter(b: u8)
    requires
        is_letter(b),
    ensures
        case_bit(b) == 0 <==> is_upper(b),
        case_bit(b) == 1 <==> is_lower(b),
{
    assert(is_upper(b) ==> case_bit(b) == 0) by (bit_vector);
    assert(is_lower(b) ==> case_bit(b) == 1) by (bit_vector);
}

/// Whether every byte of `bytes` is an ASCII letter.
pub open spec fn all_letters(bytes: Seq<u8>) -> bool {
    forall|i: int| 0 <= i < bytes.len() ==> is_letter(#[trigger] bytes[i])
}

/// Tells whether each of the four bytes is an upper-case or a lower-case
/// ASCII letter.
pub fn are_bytes_uppercase_lowercase_chars(bytes: [u8; 4]) -> (all: bool)
    ensures
        all == all_letters(bytes@),
{
    let mut i: usize = 0;
    while i < 4
        invariant
            i <= 4,
            forall|j: int| 0 <= j < i ==> is_letter(#[trigger] bytes@[j]),
        decreases 4 - i,
    {
        let b: u8 = bytes[i];
        let upper: bool = 0x41 <= b && b <= 0x5a;
        let lower: bool = 0x61 <= b && b <= 0x7a;
        if !(upper || lower) {
            return false;
        }
        i += 1;
    }
    true
}

/// The four-letter tag of a chunk.
#[derive(Clone, Copy, Debug)]
pub struct ChunkType {
    bytes: [u8; 4],
}

impl View for ChunkType {
    type V = Seq<u8>;

    closed spec fn view(&self) -> Seq<u8> {
        self.bytes@
    }
}

impl ChunkType {
    /// Every chunk type is made of four ASCII letters.
    #[verifier::type_invariant]
    pub closed spec fn well_formed(&self) -> bool {
        all_letters(self.bytes@)
    }

    /// What being well formed means for the bytes of a chunk type.
    pub proof fn four_letters(&self)
        ensures
            self@.len() == 4,
            self.well_formed() <==> all_letters(self@),
    {
    }

    /// The four bytes.
    pub fn bytes(&self) -> (bytes: [u8; 4])
        ensures
            bytes@ == self@,
            bytes@.len() == 4,
            all_letters(bytes@),
    {
        proof {
            use_type_invariant(self);
        }
        self.bytes
    }

    /// Bit 5 of the first byte: 1 in an ancillary chunk, 0 in a critical one.
    pub fn get_ancillary_bit(&self) -> (bit: u8)
        ensures
            bit == case_bit(self@[0]),
    {
        let first_byte: &u8 = &self.bytes[0];
        (*first_byte >> 5) & 1
    }

    /// Bit 5 of the second byte: 1 in a private chunk, 0 in a public one.
    pub fn get_private_bit(&self) -> (bit: u8)
        ensures
            bit == case_bit(self@[1]),
    {
        let second_byte: &u8 = &self.bytes[1];
        (*second_byte >> 5) & 1
    }

    /// Bit 5 of the third byte, which is reserved and should be 0.
    pub fn get_reserved_bit(&self) -> (bit: u8)
        ensures
            bit == case_bit(self@[2]),
    {
        let third_byte: &u8 = &self.bytes[2];
        (*third_byte >> 5) & 1
    }

    /// Bit 5 of the fourth byte: 1 in a chunk that is safe to copy.
    pub fn get_safe_to_copy_bit(&self) -> (bit: u8)
        ensures
            bit == case_bit(self@[3]),
    {
        let fourth_byte: &u8 = &self.bytes[3];
        (*fourth_byte >> 5) & 1
    }

    /// Whether the chunk is needed to show the image: the first letter is
    /// upper case.
    pub fn is_critical(&self) -> (critical: bool)
        ensures
            critical == (case_bit(self@[0]) == 0),
            critical == is_upper(self@[0]),
    {
        proof {
            use_type_invariant(self);
            case_bit_of_letter(self@[0]);
        }
        self.get_ancillary_bit() == 0
    }

    /// Whether the chunk is of a public kind: the second letter is upper
    /// case.
    pub fn is_public(&self) -> (public: bool)
        ensures
            public == (case_bit(self@[1]) == 0),
            public == is_upper(self@[1]),
    {
        proof {
            use_type_invariant(self);
            case_bit_of_letter(self@[1]);
        }
        self.get_private_bit() == 0
    }

    /// Whether the reserved bit is 0, as it should be: the third letter is
    /// upper case.
    pub fn is_reserved_bit_valid(&self) -> (valid: bool)
        ensures
            valid == (case_bit(self@[2]) == 0),
            valid == is_upper(self@[2]),
    {
        proof {
            use_type_invariant(self);
            case_bit_of_letter(self@[2]);
        }
        self.get_reserved_bit() == 0
    }

    /// Whether an editor that does not know the chunk may copy it: the
    /// fourth letter is lower case.
    pub fn is_safe_to_copy(&self) -> (safe: bool)
        ensures
            safe == (case_bit(self@[3]) == 1),
            safe == is_lower(self@[3]),
    {
        proof {
            use_type_invariant(self);
            case_bit_of_letter(self@[3]);
        }
        self.get_safe_to_copy_bit() == 1
    }

    /// Whether the type is one that a conforming file may hold: four
    /// letters, with the reserved bit 0. A type is built from any four
    /// letters, so one with a lower-case third letter exists and is not
    /// valid.
    pub fn is_valid(&self) -> (valid: bool)
        ensures
            valid == (case_bit(self@[2]) == 0 && all_letters(self@)),
            valid == is_upper(self@[2]),
    {
        proof {
            use_type_invariant(self);
            case_bit_of_letter(self@[2]);
        }
        if self.get_reserved_bit() != 0 {
            return false;
        }
        are_bytes_uppercase_lowercase_chars(self.bytes)
    }

    /// The four letters as text.
    pub fn to_string(&self) -> (text: String)
        ensures
            text@ == ascii_text(self@),
    {
        proof {
            use_type_invariant(self);
            ascii_is_utf8(self@);
        }
        match core::str::from_utf8(self.bytes.as_slice()) {
            Ok(letters) => {
                proof {
                    text_of_bytes(letters);
                }
                String::from_str(letters)
            },
            Err(_) => vstd::pervasive::unreached(),
        }
    }
}

impl PartialEqSpecImpl for ChunkType {
    open spec fn obeys_eq_spec() -> bool {
        true
    }

    open spec fn eq_spec(&self, other: &ChunkType) -> bool {
        self@ == other@
    }
}

impl PartialEq for ChunkType {
    /// Two chunk types are equal when their four bytes are.
    fn eq(&self, other: &ChunkType) -> (same: bool) {
        let same: bool = self.bytes[0] == other.bytes[0] && self.bytes[1] == other.bytes[1]
            && self.bytes[2] == other.bytes[2] && self.bytes[3] == other.bytes[3];
        assert(same == (self.bytes@ =~= other.bytes@));
        same
    }
}

impl TryFromSpecImpl<[u8; 4]> for ChunkType {
    open spec fn obeys_try_from_spec() -> bool {
        true
    }

    closed spec fn try_from_spec(bytes: [u8; 4]) -> Result<Self, ChunkError> {
        if all_letters(bytes@) {
            Ok(ChunkType { bytes })
        } else {
            Err(ChunkError::InvalidChunkType)
        }
    }
}

/// Four bytes make a chunk type if and only if each of them is an ASCII
/// letter, and the chunk type that they make holds them unchanged.
pub proof fn made_from_four_letters(bytes: [u8; 4])
    ensures
        match <ChunkType as TryFromSpec<[u8; 4]>>::try_from_spec(bytes) {
            Ok(made) => all_letters(bytes@) && made@ == bytes@ && made.well_formed(),
            Err(error) => !all_letters(bytes@) && error == ChunkError::InvalidChunkType,
        },
{
}

impl TryFrom<[u8; 4]> for ChunkType {
    type Error = ChunkError;

    /// Accepts four bytes as a chunk type when each of them is an ASCII
    /// letter.
    fn try_from(bytes: [u8; 4]) -> (made: Result<Self, ChunkError>)
        ensures
            made is Ok <==> all_letters(bytes@),
            made matches Ok(t) ==> t@ == bytes@,
            made matches Err(e) ==> e == ChunkError::InvalidChunkType,
    {
        if !are_bytes_uppercase_lowercase_chars(bytes) {
            return Err(ChunkError::InvalidChunkType);
        }
        Ok(Self { bytes })
    }
}

/// What reading the bytes of a text as a chunk type gives.
pub open spec fn parse_type(bytes: Seq<u8>) -> Result<Seq<u8>, ChunkError> {
    if bytes.len() != 4 {
        Err(ChunkError::InvalidLength)
    } else if !all_letters(bytes) {
        Err(ChunkError::InvalidChunkType)
    } else {
        Ok(bytes)
    }
}

impl core::str::FromStr for ChunkType {
    type Err = ChunkError;

    /// Reads a chunk type from a text of exactly four bytes, each of them
    /// an ASCII letter.
    fn from_str(text: &str) -> (made: Result<Self, ChunkError>)
        ensures
            match parse_type(text.spec_bytes()) {
                Ok(bytes) => made matches Ok(t) && t@ == bytes,
                Err(error) => made matches Err(e) && e == error,
            },
    {
        let raw: &[u8] = text.as_bytes();
        if raw.len() != 4 {
            return Err(ChunkError::InvalidLength);
        }
        let chunk_bytes: [u8; 4] = [raw[0], raw[1], raw[2], raw[3]];

        if !are_bytes_uppercase_lowercase_chars(chunk_bytes) {
            return Err(ChunkError::InvalidChunkType);
        }
        Ok(Self { bytes: chunk_bytes })
    }
}

} // verus!
