use crate::big_endian::{
    be_bytes, be_bytes_of_be_value, be_value, be_value_fits, be_value_of_be_bytes, read_u32,
    write_u32,
};
use crate::checksum::{crc32, crc32_iso_hdlc};
use crate::chunk_type::{all_letters, ChunkType};
use crate::error::ChunkError;
use crate::text::{ascii_text, decimal, push_decimal, text_of_bytes};
use vstd::prelude::*;
use vstd::slice::slice_to_vec;
use vstd::std_specs::convert::TryFromSpecImpl;
use vstd::string::StringExecFns;
use vstd::string::StringSliceAdditionalSpecFns;
use vstd::utf8::{decode_utf8, valid_utf8};

verus! {

/// What a chunk holds, as mathematical values.
#[verifier::ext_equal]
pub struct ChunkView {
    /// The payload's size as the chunk declares it.
    pub length: nat,
    /// The four bytes of the chunk type.
    pub chunk_type: Seq<u8>,
    /// The payload.
    pub data: Seq<u8>,
    /// The checksum that the chunk carries.
    pub crc: u32,
}

impl ChunkView {
    /// What holds of every chunk: its type is four ASCII letters, and its
    /// checksum is that of the type followed by the payload.
    pub open spec fn well_formed(self) -> bool {
        &&& self.chunk_type.len() == 4
        &&& all_letters(self.chunk_type)
        &&& self.crc == crc32_iso_hdlc(self.chunk_type + self.data)
    }
}

/// The chunk that is built from a type and a payload: its length is the
/// payload's size, and its checksum is computed.
pub open spec fn built(chunk_type: Seq<u8>, data: Seq<u8>) -> ChunkView {
    ChunkView {
        length: data.len(),
        chunk_type,
        data,
        crc: crc32_iso_hdlc(chunk_type + data),
    }
}

/// The shortest buffer that holds a chunk: a length, a type and a checksum
/// of four bytes each, around an empty payload.
pub const MIN_FRAME_LEN: usize = 12;

/// The part of a buffer that its checksum covers: the type and the payload,
/// that is all but the first four and the last four bytes.
pub open spec fn checked_part(bytes: Seq<u8>) -> Seq<u8> {
    bytes.subrange(4, bytes.len() - 4)
}

/// What decoding makes of `bytes`, given the checksum `computed` of their
/// checked part.
///
/// The buffer is taken as one whole record: a length, a type, a payload and
/// a checksum. The payload is all that lies between the type and the last
/// four bytes. The declared length is handed on as it was read; it does not
/// say where the payload ends, and it is not compared with the payload's
/// size.
pub open spec fn parse_frame(bytes: Seq<u8>, computed: u32) -> Result<ChunkView, ChunkError> {
    if bytes.len() < MIN_FRAME_LEN {
        Err(ChunkError::TruncatedInput)
    } else if !all_letters(bytes.subrange(4, 8)) {
        Err(ChunkError::InvalidChunkType)
    } else if be_value(bytes.subrange(bytes.len() - 4, bytes.len() as int)) != computed {
        Err(ChunkError::ChecksumMismatch)
    } else {
        Ok(
            ChunkView {
                length: be_value(bytes.subrange(0, 4)),
                chunk_type: bytes.subrange(4, 8),
                data: bytes.subrange(8, bytes.len() - 4),
                crc: computed,
            },
        )
    }
}

/// What decoding makes of `bytes`.
pub open spec fn parse(bytes: Seq<u8>) -> Result<ChunkView, ChunkError> {
    parse_frame(bytes, crc32_iso_hdlc(checked_part(bytes)))
}

/// The length that is written for a chunk: the declared length where it
/// fits in four bytes, and else what its low 32 bits spell.
pub open spec fn written_length(chunk: ChunkView) -> u32 {
    (chunk.length % 0x1_0000_0000) as u32
}

/// The bytes that a chunk is written as: the length and the checksum as
/// big-endian numbers of four bytes, around the type and the payload.
pub open spec fn frame_bytes(chunk: ChunkView) -> Seq<u8> {
    be_bytes(written_length(chunk)) + chunk.chunk_type + chunk.data + be_bytes(chunk.crc)
}

/// How a chunk whose payload is text is shown to a reader.
pub open spec fn rendering(chunk: ChunkView) -> Seq<char> {
    "Chunk Type = "@ + ascii_text(chunk.chunk_type) + ". Data = "@ + decode_utf8(chunk.data)
        + ". Length = "@ + decimal(chunk.length) + ". CRC = "@ + decimal(chunk.crc as nat)
}

/// The fields of a record as they were read from a buffer whose stored
/// checksum was found equal to the one it was held against.
pub struct Frame {
    /// The declared length.
    pub length: u32,
    /// The chunk type.
    pub chunk_type: ChunkType,
    /// The payload.
    pub data: Vec<u8>,
    /// The stored checksum.
    pub crc: u32,
}

impl View for Frame {
    type V = ChunkView;

    open spec fn view(&self) -> ChunkView {
        ChunkView {
            length: self.length as nat,
            chunk_type: self.chunk_type@,
            data: self.data@,
            crc: self.crc,
        }
    }
}

impl Frame {
    /// Reads a record from `input` and holds its stored checksum against
    /// `computed`, the checksum of the input's type and payload.
    pub fn decode(input: &[u8], computed: u32) -> (read: Result<Frame, ChunkError>)
        ensures
            match parse_frame(input@, computed) {
                Ok(chunk) => read matches Ok(frame) && frame@ == chunk,
                Err(error) => read matches Err(e) && e == error,
            },
    {
        let n: usize = input.len();
        if n < MIN_FRAME_LEN {
            return Err(ChunkError::TruncatedInput);
        }
        let length_bytes: [u8; 4] = [input[0], input[1], input[2], input[3]];
        let length: u32 = read_u32(length_bytes);

        let type_bytes: [u8; 4] = [input[4], input[5], input[6], input[7]];
        assert(type_bytes@ =~= input@.subrange(4, 8));
        let chunk_type = match ChunkType::try_from(type_bytes) {
            Ok(chunk_type) => chunk_type,
            Err(error) => {
                return Err(error);
            },
        };

        let crc_index: usize = n - 4;
        let crc_bytes: [u8; 4] = [
            input[crc_index],
            input[crc_index + 1],
            input[crc_index + 2],
            input[crc_index + 3],
        ];
        let crc: u32 = read_u32(crc_bytes);

        let data: Vec<u8> = slice_to_vec(&input[8..crc_index]);

        if crc != computed {
            return Err(ChunkError::ChecksumMismatch);
        }
        Ok(Frame { length, chunk_type, data, crc })
    }
}

/// One record of a PNG file: a declared length, a type, a payload and the
/// checksum of the type and the payload.
pub struct Chunk {
    length: usize,
    chunk_type: ChunkType,
    data: Vec<u8>,
    crc: u32,
}

impl View for Chunk {
    type V = ChunkView;

    closed spec fn view(&self) -> ChunkView {
        ChunkView {
            length: self.length as nat,
            chunk_type: self.chunk_type@,
            data: self.data@,
            crc: self.crc,
        }
    }
}

impl TryFromSpecImpl<&[u8]> for Chunk {
    /// What decoding gives is stated by `parse`, over views, in the
    /// `ensures` of `try_from`. It is not stated as a value of `Chunk`: a
    /// chunk owns its payload, and bytes alone do not say which vector
    /// that is.
    open spec fn obeys_try_from_spec() -> bool {
        false
    }

    open spec fn try_from_spec(input: &[u8]) -> Result<Self, ChunkError> {
        arbitrary()
    }
}

impl TryFrom<&[u8]> for Chunk {
    type Error = ChunkError;

    /// Decodes one chunk from a buffer that holds it and nothing else.
    ///
    /// A buffer of fewer than twelve bytes is refused as truncated. Then
    /// the type is looked at, which must be four letters, and then the
    /// checksum, which must be that of the type and the payload. The
    /// payload is all that lies between the type and the last four bytes;
    /// the declared length is kept as it was read.
    fn try_from(input: &[u8]) -> (decoded: Result<Self, ChunkError>)
        ensures
            match parse(input@) {
                Ok(chunk) => decoded matches Ok(c) && c@ == chunk && chunk.well_formed(),
                Err(error) => decoded matches Err(e) && e == error,
            },
    {
        let n: usize = input.len();
        if n < MIN_FRAME_LEN {
            return Err(ChunkError::TruncatedInput);
        }
        let computed: u32 = crc32(&input[4..n - 4]);
        match Frame::decode(input, computed) {
            Ok(frame) => {
                proof {
                    use_type_invariant(&frame.chunk_type);
                    assert(frame.chunk_type@ + frame.data@ =~= checked_part(input@));
                }
                Ok(
                    Chunk {
                        length: frame.length as usize,
                        chunk_type: frame.chunk_type,
                        data: frame.data,
                        crc: frame.crc,
                    },
                )
            },
            Err(error) => Err(error),
        }
    }
}

impl Chunk {
    /// The type of every chunk is four letters, and its checksum is that of
    /// its type followed by its payload.
    #[verifier::type_invariant]
    pub closed spec fn sealed(&self) -> bool {
        &&& self.chunk_type.well_formed()
        &&& self.crc == crc32_iso_hdlc(self.chunk_type@ + self.data@)
    }

    /// What being sealed means for what a chunk holds.
    pub proof fn sealed_is_well_formed(&self)
        ensures
            self.sealed() <==> self@.well_formed(),
    {
        self.chunk_type.four_letters();
    }

    /// Builds a chunk from a type and a payload. Any payload is accepted.
    pub fn new(chunk_type: ChunkType, data: Vec<u8>) -> (chunk: Self)
        ensures
            chunk@ == built(chunk_type@, data@),
            chunk@.well_formed(),
    {
        let mut crc_target: Vec<u8> = slice_to_vec(chunk_type.bytes().as_slice());
        crc_target.extend_from_slice(data.as_slice());
        assert(crc_target@ =~= chunk_type@ + data@);

        let crc: u32 = crc32(crc_target.as_slice());

        proof {
            use_type_invariant(&chunk_type);
        }
        Self { length: data.len(), chunk_type, data, crc }
    }

    /// The checksum, which is that of the type followed by the payload.
    pub fn crc(&self) -> (crc: u32)
        ensures
            crc == self@.crc,
            self@.well_formed(),
    {
        proof {
            use_type_invariant(self);
            self.sealed_is_well_formed();
        }
        self.crc
    }

    /// The payload's size as the chunk declares it. In a chunk that was
    /// built it is the payload's size; in one that was decoded it is what
    /// the buffer said.
    pub fn length(&self) -> (length: usize)
        ensures
            length == self@.length,
    {
        self.length
    }

    /// The type.
    pub fn chunk_type(&self) -> (chunk_type: &ChunkType)
        ensures
            chunk_type@ == self@.chunk_type,
    {
        &self.chunk_type
    }

    /// The payload.
    pub fn data(&self) -> (data: &[u8])
        ensures
            data@ == self@.data,
    {
        self.data.as_slice()
    }

    /// The payload as text, where it is UTF-8.
    pub fn data_as_string(&self) -> (text: Result<&str, ChunkError>)
        ensures
            text is Ok <==> valid_utf8(self@.data),
            text matches Ok(s) ==> s@ == decode_utf8(self@.data) && s.spec_bytes() == self@.data,
            text matches Err(e) ==> e == ChunkError::TextDecodeError,
    {
        match core::str::from_utf8(self.data.as_slice()) {
            Ok(s) => {
                proof {
                    text_of_bytes(s);
                }
                Ok(s)
            },
            Err(_) => Err(ChunkError::TextDecodeError),
        }
    }

    /// The bytes of the chunk as a file holds them. The length field has
    /// four bytes: of a declared length that needs more, only the low 32
    /// bits are written, and the bytes then do not decode to this chunk.
    pub fn as_bytes(&self) -> (bytes: Vec<u8>)
        ensures
            bytes@ == frame_bytes(self@),
    {
        let length: u64 = self.length as u64;
        assert(length as u32 == length % 0x1_0000_0000) by (bit_vector);
        let length_u32: u32 = #[verifier::truncate] (length as u32);

        let mut bytes: Vec<u8> = slice_to_vec(write_u32(length_u32).as_slice());

        bytes.extend_from_slice(self.chunk_type.bytes().as_slice());
        bytes.extend_from_slice(self.data.as_slice());
        bytes.extend_from_slice(write_u32(self.crc).as_slice());

        bytes
    }

    /// Shows a chunk whose payload is text: its type, the text, its length
    /// and its checksum.
    pub fn to_string(&self) -> (shown: String)
        requires
            valid_utf8(self@.data),
        ensures
            shown@ == rendering(self@),
    {
        let type_text: String = self.chunk_type.to_string();
        let data_text: &str = match self.data_as_string() {
            Ok(s) => s,
            Err(_) => vstd::pervasive::unreached(),
        };
        let mut shown: String = String::from_str("Chunk Type = ");
        shown.append(type_text.as_str());
        shown.append(". Data = ");
        shown.append(data_text);
        shown.append(". Length = ");
        push_decimal(&mut shown, self.length as u64);
        shown.append(". CRC = ");
        push_decimal(&mut shown, self.crc as u64);
        shown
    }
}

/// The bytes of a chunk decode to that chunk if its checksum is that of
/// its type and payload, and are refused for their checksum if it is not.
pub proof fn frame_bytes_decode(chunk: ChunkView)
    requires
        chunk.chunk_type.len() == 4,
        all_letters(chunk.chunk_type),
        chunk.length <= u32::MAX,
    ensures
        frame_bytes(chunk).len() == chunk.data.len() + MIN_FRAME_LEN,
        checked_part(frame_bytes(chunk)) == chunk.chunk_type + chunk.data,
        parse(frame_bytes(chunk)) == if chunk.crc == crc32_iso_hdlc(chunk.chunk_type + chunk.data) {
            Ok::<ChunkView, ChunkError>(chunk)
        } else {
            Err::<ChunkView, ChunkError>(ChunkError::ChecksumMismatch)
        },
{
    let bytes = frame_bytes(chunk);
    let n: int = bytes.len() as int;
    be_value_of_be_bytes(written_length(chunk));
    be_value_of_be_bytes(chunk.crc);
    assert(bytes.subrange(0, 4) =~= be_bytes(written_length(chunk)));
    assert(bytes.subrange(4, 8) =~= chunk.chunk_type);
    assert(bytes.subrange(8, n - 4) =~= chunk.data);
    assert(bytes.subrange(n - 4, n) =~= be_bytes(chunk.crc));
}

/// Round trip: a chunk built from a type and a payload, written out and
/// decoded again, is the chunk that was built, with the same length, type,
/// payload and checksum. The payload must be short enough for its size to
/// be written in four bytes.
pub proof fn built_chunk_round_trips(chunk_type: ChunkType, data: Seq<u8>)
    requires
        chunk_type.well_formed(),
        data.len() <= u32::MAX,
    ensures
        built(chunk_type@, data).well_formed(),
        parse(frame_bytes(built(chunk_type@, data))) == Ok::<ChunkView, ChunkError>(
            built(chunk_type@, data),
        ),
{
    chunk_type.four_letters();
    frame_bytes_decode(built(chunk_type@, data));
}

/// Writing out what a buffer decoded to gives the buffer back: decoding
/// loses nothing, the declared length included.
pub proof fn decoded_frame_bytes(bytes: Seq<u8>)
    ensures
        parse(bytes) matches Ok(chunk) ==> frame_bytes(chunk) == bytes && chunk.well_formed()
            && chunk.length <= u32::MAX,
{
    if let Ok(chunk) = parse(bytes) {
        let n: int = bytes.len() as int;
        be_value_fits(bytes.subrange(0, 4));
        be_bytes_of_be_value(bytes.subrange(0, 4));
        be_bytes_of_be_value(bytes.subrange(n - 4, n));
        assert(chunk.chunk_type + chunk.data =~= checked_part(bytes));
    }
}

/// Whether two buffers of one size have the same first four and the same
/// last four bytes: the same declared length and the same stored checksum.
pub open spec fn same_length_and_checksum_fields(a: Seq<u8>, b: Seq<u8>) -> bool {
    &&& a.len() == b.len()
    &&& a.len() >= MIN_FRAME_LEN
    &&& a.subrange(0, 4) == b.subrange(0, 4)
    &&& a.subrange(a.len() - 4, a.len() as int) == b.subrange(b.len() - 4, b.len() as int)
}

/// What becomes of a buffer that decodes when bytes of its type or payload
/// are changed and the rest is left alone. It is refused for its type if
/// that is no longer four letters. Else it is refused for its checksum,
/// unless its type and payload now have the very checksum that they had
/// before: only then does it decode, to the changed type and payload.
pub proof fn altered_frame_decodes_only_on_equal_checksums(intact: Seq<u8>, altered: Seq<u8>)
    requires
        same_length_and_checksum_fields(intact, altered),
    ensures
        parse(intact) matches Ok(chunk) ==> parse(altered) == if !all_letters(
            altered.subrange(4, 8),
        ) {
            Err::<ChunkView, ChunkError>(ChunkError::InvalidChunkType)
        } else if crc32_iso_hdlc(checked_part(altered)) != crc32_iso_hdlc(checked_part(intact)) {
            Err::<ChunkView, ChunkError>(ChunkError::ChecksumMismatch)
        } else {
            Ok::<ChunkView, ChunkError>(
                ChunkView {
                    length: chunk.length,
                    chunk_type: altered.subrange(4, 8),
                    data: altered.subrange(8, altered.len() - 4),
                    crc: chunk.crc,
                },
            )
        },
{
}

} // verus!
