use vstd::prelude::*;

verus! {

/// The number that four bytes spell, most significant byte first.
pub open spec fn be_value(bytes: Seq<u8>) -> nat
    recommends
        bytes.len() == 4,
{
    (bytes[0] as nat) * 0x100_0000 + (bytes[1] as nat) * 0x1_0000 + (bytes[2] as nat) * 0x100
        + (bytes[3] as nat)
}

/// The four bytes that spell `x`, most significant byte first.
pub open spec fn be_bytes(x: u32) -> Seq<u8> {
    seq![
        (x / 0x100_0000) as u8,
        (x / 0x1_0000 % 0x100) as u8,
        (x / 0x100 % 0x100) as u8,
        (x % 0x100) as u8,
    ]
}

/// Four bytes always spell a number that fits in 32 bits.
pub proof fn be_value_fits(bytes: Seq<u8>)
    requires
        bytes.len() == 4,
    ensures
        be_value(bytes) <= u32::MAX,
{
}

/// Reading back the bytes of a number gives the number.
pub proof fn be_value_of_be_bytes(x: u32)
    ensures
        be_bytes(x).len() == 4,
        be_value(be_bytes(x)) == x,
{
}

/// Writing out the number that four bytes spell gives the four bytes.
pub proof fn be_bytes_of_be_value(bytes: Seq<u8>)
    requires
        bytes.len() == 4,
    ensures
        be_bytes(be_value(bytes) as u32) == bytes,
{
    let x: u32 = be_value(bytes) as u32;
    assert(x / 0x100_0000 == bytes[0]);
    assert(x / 0x1_0000 % 0x100 == bytes[1]);
    assert(x / 0x100 % 0x100 == bytes[2]);
    assert(x % 0x100 == bytes[3]);
    assert(be_bytes(x) =~= bytes);
}

/// Reads a big-endian 32-bit number.
pub fn read_u32(bytes: [u8; 4]) -> (x: u32)
    ensures
        x == be_value(bytes@),
{
    let b0: u32 = bytes[0] as u32;
    let b1: u32 = bytes[1] as u32;
    let b2: u32 = bytes[2] as u32;
    let b3: u32 = bytes[3] as u32;
    assert(b0 * 0x100_0000 + b1 * 0x1_0000 + b2 * 0x100 + b3 == (b0 << 24 | b1 << 16 | b2 << 8
        | b3)) by (bit_vector)
        requires
            b0 < 0x100,
            b1 < 0x100,
            b2 < 0x100,
            b3 < 0x100,
    ;
    b0 << 24 | b1 << 16 | b2 << 8 | b3
}

/// Writes a 32-bit number as four bytes, most significant byte first.
pub fn write_u32(x: u32) -> (bytes: [u8; 4])
    ensures
        bytes@ == be_bytes(x),
{
    assert(x >> 24 == x / 0x100_0000 && x >> 24 < 0x100) by (bit_vector);
    assert((x >> 16) & 0xff == x / 0x1_0000 % 0x100 && (x >> 16) & 0xff < 0x100) by (bit_vector);
    assert((x >> 8) & 0xff == x / 0x100 % 0x100 && (x >> 8) & 0xff < 0x100) by (bit_vector);
    assert(x & 0xff == x % 0x100 && x & 0xff < 0x100) by (bit_vector);
    let bytes: [u8; 4] = [
        (x >> 24) as u8,
        ((x >> 16) & 0xff) as u8,
        ((x >> 8) & 0xff) as u8,
        (x & 0xff) as u8,
    ];
    assert(bytes@ =~= be_bytes(x));
    bytes
}

} // verus!
