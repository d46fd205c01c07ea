use vstd::prelude::*;

verus! {

/// The CRC-32/ISO-HDLC checksum of `bytes`: the value that the `crc` crate
/// computes for them with its `CRC_32_ISO_HDLC` parameters. It is the
/// checksum of zlib and of PNG.
pub uninterp spec fn crc32_iso_hdlc(bytes: Seq<u8>) -> u32;

/// Calls `crc::Crc::<u32>::checksum` on a `Crc` made for
/// `crc::CRC_32_ISO_HDLC`. That method reads nothing but the bytes and the
/// fixed parameters, so the result is a function of the bytes: the contract
/// names it and claims nothing more.
#[verifier::external_body]
pub(crate) fn crc32(bytes: &[u8]) -> (sum: u32)
    ensures
        sum == crc32_iso_hdlc(bytes@),
{
    crc::Crc::<u32>::new(&crc::CRC_32_ISO_HDLC).checksum(bytes)
}

} // verus!
