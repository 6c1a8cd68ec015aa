//! The payload integrity checksum: CRC-32 with the BZIP2 parameter set,
//! computed by the `crc` crate.

use vstd::prelude::*;

verus! {

/// The CRC-32/BZIP2 digest of a byte sequence. The digest is left
/// uninterpreted: it is a fixed function of the bytes alone, and the
/// contracts of the embedder and the trust gate relate their stored and
/// recomputed checksums through this one name.
pub uninterp spec fn crc32_bzip2_of(data: Seq<u8>) -> u32;

/// Relies on `crc::Crc::<u32>::checksum` with the `CRC_32_BZIP2` algorithm
/// from the crc catalog: a table-driven digest that depends on the input
/// bytes alone.
#[verifier::external_body]
pub(crate) fn crc32_bzip2(data: &[u8]) -> (r: u32)
    ensures
        r == crc32_bzip2_of(data@),
{
    crc::Crc::<u32>::new(&crc::CRC_32_BZIP2).checksum(data)
}

} // verus!
