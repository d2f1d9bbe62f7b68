//! CRC-32/IEEE, computed by the `crc` crate.

use vstd::prelude::*;

verus! {

/// The CRC-32/IEEE value that follows `value` once `byte` has been taken in:
/// what `crc::crc32::update` returns for that value, the IEEE table and the
/// one-byte slice.
pub uninterp spec fn crc32_byte(value: u32, byte: u8) -> u32;

/// The CRC-32/IEEE value reached from `value` by taking in `bytes` in order.
pub open spec fn crc32(value: u32, bytes: Seq<u8>) -> u32
    decreases bytes.len(),
{
    if bytes.len() == 0 {
        value
    } else {
        crc32_byte(crc32(value, bytes.drop_last()), bytes.last())
    }
}

/// Continuing a checksum over `a` with `b` is the checksum over `a` followed
/// by `b`.
pub proof fn lemma_crc32_concat(value: u32, a: Seq<u8>, b: Seq<u8>)
    ensures
        crc32(crc32(value, a), b) == crc32(value, a + b),
    decreases b.len(),
{
    if b.len() > 0 {
        lemma_crc32_concat(value, a, b.drop_last());
        assert((a + b).drop_last() =~= a + b.drop_last());
    }
}

/// `crc::crc32::update` with the IEEE table. The function complements the
/// value, folds each byte in through the table and complements again, so a
/// call over several bytes equals the one-byte calls made in order, and a
/// call over no bytes returns `value`.
#[verifier::external_body]
pub(crate) fn crc32_update(value: u32, bytes: &[u8]) -> (r: u32)
    ensures
        r == crc32(value, bytes@),
        bytes@.len() == 1 ==> r == crc32_byte(value, bytes@[0]),
{
    ::crc::crc32::update(value, &::crc::crc32::IEEE_TABLE, bytes)
}

/// `crc::crc32::checksum_ieee`, which is `update` started from zero.
#[verifier::external_body]
pub(crate) fn crc32_checksum(bytes: &[u8]) -> (r: u32)
    ensures
        r == crc32(0, bytes@),
{
    ::crc::crc32::checksum_ieee(bytes)
}

} // verus!
