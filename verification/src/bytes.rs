//! Little-endian integer reads over the ELF byte region.
//!
//! All multi-byte fields of an ELF image handled by this crate are
//! little-endian; these helpers read them out of the raw region and are
//! specified exactly against `vstd::bytes`.

use vstd::bytes::spec_u16_from_le_bytes;
use vstd::bytes::spec_u32_from_le_bytes;
use vstd::bytes::spec_u64_from_le_bytes;
use vstd::bytes::u16_from_le_bytes;
use vstd::bytes::u32_from_le_bytes;
use vstd::bytes::u64_from_le_bytes;
use vstd::prelude::*;
use vstd::slice::slice_index_get;
use vstd::slice::slice_subrange;

verus! {

/// The little-endian `u16` at byte offset `off` of `b`.
pub open spec fn le16(b: Seq<u8>, off: int) -> u16 {
    spec_u16_from_le_bytes(b.subrange(off, off + 2))
}

/// The little-endian `u32` at byte offset `off` of `b`.
pub open spec fn le32(b: Seq<u8>, off: int) -> u32 {
    spec_u32_from_le_bytes(b.subrange(off, off + 4))
}

/// The little-endian `u64` at byte offset `off` of `b`.
pub open spec fn le64(b: Seq<u8>, off: int) -> u64 {
    spec_u64_from_le_bytes(b.subrange(off, off + 8))
}

/// Read the byte at offset `off`.
pub fn read_u8(b: &[u8], off: usize) -> (r: u8)
    requires
        off < b@.len(),
    ensures
        r == b@[off as int],
{
    *slice_index_get(b, off)
}

/// Read the little-endian `u16` at offset `off`.
pub fn read_le16(b: &[u8], off: usize) -> (r: u16)
    requires
        off + 2 <= b@.len(),
    ensures
        r == le16(b@, off as int),
{
    let n = b.len();
    assert(off + 2 <= n);
    u16_from_le_bytes(slice_subrange(b, off, off + 2))
}

/// Read the little-endian `u32` at offset `off`.
pub fn read_le32(b: &[u8], off: usize) -> (r: u32)
    requires
        off + 4 <= b@.len(),
    ensures
        r == le32(b@, off as int),
{
    let n = b.len();
    assert(off + 4 <= n);
    u32_from_le_bytes(slice_subrange(b, off, off + 4))
}

/// Read the little-endian `u64` at offset `off`.
pub fn read_le64(b: &[u8], off: usize) -> (r: u64)
    requires
        off + 8 <= b@.len(),
    ensures
        r == le64(b@, off as int),
{
    let n = b.len();
    assert(off + 8 <= n);
    u64_from_le_bytes(slice_subrange(b, off, off + 8))
}

} // verus!
