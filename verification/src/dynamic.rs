//! The dynamic-segment parser.
//!
//! Walks the `PT_DYNAMIC` segment's entries and records exactly three pieces
//! of data: the relocation table's virtual address, its size in bytes, and
//! the flags-1 mask. All other tags are acknowledged and skipped; a tag
//! outside every defined range is a parse error, mirroring the validation of
//! the ELF-structure parser.

use crate::bytes::le32;
use crate::bytes::le64;
use crate::bytes::read_le32;
use crate::bytes::read_le64;
use crate::DynamicFlags1;
use crate::DynamicInfo;
use crate::ElfLoaderErr;
use crate::MSG_DATA_OUT_OF_RANGE;
use crate::MSG_INVALID_DYN_TAG;
use vstd::prelude::*;

verus! {

/// Dynamic tag of a `DT_RELA` entry.
pub const DT_RELA: u64 = 7;

/// Dynamic tag of a `DT_RELASZ` entry.
pub const DT_RELASZ: u64 = 8;

/// Dynamic tag of a `DT_REL` entry.
pub const DT_REL: u64 = 17;

/// Dynamic tag of a `DT_RELSZ` entry.
pub const DT_RELSZ: u64 = 18;

/// Dynamic tag of a `DT_FLAGS` entry.
pub const DT_FLAGS: u64 = 30;

/// Dynamic tag of a `DT_FLAGS_1` entry.
pub const DT_FLAGS_1: u64 = 0x6ffffffb;

/// The dynamic tags the ELF-structure parser recognizes: the standard tags
/// 0 to 30 and 32 to 37, and the OS- and processor-specific ranges.
pub open spec fn spec_dyn_tag_valid(t: u64) -> bool {
    ||| t <= 30
    ||| 32 <= t <= 37
    ||| 0x6000000D <= t < 0x80000000
}

/// Size in bytes of one dynamic entry of the given class.
pub open spec fn spec_dyn_stride(class: u8) -> int {
    if class == 1 {
        8
    } else {
        16
    }
}

/// The tag of the dynamic entry at byte position `base + pos`, widened.
pub open spec fn spec_dyn_tag(b: Seq<u8>, class: u8, base: int, pos: int) -> u64 {
    if class == 1 {
        le32(b, base + pos) as u64
    } else {
        le64(b, base + pos)
    }
}

/// The value of the dynamic entry at byte position `base + pos`, widened.
pub open spec fn spec_dyn_val(b: Seq<u8>, class: u8, base: int, pos: int) -> u64 {
    if class == 1 {
        le32(b, base + pos + 4) as u64
    } else {
        le64(b, base + pos + 8)
    }
}

/// What one dynamic entry contributes to the summary: `DT_RELA`/`DT_REL` set
/// the table address, `DT_RELASZ`/`DT_RELSZ` its size, and `DT_FLAGS_1` (for
/// a 32-bit binary also `DT_FLAGS`) the flags mask. Every other tag leaves
/// the summary unchanged.
pub open spec fn spec_dyn_step(class: u8, tag: u64, val: u64, acc: DynamicInfo) -> DynamicInfo {
    if tag == DT_RELA || tag == DT_REL {
        DynamicInfo { rela: val, ..acc }
    } else if tag == DT_RELASZ || tag == DT_RELSZ {
        DynamicInfo { rela_size: val, ..acc }
    } else if tag == DT_FLAGS_1 || (class == 1 && tag == DT_FLAGS) {
        DynamicInfo { flags1: DynamicFlags1 { bits: val }, ..acc }
    } else {
        acc
    }
}

/// Fold the entries from byte position `pos` (a multiple of the stride) up to
/// `size` into the summary; an invalid tag aborts the parse.
pub open spec fn spec_parse_dyn_from(
    b: Seq<u8>,
    class: u8,
    base: int,
    size: int,
    pos: int,
    acc: DynamicInfo,
) -> Result<DynamicInfo, ElfLoaderErr>
    decreases size - pos,
{
    if pos < 0 || pos >= size {
        Ok(acc)
    } else {
        let tag = spec_dyn_tag(b, class, base, pos);
        let val = spec_dyn_val(b, class, base, pos);
        if !spec_dyn_tag_valid(tag) {
            Err(ElfLoaderErr::ElfParser { source: MSG_INVALID_DYN_TAG })
        } else {
            let next = if pos + spec_dyn_stride(class) <= size {
                pos + spec_dyn_stride(class)
            } else {
                size
            };
            spec_parse_dyn_from(b, class, base, size, next, spec_dyn_step(class, tag, val, acc))
        }
    }
}

/// The initial, empty summary.
pub open spec fn spec_dyn_default() -> DynamicInfo {
    DynamicInfo { flags1: DynamicFlags1 { bits: 0 }, rela: 0, rela_size: 0 }
}

/// The summary parsed from the dynamic segment at file offset `off` with
/// `size` file-backed bytes. An empty segment parses to the empty summary;
/// bytes outside the region are a parse error; a byte count that is not a
/// whole number of entries of the class's shape is `UnsupportedSectionData`.
pub open spec fn spec_parse_dynamic(b: Seq<u8>, class: u8, off: int, size: int) -> Result<
    DynamicInfo,
    ElfLoaderErr,
> {
    if size == 0 {
        Ok(spec_dyn_default())
    } else if off + size > b.len() {
        Err(ElfLoaderErr::ElfParser { source: MSG_DATA_OUT_OF_RANGE })
    } else if size % spec_dyn_stride(class) != 0 {
        Err(ElfLoaderErr::UnsupportedSectionData)
    } else {
        spec_parse_dyn_from(b, class, off, size, 0, spec_dyn_default())
    }
}

/// Parse the dynamic segment whose file bytes start at `off` and span `size`
/// bytes of `region`.
pub fn parse_dynamic(region: &[u8], class: u8, off: u64, size: u64) -> (r: Result<
    DynamicInfo,
    ElfLoaderErr,
>)
    ensures
        r == spec_parse_dynamic(region@, class, off as int, size as int),
{
    let rlen: usize = region.len();
    let len_u64 = rlen as u64;
    if size == 0 {
        return Ok(DynamicInfo { flags1: DynamicFlags1 { bits: 0 }, rela: 0, rela_size: 0 });
    }
    if off > len_u64 || size > len_u64 - off {
        return Err(ElfLoaderErr::ElfParser { source: MSG_DATA_OUT_OF_RANGE });
    }
    let stride: u64 = if class == 1 {
        8
    } else {
        16
    };
    if size % stride != 0 {
        return Err(ElfLoaderErr::UnsupportedSectionData);
    }
    assert((size as int - 0) % (stride as int) == 0);
    let mut acc = DynamicInfo { flags1: DynamicFlags1 { bits: 0 }, rela: 0, rela_size: 0 };
    let mut pos: u64 = 0;
    loop
        invariant
            rlen == region@.len(),
            len_u64 == rlen as u64,
            stride == spec_dyn_stride(class),
            off + size <= len_u64,
            0 <= pos <= size,
            (size - pos) % (stride as int) == 0,
            spec_parse_dynamic(region@, class, off as int, size as int) == spec_parse_dyn_from(
                region@,
                class,
                off as int,
                size as int,
                pos as int,
                acc,
            ),
        ensures
            pos == size,
            spec_parse_dynamic(region@, class, off as int, size as int) == Ok::<
                DynamicInfo,
                ElfLoaderErr,
            >(acc),
        decreases size - pos,
    {
        if pos >= size {
            break ;
        }
        proof {
            let rem = size as int - pos as int;
            assert(rem >= stride as int) by {
                if rem < stride as int {
                    vstd::arithmetic::div_mod::lemma_small_mod(rem as nat, stride as nat);
                }
            }
            vstd::arithmetic::div_mod::lemma_mod_multiples_vanish(
                1,
                rem - stride as int,
                stride as int,
            );
        }
        let base: usize = (off + pos) as usize;
        let (tag, val) = if class == 1 {
            (read_le32(region, base) as u64, read_le32(region, base + 4) as u64)
        } else {
            (read_le64(region, base), read_le64(region, base + 8))
        };
        let tag_valid = tag <= 30 || (32 <= tag && tag <= 37) || (0x6000000D <= tag && tag
            < 0x80000000);
        if !tag_valid {
            return Err(ElfLoaderErr::ElfParser { source: MSG_INVALID_DYN_TAG });
        }
        acc = if tag == DT_RELA || tag == DT_REL {
            DynamicInfo { rela: val, ..acc }
        } else if tag == DT_RELASZ || tag == DT_RELSZ {
            DynamicInfo { rela_size: val, ..acc }
        } else if tag == DT_FLAGS_1 || (class == 1 && tag == DT_FLAGS) {
            DynamicInfo { flags1: DynamicFlags1 { bits: val }, ..acc }
        } else {
            acc
        };
        pos = pos + stride;
    }
    Ok(acc)
}

} // verus!
