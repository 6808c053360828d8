//! Section headers: record layout and lookup of a section by name.
//!
//! A lookup walks the section-header table in order, resolves each section's
//! name through the section-name string table, and returns the first section
//! whose name matches exactly. Sections whose record lies outside the region
//! end the walk; sections with an invalid or `SHT_NULL` type, or whose name
//! cannot be resolved, are skipped.

use crate::bytes::le32;
use crate::bytes::le64;
use crate::bytes::read_le32;
use crate::bytes::read_le64;
use crate::bytes::read_u8;
use crate::header::ElfHeader;
use vstd::prelude::*;

verus! {

/// The fields of one section header that the loader reads, widened to the
/// 64-bit shapes.
#[derive(PartialEq, Eq, Structural, Clone, Copy, Debug)]
pub struct SectionInfo {
    /// Index of the section's name in the section-name string table.
    pub name_idx: u32,
    /// Raw section type (`sh_type`).
    pub sh_type: u32,
    /// File offset of the section's bytes.
    pub offset: u64,
    /// Size of the section's bytes in the file.
    pub size: u64,
}

/// `sh_type` of a string-table section.
pub const SHT_STRTAB: u32 = 3;

/// `sh_type` of a relocation section with addends.
pub const SHT_RELA: u32 = 4;

/// `sh_type` of a relocation section without addends.
pub const SHT_REL: u32 = 9;

/// `sh_type` of a symbol-table section.
pub const SHT_SYMTAB: u32 = 2;

/// Size in bytes of one section-header record of the given class.
pub open spec fn spec_shdr_size(class: u8) -> int {
    if class == 1 {
        40
    } else {
        64
    }
}

/// The `sh_type` values the ELF-structure parser recognizes.
pub open spec fn spec_sh_type_valid(t: u32) -> bool {
    ||| t <= 11
    ||| 14 <= t <= 18
    ||| t >= 0x60000000
}

/// The section header decoded from the record starting at byte `start`.
pub open spec fn spec_shdr_at(b: Seq<u8>, class: u8, start: int) -> SectionInfo {
    if class == 1 {
        SectionInfo {
            name_idx: le32(b, start),
            sh_type: le32(b, start + 4),
            offset: le32(b, start + 16) as u64,
            size: le32(b, start + 20) as u64,
        }
    } else {
        SectionInfo {
            name_idx: le32(b, start),
            sh_type: le32(b, start + 4),
            offset: le64(b, start + 24),
            size: le64(b, start + 32),
        }
    }
}

/// Whether the section-header table of `b` has a readable record at index
/// `i`. Unlike program headers, a zero table offset is not special.
pub open spec fn spec_shdr_slot_ok(b: Seq<u8>, h: ElfHeader, i: int) -> bool {
    &&& 0 <= i < h.sh_count
    &&& h.sh_entry_size >= spec_shdr_size(h.class)
    &&& h.sh_offset + (i + 1) * h.sh_entry_size <= b.len()
}

/// The `i`-th section header of `b`.
pub open spec fn spec_shdr(b: Seq<u8>, h: ElfHeader, i: int) -> SectionInfo {
    spec_shdr_at(b, h.class, h.sh_offset + i * h.sh_entry_size)
}

/// Whether the section-name string table can be resolved: its own header
/// record lies inside the region (the declared section count does not bound
/// it), and the table's start lies inside the region. The table extends from
/// that start to the end of the region.
pub open spec fn spec_shstr_ok(b: Seq<u8>, h: ElfHeader) -> bool {
    &&& h.sh_entry_size >= spec_shdr_size(h.class)
    &&& h.sh_offset + (h.sh_str_index + 1) * h.sh_entry_size <= b.len()
    &&& spec_shdr(b, h, h.sh_str_index as int).offset <= b.len()
}

/// The file offset where the section-name string table starts.
pub open spec fn spec_shstr_base(b: Seq<u8>, h: ElfHeader) -> int {
    spec_shdr(b, h, h.sh_str_index as int).offset as int
}

/// Whether the NUL-terminated string at `tab + idx` of `b` is exactly `nm`
/// (which itself contains no NUL).
pub open spec fn spec_name_matches(b: Seq<u8>, tab: int, idx: int, nm: Seq<u8>) -> bool {
    &&& tab + idx + nm.len() < b.len()
    &&& (forall|j: int| 0 <= j < nm.len() ==> b[tab + idx + j] == nm[j])
    &&& b[tab + idx + nm.len()] == 0
}

/// Whether section `i` of `b` is named `nm`: its record is readable, its type
/// is recognized and not `SHT_NULL`, the string table resolves, and the name
/// matches.
pub open spec fn spec_section_named(b: Seq<u8>, h: ElfHeader, i: int, nm: Seq<u8>) -> bool {
    &&& spec_shdr_slot_ok(b, h, i)
    &&& spec_shstr_ok(b, h)
    &&& spec_sh_type_valid(spec_shdr(b, h, i).sh_type)
    &&& spec_shdr(b, h, i).sh_type != 0
    &&& spec_name_matches(b, spec_shstr_base(b, h), spec_shdr(b, h, i).name_idx as int, nm)
}

/// The first section at index `i` or later whose name is `nm`; the walk ends
/// at the first record that is not readable.
pub open spec fn spec_find_section_from(b: Seq<u8>, h: ElfHeader, nm: Seq<u8>, i: int) -> Option<
    SectionInfo,
>
    decreases h.sh_count - i,
{
    if i < 0 || i >= h.sh_count {
        None
    } else if !spec_shdr_slot_ok(b, h, i) {
        None
    } else if spec_section_named(b, h, i, nm) {
        Some(spec_shdr(b, h, i))
    } else {
        spec_find_section_from(b, h, nm, i + 1)
    }
}

/// The first section of `b` whose name is `nm`.
pub open spec fn spec_find_section(b: Seq<u8>, h: ElfHeader, nm: Seq<u8>) -> Option<SectionInfo> {
    spec_find_section_from(b, h, nm, 0)
}

/// If the string table cannot be resolved, no search from any index finds a
/// section.
proof fn lemma_no_shstr_no_find(b: Seq<u8>, h: ElfHeader, nm: Seq<u8>, i: int)
    requires
        !spec_shstr_ok(b, h),
    ensures
        spec_find_section_from(b, h, nm, i) is None,
    decreases h.sh_count - i,
{
    if 0 <= i < h.sh_count && spec_shdr_slot_ok(b, h, i) && !spec_section_named(b, h, i, nm) {
        lemma_no_shstr_no_find(b, h, nm, i + 1);
    }
}

/// Whether the NUL-terminated string at `base + idx` of `region` is exactly
/// `nm`.
fn name_matches(region: &[u8], base: u64, idx: u32, nm: &[u8]) -> (r: bool)
    requires
        base <= region@.len(),
    ensures
        r == spec_name_matches(region@, base as int, idx as int, nm@),
{
    let rlen: usize = region.len();
    if idx as u64 > rlen as u64 - base {
        return false;
    }
    let p: usize = (base + idx as u64) as usize;
    assert(p == base as int + idx as int);
    if nm.len() >= rlen - p {
        return false;
    }
    let n = nm.len();
    for j in 0..n
        invariant
            p + n < rlen,
            p == base as int + idx as int,
            n == nm@.len(),
            rlen == region@.len(),
            forall|k: int| 0 <= k < j ==> region@[p + k] == nm@[k],
    {
        if read_u8(region, p + j) != read_u8(nm, j) {
            assert(!spec_name_matches(region@, base as int, idx as int, nm@)) by {
                assert(region@[base as int + idx as int + j] != nm@[j as int]);
            }
            return false;
        }
    }
    read_u8(region, p + n) == 0
}

/// Find the first section of `region` named `nm`, walking the section-header
/// table the way the ELF-structure parser does.
pub fn find_section(region: &[u8], h: &ElfHeader, nm: &[u8]) -> (r: Option<SectionInfo>)
    ensures
        r == spec_find_section(region@, *h, nm@),
{
    let rlen: usize = region.len();
    let len_u64 = rlen as u64;
    let struct_size: u16 = if h.class == 1 {
        40
    } else {
        64
    };
    // Resolve the section-name string table once; if it cannot be resolved,
    // no name can match.
    if h.sh_entry_size < struct_size {
        proof {
            lemma_no_shstr_no_find(region@, *h, nm@, 0);
        }
        return None;
    }
    proof {
        assert((h.sh_str_index as int + 1) * (h.sh_entry_size as int) <= 0x1_0000_0000)
            by (nonlinear_arith)
            requires
                0 <= h.sh_str_index as int <= 0xffff,
                0 <= h.sh_entry_size as int <= 0xffff,
        ;
        assert((h.sh_str_index as int + 1) * (h.sh_entry_size as int) >= 0) by (nonlinear_arith)
            requires
                h.sh_str_index as int >= 0,
                h.sh_entry_size as int >= 0,
        ;
    }
    let str_need: u64 = (h.sh_str_index as u64 + 1) * (h.sh_entry_size as u64);
    if h.sh_offset > len_u64 || str_need > len_u64 - h.sh_offset {
        proof {
            lemma_no_shstr_no_find(region@, *h, nm@, 0);
        }
        return None;
    }
    proof {
        assert((h.sh_str_index as int) * (h.sh_entry_size as int) >= 0 && (h.sh_str_index as int)
            * (h.sh_entry_size as int) + (h.sh_entry_size as int) == (h.sh_str_index as int + 1) * (
        h.sh_entry_size as int)) by (nonlinear_arith)
            requires
                h.sh_str_index as int >= 0,
                h.sh_entry_size as int >= 0,
        ;
    }
    let str_start: usize = (h.sh_offset + (h.sh_str_index as u64) * (h.sh_entry_size as u64))
        as usize;
    let shstr = read_shdr_at(region, h, str_start);
    assert(shstr == spec_shdr(region@, *h, h.sh_str_index as int));
    if shstr.offset > len_u64 {
        proof {
            lemma_no_shstr_no_find(region@, *h, nm@, 0);
        }
        return None;
    }
    assert(spec_shstr_ok(region@, *h));
    let base: u64 = shstr.offset;
    let mut i: u16 = 0;
    loop
        invariant
            0 <= i <= h.sh_count,
            rlen == region@.len(),
            len_u64 == rlen as u64,
            struct_size == spec_shdr_size(h.class),
            h.sh_entry_size >= struct_size,
            spec_shstr_ok(region@, *h),
            base as int == spec_shstr_base(region@, *h),
            spec_find_section(region@, *h, nm@) == spec_find_section_from(
                region@,
                *h,
                nm@,
                i as int,
            ),
        ensures
            spec_find_section(region@, *h, nm@) is None,
        decreases h.sh_count - i,
    {
        if i >= h.sh_count {
            break ;
        }
        proof {
            assert((i as int + 1) * (h.sh_entry_size as int) <= 0x1_0000_0000) by (nonlinear_arith)
                requires
                    0 <= i as int <= 0xffff,
                    0 <= h.sh_entry_size as int <= 0xffff,
            ;
            assert((i as int + 1) * (h.sh_entry_size as int) >= 0) by (nonlinear_arith)
                requires
                    i as int >= 0,
                    h.sh_entry_size as int >= 0,
            ;
        }
        let need: u64 = (i as u64 + 1) * (h.sh_entry_size as u64);
        if h.sh_offset > len_u64 || need > len_u64 - h.sh_offset {
            assert(!spec_shdr_slot_ok(region@, *h, i as int));
            break ;
        }
        assert(spec_shdr_slot_ok(region@, *h, i as int));
        proof {
            assert((i as int) * (h.sh_entry_size as int) >= 0 && (i as int) * (h.sh_entry_size
                as int) + (h.sh_entry_size as int) == (i as int + 1) * (h.sh_entry_size as int))
                by (nonlinear_arith)
                requires
                    i as int >= 0,
                    h.sh_entry_size as int >= 0,
            ;
        }
        let start: usize = (h.sh_offset + (i as u64) * (h.sh_entry_size as u64)) as usize;
        let s = read_shdr_at(region, h, start);
        assert(s == spec_shdr(region@, *h, i as int));
        let type_ok = s.sh_type <= 11 || (14 <= s.sh_type && s.sh_type <= 18) || s.sh_type
            >= 0x60000000;
        if s.sh_type != 0 && type_ok && name_matches(region, base, s.name_idx, nm) {
            assert(spec_section_named(region@, *h, i as int, nm@));
            return Some(s);
        }
        assert(!spec_section_named(region@, *h, i as int, nm@));
        i = i + 1;
    }
    None
}

/// Read the section-header record starting at byte `start`.
fn read_shdr_at(region: &[u8], h: &ElfHeader, start: usize) -> (r: SectionInfo)
    requires
        start + spec_shdr_size(h.class) <= region@.len(),
    ensures
        r == spec_shdr_at(region@, h.class, start as int),
{
    let rlen: usize = region.len();
    if h.class == 1 {
        SectionInfo {
            name_idx: read_le32(region, start),
            sh_type: read_le32(region, start + 4),
            offset: read_le32(region, start + 16) as u64,
            size: read_le32(region, start + 20) as u64,
        }
    } else {
        SectionInfo {
            name_idx: read_le32(region, start),
            sh_type: read_le32(region, start + 4),
            offset: read_le64(region, start + 24),
            size: read_le64(region, start + 32),
        }
    }
}

} // verus!
