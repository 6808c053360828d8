//! Program headers: record layout, segment kinds, and table extraction.

use crate::bytes::le32;
use crate::bytes::le64;
use crate::bytes::read_le32;
use crate::bytes::read_le64;
use crate::header::ElfHeader;
use crate::Flags;
use vstd::prelude::*;

verus! {

/// One program header, widened to the 64-bit field shapes. For a 32-bit
/// (class 1) file the 32-bit fields are zero-extended.
#[derive(PartialEq, Eq, Structural, Clone, Copy, Debug)]
pub struct ProgramHeader {
    /// Raw segment type (`p_type`).
    pub p_type: u32,
    /// Protection flags (`p_flags`).
    pub flags: Flags,
    /// File offset of the segment's bytes (`p_offset`).
    pub offset: u64,
    /// Virtual address the segment is to occupy (`p_vaddr`).
    pub virtual_addr: u64,
    /// Physical address (`p_paddr`); unused by the load protocol.
    pub physical_addr: u64,
    /// Number of file-backed bytes (`p_filesz`).
    pub file_size: u64,
    /// Number of bytes the segment occupies in memory (`p_memsz`).
    pub mem_size: u64,
    /// Required alignment (`p_align`).
    pub align: u64,
}

/// The segment kinds the loader distinguishes, after validating the raw
/// `p_type` the way the ELF-structure parser does.
#[derive(PartialEq, Eq, Structural, Clone, Copy, Debug)]
pub enum SegmentKind {
    Null,
    Load,
    Dynamic,
    Interp,
    Note,
    ShLib,
    Phdr,
    Tls,
    GnuRelro,
    OsSpecific,
    ProcessorSpecific,
    /// A `p_type` value outside every defined range.
    Invalid,
}

/// `p_type` value of a `PT_GNU_RELRO` header.
pub const PT_GNU_RELRO: u32 = 0x6474e552;

/// The segment-kind classification of a raw `p_type` value.
pub open spec fn spec_segment_kind(t: u32) -> SegmentKind {
    if t == 0 {
        SegmentKind::Null
    } else if t == 1 {
        SegmentKind::Load
    } else if t == 2 {
        SegmentKind::Dynamic
    } else if t == 3 {
        SegmentKind::Interp
    } else if t == 4 {
        SegmentKind::Note
    } else if t == 5 {
        SegmentKind::ShLib
    } else if t == 6 {
        SegmentKind::Phdr
    } else if t == 7 {
        SegmentKind::Tls
    } else if t == PT_GNU_RELRO {
        SegmentKind::GnuRelro
    } else if 0x60000000 <= t <= 0x6fffffff {
        SegmentKind::OsSpecific
    } else if 0x70000000 <= t <= 0x7fffffff {
        SegmentKind::ProcessorSpecific
    } else {
        SegmentKind::Invalid
    }
}

/// Classify a raw `p_type` value.
pub fn segment_kind(t: u32) -> (r: SegmentKind)
    ensures
        r == spec_segment_kind(t),
{
    if t == 0 {
        SegmentKind::Null
    } else if t == 1 {
        SegmentKind::Load
    } else if t == 2 {
        SegmentKind::Dynamic
    } else if t == 3 {
        SegmentKind::Interp
    } else if t == 4 {
        SegmentKind::Note
    } else if t == 5 {
        SegmentKind::ShLib
    } else if t == 6 {
        SegmentKind::Phdr
    } else if t == 7 {
        SegmentKind::Tls
    } else if t == PT_GNU_RELRO {
        SegmentKind::GnuRelro
    } else if 0x60000000 <= t && t <= 0x6fffffff {
        SegmentKind::OsSpecific
    } else if 0x70000000 <= t && t <= 0x7fffffff {
        SegmentKind::ProcessorSpecific
    } else {
        SegmentKind::Invalid
    }
}

/// Size in bytes of one program-header record of the given class.
pub open spec fn spec_phdr_size(class: u8) -> int {
    if class == 1 {
        32
    } else {
        56
    }
}

/// The program header decoded from the record starting at byte `start`.
pub open spec fn spec_phdr_at(b: Seq<u8>, class: u8, start: int) -> ProgramHeader {
    if class == 1 {
        ProgramHeader {
            p_type: le32(b, start),
            offset: le32(b, start + 4) as u64,
            virtual_addr: le32(b, start + 8) as u64,
            physical_addr: le32(b, start + 12) as u64,
            file_size: le32(b, start + 16) as u64,
            mem_size: le32(b, start + 20) as u64,
            flags: Flags(le32(b, start + 24)),
            align: le32(b, start + 28) as u64,
        }
    } else {
        ProgramHeader {
            p_type: le32(b, start),
            flags: Flags(le32(b, start + 4)),
            offset: le64(b, start + 8),
            virtual_addr: le64(b, start + 16),
            physical_addr: le64(b, start + 24),
            file_size: le64(b, start + 32),
            mem_size: le64(b, start + 40),
            align: le64(b, start + 48),
        }
    }
}

/// Whether the program-header table of `b` has a readable record at index
/// `i`: the table exists (`ph_offset > 0`), its stride holds one record of
/// the class, and the record lies inside the region.
pub open spec fn spec_phdr_slot_ok(b: Seq<u8>, h: ElfHeader, i: int) -> bool {
    &&& 0 <= i < h.ph_count
    &&& h.ph_offset > 0
    &&& h.ph_entry_size >= spec_phdr_size(h.class)
    &&& h.ph_offset + (i + 1) * h.ph_entry_size <= b.len()
}

/// The `i`-th program header of `b`.
pub open spec fn spec_phdr(b: Seq<u8>, h: ElfHeader, i: int) -> ProgramHeader {
    spec_phdr_at(b, h.class, h.ph_offset + i * h.ph_entry_size)
}

/// How many program headers of `b` are readable: the declared count, capped
/// by how many records fit between `ph_offset` and the end of the region.
pub open spec fn spec_phdr_count(b: Seq<u8>, h: ElfHeader) -> int {
    if h.ph_offset > 0 && h.ph_entry_size >= spec_phdr_size(h.class) && h.ph_offset <= b.len() {
        let by_len = (b.len() - h.ph_offset) / (h.ph_entry_size as int);
        if h.ph_count <= by_len {
            h.ph_count as int
        } else {
            by_len
        }
    } else {
        0
    }
}

/// The program headers of `b`, in file order.
pub open spec fn spec_phdrs(b: Seq<u8>, h: ElfHeader) -> Seq<ProgramHeader> {
    Seq::new(spec_phdr_count(b, h) as nat, |i: int| spec_phdr(b, h, i))
}

/// A slot is readable exactly when its index lies below the readable count.
pub proof fn lemma_phdr_slot_iff(b: Seq<u8>, h: ElfHeader, i: int)
    requires
        0 <= i,
    ensures
        spec_phdr_slot_ok(b, h, i) <==> i < spec_phdr_count(b, h),
{
    let e = h.ph_entry_size as int;
    let off = h.ph_offset as int;
    let len = b.len() as int;
    if h.ph_offset > 0 && h.ph_entry_size >= spec_phdr_size(h.class) && off <= len {
        let by_len = (len - off) / e;
        assert((i + 1) * e <= len - off <==> i + 1 <= by_len) by (nonlinear_arith)
            requires
                e > 0,
                len - off >= 0,
                by_len == (len - off) / e,
                i >= 0,
        {
            vstd::arithmetic::div_mod::lemma_fundamental_div_mod(len - off, e);
            if (i + 1) * e <= len - off {
                vstd::arithmetic::div_mod::lemma_div_is_ordered((i + 1) * e, len - off, e);
                vstd::arithmetic::div_mod::lemma_div_by_multiple(i + 1, e);
            }
        }
    } else {
        if spec_phdr_slot_ok(b, h, i) {
            assert(off + (i + 1) * e <= len);
            assert((i + 1) * e >= 0) by (nonlinear_arith)
                requires
                    i >= 0,
                    e >= 0,
            ;
        }
    }
}

/// Read the program-header table of `region`, in file order, stopping at the
/// first record that does not lie inside the region.
pub fn read_program_headers(region: &[u8], h: &ElfHeader) -> (r: Vec<ProgramHeader>)
    ensures
        r@ == spec_phdrs(region@, *h),
{
    let rlen: usize = region.len();
    let len_u64 = rlen as u64;
    let mut out: Vec<ProgramHeader> = Vec::new();
    let struct_size: u16 = if h.class == 1 {
        32
    } else {
        56
    };
    let mut i: u16 = 0;
    loop
        invariant
            0 <= i <= h.ph_count,
            out@.len() == i as int,
            forall|j: int| 0 <= j < i ==> out@[j] == spec_phdr(region@, *h, j),
            forall|j: int| 0 <= j < i ==> spec_phdr_slot_ok(region@, *h, j),
            struct_size == spec_phdr_size(h.class),
            len_u64 == region@.len(),
            region@.len() <= usize::MAX,
        ensures
            out@.len() == i as int,
            forall|j: int| 0 <= j < i ==> out@[j] == spec_phdr(region@, *h, j),
            forall|j: int| 0 <= j < i ==> spec_phdr_slot_ok(region@, *h, j),
            !spec_phdr_slot_ok(region@, *h, i as int),
        decreases h.ph_count - i,
    {
        if !(i < h.ph_count && h.ph_offset > 0 && h.ph_entry_size >= struct_size) {
            break ;
        }
        if h.ph_offset > len_u64 {
            assert((i as int + 1) * (h.ph_entry_size as int) > 0) by (nonlinear_arith)
                requires
                    i >= 0,
                    h.ph_entry_size > 0,
            ;
            break ;
        }
        proof {
            assert((i as int + 1) * (h.ph_entry_size as int) <= 0x1_0000_0000) by (nonlinear_arith)
                requires
                    0 <= i as int <= 0xffff,
                    0 <= h.ph_entry_size as int <= 0xffff,
            ;
        }
        let need: u64 = (i as u64 + 1) * (h.ph_entry_size as u64);
        if need > len_u64 - h.ph_offset {
            break ;
        }
        assert(spec_phdr_slot_ok(region@, *h, i as int));
        proof {
            assert((i as int) * (h.ph_entry_size as int) >= 0 && (i as int) * (h.ph_entry_size
                as int) + (h.ph_entry_size as int) == (i as int + 1) * (h.ph_entry_size as int))
                by (nonlinear_arith)
                requires
                    i >= 0,
                    h.ph_entry_size >= 0,
            ;
        }
        assert(h.ph_offset + (i as u64) * (h.ph_entry_size as u64) <= len_u64);
        let start: usize = (h.ph_offset + (i as u64) * (h.ph_entry_size as u64)) as usize;
        assert(start + spec_phdr_size(h.class) <= region@.len());
        let ph = if h.class == 1 {
            ProgramHeader {
                p_type: read_le32(region, start),
                offset: read_le32(region, start + 4) as u64,
                virtual_addr: read_le32(region, start + 8) as u64,
                physical_addr: read_le32(region, start + 12) as u64,
                file_size: read_le32(region, start + 16) as u64,
                mem_size: read_le32(region, start + 20) as u64,
                flags: Flags(read_le32(region, start + 24)),
                align: read_le32(region, start + 28) as u64,
            }
        } else {
            ProgramHeader {
                p_type: read_le32(region, start),
                flags: Flags(read_le32(region, start + 4)),
                offset: read_le64(region, start + 8),
                virtual_addr: read_le64(region, start + 16),
                physical_addr: read_le64(region, start + 24),
                file_size: read_le64(region, start + 32),
                mem_size: read_le64(region, start + 40),
                align: read_le64(region, start + 48),
            }
        };
        assert(ph == spec_phdr(region@, *h, i as int));
        out.push(ph);
        i = i + 1;
    }
    proof {
        lemma_phdr_slot_iff(region@, *h, i as int);
        assert(spec_phdr_count(region@, *h) <= i as int);
        if i as int > 0 {
            lemma_phdr_slot_iff(region@, *h, i as int - 1);
            assert(spec_phdr_count(region@, *h) > i as int - 1);
        }
        assert(out@.len() == spec_phdr_count(region@, *h));
        assert(out@ =~= spec_phdrs(region@, *h));
    }
    out
}

} // verus!
