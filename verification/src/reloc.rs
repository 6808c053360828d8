//! Dynamic relocations: locating the relocation section, decoding its
//! records, and dispatching each record as a uniform [`RelocationEntry`].
//!
//! The section lookup prefers `.rela.dyn` and falls back to `.rel.dyn`. The
//! record shape follows the section's type (`SHT_RELA` or `SHT_REL`) and the
//! file's class. The dispatcher is total over the four supported
//! architectures; an unsupported machine surfaces
//! `UnsupportedRelocationEntry`.

use crate::arch;
use crate::bytes::le32;
use crate::bytes::le64;
use crate::bytes::read_le32;
use crate::bytes::read_le64;
use crate::header::ElfHeader;
use crate::sections::find_section;
use crate::sections::spec_find_section;
use crate::sections::SectionInfo;
use crate::sections::SHT_REL;
use crate::sections::SHT_RELA;
use crate::ElfLoaderErr;
use crate::Rel32Record;
use crate::Rel64Record;
use crate::Rela32Record;
use crate::Rela64Record;
use crate::RelaEntry;
use crate::RelocationEntry;
use crate::RelocationType;
use crate::MSG_DATA_OUT_OF_RANGE;
use vstd::prelude::*;

verus! {

/// ELF machine number of x86 (i386).
pub const EM_386: u16 = 3;

/// ELF machine number of x86-64.
pub const EM_X86_64: u16 = 0x3e;

/// ELF machine number of AArch64.
pub const EM_AARCH64: u16 = 0xb7;

/// ELF machine number of RISC-V.
pub const EM_RISCV: u16 = 0xf3;

/// ELF machine number of 32-bit ARM (catalog only; the dispatcher does not
/// serve it).
pub const EM_ARM: u16 = 0x28;

/// The name of the `.rela.dyn` section, as bytes.
pub open spec fn rela_dyn_name() -> Seq<u8> {
    seq![0x2eu8, 0x72u8, 0x65u8, 0x6cu8, 0x61u8, 0x2eu8, 0x64u8, 0x79u8, 0x6eu8]
}

/// The name of the `.rel.dyn` section, as bytes.
pub open spec fn rel_dyn_name() -> Seq<u8> {
    seq![0x2eu8, 0x72u8, 0x65u8, 0x6cu8, 0x2eu8, 0x64u8, 0x79u8, 0x6eu8]
}

/// The dynamic relocation section of `b`: `.rela.dyn` if present, else
/// `.rel.dyn`, else none.
pub open spec fn spec_reloc_section(b: Seq<u8>, h: ElfHeader) -> Option<SectionInfo> {
    match spec_find_section(b, h, rela_dyn_name()) {
        Some(s) => Some(s),
        None => spec_find_section(b, h, rel_dyn_name()),
    }
}

/// Size in bytes of one relocation record of the given section type and
/// class.
pub open spec fn spec_reloc_stride(sh_type: u32, class: u8) -> int {
    if sh_type == SHT_RELA {
        if class == 1 {
            12
        } else {
            24
        }
    } else {
        if class == 1 {
            8
        } else {
            16
        }
    }
}

/// The relocation record starting at byte `start`, in the shape selected by
/// the section type and the class.
pub open spec fn spec_reloc_record_at(b: Seq<u8>, sh_type: u32, class: u8, start: int) -> RelaEntry {
    if sh_type == SHT_RELA {
        if class == 1 {
            RelaEntry::Rela32(
                Rela32Record {
                    offset: le32(b, start),
                    info: le32(b, start + 4),
                    addend: le32(b, start + 8),
                },
            )
        } else {
            RelaEntry::Rela64(
                Rela64Record {
                    offset: le64(b, start),
                    info: le64(b, start + 8),
                    addend: le64(b, start + 16),
                },
            )
        }
    } else {
        if class == 1 {
            RelaEntry::Rel32(Rel32Record { offset: le32(b, start), info: le32(b, start + 4) })
        } else {
            RelaEntry::Rel64(Rel64Record { offset: le64(b, start), info: le64(b, start + 8) })
        }
    }
}

/// The records from byte position `pos` (a multiple of the stride) up to
/// `size`, in order.
pub open spec fn spec_reloc_records_from(
    b: Seq<u8>,
    sh_type: u32,
    class: u8,
    base: int,
    size: int,
    pos: int,
) -> Seq<RelaEntry>
    decreases size - pos,
{
    if pos < 0 || pos >= size {
        Seq::empty()
    } else {
        let next = if pos + spec_reloc_stride(sh_type, class) <= size {
            pos + spec_reloc_stride(sh_type, class)
        } else {
            size
        };
        seq![spec_reloc_record_at(b, sh_type, class, base + pos)] + spec_reloc_records_from(
            b,
            sh_type,
            class,
            base,
            size,
            next,
        )
    }
}

/// The relocation records of `b`, in section order: empty when the binary has
/// no dynamic relocation section; an error when the section's type is neither
/// `SHT_RELA` nor `SHT_REL`, when its bytes lie outside the region, or when
/// its byte count is not a whole number of records.
pub open spec fn spec_reloc_records(b: Seq<u8>, h: ElfHeader) -> Result<
    Seq<RelaEntry>,
    ElfLoaderErr,
> {
    match spec_reloc_section(b, h) {
        None => Ok(Seq::empty()),
        Some(s) => {
            if s.sh_type != SHT_RELA && s.sh_type != SHT_REL {
                Err(ElfLoaderErr::UnsupportedSectionData)
            } else if s.offset + s.size > b.len() {
                Err(ElfLoaderErr::ElfParser { source: MSG_DATA_OUT_OF_RANGE })
            } else if s.size as int % spec_reloc_stride(s.sh_type, h.class) != 0 {
                Err(ElfLoaderErr::UnsupportedSectionData)
            } else {
                Ok(spec_reloc_records_from(b, s.sh_type, h.class, s.offset as int, s.size as int, 0))
            }
        },
    }
}

/// Read the dynamic relocation records of `region`.
pub fn read_reloc_records(region: &[u8], h: &ElfHeader) -> (r: Result<Vec<RelaEntry>, ElfLoaderErr>)
    ensures
        match (r, spec_reloc_records(region@, *h)) {
            (Ok(v), Ok(s)) => v@ == s,
            (Err(e1), Err(e2)) => e1 == e2,
            _ => false,
        },
{
    let rlen: usize = region.len();
    let len_u64 = rlen as u64;
    let rela_name: [u8; 9] = [0x2e, 0x72, 0x65, 0x6c, 0x61, 0x2e, 0x64, 0x79, 0x6e];
    let rel_name: [u8; 8] = [0x2e, 0x72, 0x65, 0x6c, 0x2e, 0x64, 0x79, 0x6e];
    assert(rela_name@ =~= rela_dyn_name());
    assert(rel_name@ =~= rel_dyn_name());
    let sec = match find_section(region, h, rela_name.as_slice()) {
        Some(s) => Some(s),
        None => find_section(region, h, rel_name.as_slice()),
    };
    let s = match sec {
        None => {
            return Ok(Vec::new());
        },
        Some(s) => s,
    };
    if s.sh_type != SHT_RELA && s.sh_type != SHT_REL {
        return Err(ElfLoaderErr::UnsupportedSectionData);
    }
    if s.offset > len_u64 || s.size > len_u64 - s.offset {
        return Err(ElfLoaderErr::ElfParser { source: MSG_DATA_OUT_OF_RANGE });
    }
    let stride: u64 = if s.sh_type == SHT_RELA {
        if h.class == 1 {
            12
        } else {
            24
        }
    } else {
        if h.class == 1 {
            8
        } else {
            16
        }
    };
    if s.size % stride != 0 {
        return Err(ElfLoaderErr::UnsupportedSectionData);
    }
    let mut out: Vec<RelaEntry> = Vec::new();
    let mut pos: u64 = 0;
    loop
        invariant
            rlen == region@.len(),
            len_u64 == rlen as u64,
            stride == spec_reloc_stride(s.sh_type, h.class),
            s.sh_type == SHT_RELA || s.sh_type == SHT_REL,
            s.offset + s.size <= len_u64,
            0 <= pos <= s.size,
            (s.size - pos) % (stride as int) == 0,
            spec_reloc_records_from(
                region@,
                s.sh_type,
                h.class,
                s.offset as int,
                s.size as int,
                0,
            ) == out@ + spec_reloc_records_from(
                region@,
                s.sh_type,
                h.class,
                s.offset as int,
                s.size as int,
                pos as int,
            ),
        ensures
            out@ == spec_reloc_records_from(
                region@,
                s.sh_type,
                h.class,
                s.offset as int,
                s.size as int,
                0,
            ),
        decreases s.size - pos,
    {
        if pos >= s.size {
            assert(out@ + Seq::<RelaEntry>::empty() =~= out@);
            break ;
        }
        proof {
            let rem = s.size as int - pos as int;
            assert(rem >= stride as int) by {
                if rem < stride as int {
                    vstd::arithmetic::div_mod::lemma_small_mod(rem as nat, stride as nat);
                }
            }
            vstd::arithmetic::div_mod::lemma_mod_multiples_vanish(
                1,
                rem - stride as int,
                stride as int,
            );
        }
        let start: usize = (s.offset + pos) as usize;
        let rec = if s.sh_type == SHT_RELA {
            if h.class == 1 {
                RelaEntry::Rela32(
                    Rela32Record {
                        offset: read_le32(region, start),
                        info: read_le32(region, start + 4),
                        addend: read_le32(region, start + 8),
                    },
                )
            } else {
                RelaEntry::Rela64(
                    Rela64Record {
                        offset: read_le64(region, start),
                        info: read_le64(region, start + 8),
                        addend: read_le64(region, start + 16),
                    },
                )
            }
        } else {
            if h.class == 1 {
                RelaEntry::Rel32(
                    Rel32Record { offset: read_le32(region, start), info: read_le32(region, start + 4) },
                )
            } else {
                RelaEntry::Rel64(
                    Rel64Record { offset: read_le64(region, start), info: read_le64(region, start + 8) },
                )
            }
        };
        proof {
            assert(out@.push(rec) + spec_reloc_records_from(
                region@,
                s.sh_type,
                h.class,
                s.offset as int,
                s.size as int,
                pos as int + stride as int,
            ) =~= out@ + (seq![rec] + spec_reloc_records_from(
                region@,
                s.sh_type,
                h.class,
                s.offset as int,
                s.size as int,
                pos as int + stride as int,
            )));
        }
        out.push(rec);
        pos = pos + stride;
    }
    Ok(out)
}

/// The relocation-type number of a record: the low 8 bits of `r_info` for a
/// 32-bit record, the low 32 bits for a 64-bit record.
pub open spec fn spec_rel_type_num(e: RelaEntry) -> u32 {
    match e {
        RelaEntry::Rel32(r) => (r.info & 0xff) as u32,
        RelaEntry::Rela32(r) => (r.info & 0xff) as u32,
        RelaEntry::Rel64(r) => (r.info & 0xffffffff) as u32,
        RelaEntry::Rela64(r) => (r.info & 0xffffffff) as u32,
    }
}

/// The symbol-table index of a record: the high 24 bits of `r_info` for a
/// 32-bit record, the high 32 bits for a 64-bit record.
pub open spec fn spec_rel_index(e: RelaEntry) -> u32 {
    match e {
        RelaEntry::Rel32(r) => r.info >> 8,
        RelaEntry::Rela32(r) => r.info >> 8,
        RelaEntry::Rel64(r) => (r.info >> 32) as u32,
        RelaEntry::Rela64(r) => (r.info >> 32) as u32,
    }
}

/// The offset of a record, widened.
pub open spec fn spec_rel_offset(e: RelaEntry) -> u64 {
    match e {
        RelaEntry::Rel32(r) => r.offset as u64,
        RelaEntry::Rela32(r) => r.offset as u64,
        RelaEntry::Rel64(r) => r.offset,
        RelaEntry::Rela64(r) => r.offset,
    }
}

/// The addend of a record: absent for REL shapes; for RELA shapes the raw
/// pattern read as a signed value (sign-extended from 32 bits for a 32-bit
/// record).
pub open spec fn spec_rel_addend(e: RelaEntry) -> Option<i64> {
    match e {
        RelaEntry::Rel32(_) => None,
        RelaEntry::Rel64(_) => None,
        RelaEntry::Rela32(r) => Some(r.addend as i32 as i64),
        RelaEntry::Rela64(r) => Some(r.addend as i64),
    }
}

/// The uniform relocation entry synthesized from a record under the given
/// machine: total for the four supported architectures, an
/// `UnsupportedRelocationEntry` error for every other machine.
pub open spec fn spec_dispatch(machine: u16, e: RelaEntry) -> Result<
    RelocationEntry,
    ElfLoaderErr,
> {
    let t = spec_rel_type_num(e);
    if machine == EM_386 {
        Ok(
            RelocationEntry {
                rtype: RelocationType::x86(arch::x86::RelocationTypes::spec_from(t)),
                offset: spec_rel_offset(e),
                index: spec_rel_index(e),
                addend: spec_rel_addend(e),
            },
        )
    } else if machine == EM_X86_64 {
        Ok(
            RelocationEntry {
                rtype: RelocationType::x86_64(arch::x86_64::RelocationTypes::spec_from(t)),
                offset: spec_rel_offset(e),
                index: spec_rel_index(e),
                addend: spec_rel_addend(e),
            },
        )
    } else if machine == EM_AARCH64 {
        Ok(
            RelocationEntry {
                rtype: RelocationType::AArch64(arch::aarch64::RelocationTypes::spec_from(t)),
                offset: spec_rel_offset(e),
                index: spec_rel_index(e),
                addend: spec_rel_addend(e),
            },
        )
    } else if machine == EM_RISCV {
        Ok(
            RelocationEntry {
                rtype: RelocationType::RiscV(arch::riscv::RelocationTypes::spec_from(t)),
                offset: spec_rel_offset(e),
                index: spec_rel_index(e),
                addend: spec_rel_addend(e),
            },
        )
    } else {
        Err(ElfLoaderErr::UnsupportedRelocationEntry)
    }
}

/// Synthesize the uniform relocation entry of a record: classify the
/// architecture by the machine field and the kind by the record's type
/// number, and populate offset, symbol index, and addend (absent for REL).
pub fn dispatch(machine: u16, e: &RelaEntry) -> (r: Result<RelocationEntry, ElfLoaderErr>)
    ensures
        r == spec_dispatch(machine, *e),
{
    let t: u32 = match e {
        RelaEntry::Rel32(r) => (r.info & 0xff) as u32,
        RelaEntry::Rela32(r) => (r.info & 0xff) as u32,
        RelaEntry::Rel64(r) => (r.info & 0xffffffff) as u32,
        RelaEntry::Rela64(r) => (r.info & 0xffffffff) as u32,
    };
    let index: u32 = match e {
        RelaEntry::Rel32(r) => r.info >> 8,
        RelaEntry::Rela32(r) => r.info >> 8,
        RelaEntry::Rel64(r) => (r.info >> 32) as u32,
        RelaEntry::Rela64(r) => (r.info >> 32) as u32,
    };
    let offset: u64 = match e {
        RelaEntry::Rel32(r) => r.offset as u64,
        RelaEntry::Rela32(r) => r.offset as u64,
        RelaEntry::Rel64(r) => r.offset,
        RelaEntry::Rela64(r) => r.offset,
    };
    let addend: Option<i64> = match e {
        RelaEntry::Rel32(_) => None,
        RelaEntry::Rel64(_) => None,
        RelaEntry::Rela32(r) => Some(r.addend as i32 as i64),
        RelaEntry::Rela64(r) => Some(r.addend as i64),
    };
    let rtype: RelocationType = if machine == EM_386 {
        RelocationType::x86(arch::x86::RelocationTypes::from(t))
    } else if machine == EM_X86_64 {
        RelocationType::x86_64(arch::x86_64::RelocationTypes::from(t))
    } else if machine == EM_AARCH64 {
        RelocationType::AArch64(arch::aarch64::RelocationTypes::from(t))
    } else if machine == EM_RISCV {
        RelocationType::RiscV(arch::riscv::RelocationTypes::from(t))
    } else {
        return Err(ElfLoaderErr::UnsupportedRelocationEntry);
    };
    Ok(RelocationEntry { rtype, offset, index, addend })
}

} // verus!
