//! The symbol table: record layout, extraction, and string-table reads.

use crate::bytes::le16;
use crate::bytes::le32;
use crate::bytes::le64;
use crate::bytes::read_le16;
use crate::bytes::read_le32;
use crate::bytes::read_le64;
use crate::bytes::read_u8;
use crate::header::ElfHeader;
use crate::sections::find_section;
use crate::sections::spec_find_section;
use crate::sections::SHT_SYMTAB;
use crate::ElfLoaderErr;
use crate::MSG_DATA_OUT_OF_RANGE;
use vstd::prelude::*;
use vstd::string::StringSliceAdditionalSpecFns;

verus! {

/// One symbol-table entry, widened to the 64-bit field shapes.
#[derive(PartialEq, Eq, Structural, Clone, Copy, Debug)]
pub struct SymbolEntry {
    /// Index of the symbol's name in the `.strtab` string table.
    pub name: u32,
    /// Symbol type and binding (`st_info`).
    pub info: u8,
    /// Symbol visibility (`st_other`).
    pub other: u8,
    /// Index of the section the symbol is defined in.
    pub shndx: u16,
    /// The symbol's value.
    pub value: u64,
    /// The symbol's size.
    pub size: u64,
}

/// The name of the `.symtab` section, as bytes.
pub open spec fn symtab_name() -> Seq<u8> {
    seq![0x2eu8, 0x73u8, 0x79u8, 0x6du8, 0x74u8, 0x61u8, 0x62u8]
}

/// The name of the `.strtab` section, as bytes.
pub open spec fn strtab_name() -> Seq<u8> {
    seq![0x2eu8, 0x73u8, 0x74u8, 0x72u8, 0x74u8, 0x61u8, 0x62u8]
}

/// Size in bytes of one symbol record of the given class.
pub open spec fn spec_symbol_stride(class: u8) -> int {
    if class == 1 {
        16
    } else {
        24
    }
}

/// The symbol record starting at byte `start`.
pub open spec fn spec_symbol_at(b: Seq<u8>, class: u8, start: int) -> SymbolEntry {
    if class == 1 {
        SymbolEntry {
            name: le32(b, start),
            value: le32(b, start + 4) as u64,
            size: le32(b, start + 8) as u64,
            info: b[start + 12],
            other: b[start + 13],
            shndx: le16(b, start + 14),
        }
    } else {
        SymbolEntry {
            name: le32(b, start),
            info: b[start + 4],
            other: b[start + 5],
            shndx: le16(b, start + 6),
            value: le64(b, start + 8),
            size: le64(b, start + 16),
        }
    }
}

/// The symbol records from byte position `pos` (a multiple of the stride) up
/// to `size`, in order.
pub open spec fn spec_symbols_from(
    b: Seq<u8>,
    class: u8,
    base: int,
    size: int,
    pos: int,
) -> Seq<SymbolEntry>
    decreases size - pos,
{
    if pos < 0 || pos >= size {
        Seq::empty()
    } else {
        let next = if pos + spec_symbol_stride(class) <= size {
            pos + spec_symbol_stride(class)
        } else {
            size
        };
        seq![spec_symbol_at(b, class, base + pos)] + spec_symbols_from(b, class, base, size, next)
    }
}

/// The symbol table of `b`: `SymbolTableNotFound` when there is no `.symtab`
/// section of symbol-table type; a parse error when its bytes lie outside the
/// region; `UnsupportedSectionData` when its byte count is not a whole number
/// of records of the class's shape.
pub open spec fn spec_symbols(b: Seq<u8>, h: ElfHeader) -> Result<Seq<SymbolEntry>, ElfLoaderErr> {
    match spec_find_section(b, h, symtab_name()) {
        None => Err(ElfLoaderErr::SymbolTableNotFound),
        Some(s) => {
            if s.sh_type != SHT_SYMTAB {
                Err(ElfLoaderErr::SymbolTableNotFound)
            } else if s.offset + s.size > b.len() {
                Err(ElfLoaderErr::ElfParser { source: MSG_DATA_OUT_OF_RANGE })
            } else if s.size as int % spec_symbol_stride(h.class) != 0 {
                Err(ElfLoaderErr::UnsupportedSectionData)
            } else {
                Ok(spec_symbols_from(b, h.class, s.offset as int, s.size as int, 0))
            }
        },
    }
}

/// Read the symbol table of `region`.
pub fn read_symbols(region: &[u8], h: &ElfHeader) -> (r: Result<Vec<SymbolEntry>, ElfLoaderErr>)
    ensures
        match (r, spec_symbols(region@, *h)) {
            (Ok(v), Ok(s)) => v@ == s,
            (Err(e1), Err(e2)) => e1 == e2,
            _ => false,
        },
{
    let rlen: usize = region.len();
    let len_u64 = rlen as u64;
    let name: [u8; 7] = [0x2e, 0x73, 0x79, 0x6d, 0x74, 0x61, 0x62];
    assert(name@ =~= symtab_name());
    let s = match find_section(region, h, name.as_slice()) {
        None => {
            return Err(ElfLoaderErr::SymbolTableNotFound);
        },
        Some(s) => s,
    };
    if s.sh_type != SHT_SYMTAB {
        return Err(ElfLoaderErr::SymbolTableNotFound);
    }
    if s.offset > len_u64 || s.size > len_u64 - s.offset {
        return Err(ElfLoaderErr::ElfParser { source: MSG_DATA_OUT_OF_RANGE });
    }
    let stride: u64 = if h.class == 1 {
        16
    } else {
        24
    };
    if s.size % stride != 0 {
        return Err(ElfLoaderErr::UnsupportedSectionData);
    }
    let mut out: Vec<SymbolEntry> = Vec::new();
    let mut pos: u64 = 0;
    loop
        invariant
            rlen == region@.len(),
            len_u64 == rlen as u64,
            stride == spec_symbol_stride(h.class),
            s.offset + s.size <= len_u64,
            0 <= pos <= s.size,
            (s.size - pos) % (stride as int) == 0,
            spec_symbols_from(region@, h.class, s.offset as int, s.size as int, 0) == out@
                + spec_symbols_from(region@, h.class, s.offset as int, s.size as int, pos as int),
        ensures
            out@ == spec_symbols_from(region@, h.class, s.offset as int, s.size as int, 0),
        decreases s.size - pos,
    {
        if pos >= s.size {
            assert(out@ + Seq::<SymbolEntry>::empty() =~= out@);
            break ;
        }
        proof {
            let rem = s.size as int - pos as int;
            assert(rem >= stride as int) by {
                if rem < stride as int {
                    vstd::arithmetic::div_mod::lemma_small_mod(rem as nat, stride as nat);
                }
            }
            vstd::arithmetic::div_mod::lemma_mod_multiples_vanish(
                1,
                rem - stride as int,
                stride as int,
            );
        }
        let start: usize = (s.offset + pos) as usize;
        let rec = if h.class == 1 {
            SymbolEntry {
                name: read_le32(region, start),
                value: read_le32(region, start + 4) as u64,
                size: read_le32(region, start + 8) as u64,
                info: read_u8(region, start + 12),
                other: read_u8(region, start + 13),
                shndx: read_le16(region, start + 14),
            }
        } else {
            SymbolEntry {
                name: read_le32(region, start),
                info: read_u8(region, start + 4),
                other: read_u8(region, start + 5),
                shndx: read_le16(region, start + 6),
                value: read_le64(region, start + 8),
                size: read_le64(region, start + 16),
            }
        };
        proof {
            assert(out@.push(rec) + spec_symbols_from(
                region@,
                h.class,
                s.offset as int,
                s.size as int,
                pos as int + stride as int,
            ) =~= out@ + (seq![rec] + spec_symbols_from(
                region@,
                h.class,
                s.offset as int,
                s.size as int,
                pos as int + stride as int,
            )));
        }
        out.push(rec);
        pos = pos + stride;
    }
    Ok(out)
}

/// The position of the first NUL byte of `b` in `[p, end)`.
pub open spec fn spec_first_nul(b: Seq<u8>, p: int, end: int) -> Option<int>
    decreases end - p,
{
    if p < 0 || p >= end || end > b.len() {
        None
    } else if b[p] == 0 {
        Some(p)
    } else {
        spec_first_nul(b, p + 1, end)
    }
}

/// A found NUL position lies in the searched range and holds a NUL.
pub proof fn lemma_first_nul_bounds(b: Seq<u8>, p: int, end: int)
    ensures
        spec_first_nul(b, p, end) matches Some(k) ==> p <= k < end && b[k] == 0,
    decreases end - p,
{
    if !(p < 0 || p >= end || end > b.len()) && b[p] != 0 {
        lemma_first_nul_bounds(b, p + 1, end);
    }
}

/// Find the first NUL byte of `region` in `[start, end)`.
pub fn find_nul(region: &[u8], start: usize, end: usize) -> (r: Option<usize>)
    requires
        start <= end <= region@.len(),
    ensures
        match r {
            Some(k) => Some(k as int) == spec_first_nul(region@, start as int, end as int),
            None => spec_first_nul(region@, start as int, end as int) is None,
        },
{
    let mut p: usize = start;
    loop
        invariant
            start <= p <= end <= region@.len(),
            spec_first_nul(region@, start as int, end as int) == spec_first_nul(
                region@,
                p as int,
                end as int,
            ),
        ensures
            (p < end && Some(p as int) == spec_first_nul(region@, start as int, end as int)) || (p
                == end && spec_first_nul(region@, start as int, end as int) is None),
        decreases end - p,
    {
        if p >= end {
            break ;
        }
        if read_u8(region, p) == 0 {
            break ;
        }
        p = p + 1;
    }
    if p < end {
        Some(p)
    } else {
        None
    }
}

/// Relies on `core::str::from_utf8`: it accepts exactly the valid UTF-8 byte
/// sequences, and the accepted string's characters are the decoding of the
/// bytes.
#[verifier::external_body]
pub(crate) fn utf8_from_bytes<'a>(v: &'a [u8]) -> (r: Option<&'a str>)
    ensures
        r is Some <==> vstd::utf8::valid_utf8(v@),
        r matches Some(s) ==> s@ == vstd::utf8::decode_utf8(v@) && s.spec_bytes() == v@,
{
    core::str::from_utf8(v).ok()
}

} // verus!
