//! The ELF file header: acceptance condition and field extraction.
//!
//! Acceptance (magic, class, minimal length) and the fields themselves are
//! read out of the raw region and specified exactly as byte predicates and
//! little-endian formulas over the bytes.

use crate::bytes::le16;
use crate::bytes::le32;
use crate::bytes::le64;
use crate::bytes::read_le16;
use crate::bytes::read_le32;
use crate::bytes::read_le64;
use crate::bytes::read_u8;
use vstd::prelude::*;

verus! {

/// The fields of the ELF file header that govern loading, widened to the
/// 64-bit shapes. For a 32-bit (class 1) file the 32-bit fields are
/// zero-extended.
#[derive(PartialEq, Eq, Structural, Clone, Copy, Debug)]
pub struct ElfHeader {
    /// ELF class: 1 for 32-bit, 2 for 64-bit.
    pub class: u8,
    /// Data encoding: 1 for little-endian.
    pub data: u8,
    /// ELF identification version: 1 for `Current`.
    pub version: u8,
    /// OS/ABI: 0 for System V, 3 for Linux.
    pub os_abi: u8,
    /// File type: 2 for `ET_EXEC`, 3 for `ET_DYN`.
    pub elf_type: u16,
    /// Machine: 3 x86, 0x28 ARM, 0x3e x86-64, 0xb7 AArch64, 0xf3 RISC-V.
    pub machine: u16,
    /// Entry virtual address (may be 0 for position-independent executables).
    pub entry: u64,
    /// File offset of the program-header table.
    pub ph_offset: u64,
    /// Size in bytes of one program-header entry.
    pub ph_entry_size: u16,
    /// Number of program-header entries.
    pub ph_count: u16,
    /// File offset of the section-header table.
    pub sh_offset: u64,
    /// Size in bytes of one section-header entry.
    pub sh_entry_size: u16,
    /// Number of section-header entries.
    pub sh_count: u16,
    /// Index of the section-name string table in the section-header table.
    pub sh_str_index: u16,
}

/// The regions accepted as holding an ELF file header: the magic
/// `0x7f 'E' 'L' 'F'`, a class byte of 1 or 2, and at least the class's
/// file-header size (52 bytes for class 1, 64 bytes for class 2).
pub open spec fn elf_header_ok(b: Seq<u8>) -> bool {
    &&& b.len() >= 16
    &&& b[0] == 0x7f
    &&& b[1] == 0x45
    &&& b[2] == 0x4c
    &&& b[3] == 0x46
    &&& (b[4] == 1 || b[4] == 2)
    &&& (b[4] == 1 ==> b.len() >= 52)
    &&& (b[4] == 2 ==> b.len() >= 64)
}

/// The file-header fields of `b`, as the little-endian field formulas of the
/// class that `b` declares.
pub open spec fn spec_header(b: Seq<u8>) -> ElfHeader
    recommends
        elf_header_ok(b),
{
    if b[4] == 1 {
        ElfHeader {
            class: 1,
            data: b[5],
            version: b[6],
            os_abi: b[7],
            elf_type: le16(b, 16),
            machine: le16(b, 18),
            entry: le32(b, 24) as u64,
            ph_offset: le32(b, 28) as u64,
            ph_entry_size: le16(b, 42),
            ph_count: le16(b, 44),
            sh_offset: le32(b, 32) as u64,
            sh_entry_size: le16(b, 46),
            sh_count: le16(b, 48),
            sh_str_index: le16(b, 50),
        }
    } else {
        ElfHeader {
            class: 2,
            data: b[5],
            version: b[6],
            os_abi: b[7],
            elf_type: le16(b, 16),
            machine: le16(b, 18),
            entry: le64(b, 24),
            ph_offset: le64(b, 32),
            ph_entry_size: le16(b, 54),
            ph_count: le16(b, 56),
            sh_offset: le64(b, 40),
            sh_entry_size: le16(b, 58),
            sh_count: le16(b, 60),
            sh_str_index: le16(b, 62),
        }
    }
}

/// Accept a region as holding an ELF file header: the magic, a known class
/// byte, and at least the class's file-header length — the acceptance
/// condition of an ELF-structure parser's entry point, checked on the bytes.
pub(crate) fn elf_header_accepted(region: &[u8]) -> (r: bool)
    ensures
        r == elf_header_ok(region@),
{
    let n = region.len();
    if n < 16 {
        return false;
    }
    if !(read_u8(region, 0) == 0x7f && read_u8(region, 1) == 0x45 && read_u8(region, 2) == 0x4c
        && read_u8(region, 3) == 0x46) {
        return false;
    }
    let class = read_u8(region, 4);
    if class == 1 {
        n >= 52
    } else if class == 2 {
        n >= 64
    } else {
        false
    }
}

/// Read the file-header fields out of an accepted region.
pub fn read_header(region: &[u8]) -> (r: ElfHeader)
    requires
        elf_header_ok(region@),
    ensures
        r == spec_header(region@),
{
    let class = read_u8(region, 4);
    if class == 1 {
        ElfHeader {
            class: 1,
            data: read_u8(region, 5),
            version: read_u8(region, 6),
            os_abi: read_u8(region, 7),
            elf_type: read_le16(region, 16),
            machine: read_le16(region, 18),
            entry: read_le32(region, 24) as u64,
            ph_offset: read_le32(region, 28) as u64,
            ph_entry_size: read_le16(region, 42),
            ph_count: read_le16(region, 44),
            sh_offset: read_le32(region, 32) as u64,
            sh_entry_size: read_le16(region, 46),
            sh_count: read_le16(region, 48),
            sh_str_index: read_le16(region, 50),
        }
    } else {
        ElfHeader {
            class: 2,
            data: read_u8(region, 5),
            version: read_u8(region, 6),
            os_abi: read_u8(region, 7),
            elf_type: read_le16(region, 16),
            machine: read_le16(region, 18),
            entry: read_le64(region, 24),
            ph_offset: read_le64(region, 32),
            ph_entry_size: read_le16(region, 54),
            ph_count: read_le16(region, 56),
            sh_offset: read_le64(region, 40),
            sh_entry_size: read_le16(region, 58),
            sh_count: read_le16(region, 60),
            sh_str_index: read_le16(region, 62),
        }
    }
}

} // verus!
