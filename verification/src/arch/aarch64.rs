//! Relocation types for AArch64.
//!
//! Based on "ELF for the Arm 64-bit Architecture (AArch64)"; the catalog
//! covers the data and dynamic relocations that a loader meets.

use vstd::prelude::*;

verus! {

#[derive(Eq, PartialEq, Structural, Debug, Clone, Copy)]
#[allow(non_camel_case_types)]
pub enum RelocationTypes {
    /// No relocation.
    R_AARCH64_NONE,
    /// Direct 64 bit, S + A.
    R_AARCH64_ABS64,
    /// Direct 32 bit, S + A.
    R_AARCH64_ABS32,
    /// Direct 16 bit, S + A.
    R_AARCH64_ABS16,
    /// PC-relative 64 bit, S + A - P.
    R_AARCH64_PREL64,
    /// PC-relative 32 bit, S + A - P.
    R_AARCH64_PREL32,
    /// PC-relative 16 bit, S + A - P.
    R_AARCH64_PREL16,
    /// Copy data from shared object.
    R_AARCH64_COPY,
    /// Set GOT entry to data address, S + A.
    R_AARCH64_GLOB_DAT,
    /// Set GOT entry to code address, S + A.
    R_AARCH64_JUMP_SLOT,
    /// Add load address of shared object, Delta(S) + A.
    R_AARCH64_RELATIVE,
    /// Module number of the module defining the symbol.
    R_AARCH64_TLS_DTPMOD,
    /// Offset in the module's TLS block.
    R_AARCH64_TLS_DTPREL,
    /// Offset in the static TLS block.
    R_AARCH64_TLS_TPREL,
    /// TLS descriptor.
    R_AARCH64_TLSDESC,
    /// STT_GNU_IFUNC resolver address.
    R_AARCH64_IRELATIVE,
    /// Any relocation number outside the catalog, preserved for error reporting.
    Unknown(u32),
}

impl RelocationTypes {
    /// The catalog as a total function from relocation number to variant.
    pub open spec fn spec_from(typ: u32) -> RelocationTypes {
        match typ {
            0 => RelocationTypes::R_AARCH64_NONE,
            257 => RelocationTypes::R_AARCH64_ABS64,
            258 => RelocationTypes::R_AARCH64_ABS32,
            259 => RelocationTypes::R_AARCH64_ABS16,
            260 => RelocationTypes::R_AARCH64_PREL64,
            261 => RelocationTypes::R_AARCH64_PREL32,
            262 => RelocationTypes::R_AARCH64_PREL16,
            1024 => RelocationTypes::R_AARCH64_COPY,
            1025 => RelocationTypes::R_AARCH64_GLOB_DAT,
            1026 => RelocationTypes::R_AARCH64_JUMP_SLOT,
            1027 => RelocationTypes::R_AARCH64_RELATIVE,
            1028 => RelocationTypes::R_AARCH64_TLS_DTPMOD,
            1029 => RelocationTypes::R_AARCH64_TLS_DTPREL,
            1030 => RelocationTypes::R_AARCH64_TLS_TPREL,
            1031 => RelocationTypes::R_AARCH64_TLSDESC,
            1032 => RelocationTypes::R_AARCH64_IRELATIVE,
            _ => RelocationTypes::Unknown(typ),
        }
    }

    /// The relocation number that a variant stands for.
    pub open spec fn spec_number(self) -> u32 {
        match self {
            RelocationTypes::R_AARCH64_NONE => 0,
            RelocationTypes::R_AARCH64_ABS64 => 257,
            RelocationTypes::R_AARCH64_ABS32 => 258,
            RelocationTypes::R_AARCH64_ABS16 => 259,
            RelocationTypes::R_AARCH64_PREL64 => 260,
            RelocationTypes::R_AARCH64_PREL32 => 261,
            RelocationTypes::R_AARCH64_PREL16 => 262,
            RelocationTypes::R_AARCH64_COPY => 1024,
            RelocationTypes::R_AARCH64_GLOB_DAT => 1025,
            RelocationTypes::R_AARCH64_JUMP_SLOT => 1026,
            RelocationTypes::R_AARCH64_RELATIVE => 1027,
            RelocationTypes::R_AARCH64_TLS_DTPMOD => 1028,
            RelocationTypes::R_AARCH64_TLS_DTPREL => 1029,
            RelocationTypes::R_AARCH64_TLS_TPREL => 1030,
            RelocationTypes::R_AARCH64_TLSDESC => 1031,
            RelocationTypes::R_AARCH64_IRELATIVE => 1032,
            RelocationTypes::Unknown(x) => x,
        }
    }

    /// Construct a variant from a raw relocation number.
    ///
    /// The mapping is total: numbers outside the catalog yield `Unknown`.
    pub fn from(typ: u32) -> (r: RelocationTypes)
        ensures
            r == RelocationTypes::spec_from(typ),
    {
        match typ {
            0 => RelocationTypes::R_AARCH64_NONE,
            257 => RelocationTypes::R_AARCH64_ABS64,
            258 => RelocationTypes::R_AARCH64_ABS32,
            259 => RelocationTypes::R_AARCH64_ABS16,
            260 => RelocationTypes::R_AARCH64_PREL64,
            261 => RelocationTypes::R_AARCH64_PREL32,
            262 => RelocationTypes::R_AARCH64_PREL16,
            1024 => RelocationTypes::R_AARCH64_COPY,
            1025 => RelocationTypes::R_AARCH64_GLOB_DAT,
            1026 => RelocationTypes::R_AARCH64_JUMP_SLOT,
            1027 => RelocationTypes::R_AARCH64_RELATIVE,
            1028 => RelocationTypes::R_AARCH64_TLS_DTPMOD,
            1029 => RelocationTypes::R_AARCH64_TLS_DTPREL,
            1030 => RelocationTypes::R_AARCH64_TLS_TPREL,
            1031 => RelocationTypes::R_AARCH64_TLSDESC,
            1032 => RelocationTypes::R_AARCH64_IRELATIVE,
            _ => RelocationTypes::Unknown(typ),
        }
    }

    /// Decoding a number and re-decoding the number of the result is stable:
    /// the round trip through the catalog changes nothing.
    pub proof fn lemma_from_idempotent(typ: u32)
        ensures
            RelocationTypes::spec_from(RelocationTypes::spec_from(typ).spec_number())
                == RelocationTypes::spec_from(typ),
    {
    }
}

} // verus!
