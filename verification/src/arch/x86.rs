//! Relocation types for x86 (i386).

use vstd::prelude::*;

verus! {

#[derive(Eq, PartialEq, Structural, Debug, Clone, Copy)]
#[allow(non_camel_case_types)]
pub enum RelocationTypes {
    /// No relocation.
    R_386_NONE,
    /// Add 32 bit dword symbol value.
    R_386_32,
    /// PC-relative 32 bit signed sym value.
    R_386_PC32,
    /// PC-relative 32 bit GOT offset.
    R_386_GOT32,
    /// PC-relative 32 bit PLT offset.
    R_386_PLT32,
    /// Copy data from shared object.
    R_386_COPY,
    /// Set GOT entry to data address.
    R_386_GLOB_DAT,
    /// Set GOT entry to code address.
    R_386_JMP_SLOT,
    /// Add load address of shared object.
    R_386_RELATIVE,
    /// PC relative offset to GOT entry
    R_386_GOTOFF,
    R_386_GOTPC,
    R_386_32PLT,
    R_386_16,
    R_386_PC16,
    R_386_8,
    R_386_PC8,
    R_386_SIZE32,
    /// Any relocation number outside the catalog, preserved for error reporting.
    Unknown(u32),
}

impl RelocationTypes {
    /// The catalog as a total function from relocation number to variant.
    pub open spec fn spec_from(typ: u32) -> RelocationTypes {
        match typ {
            0 => RelocationTypes::R_386_NONE,
            1 => RelocationTypes::R_386_PC32,
            2 => RelocationTypes::R_386_32,
            3 => RelocationTypes::R_386_GOT32,
            4 => RelocationTypes::R_386_PLT32,
            5 => RelocationTypes::R_386_COPY,
            6 => RelocationTypes::R_386_GLOB_DAT,
            7 => RelocationTypes::R_386_JMP_SLOT,
            8 => RelocationTypes::R_386_RELATIVE,
            9 => RelocationTypes::R_386_GOTOFF,
            10 => RelocationTypes::R_386_GOTPC,
            11 => RelocationTypes::R_386_32PLT,
            20 => RelocationTypes::R_386_16,
            21 => RelocationTypes::R_386_PC16,
            22 => RelocationTypes::R_386_8,
            23 => RelocationTypes::R_386_PC8,
            38 => RelocationTypes::R_386_SIZE32,
            _ => RelocationTypes::Unknown(typ),
        }
    }

    /// The relocation number that a variant stands for.
    pub open spec fn spec_number(self) -> u32 {
        match self {
            RelocationTypes::R_386_NONE => 0,
            RelocationTypes::R_386_PC32 => 1,
            RelocationTypes::R_386_32 => 2,
            RelocationTypes::R_386_GOT32 => 3,
            RelocationTypes::R_386_PLT32 => 4,
            RelocationTypes::R_386_COPY => 5,
            RelocationTypes::R_386_GLOB_DAT => 6,
            RelocationTypes::R_386_JMP_SLOT => 7,
            RelocationTypes::R_386_RELATIVE => 8,
            RelocationTypes::R_386_GOTOFF => 9,
            RelocationTypes::R_386_GOTPC => 10,
            RelocationTypes::R_386_32PLT => 11,
            RelocationTypes::R_386_16 => 20,
            RelocationTypes::R_386_PC16 => 21,
            RelocationTypes::R_386_8 => 22,
            RelocationTypes::R_386_PC8 => 23,
            RelocationTypes::R_386_SIZE32 => 38,
            RelocationTypes::Unknown(x) => x,
        }
    }

    /// Construct a variant from a raw relocation number.
    ///
    /// The mapping is total: numbers outside the catalog yield `Unknown`.
    pub fn from(typ: u32) -> (r: RelocationTypes)
        ensures
            r == RelocationTypes::spec_from(typ),
    {
        match typ {
            0 => RelocationTypes::R_386_NONE,
            1 => RelocationTypes::R_386_PC32,
            2 => RelocationTypes::R_386_32,
            3 => RelocationTypes::R_386_GOT32,
            4 => RelocationTypes::R_386_PLT32,
            5 => RelocationTypes::R_386_COPY,
            6 => RelocationTypes::R_386_GLOB_DAT,
            7 => RelocationTypes::R_386_JMP_SLOT,
            8 => RelocationTypes::R_386_RELATIVE,
            9 => RelocationTypes::R_386_GOTOFF,
            10 => RelocationTypes::R_386_GOTPC,
            11 => RelocationTypes::R_386_32PLT,
            20 => RelocationTypes::R_386_16,
            21 => RelocationTypes::R_386_PC16,
            22 => RelocationTypes::R_386_8,
            23 => RelocationTypes::R_386_PC8,
            38 => RelocationTypes::R_386_SIZE32,
            _ => RelocationTypes::Unknown(typ),
        }
    }

    /// Decoding a number and re-decoding the number of the result is stable:
    /// the round trip through the catalog changes nothing.
    pub proof fn lemma_from_idempotent(typ: u32)
        ensures
            RelocationTypes::spec_from(RelocationTypes::spec_from(typ).spec_number()) == RelocationTypes::spec_from(typ),
    {
    }
}

} // verus!
