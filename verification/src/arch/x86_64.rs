//! Relocation types for x86-64 (AMD64).

use vstd::prelude::*;

verus! {

#[derive(Eq, PartialEq, Structural, Debug, Clone, Copy)]
#[allow(non_camel_case_types)]
pub enum RelocationTypes {
    /// No relocation.
    R_AMD64_NONE,
    /// Add 64 bit symbol value.
    R_AMD64_64,
    /// PC-relative 32 bit signed sym value.
    R_AMD64_PC32,
    /// PC-relative 32 bit GOT offset.
    R_AMD64_GOT32,
    /// PC-relative 32 bit PLT offset.
    R_AMD64_PLT32,
    /// Copy data from shared object.
    R_AMD64_COPY,
    /// Set GOT entry to data address.
    R_AMD64_GLOB_DAT,
    /// Set GOT entry to code address.
    R_AMD64_JMP_SLOT,
    /// Add load address of shared object.
    R_AMD64_RELATIVE,
    /// Add 32 bit signed pcrel offset to GOT.
    R_AMD64_GOTPCREL,
    /// Add 32 bit zero extended symbol value.
    R_AMD64_32,
    /// Add 32 bit sign extended symbol value.
    R_AMD64_32S,
    /// Add 16 bit zero extended symbol value.
    R_AMD64_16,
    /// Add 16 bit signed extended pc relative symbol value.
    R_AMD64_PC16,
    /// Add 8 bit zero extended symbol value.
    R_AMD64_8,
    /// Add 8 bit signed extended pc relative symbol value.
    R_AMD64_PC8,
    /// ID of module containing symbol.
    R_AMD64_DTPMOD64,
    /// Offset in TLS block.
    R_AMD64_DTPOFF64,
    /// Offset in static TLS block.
    R_AMD64_TPOFF64,
    /// PC relative offset to GD GOT entry.
    R_AMD64_TLSGD,
    /// PC relative offset to LD GOT entry.
    R_AMD64_TLSLD,
    /// Offset in TLS block.
    R_AMD64_DTPOFF32,
    /// PC relative offset to IE GOT entry.
    R_AMD64_GOTTPOFF,
    /// Offset in static TLS block.
    R_AMD64_TPOFF32,
    /// Any relocation number outside the catalog, preserved for error reporting.
    Unknown(u32),
}

impl RelocationTypes {
    /// The catalog as a total function from relocation number to variant.
    pub open spec fn spec_from(typ: u32) -> RelocationTypes {
        match typ {
            0 => RelocationTypes::R_AMD64_NONE,
            1 => RelocationTypes::R_AMD64_64,
            2 => RelocationTypes::R_AMD64_PC32,
            3 => RelocationTypes::R_AMD64_GOT32,
            4 => RelocationTypes::R_AMD64_PLT32,
            5 => RelocationTypes::R_AMD64_COPY,
            6 => RelocationTypes::R_AMD64_GLOB_DAT,
            7 => RelocationTypes::R_AMD64_JMP_SLOT,
            8 => RelocationTypes::R_AMD64_RELATIVE,
            9 => RelocationTypes::R_AMD64_GOTPCREL,
            10 => RelocationTypes::R_AMD64_32,
            11 => RelocationTypes::R_AMD64_32S,
            12 => RelocationTypes::R_AMD64_16,
            13 => RelocationTypes::R_AMD64_PC16,
            14 => RelocationTypes::R_AMD64_8,
            15 => RelocationTypes::R_AMD64_PC8,
            16 => RelocationTypes::R_AMD64_DTPMOD64,
            17 => RelocationTypes::R_AMD64_DTPOFF64,
            18 => RelocationTypes::R_AMD64_TPOFF64,
            19 => RelocationTypes::R_AMD64_TLSGD,
            20 => RelocationTypes::R_AMD64_TLSLD,
            21 => RelocationTypes::R_AMD64_DTPOFF32,
            22 => RelocationTypes::R_AMD64_GOTTPOFF,
            23 => RelocationTypes::R_AMD64_TPOFF32,
            _ => RelocationTypes::Unknown(typ),
        }
    }

    /// The relocation number that a variant stands for.
    pub open spec fn spec_number(self) -> u32 {
        match self {
            RelocationTypes::R_AMD64_NONE => 0,
            RelocationTypes::R_AMD64_64 => 1,
            RelocationTypes::R_AMD64_PC32 => 2,
            RelocationTypes::R_AMD64_GOT32 => 3,
            RelocationTypes::R_AMD64_PLT32 => 4,
            RelocationTypes::R_AMD64_COPY => 5,
            RelocationTypes::R_AMD64_GLOB_DAT => 6,
            RelocationTypes::R_AMD64_JMP_SLOT => 7,
            RelocationTypes::R_AMD64_RELATIVE => 8,
            RelocationTypes::R_AMD64_GOTPCREL => 9,
            RelocationTypes::R_AMD64_32 => 10,
            RelocationTypes::R_AMD64_32S => 11,
            RelocationTypes::R_AMD64_16 => 12,
            RelocationTypes::R_AMD64_PC16 => 13,
            RelocationTypes::R_AMD64_8 => 14,
            RelocationTypes::R_AMD64_PC8 => 15,
            RelocationTypes::R_AMD64_DTPMOD64 => 16,
            RelocationTypes::R_AMD64_DTPOFF64 => 17,
            RelocationTypes::R_AMD64_TPOFF64 => 18,
            RelocationTypes::R_AMD64_TLSGD => 19,
            RelocationTypes::R_AMD64_TLSLD => 20,
            RelocationTypes::R_AMD64_DTPOFF32 => 21,
            RelocationTypes::R_AMD64_GOTTPOFF => 22,
            RelocationTypes::R_AMD64_TPOFF32 => 23,
            RelocationTypes::Unknown(x) => x,
        }
    }

    /// Construct a variant from a raw relocation number.
    ///
    /// The mapping is total: numbers outside the catalog yield `Unknown`.
    pub fn from(typ: u32) -> (r: RelocationTypes)
        ensures
            r == RelocationTypes::spec_from(typ),
    {
        match typ {
            0 => RelocationTypes::R_AMD64_NONE,
            1 => RelocationTypes::R_AMD64_64,
            2 => RelocationTypes::R_AMD64_PC32,
            3 => RelocationTypes::R_AMD64_GOT32,
            4 => RelocationTypes::R_AMD64_PLT32,
            5 => RelocationTypes::R_AMD64_COPY,
            6 => RelocationTypes::R_AMD64_GLOB_DAT,
            7 => RelocationTypes::R_AMD64_JMP_SLOT,
            8 => RelocationTypes::R_AMD64_RELATIVE,
            9 => RelocationTypes::R_AMD64_GOTPCREL,
            10 => RelocationTypes::R_AMD64_32,
            11 => RelocationTypes::R_AMD64_32S,
            12 => RelocationTypes::R_AMD64_16,
            13 => RelocationTypes::R_AMD64_PC16,
            14 => RelocationTypes::R_AMD64_8,
            15 => RelocationTypes::R_AMD64_PC8,
            16 => RelocationTypes::R_AMD64_DTPMOD64,
            17 => RelocationTypes::R_AMD64_DTPOFF64,
            18 => RelocationTypes::R_AMD64_TPOFF64,
            19 => RelocationTypes::R_AMD64_TLSGD,
            20 => RelocationTypes::R_AMD64_TLSLD,
            21 => RelocationTypes::R_AMD64_DTPOFF32,
            22 => RelocationTypes::R_AMD64_GOTTPOFF,
            23 => RelocationTypes::R_AMD64_TPOFF32,
            _ => RelocationTypes::Unknown(typ),
        }
    }

    /// Decoding a number and re-decoding the number of the result is stable:
    /// the round trip through the catalog changes nothing.
    pub proof fn lemma_from_idempotent(typ: u32)
        ensures
            RelocationTypes::spec_from(RelocationTypes::spec_from(typ).spec_number())
                == RelocationTypes::spec_from(typ),
    {
    }
}

} // verus!
