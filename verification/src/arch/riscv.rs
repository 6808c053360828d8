//! Relocation types for RISC-V.

use vstd::prelude::*;

verus! {

#[derive(Eq, PartialEq, Structural, Debug, Clone, Copy)]
#[allow(non_camel_case_types)]
pub enum RelocationTypes {
    /// No relocation.
    R_RISCV_NONE,
    /// Add 32 bit zero extended symbol value
    R_RISCV_32,
    /// Add 64 bit symbol value.
    R_RISCV_64,
    /// Add load address of shared object.
    R_RISCV_RELATIVE,
    /// Copy data from shared object.
    R_RISCV_COPY,
    /// Set GOT entry to code address.
    R_RISCV_JUMP_SLOT,
    /// 32 bit ID of module containing symbol
    R_RISCV_TLS_DTPMOD32,
    /// ID of module containing symbol
    R_RISCV_TLS_DTPMOD64,
    /// 32 bit relative offset in TLS block
    R_RISCV_TLS_DTPREL32,
    /// Relative offset in TLS block
    R_RISCV_TLS_DTPREL64,
    /// 32 bit relative offset in static TLS block
    R_RISCV_TLS_TPREL32,
    /// Relative offset in static TLS block
    R_RISCV_TLS_TPREL64,
    /// PC-relative branch
    R_RISCV_BRANCH,
    /// PC-relative jump
    R_RISCV_JAL,
    /// PC-relative call
    R_RISCV_CALL,
    /// PC-relative call (PLT)
    R_RISCV_CALL_PLT,
    /// PC-relative GOT reference
    R_RISCV_GOT_HI20,
    /// PC-relative TLS IE GOT offset
    R_RISCV_TLS_GOT_HI20,
    /// PC-relative TLS GD reference
    R_RISCV_TLS_GD_HI20,
    /// PC-relative reference
    R_RISCV_PCREL_HI20,
    /// PC-relative reference
    R_RISCV_PCREL_LO12_I,
    /// PC-relative reference
    R_RISCV_PCREL_LO12_S,
    /// Absolute address
    R_RISCV_HI20,
    /// Absolute address
    R_RISCV_LO12_I,
    /// Absolute address
    R_RISCV_LO12_S,
    /// TLS LE thread offset
    R_RISCV_TPREL_HI20,
    /// TLS LE thread offset
    R_RISCV_TPREL_LO12_I,
    /// TLS LE thread offset
    R_RISCV_TPREL_LO12_S,
    /// TLS LE thread usage
    R_RISCV_TPREL_ADD,
    /// 8-bit label addition
    R_RISCV_ADD8,
    /// 16-bit label addition
    R_RISCV_ADD16,
    /// 32-bit label addition
    R_RISCV_ADD32,
    /// 64-bit label addition
    R_RISCV_ADD64,
    /// 8-bit label subtraction
    R_RISCV_SUB8,
    /// 16-bit label subtraction
    R_RISCV_SUB16,
    /// 32-bit label subtraction
    R_RISCV_SUB32,
    /// 64-bit label subtraction
    R_RISCV_SUB64,
    /// GNU C++ vtable hierarchy
    R_RISCV_GNU_VTINHERIT,
    /// GNU C++ vtable member usage
    R_RISCV_GNU_VTENTRY,
    /// Alignment statement
    R_RISCV_ALIGN,
    /// PC-relative branch offset
    R_RISCV_RVC_BRANCH,
    /// PC-relative jump offset
    R_RISCV_RVC_JUMP,
    /// Absolute address
    R_RISCV_RVC_LUI,
    /// GP-relative reference
    R_RISCV_GPREL_I,
    /// GP-relative reference
    R_RISCV_GPREL_S,
    /// TP-relative TLS LE load
    R_RISCV_TPREL_I,
    /// TP-relative TLS LE store
    R_RISCV_TPREL_S,
    /// Instruction pair can be relaxed
    R_RISCV_RELAX,
    /// Local label subtraction
    R_RISCV_SUB6,
    /// Local label subtraction
    R_RISCV_SET6,
    /// Local label subtraction
    R_RISCV_SET8,
    /// Local label subtraction
    R_RISCV_SET16,
    /// Local label subtraction
    R_RISCV_SET32,
    /// Any relocation number outside the catalog, preserved for error reporting.
    Unknown(u32),
}

impl RelocationTypes {
    /// The catalog as a total function from relocation number to variant.
    pub open spec fn spec_from(typ: u32) -> RelocationTypes {
        match typ {
            0 => RelocationTypes::R_RISCV_NONE,
            1 => RelocationTypes::R_RISCV_32,
            2 => RelocationTypes::R_RISCV_64,
            3 => RelocationTypes::R_RISCV_RELATIVE,
            4 => RelocationTypes::R_RISCV_COPY,
            5 => RelocationTypes::R_RISCV_JUMP_SLOT,
            6 => RelocationTypes::R_RISCV_TLS_DTPMOD32,
            7 => RelocationTypes::R_RISCV_TLS_DTPMOD64,
            8 => RelocationTypes::R_RISCV_TLS_DTPREL32,
            9 => RelocationTypes::R_RISCV_TLS_DTPREL64,
            10 => RelocationTypes::R_RISCV_TLS_TPREL32,
            11 => RelocationTypes::R_RISCV_TLS_TPREL64,
            16 => RelocationTypes::R_RISCV_BRANCH,
            17 => RelocationTypes::R_RISCV_JAL,
            18 => RelocationTypes::R_RISCV_CALL,
            19 => RelocationTypes::R_RISCV_CALL_PLT,
            20 => RelocationTypes::R_RISCV_GOT_HI20,
            21 => RelocationTypes::R_RISCV_TLS_GOT_HI20,
            22 => RelocationTypes::R_RISCV_TLS_GD_HI20,
            23 => RelocationTypes::R_RISCV_PCREL_HI20,
            24 => RelocationTypes::R_RISCV_PCREL_LO12_I,
            25 => RelocationTypes::R_RISCV_PCREL_LO12_S,
            26 => RelocationTypes::R_RISCV_HI20,
            27 => RelocationTypes::R_RISCV_LO12_I,
            28 => RelocationTypes::R_RISCV_LO12_S,
            29 => RelocationTypes::R_RISCV_TPREL_HI20,
            30 => RelocationTypes::R_RISCV_TPREL_LO12_I,
            31 => RelocationTypes::R_RISCV_TPREL_LO12_S,
            32 => RelocationTypes::R_RISCV_TPREL_ADD,
            33 => RelocationTypes::R_RISCV_ADD8,
            34 => RelocationTypes::R_RISCV_ADD16,
            35 => RelocationTypes::R_RISCV_ADD32,
            36 => RelocationTypes::R_RISCV_ADD64,
            37 => RelocationTypes::R_RISCV_SUB8,
            38 => RelocationTypes::R_RISCV_SUB16,
            39 => RelocationTypes::R_RISCV_SUB32,
            40 => RelocationTypes::R_RISCV_SUB64,
            41 => RelocationTypes::R_RISCV_GNU_VTINHERIT,
            42 => RelocationTypes::R_RISCV_GNU_VTENTRY,
            43 => RelocationTypes::R_RISCV_ALIGN,
            44 => RelocationTypes::R_RISCV_RVC_BRANCH,
            45 => RelocationTypes::R_RISCV_RVC_JUMP,
            46 => RelocationTypes::R_RISCV_RVC_LUI,
            47 => RelocationTypes::R_RISCV_GPREL_I,
            48 => RelocationTypes::R_RISCV_GPREL_S,
            49 => RelocationTypes::R_RISCV_TPREL_I,
            50 => RelocationTypes::R_RISCV_TPREL_S,
            51 => RelocationTypes::R_RISCV_RELAX,
            52 => RelocationTypes::R_RISCV_SUB6,
            53 => RelocationTypes::R_RISCV_SET6,
            54 => RelocationTypes::R_RISCV_SET8,
            55 => RelocationTypes::R_RISCV_SET16,
            56 => RelocationTypes::R_RISCV_SET32,
            _ => RelocationTypes::Unknown(typ),
        }
    }

    /// The relocation number that a variant stands for.
    pub open spec fn spec_number(self) -> u32 {
        match self {
            RelocationTypes::R_RISCV_NONE => 0,
            RelocationTypes::R_RISCV_32 => 1,
            RelocationTypes::R_RISCV_64 => 2,
            RelocationTypes::R_RISCV_RELATIVE => 3,
            RelocationTypes::R_RISCV_COPY => 4,
            RelocationTypes::R_RISCV_JUMP_SLOT => 5,
            RelocationTypes::R_RISCV_TLS_DTPMOD32 => 6,
            RelocationTypes::R_RISCV_TLS_DTPMOD64 => 7,
            RelocationTypes::R_RISCV_TLS_DTPREL32 => 8,
            RelocationTypes::R_RISCV_TLS_DTPREL64 => 9,
            RelocationTypes::R_RISCV_TLS_TPREL32 => 10,
            RelocationTypes::R_RISCV_TLS_TPREL64 => 11,
            RelocationTypes::R_RISCV_BRANCH => 16,
            RelocationTypes::R_RISCV_JAL => 17,
            RelocationTypes::R_RISCV_CALL => 18,
            RelocationTypes::R_RISCV_CALL_PLT => 19,
            RelocationTypes::R_RISCV_GOT_HI20 => 20,
            RelocationTypes::R_RISCV_TLS_GOT_HI20 => 21,
            RelocationTypes::R_RISCV_TLS_GD_HI20 => 22,
            RelocationTypes::R_RISCV_PCREL_HI20 => 23,
            RelocationTypes::R_RISCV_PCREL_LO12_I => 24,
            RelocationTypes::R_RISCV_PCREL_LO12_S => 25,
            RelocationTypes::R_RISCV_HI20 => 26,
            RelocationTypes::R_RISCV_LO12_I => 27,
            RelocationTypes::R_RISCV_LO12_S => 28,
            RelocationTypes::R_RISCV_TPREL_HI20 => 29,
            RelocationTypes::R_RISCV_TPREL_LO12_I => 30,
            RelocationTypes::R_RISCV_TPREL_LO12_S => 31,
            RelocationTypes::R_RISCV_TPREL_ADD => 32,
            RelocationTypes::R_RISCV_ADD8 => 33,
            RelocationTypes::R_RISCV_ADD16 => 34,
            RelocationTypes::R_RISCV_ADD32 => 35,
            RelocationTypes::R_RISCV_ADD64 => 36,
            RelocationTypes::R_RISCV_SUB8 => 37,
            RelocationTypes::R_RISCV_SUB16 => 38,
            RelocationTypes::R_RISCV_SUB32 => 39,
            RelocationTypes::R_RISCV_SUB64 => 40,
            RelocationTypes::R_RISCV_GNU_VTINHERIT => 41,
            RelocationTypes::R_RISCV_GNU_VTENTRY => 42,
            RelocationTypes::R_RISCV_ALIGN => 43,
            RelocationTypes::R_RISCV_RVC_BRANCH => 44,
            RelocationTypes::R_RISCV_RVC_JUMP => 45,
            RelocationTypes::R_RISCV_RVC_LUI => 46,
            RelocationTypes::R_RISCV_GPREL_I => 47,
            RelocationTypes::R_RISCV_GPREL_S => 48,
            RelocationTypes::R_RISCV_TPREL_I => 49,
            RelocationTypes::R_RISCV_TPREL_S => 50,
            RelocationTypes::R_RISCV_RELAX => 51,
            RelocationTypes::R_RISCV_SUB6 => 52,
            RelocationTypes::R_RISCV_SET6 => 53,
            RelocationTypes::R_RISCV_SET8 => 54,
            RelocationTypes::R_RISCV_SET16 => 55,
            RelocationTypes::R_RISCV_SET32 => 56,
            RelocationTypes::Unknown(x) => x,
        }
    }

    /// Construct a variant from a raw relocation number.
    ///
    /// The mapping is total: numbers outside the catalog yield `Unknown`.
    pub fn from(typ: u32) -> (r: RelocationTypes)
        ensures
            r == RelocationTypes::spec_from(typ),
    {
        match typ {
            0 => RelocationTypes::R_RISCV_NONE,
            1 => RelocationTypes::R_RISCV_32,
            2 => RelocationTypes::R_RISCV_64,
            3 => RelocationTypes::R_RISCV_RELATIVE,
            4 => RelocationTypes::R_RISCV_COPY,
            5 => RelocationTypes::R_RISCV_JUMP_SLOT,
            6 => RelocationTypes::R_RISCV_TLS_DTPMOD32,
            7 => RelocationTypes::R_RISCV_TLS_DTPMOD64,
            8 => RelocationTypes::R_RISCV_TLS_DTPREL32,
            9 => RelocationTypes::R_RISCV_TLS_DTPREL64,
            10 => RelocationTypes::R_RISCV_TLS_TPREL32,
            11 => RelocationTypes::R_RISCV_TLS_TPREL64,
            16 => RelocationTypes::R_RISCV_BRANCH,
            17 => RelocationTypes::R_RISCV_JAL,
            18 => RelocationTypes::R_RISCV_CALL,
            19 => RelocationTypes::R_RISCV_CALL_PLT,
            20 => RelocationTypes::R_RISCV_GOT_HI20,
            21 => RelocationTypes::R_RISCV_TLS_GOT_HI20,
            22 => RelocationTypes::R_RISCV_TLS_GD_HI20,
            23 => RelocationTypes::R_RISCV_PCREL_HI20,
            24 => RelocationTypes::R_RISCV_PCREL_LO12_I,
            25 => RelocationTypes::R_RISCV_PCREL_LO12_S,
            26 => RelocationTypes::R_RISCV_HI20,
            27 => RelocationTypes::R_RISCV_LO12_I,
            28 => RelocationTypes::R_RISCV_LO12_S,
            29 => RelocationTypes::R_RISCV_TPREL_HI20,
            30 => RelocationTypes::R_RISCV_TPREL_LO12_I,
            31 => RelocationTypes::R_RISCV_TPREL_LO12_S,
            32 => RelocationTypes::R_RISCV_TPREL_ADD,
            33 => RelocationTypes::R_RISCV_ADD8,
            34 => RelocationTypes::R_RISCV_ADD16,
            35 => RelocationTypes::R_RISCV_ADD32,
            36 => RelocationTypes::R_RISCV_ADD64,
            37 => RelocationTypes::R_RISCV_SUB8,
            38 => RelocationTypes::R_RISCV_SUB16,
            39 => RelocationTypes::R_RISCV_SUB32,
            40 => RelocationTypes::R_RISCV_SUB64,
            41 => RelocationTypes::R_RISCV_GNU_VTINHERIT,
            42 => RelocationTypes::R_RISCV_GNU_VTENTRY,
            43 => RelocationTypes::R_RISCV_ALIGN,
            44 => RelocationTypes::R_RISCV_RVC_BRANCH,
            45 => RelocationTypes::R_RISCV_RVC_JUMP,
            46 => RelocationTypes::R_RISCV_RVC_LUI,
            47 => RelocationTypes::R_RISCV_GPREL_I,
            48 => RelocationTypes::R_RISCV_GPREL_S,
            49 => RelocationTypes::R_RISCV_TPREL_I,
            50 => RelocationTypes::R_RISCV_TPREL_S,
            51 => RelocationTypes::R_RISCV_RELAX,
            52 => RelocationTypes::R_RISCV_SUB6,
            53 => RelocationTypes::R_RISCV_SET6,
            54 => RelocationTypes::R_RISCV_SET8,
            55 => RelocationTypes::R_RISCV_SET16,
            56 => RelocationTypes::R_RISCV_SET32,
            _ => RelocationTypes::Unknown(typ),
        }
    }

    /// Decoding a number and re-decoding the number of the result is stable:
    /// the round trip through the catalog changes nothing.
    pub proof fn lemma_from_idempotent(typ: u32)
        ensures
            RelocationTypes::spec_from(RelocationTypes::spec_from(typ).spec_number()) == RelocationTypes::spec_from(typ),
    {
    }
}

} // verus!
