//! Relocation types for 32-bit ARM.
//!
//! Based on "ELF for the ARM Architecture" (ARM IHI 0044F, ABI release 2.10).
//!
//! The following nomenclature is used for the operation:
//! - S (when used on its own) is the address of the symbol.
//! - A is the addend for the relocation.
//! - P is the address of the place being relocated (derived from r_offset).
//! - Pa is the adjusted address of the place being relocated, defined as (P & 0xFFFFFFFC).
//! - T is 1 if the target symbol S has type STT_FUNC and the symbol addresses a Thumb
//!   instruction; it is 0 otherwise.
//! - B(S) is the addressing origin of the output segment defining the symbol S.
//! - GOT_ORG is the addressing origin of the Global Offset Table.
//! - GOT(S) is the address of the GOT entry for the symbol S.

use vstd::prelude::*;

verus! {

#[derive(Eq, PartialEq, Structural, Debug, Clone, Copy)]
#[allow(non_camel_case_types)]
pub enum RelocationTypes {
    /// Static, Miscellaneous.
    R_ARM_NONE,
    /// Deprecated, ARM, ((S + A) | T) – P.
    R_ARM_PC24,
    /// Static, Data, (S + A) | T.
    R_ARM_ABS32,
    /// Static, Data, ((S + A) | T) – P.
    R_ARM_REL32,
    /// Static, ARM, S + A – P.
    R_ARM_LDR_PC_G0,
    /// Static, Data, S + A.
    R_ARM_ABS16,
    /// Static, ARM, S + A.
    R_ARM_ABS12,
    /// Static, Thumb16, S + A.
    R_ARM_THM_ABS5,
    /// Static, Data, S + A.
    R_ARM_ABS8,
    /// Static, Data, ((S + A) | T) – B(S).
    R_ARM_SBREL32,
    /// Static, Thumb32, ((S + A) | T) – P.
    R_ARM_THM_CALL,
    /// Static, Thumb16, S + A – Pa.
    R_ARM_THM_PC8,
    /// Dynamic, Data, ΔB(S) + A.
    R_ARM_BREL_ADJ,
    /// Dynamic, Data.
    R_ARM_TLS_DESC,
    /// Obsolete, Encoding reserved for future Dynamic relocations.
    R_ARM_THM_SWI8,
    /// Obsolete, Encoding reserved for future Dynamic relocations.
    R_ARM_XPC25,
    /// Obsolete, Encoding reserved for future Dynamic relocations.
    R_ARM_THM_XPC22,
    /// Dynamic, Data, Module[S].
    R_ARM_TLS_DTPMOD32,
    /// Dynamic, Data, S + A – TLS.
    R_ARM_TLS_DTPOFF32,
    /// Dynamic, Data, S + A – tp.
    R_ARM_TLS_TPOFF32,
    /// Dynamic, Miscellaneous.
    R_ARM_COPY,
    /// Dynamic, Data, (S + A) | T.
    R_ARM_GLOB_DAT,
    /// Dynamic, Data, (S + A) | T.
    R_ARM_JUMP_SLOT,
    /// Dynamic, Data, B(S) + A [Note: see Table 4-18].
    R_ARM_RELATIVE,
    /// Static, Data, ((S + A) | T) – GOT_ORG.
    R_ARM_GOTOFF32,
    /// Static, Data, B(S) + A – P.
    R_ARM_BASE_PREL,
    /// Static, Data, GOT(S) + A – GOT_ORG.
    R_ARM_GOT_BREL,
    /// Deprecated, ARM, ((S + A) | T) – P.
    R_ARM_PLT32,
    /// Static, ARM, ((S + A) | T) – P.
    R_ARM_CALL,
    /// Static, ARM, ((S + A) | T) – P.
    R_ARM_JUMP24,
    /// Static, Thumb32, ((S + A) | T) – P.
    R_ARM_THM_JUMP24,
    /// Static, Data, B(S) + A.
    R_ARM_BASE_ABS,
    /// Obsolete, Note, – Legacy (ARM ELF B02) names have been retained for these obsolete relocations.
    R_ARM_ALU_PCREL_7_0,
    /// Obsolete, Note, – Legacy (ARM ELF B02) names have been retained for these obsolete relocations.
    R_ARM_ALU_PCREL_15_8,
    /// Obsolete, Note, – Legacy (ARM ELF B02) names have been retained for these obsolete relocations.
    R_ARM_ALU_PCREL_23_15,
    /// Deprecated, ARM, S + A – B(S).
    R_ARM_LDR_SBREL_11_0_NC,
    /// Deprecated, ARM, S + A – B(S).
    R_ARM_ALU_SBREL_19_12_NC,
    /// Deprecated, ARM, S + A – B(S).
    R_ARM_ALU_SBREL_27_20_CK,
    /// Static, Miscellaneous, (S + A) | T or ((S + A) | T) – P.
    R_ARM_TARGET1,
    /// Deprecated, Data, ((S + A) | T) – B(S).
    R_ARM_SBREL31,
    /// Static, Miscellaneous.
    R_ARM_V4BX,
    /// Static, Miscellaneous.
    R_ARM_TARGET2,
    /// Static, Data, ((S + A) | T) – P.
    R_ARM_PREL31,
    /// Static, ARM, (S + A) | T.
    R_ARM_MOVW_ABS_NC,
    /// Static, ARM, S + A.
    R_ARM_MOVT_ABS,
    /// Static, ARM, ((S + A) | T) – P.
    R_ARM_MOVW_PREL_NC,
    /// Static, ARM, S + A – P.
    R_ARM_MOVT_PREL,
    /// Static, Thumb32, (S + A) | T.
    R_ARM_THM_MOVW_ABS_NC,
    /// Static, Thumb32, S + A.
    R_ARM_THM_MOVT_ABS,
    /// Static, Thumb32, ((S + A) | T) – P.
    R_ARM_THM_MOVW_PREL_NC,
    /// Static, Thumb32, S + A – P.
    R_ARM_THM_MOVT_PREL,
    /// Static, Thumb32, ((S + A) | T) – P.
    R_ARM_THM_JUMP19,
    /// Static, Thumb16, S + A – P.
    R_ARM_THM_JUMP6,
    /// Static, Thumb32, ((S + A) | T) – Pa.
    R_ARM_THM_ALU_PREL_11_0,
    /// Static, Thumb32, S + A – Pa.
    R_ARM_THM_PC12,
    /// Static, Data, S + A.
    R_ARM_ABS32_NOI,
    /// Static, Data, S + A – P.
    R_ARM_REL32_NOI,
    /// Static, ARM, ((S + A) | T) – P.
    R_ARM_ALU_PC_G0_NC,
    /// Static, ARM, ((S + A) | T) – P.
    R_ARM_ALU_PC_G0,
    /// Static, ARM, ((S + A) | T) – P.
    R_ARM_ALU_PC_G1_NC,
    /// Static, ARM, ((S + A) | T) – P.
    R_ARM_ALU_PC_G1,
    /// Static, ARM, ((S + A) | T) – P.
    R_ARM_ALU_PC_G2,
    /// Static, ARM, S + A – P.
    R_ARM_LDR_PC_G1,
    /// Static, ARM, S + A – P.
    R_ARM_LDR_PC_G2,
    /// Static, ARM, S + A – P.
    R_ARM_LDRS_PC_G0,
    /// Static, ARM, S + A – P.
    R_ARM_LDRS_PC_G1,
    /// Static, ARM, S + A – P.
    R_ARM_LDRS_PC_G2,
    /// Static, ARM, S + A – P.
    R_ARM_LDC_PC_G0,
    /// Static, ARM, S + A – P.
    R_ARM_LDC_PC_G1,
    /// Static, ARM, S + A – P.
    R_ARM_LDC_PC_G2,
    /// Static, ARM, ((S + A) | T) – B(S).
    R_ARM_ALU_SB_G0_NC,
    /// Static, ARM, ((S + A) | T) – B(S).
    R_ARM_ALU_SB_G0,
    /// Static, ARM, ((S + A) | T) – B(S).
    R_ARM_ALU_SB_G1_NC,
    /// Static, ARM, ((S + A) | T) – B(S).
    R_ARM_ALU_SB_G1,
    /// Static, ARM, ((S + A) | T) – B(S).
    R_ARM_ALU_SB_G2,
    /// Static, ARM, S + A – B(S).
    R_ARM_LDR_SB_G0,
    /// Static, ARM, S + A – B(S).
    R_ARM_LDR_SB_G1,
    /// Static, ARM, S + A – B(S).
    R_ARM_LDR_SB_G2,
    /// Static, ARM, S + A – B(S).
    R_ARM_LDRS_SB_G0,
    /// Static, ARM, S + A – B(S).
    R_ARM_LDRS_SB_G1,
    /// Static, ARM, S + A – B(S).
    R_ARM_LDRS_SB_G2,
    /// Static, ARM, S + A – B(S).
    R_ARM_LDC_SB_G0,
    /// Static, ARM, S + A – B(S).
    R_ARM_LDC_SB_G1,
    /// Static, ARM, S + A – B(S).
    R_ARM_LDC_SB_G2,
    /// Static, ARM, ((S + A) | T) – B(S).
    R_ARM_MOVW_BREL_NC,
    /// Static, ARM, S + A – B(S).
    R_ARM_MOVT_BREL,
    /// Static, ARM, ((S + A) | T) – B(S).
    R_ARM_MOVW_BREL,
    /// Static, Thumb32, ((S + A) | T) – B(S).
    R_ARM_THM_MOVW_BREL_NC,
    /// Static, Thumb32, S + A – B(S).
    R_ARM_THM_MOVT_BREL,
    /// Static, Thumb32, ((S + A) | T) – B(S).
    R_ARM_THM_MOVW_BREL,
    /// Static, Data.
    R_ARM_TLS_GOTDESC,
    /// Static, ARM,
    R_ARM_TLS_CALL,
    /// Static, ARM, TLS relaxation.
    R_ARM_TLS_DESCSEQ,
    /// Static, Thumb32.
    R_ARM_THM_TLS_CALL,
    /// Static, Data, PLT(S) + A.
    R_ARM_PLT32_ABS,
    /// Static, Data, GOT(S) + A.
    R_ARM_GOT_ABS,
    /// Static, Data, GOT(S) + A – P.
    R_ARM_GOT_PREL,
    /// Static, ARM, GOT(S) + A – GOT_ORG.
    R_ARM_GOT_BREL12,
    /// Static, ARM, S + A – GOT_ORG.
    R_ARM_GOTOFF12,
    /// Static, Miscellaneous.
    R_ARM_GOTRELAX,
    /// Deprecated, Data, ???.
    R_ARM_GNU_VTENTRY,
    /// Deprecated, Data, ???.
    R_ARM_GNU_VTINHERIT,
    /// Static, Thumb16, S + A – P.
    R_ARM_THM_JUMP11,
    /// Static, Thumb16, S + A – P.
    R_ARM_THM_JUMP8,
    /// Static, Data, GOT(S) + A – P.
    R_ARM_TLS_GD32,
    /// Static, Data, GOT(S) + A – P.
    R_ARM_TLS_LDM32,
    /// Static, Data, S + A – TLS.
    R_ARM_TLS_LDO32,
    /// Static, Data, GOT(S) + A – P.
    R_ARM_TLS_IE32,
    /// Static, Data, S + A – tp.
    R_ARM_TLS_LE32,
    /// Static, ARM, S + A – TLS.
    R_ARM_TLS_LDO12,
    /// Static, ARM, S + A – tp.
    R_ARM_TLS_LE12,
    /// Static, ARM, GOT(S) + A – GOT_ORG.
    R_ARM_TLS_IE12GP,
    /// Private 0.
    R_ARM_PRIVATE_0,
    /// Private 1.
    R_ARM_PRIVATE_1,
    /// Private 2.
    R_ARM_PRIVATE_2,
    /// Private 3.
    R_ARM_PRIVATE_3,
    /// Private 4.
    R_ARM_PRIVATE_4,
    /// Private 5.
    R_ARM_PRIVATE_5,
    /// Private 6.
    R_ARM_PRIVATE_6,
    /// Private 7.
    R_ARM_PRIVATE_7,
    /// Private 8.
    R_ARM_PRIVATE_8,
    /// Private 9.
    R_ARM_PRIVATE_9,
    /// Private 10.
    R_ARM_PRIVATE_10,
    /// Private 11.
    R_ARM_PRIVATE_11,
    /// Private 12.
    R_ARM_PRIVATE_12,
    /// Private 13.
    R_ARM_PRIVATE_13,
    /// Private 14.
    R_ARM_PRIVATE_14,
    /// Private 15.
    R_ARM_PRIVATE_15,
    /// Obsolete.
    R_ARM_ME_TOO,
    /// Static, Thumb16.
    R_ARM_THM_TLS_DESCSEQ16,
    /// Static, Thumb32.
    R_ARM_THM_TLS_DESCSEQ32,
    /// Static, Thumb32, GOT(S) + A – GOT_ORG.
    R_ARM_THM_GOT_BREL12,
    /// Static, Thumb16, (S + A) | T.
    R_ARM_THM_ALU_ABS_G0_NC,
    /// Static, Thumb16, S + A.
    R_ARM_THM_ALU_ABS_G1_NC,
    /// Static, Thumb16, S + A.
    R_ARM_THM_ALU_ABS_G2_NC,
    /// Static, Thumb16, S + A.
    R_ARM_THM_ALU_ABS_G3,
    /// Any relocation number outside the catalog, preserved for error reporting.
    Unknown(u32),
}

impl RelocationTypes {
    /// The catalog as a total function from relocation number to variant.
    pub open spec fn spec_from(typ: u32) -> RelocationTypes {
        match typ {
            0 => RelocationTypes::R_ARM_NONE,
            1 => RelocationTypes::R_ARM_PC24,
            2 => RelocationTypes::R_ARM_ABS32,
            3 => RelocationTypes::R_ARM_REL32,
            4 => RelocationTypes::R_ARM_LDR_PC_G0,
            5 => RelocationTypes::R_ARM_ABS16,
            6 => RelocationTypes::R_ARM_ABS12,
            7 => RelocationTypes::R_ARM_THM_ABS5,
            8 => RelocationTypes::R_ARM_ABS8,
            9 => RelocationTypes::R_ARM_SBREL32,
            10 => RelocationTypes::R_ARM_THM_CALL,
            11 => RelocationTypes::R_ARM_THM_PC8,
            12 => RelocationTypes::R_ARM_BREL_ADJ,
            13 => RelocationTypes::R_ARM_TLS_DESC,
            14 => RelocationTypes::R_ARM_THM_SWI8,
            15 => RelocationTypes::R_ARM_XPC25,
            16 => RelocationTypes::R_ARM_THM_XPC22,
            17 => RelocationTypes::R_ARM_TLS_DTPMOD32,
            18 => RelocationTypes::R_ARM_TLS_DTPOFF32,
            19 => RelocationTypes::R_ARM_TLS_TPOFF32,
            20 => RelocationTypes::R_ARM_COPY,
            21 => RelocationTypes::R_ARM_GLOB_DAT,
            22 => RelocationTypes::R_ARM_JUMP_SLOT,
            23 => RelocationTypes::R_ARM_RELATIVE,
            24 => RelocationTypes::R_ARM_GOTOFF32,
            25 => RelocationTypes::R_ARM_BASE_PREL,
            26 => RelocationTypes::R_ARM_GOT_BREL,
            27 => RelocationTypes::R_ARM_PLT32,
            28 => RelocationTypes::R_ARM_CALL,
            29 => RelocationTypes::R_ARM_JUMP24,
            30 => RelocationTypes::R_ARM_THM_JUMP24,
            31 => RelocationTypes::R_ARM_BASE_ABS,
            32 => RelocationTypes::R_ARM_ALU_PCREL_7_0,
            33 => RelocationTypes::R_ARM_ALU_PCREL_15_8,
            34 => RelocationTypes::R_ARM_ALU_PCREL_23_15,
            35 => RelocationTypes::R_ARM_LDR_SBREL_11_0_NC,
            36 => RelocationTypes::R_ARM_ALU_SBREL_19_12_NC,
            37 => RelocationTypes::R_ARM_ALU_SBREL_27_20_CK,
            38 => RelocationTypes::R_ARM_TARGET1,
            39 => RelocationTypes::R_ARM_SBREL31,
            40 => RelocationTypes::R_ARM_V4BX,
            41 => RelocationTypes::R_ARM_TARGET2,
            42 => RelocationTypes::R_ARM_PREL31,
            43 => RelocationTypes::R_ARM_MOVW_ABS_NC,
            44 => RelocationTypes::R_ARM_MOVT_ABS,
            45 => RelocationTypes::R_ARM_MOVW_PREL_NC,
            46 => RelocationTypes::R_ARM_MOVT_PREL,
            47 => RelocationTypes::R_ARM_THM_MOVW_ABS_NC,
            48 => RelocationTypes::R_ARM_THM_MOVT_ABS,
            49 => RelocationTypes::R_ARM_THM_MOVW_PREL_NC,
            50 => RelocationTypes::R_ARM_THM_MOVT_PREL,
            51 => RelocationTypes::R_ARM_THM_JUMP19,
            52 => RelocationTypes::R_ARM_THM_JUMP6,
            53 => RelocationTypes::R_ARM_THM_ALU_PREL_11_0,
            54 => RelocationTypes::R_ARM_THM_PC12,
            55 => RelocationTypes::R_ARM_ABS32_NOI,
            56 => RelocationTypes::R_ARM_REL32_NOI,
            57 => RelocationTypes::R_ARM_ALU_PC_G0_NC,
            58 => RelocationTypes::R_ARM_ALU_PC_G0,
            59 => RelocationTypes::R_ARM_ALU_PC_G1_NC,
            60 => RelocationTypes::R_ARM_ALU_PC_G1,
            61 => RelocationTypes::R_ARM_ALU_PC_G2,
            62 => RelocationTypes::R_ARM_LDR_PC_G1,
            63 => RelocationTypes::R_ARM_LDR_PC_G2,
            64 => RelocationTypes::R_ARM_LDRS_PC_G0,
            65 => RelocationTypes::R_ARM_LDRS_PC_G1,
            66 => RelocationTypes::R_ARM_LDRS_PC_G2,
            67 => RelocationTypes::R_ARM_LDC_PC_G0,
            68 => RelocationTypes::R_ARM_LDC_PC_G1,
            69 => RelocationTypes::R_ARM_LDC_PC_G2,
            70 => RelocationTypes::R_ARM_ALU_SB_G0_NC,
            71 => RelocationTypes::R_ARM_ALU_SB_G0,
            72 => RelocationTypes::R_ARM_ALU_SB_G1_NC,
            73 => RelocationTypes::R_ARM_ALU_SB_G1,
            74 => RelocationTypes::R_ARM_ALU_SB_G2,
            75 => RelocationTypes::R_ARM_LDR_SB_G0,
            76 => RelocationTypes::R_ARM_LDR_SB_G1,
            77 => RelocationTypes::R_ARM_LDR_SB_G2,
            78 => RelocationTypes::R_ARM_LDRS_SB_G0,
            79 => RelocationTypes::R_ARM_LDRS_SB_G1,
            80 => RelocationTypes::R_ARM_LDRS_SB_G2,
            81 => RelocationTypes::R_ARM_LDC_SB_G0,
            82 => RelocationTypes::R_ARM_LDC_SB_G1,
            83 => RelocationTypes::R_ARM_LDC_SB_G2,
            84 => RelocationTypes::R_ARM_MOVW_BREL_NC,
            85 => RelocationTypes::R_ARM_MOVT_BREL,
            86 => RelocationTypes::R_ARM_MOVW_BREL,
            87 => RelocationTypes::R_ARM_THM_MOVW_BREL_NC,
            88 => RelocationTypes::R_ARM_THM_MOVT_BREL,
            89 => RelocationTypes::R_ARM_THM_MOVW_BREL,
            90 => RelocationTypes::R_ARM_TLS_GOTDESC,
            91 => RelocationTypes::R_ARM_TLS_CALL,
            92 => RelocationTypes::R_ARM_TLS_DESCSEQ,
            93 => RelocationTypes::R_ARM_THM_TLS_CALL,
            94 => RelocationTypes::R_ARM_PLT32_ABS,
            95 => RelocationTypes::R_ARM_GOT_ABS,
            96 => RelocationTypes::R_ARM_GOT_PREL,
            97 => RelocationTypes::R_ARM_GOT_BREL12,
            98 => RelocationTypes::R_ARM_GOTOFF12,
            99 => RelocationTypes::R_ARM_GOTRELAX,
            100 => RelocationTypes::R_ARM_GNU_VTENTRY,
            101 => RelocationTypes::R_ARM_GNU_VTINHERIT,
            102 => RelocationTypes::R_ARM_THM_JUMP11,
            103 => RelocationTypes::R_ARM_THM_JUMP8,
            104 => RelocationTypes::R_ARM_TLS_GD32,
            105 => RelocationTypes::R_ARM_TLS_LDM32,
            106 => RelocationTypes::R_ARM_TLS_LDO32,
            107 => RelocationTypes::R_ARM_TLS_IE32,
            108 => RelocationTypes::R_ARM_TLS_LE32,
            109 => RelocationTypes::R_ARM_TLS_LDO12,
            110 => RelocationTypes::R_ARM_TLS_LE12,
            111 => RelocationTypes::R_ARM_TLS_IE12GP,
            112 => RelocationTypes::R_ARM_PRIVATE_0,
            113 => RelocationTypes::R_ARM_PRIVATE_1,
            114 => RelocationTypes::R_ARM_PRIVATE_2,
            115 => RelocationTypes::R_ARM_PRIVATE_3,
            116 => RelocationTypes::R_ARM_PRIVATE_4,
            117 => RelocationTypes::R_ARM_PRIVATE_5,
            118 => RelocationTypes::R_ARM_PRIVATE_6,
            119 => RelocationTypes::R_ARM_PRIVATE_7,
            120 => RelocationTypes::R_ARM_PRIVATE_8,
            121 => RelocationTypes::R_ARM_PRIVATE_9,
            122 => RelocationTypes::R_ARM_PRIVATE_10,
            123 => RelocationTypes::R_ARM_PRIVATE_11,
            124 => RelocationTypes::R_ARM_PRIVATE_12,
            125 => RelocationTypes::R_ARM_PRIVATE_13,
            126 => RelocationTypes::R_ARM_PRIVATE_14,
            127 => RelocationTypes::R_ARM_PRIVATE_15,
            128 => RelocationTypes::R_ARM_ME_TOO,
            129 => RelocationTypes::R_ARM_THM_TLS_DESCSEQ16,
            130 => RelocationTypes::R_ARM_THM_TLS_DESCSEQ32,
            131 => RelocationTypes::R_ARM_THM_GOT_BREL12,
            132 => RelocationTypes::R_ARM_THM_ALU_ABS_G0_NC,
            133 => RelocationTypes::R_ARM_THM_ALU_ABS_G1_NC,
            134 => RelocationTypes::R_ARM_THM_ALU_ABS_G2_NC,
            135 => RelocationTypes::R_ARM_THM_ALU_ABS_G3,
            _ => RelocationTypes::Unknown(typ),
        }
    }

    /// The relocation number that a variant stands for.
    pub open spec fn spec_number(self) -> u32 {
        match self {
            RelocationTypes::R_ARM_NONE => 0,
            RelocationTypes::R_ARM_PC24 => 1,
            RelocationTypes::R_ARM_ABS32 => 2,
            RelocationTypes::R_ARM_REL32 => 3,
            RelocationTypes::R_ARM_LDR_PC_G0 => 4,
            RelocationTypes::R_ARM_ABS16 => 5,
            RelocationTypes::R_ARM_ABS12 => 6,
            RelocationTypes::R_ARM_THM_ABS5 => 7,
            RelocationTypes::R_ARM_ABS8 => 8,
            RelocationTypes::R_ARM_SBREL32 => 9,
            RelocationTypes::R_ARM_THM_CALL => 10,
            RelocationTypes::R_ARM_THM_PC8 => 11,
            RelocationTypes::R_ARM_BREL_ADJ => 12,
            RelocationTypes::R_ARM_TLS_DESC => 13,
            RelocationTypes::R_ARM_THM_SWI8 => 14,
            RelocationTypes::R_ARM_XPC25 => 15,
            RelocationTypes::R_ARM_THM_XPC22 => 16,
            RelocationTypes::R_ARM_TLS_DTPMOD32 => 17,
            RelocationTypes::R_ARM_TLS_DTPOFF32 => 18,
            RelocationTypes::R_ARM_TLS_TPOFF32 => 19,
            RelocationTypes::R_ARM_COPY => 20,
            RelocationTypes::R_ARM_GLOB_DAT => 21,
            RelocationTypes::R_ARM_JUMP_SLOT => 22,
            RelocationTypes::R_ARM_RELATIVE => 23,
            RelocationTypes::R_ARM_GOTOFF32 => 24,
            RelocationTypes::R_ARM_BASE_PREL => 25,
            RelocationTypes::R_ARM_GOT_BREL => 26,
            RelocationTypes::R_ARM_PLT32 => 27,
            RelocationTypes::R_ARM_CALL => 28,
            RelocationTypes::R_ARM_JUMP24 => 29,
            RelocationTypes::R_ARM_THM_JUMP24 => 30,
            RelocationTypes::R_ARM_BASE_ABS => 31,
            RelocationTypes::R_ARM_ALU_PCREL_7_0 => 32,
            RelocationTypes::R_ARM_ALU_PCREL_15_8 => 33,
            RelocationTypes::R_ARM_ALU_PCREL_23_15 => 34,
            RelocationTypes::R_ARM_LDR_SBREL_11_0_NC => 35,
            RelocationTypes::R_ARM_ALU_SBREL_19_12_NC => 36,
            RelocationTypes::R_ARM_ALU_SBREL_27_20_CK => 37,
            RelocationTypes::R_ARM_TARGET1 => 38,
            RelocationTypes::R_ARM_SBREL31 => 39,
            RelocationTypes::R_ARM_V4BX => 40,
            RelocationTypes::R_ARM_TARGET2 => 41,
            RelocationTypes::R_ARM_PREL31 => 42,
            RelocationTypes::R_ARM_MOVW_ABS_NC => 43,
            RelocationTypes::R_ARM_MOVT_ABS => 44,
            RelocationTypes::R_ARM_MOVW_PREL_NC => 45,
            RelocationTypes::R_ARM_MOVT_PREL => 46,
            RelocationTypes::R_ARM_THM_MOVW_ABS_NC => 47,
            RelocationTypes::R_ARM_THM_MOVT_ABS => 48,
            RelocationTypes::R_ARM_THM_MOVW_PREL_NC => 49,
            RelocationTypes::R_ARM_THM_MOVT_PREL => 50,
            RelocationTypes::R_ARM_THM_JUMP19 => 51,
            RelocationTypes::R_ARM_THM_JUMP6 => 52,
            RelocationTypes::R_ARM_THM_ALU_PREL_11_0 => 53,
            RelocationTypes::R_ARM_THM_PC12 => 54,
            RelocationTypes::R_ARM_ABS32_NOI => 55,
            RelocationTypes::R_ARM_REL32_NOI => 56,
            RelocationTypes::R_ARM_ALU_PC_G0_NC => 57,
            RelocationTypes::R_ARM_ALU_PC_G0 => 58,
            RelocationTypes::R_ARM_ALU_PC_G1_NC => 59,
            RelocationTypes::R_ARM_ALU_PC_G1 => 60,
            RelocationTypes::R_ARM_ALU_PC_G2 => 61,
            RelocationTypes::R_ARM_LDR_PC_G1 => 62,
            RelocationTypes::R_ARM_LDR_PC_G2 => 63,
            RelocationTypes::R_ARM_LDRS_PC_G0 => 64,
            RelocationTypes::R_ARM_LDRS_PC_G1 => 65,
            RelocationTypes::R_ARM_LDRS_PC_G2 => 66,
            RelocationTypes::R_ARM_LDC_PC_G0 => 67,
            RelocationTypes::R_ARM_LDC_PC_G1 => 68,
            RelocationTypes::R_ARM_LDC_PC_G2 => 69,
            RelocationTypes::R_ARM_ALU_SB_G0_NC => 70,
            RelocationTypes::R_ARM_ALU_SB_G0 => 71,
            RelocationTypes::R_ARM_ALU_SB_G1_NC => 72,
            RelocationTypes::R_ARM_ALU_SB_G1 => 73,
            RelocationTypes::R_ARM_ALU_SB_G2 => 74,
            RelocationTypes::R_ARM_LDR_SB_G0 => 75,
            RelocationTypes::R_ARM_LDR_SB_G1 => 76,
            RelocationTypes::R_ARM_LDR_SB_G2 => 77,
            RelocationTypes::R_ARM_LDRS_SB_G0 => 78,
            RelocationTypes::R_ARM_LDRS_SB_G1 => 79,
            RelocationTypes::R_ARM_LDRS_SB_G2 => 80,
            RelocationTypes::R_ARM_LDC_SB_G0 => 81,
            RelocationTypes::R_ARM_LDC_SB_G1 => 82,
            RelocationTypes::R_ARM_LDC_SB_G2 => 83,
            RelocationTypes::R_ARM_MOVW_BREL_NC => 84,
            RelocationTypes::R_ARM_MOVT_BREL => 85,
            RelocationTypes::R_ARM_MOVW_BREL => 86,
            RelocationTypes::R_ARM_THM_MOVW_BREL_NC => 87,
            RelocationTypes::R_ARM_THM_MOVT_BREL => 88,
            RelocationTypes::R_ARM_THM_MOVW_BREL => 89,
            RelocationTypes::R_ARM_TLS_GOTDESC => 90,
            RelocationTypes::R_ARM_TLS_CALL => 91,
            RelocationTypes::R_ARM_TLS_DESCSEQ => 92,
            RelocationTypes::R_ARM_THM_TLS_CALL => 93,
            RelocationTypes::R_ARM_PLT32_ABS => 94,
            RelocationTypes::R_ARM_GOT_ABS => 95,
            RelocationTypes::R_ARM_GOT_PREL => 96,
            RelocationTypes::R_ARM_GOT_BREL12 => 97,
            RelocationTypes::R_ARM_GOTOFF12 => 98,
            RelocationTypes::R_ARM_GOTRELAX => 99,
            RelocationTypes::R_ARM_GNU_VTENTRY => 100,
            RelocationTypes::R_ARM_GNU_VTINHERIT => 101,
            RelocationTypes::R_ARM_THM_JUMP11 => 102,
            RelocationTypes::R_ARM_THM_JUMP8 => 103,
            RelocationTypes::R_ARM_TLS_GD32 => 104,
            RelocationTypes::R_ARM_TLS_LDM32 => 105,
            RelocationTypes::R_ARM_TLS_LDO32 => 106,
            RelocationTypes::R_ARM_TLS_IE32 => 107,
            RelocationTypes::R_ARM_TLS_LE32 => 108,
            RelocationTypes::R_ARM_TLS_LDO12 => 109,
            RelocationTypes::R_ARM_TLS_LE12 => 110,
            RelocationTypes::R_ARM_TLS_IE12GP => 111,
            RelocationTypes::R_ARM_PRIVATE_0 => 112,
            RelocationTypes::R_ARM_PRIVATE_1 => 113,
            RelocationTypes::R_ARM_PRIVATE_2 => 114,
            RelocationTypes::R_ARM_PRIVATE_3 => 115,
            RelocationTypes::R_ARM_PRIVATE_4 => 116,
            RelocationTypes::R_ARM_PRIVATE_5 => 117,
            RelocationTypes::R_ARM_PRIVATE_6 => 118,
            RelocationTypes::R_ARM_PRIVATE_7 => 119,
            RelocationTypes::R_ARM_PRIVATE_8 => 120,
            RelocationTypes::R_ARM_PRIVATE_9 => 121,
            RelocationTypes::R_ARM_PRIVATE_10 => 122,
            RelocationTypes::R_ARM_PRIVATE_11 => 123,
            RelocationTypes::R_ARM_PRIVATE_12 => 124,
            RelocationTypes::R_ARM_PRIVATE_13 => 125,
            RelocationTypes::R_ARM_PRIVATE_14 => 126,
            RelocationTypes::R_ARM_PRIVATE_15 => 127,
            RelocationTypes::R_ARM_ME_TOO => 128,
            RelocationTypes::R_ARM_THM_TLS_DESCSEQ16 => 129,
            RelocationTypes::R_ARM_THM_TLS_DESCSEQ32 => 130,
            RelocationTypes::R_ARM_THM_GOT_BREL12 => 131,
            RelocationTypes::R_ARM_THM_ALU_ABS_G0_NC => 132,
            RelocationTypes::R_ARM_THM_ALU_ABS_G1_NC => 133,
            RelocationTypes::R_ARM_THM_ALU_ABS_G2_NC => 134,
            RelocationTypes::R_ARM_THM_ALU_ABS_G3 => 135,
            RelocationTypes::Unknown(x) => x,
        }
    }

    /// Construct a variant from a raw relocation number.
    ///
    /// The mapping is total: numbers outside the catalog yield `Unknown`.
    pub fn from(typ: u32) -> (r: RelocationTypes)
        ensures
            r == RelocationTypes::spec_from(typ),
    {
        match typ {
            0 => RelocationTypes::R_ARM_NONE,
            1 => RelocationTypes::R_ARM_PC24,
            2 => RelocationTypes::R_ARM_ABS32,
            3 => RelocationTypes::R_ARM_REL32,
            4 => RelocationTypes::R_ARM_LDR_PC_G0,
            5 => RelocationTypes::R_ARM_ABS16,
            6 => RelocationTypes::R_ARM_ABS12,
            7 => RelocationTypes::R_ARM_THM_ABS5,
            8 => RelocationTypes::R_ARM_ABS8,
            9 => RelocationTypes::R_ARM_SBREL32,
            10 => RelocationTypes::R_ARM_THM_CALL,
            11 => RelocationTypes::R_ARM_THM_PC8,
            12 => RelocationTypes::R_ARM_BREL_ADJ,
            13 => RelocationTypes::R_ARM_TLS_DESC,
            14 => RelocationTypes::R_ARM_THM_SWI8,
            15 => RelocationTypes::R_ARM_XPC25,
            16 => RelocationTypes::R_ARM_THM_XPC22,
            17 => RelocationTypes::R_ARM_TLS_DTPMOD32,
            18 => RelocationTypes::R_ARM_TLS_DTPOFF32,
            19 => RelocationTypes::R_ARM_TLS_TPOFF32,
            20 => RelocationTypes::R_ARM_COPY,
            21 => RelocationTypes::R_ARM_GLOB_DAT,
            22 => RelocationTypes::R_ARM_JUMP_SLOT,
            23 => RelocationTypes::R_ARM_RELATIVE,
            24 => RelocationTypes::R_ARM_GOTOFF32,
            25 => RelocationTypes::R_ARM_BASE_PREL,
            26 => RelocationTypes::R_ARM_GOT_BREL,
            27 => RelocationTypes::R_ARM_PLT32,
            28 => RelocationTypes::R_ARM_CALL,
            29 => RelocationTypes::R_ARM_JUMP24,
            30 => RelocationTypes::R_ARM_THM_JUMP24,
            31 => RelocationTypes::R_ARM_BASE_ABS,
            32 => RelocationTypes::R_ARM_ALU_PCREL_7_0,
            33 => RelocationTypes::R_ARM_ALU_PCREL_15_8,
            34 => RelocationTypes::R_ARM_ALU_PCREL_23_15,
            35 => RelocationTypes::R_ARM_LDR_SBREL_11_0_NC,
            36 => RelocationTypes::R_ARM_ALU_SBREL_19_12_NC,
            37 => RelocationTypes::R_ARM_ALU_SBREL_27_20_CK,
            38 => RelocationTypes::R_ARM_TARGET1,
            39 => RelocationTypes::R_ARM_SBREL31,
            40 => RelocationTypes::R_ARM_V4BX,
            41 => RelocationTypes::R_ARM_TARGET2,
            42 => RelocationTypes::R_ARM_PREL31,
            43 => RelocationTypes::R_ARM_MOVW_ABS_NC,
            44 => RelocationTypes::R_ARM_MOVT_ABS,
            45 => RelocationTypes::R_ARM_MOVW_PREL_NC,
            46 => RelocationTypes::R_ARM_MOVT_PREL,
            47 => RelocationTypes::R_ARM_THM_MOVW_ABS_NC,
            48 => RelocationTypes::R_ARM_THM_MOVT_ABS,
            49 => RelocationTypes::R_ARM_THM_MOVW_PREL_NC,
            50 => RelocationTypes::R_ARM_THM_MOVT_PREL,
            51 => RelocationTypes::R_ARM_THM_JUMP19,
            52 => RelocationTypes::R_ARM_THM_JUMP6,
            53 => RelocationTypes::R_ARM_THM_ALU_PREL_11_0,
            54 => RelocationTypes::R_ARM_THM_PC12,
            55 => RelocationTypes::R_ARM_ABS32_NOI,
            56 => RelocationTypes::R_ARM_REL32_NOI,
            57 => RelocationTypes::R_ARM_ALU_PC_G0_NC,
            58 => RelocationTypes::R_ARM_ALU_PC_G0,
            59 => RelocationTypes::R_ARM_ALU_PC_G1_NC,
            60 => RelocationTypes::R_ARM_ALU_PC_G1,
            61 => RelocationTypes::R_ARM_ALU_PC_G2,
            62 => RelocationTypes::R_ARM_LDR_PC_G1,
            63 => RelocationTypes::R_ARM_LDR_PC_G2,
            64 => RelocationTypes::R_ARM_LDRS_PC_G0,
            65 => RelocationTypes::R_ARM_LDRS_PC_G1,
            66 => RelocationTypes::R_ARM_LDRS_PC_G2,
            67 => RelocationTypes::R_ARM_LDC_PC_G0,
            68 => RelocationTypes::R_ARM_LDC_PC_G1,
            69 => RelocationTypes::R_ARM_LDC_PC_G2,
            70 => RelocationTypes::R_ARM_ALU_SB_G0_NC,
            71 => RelocationTypes::R_ARM_ALU_SB_G0,
            72 => RelocationTypes::R_ARM_ALU_SB_G1_NC,
            73 => RelocationTypes::R_ARM_ALU_SB_G1,
            74 => RelocationTypes::R_ARM_ALU_SB_G2,
            75 => RelocationTypes::R_ARM_LDR_SB_G0,
            76 => RelocationTypes::R_ARM_LDR_SB_G1,
            77 => RelocationTypes::R_ARM_LDR_SB_G2,
            78 => RelocationTypes::R_ARM_LDRS_SB_G0,
            79 => RelocationTypes::R_ARM_LDRS_SB_G1,
            80 => RelocationTypes::R_ARM_LDRS_SB_G2,
            81 => RelocationTypes::R_ARM_LDC_SB_G0,
            82 => RelocationTypes::R_ARM_LDC_SB_G1,
            83 => RelocationTypes::R_ARM_LDC_SB_G2,
            84 => RelocationTypes::R_ARM_MOVW_BREL_NC,
            85 => RelocationTypes::R_ARM_MOVT_BREL,
            86 => RelocationTypes::R_ARM_MOVW_BREL,
            87 => RelocationTypes::R_ARM_THM_MOVW_BREL_NC,
            88 => RelocationTypes::R_ARM_THM_MOVT_BREL,
            89 => RelocationTypes::R_ARM_THM_MOVW_BREL,
            90 => RelocationTypes::R_ARM_TLS_GOTDESC,
            91 => RelocationTypes::R_ARM_TLS_CALL,
            92 => RelocationTypes::R_ARM_TLS_DESCSEQ,
            93 => RelocationTypes::R_ARM_THM_TLS_CALL,
            94 => RelocationTypes::R_ARM_PLT32_ABS,
            95 => RelocationTypes::R_ARM_GOT_ABS,
            96 => RelocationTypes::R_ARM_GOT_PREL,
            97 => RelocationTypes::R_ARM_GOT_BREL12,
            98 => RelocationTypes::R_ARM_GOTOFF12,
            99 => RelocationTypes::R_ARM_GOTRELAX,
            100 => RelocationTypes::R_ARM_GNU_VTENTRY,
            101 => RelocationTypes::R_ARM_GNU_VTINHERIT,
            102 => RelocationTypes::R_ARM_THM_JUMP11,
            103 => RelocationTypes::R_ARM_THM_JUMP8,
            104 => RelocationTypes::R_ARM_TLS_GD32,
            105 => RelocationTypes::R_ARM_TLS_LDM32,
            106 => RelocationTypes::R_ARM_TLS_LDO32,
            107 => RelocationTypes::R_ARM_TLS_IE32,
            108 => RelocationTypes::R_ARM_TLS_LE32,
            109 => RelocationTypes::R_ARM_TLS_LDO12,
            110 => RelocationTypes::R_ARM_TLS_LE12,
            111 => RelocationTypes::R_ARM_TLS_IE12GP,
            112 => RelocationTypes::R_ARM_PRIVATE_0,
            113 => RelocationTypes::R_ARM_PRIVATE_1,
            114 => RelocationTypes::R_ARM_PRIVATE_2,
            115 => RelocationTypes::R_ARM_PRIVATE_3,
            116 => RelocationTypes::R_ARM_PRIVATE_4,
            117 => RelocationTypes::R_ARM_PRIVATE_5,
            118 => RelocationTypes::R_ARM_PRIVATE_6,
            119 => RelocationTypes::R_ARM_PRIVATE_7,
            120 => RelocationTypes::R_ARM_PRIVATE_8,
            121 => RelocationTypes::R_ARM_PRIVATE_9,
            122 => RelocationTypes::R_ARM_PRIVATE_10,
            123 => RelocationTypes::R_ARM_PRIVATE_11,
            124 => RelocationTypes::R_ARM_PRIVATE_12,
            125 => RelocationTypes::R_ARM_PRIVATE_13,
            126 => RelocationTypes::R_ARM_PRIVATE_14,
            127 => RelocationTypes::R_ARM_PRIVATE_15,
            128 => RelocationTypes::R_ARM_ME_TOO,
            129 => RelocationTypes::R_ARM_THM_TLS_DESCSEQ16,
            130 => RelocationTypes::R_ARM_THM_TLS_DESCSEQ32,
            131 => RelocationTypes::R_ARM_THM_GOT_BREL12,
            132 => RelocationTypes::R_ARM_THM_ALU_ABS_G0_NC,
            133 => RelocationTypes::R_ARM_THM_ALU_ABS_G1_NC,
            134 => RelocationTypes::R_ARM_THM_ALU_ABS_G2_NC,
            135 => RelocationTypes::R_ARM_THM_ALU_ABS_G3,
            _ => RelocationTypes::Unknown(typ),
        }
    }

    /// Decoding a number and re-decoding the number of the result is stable:
    /// the round trip through the catalog changes nothing.
    pub proof fn lemma_from_idempotent(typ: u32)
        ensures
            RelocationTypes::spec_from(RelocationTypes::spec_from(typ).spec_number()) == RelocationTypes::spec_from(typ),
    {
    }
}

} // verus!
