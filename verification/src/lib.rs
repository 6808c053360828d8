//! A library that parses ELF binaries and drives their loading into a
//! caller-managed virtual address space.
//!
//! The library itself never allocates address space, copies segment bytes,
//! or patches memory: it extracts the information that governs loading from
//! the ELF image and invokes the caller's [`ElfLoader`] at the right times,
//! in the right order, with the right arguments.
//!
//! Every field the load protocol reads, and the acceptance of a region as an
//! ELF image in the first place, is decoded from the raw bytes against exact
//! little-endian specifications, so that the driver's behavior is pinned all
//! the way down to the input bytes.

use vstd::prelude::*;

pub mod arch;
pub mod binary;
pub mod bytes;
pub mod dynamic;
pub mod header;
pub mod program;
pub mod reloc;
pub mod sections;
pub mod symbols;

pub use binary::ElfBinary;
pub use header::ElfHeader;
pub use program::ProgramHeader;
pub use program::SegmentKind;
pub use symbols::SymbolEntry;

verus! {

/// Physical address.
pub type PAddr = u64;

/// Virtual address.
pub type VAddr = u64;

/// Field width of a 32-bit (class 1) ELF file.
pub type P32 = u32;

/// Field width of a 64-bit (class 2) ELF file.
pub type P64 = u64;

/// The closed set of failures surfaced to the caller.
#[derive(PartialEq, Eq, Clone, Copy, Debug)]
pub enum ElfLoaderErr {
    /// Malformed ELF structure discovered while parsing.
    ElfParser { source: &'static str },
    /// `.symtab` was absent when symbols were requested.
    SymbolTableNotFound,
    /// The ELF class (32/64 bit) is not allowed in this context.
    UnsupportedElfFormat,
    /// The ELF version field is not `Current`.
    UnsupportedElfVersion,
    /// The byte order is not little-endian.
    UnsupportedEndianness,
    /// The OS/ABI is neither System V nor Linux.
    UnsupportedAbi,
    /// The file type is neither `ET_EXEC` nor `ET_DYN`.
    UnsupportedElfType,
    /// A relocation or dynamic section's shape does not match the ELF class.
    UnsupportedSectionData,
    /// The loader cannot apply the relocation entry it was handed.
    UnsupportedRelocationEntry,
}

impl From<&'static str> for ElfLoaderErr {
    /// A parser message becomes a parse error carrying it.
    fn from(source: &'static str) -> (r: ElfLoaderErr) {
        ElfLoaderErr::ElfParser { source }
    }
}

impl vstd::std_specs::convert::FromSpecImpl<&'static str> for ElfLoaderErr {
    open spec fn obeys_from_spec() -> bool {
        true
    }

    open spec fn from_spec(source: &'static str) -> ElfLoaderErr {
        ElfLoaderErr::ElfParser { source }
    }
}

impl ElfLoaderErr {
    /// A short description of the failure. For a parser error it is the
    /// parser's own message.
    pub fn message(&self) -> (r: &'static str)
        ensures
            r == match *self {
                ElfLoaderErr::ElfParser { source } => source,
                ElfLoaderErr::SymbolTableNotFound => "No symbol table in the ELF file",
                ElfLoaderErr::UnsupportedElfFormat => "ELF format not supported",
                ElfLoaderErr::UnsupportedElfVersion => "ELF version not supported",
                ElfLoaderErr::UnsupportedEndianness => "ELF endianness not supported",
                ElfLoaderErr::UnsupportedAbi => "ELF ABI not supported",
                ElfLoaderErr::UnsupportedElfType => "ELF type not supported",
                ElfLoaderErr::UnsupportedSectionData => "Can't handle this section data",
                ElfLoaderErr::UnsupportedRelocationEntry => "Can't handle relocation entry",
            },
    {
        match *self {
            ElfLoaderErr::ElfParser { source } => source,
            ElfLoaderErr::SymbolTableNotFound => "No symbol table in the ELF file",
            ElfLoaderErr::UnsupportedElfFormat => "ELF format not supported",
            ElfLoaderErr::UnsupportedElfVersion => "ELF version not supported",
            ElfLoaderErr::UnsupportedEndianness => "ELF endianness not supported",
            ElfLoaderErr::UnsupportedAbi => "ELF ABI not supported",
            ElfLoaderErr::UnsupportedElfType => "ELF type not supported",
            ElfLoaderErr::UnsupportedSectionData => "Can't handle this section data",
            ElfLoaderErr::UnsupportedRelocationEntry => "Can't handle relocation entry",
        }
    }
}

/// Protection flags of a program header: `PF_X = 1`, `PF_W = 2`, `PF_R = 4`.
/// All other bits are preserved for the caller.
#[derive(PartialEq, Eq, Structural, Clone, Copy, Debug, Default)]
pub struct Flags(pub u32);

pub const FLAG_X: u32 = 1;

pub const FLAG_W: u32 = 2;

pub const FLAG_R: u32 = 4;

impl Flags {
    /// True iff the executable bit is set.
    pub fn is_execute(&self) -> (r: bool)
        ensures
            r == (self.0 & FLAG_X == FLAG_X),
    {
        self.0 & FLAG_X == FLAG_X
    }

    /// True iff the writable bit is set.
    pub fn is_write(&self) -> (r: bool)
        ensures
            r == (self.0 & FLAG_W == FLAG_W),
    {
        self.0 & FLAG_W == FLAG_W
    }

    /// True iff the readable bit is set.
    pub fn is_read(&self) -> (r: bool)
        ensures
            r == (self.0 & FLAG_R == FLAG_R),
    {
        self.0 & FLAG_R == FLAG_R
    }
}

/// Relocation types of 32-bit x86 ELF files, as carried in a RELA record.
#[derive(Eq, PartialEq, Structural, Debug, Clone, Copy)]
#[allow(non_camel_case_types)]
pub enum TypeRela32 {
    /// No relocation.
    R_NONE,
    /// Add 32 bit dword symbol value.
    R_32,
    /// PC-relative 32 bit signed sym value.
    R_PC32,
    /// PC-relative 32 bit GOT offset.
    R_GOT32,
    /// PC-relative 32 bit PLT offset.
    R_PLT32,
    /// Copy data from shared object.
    R_COPY,
    /// Set GOT entry to data address.
    R_GLOB_DAT,
    /// Set GOT entry to code address.
    R_JMP_SLOT,
    /// Add load address of shared object.
    R_RELATIVE,
    /// PC relative offset to GOT entry
    R_GOTOFF,
    R_GOTPC,
    R_32PLT,
    R_16,
    R_PC16,
    R_8,
    R_PC8,
    R_SIZE32,
    /// Any relocation number outside the catalog, preserved for error reporting.
    Unknown(u8),
}

impl TypeRela32 {
    /// The catalog as a total function from relocation number to variant.
    pub open spec fn spec_from(typ: u8) -> TypeRela32 {
        match typ {
            0 => TypeRela32::R_NONE,
            1 => TypeRela32::R_PC32,
            2 => TypeRela32::R_32,
            3 => TypeRela32::R_GOT32,
            4 => TypeRela32::R_PLT32,
            5 => TypeRela32::R_COPY,
            6 => TypeRela32::R_GLOB_DAT,
            7 => TypeRela32::R_JMP_SLOT,
            8 => TypeRela32::R_RELATIVE,
            9 => TypeRela32::R_GOTOFF,
            10 => TypeRela32::R_GOTPC,
            11 => TypeRela32::R_32PLT,
            20 => TypeRela32::R_16,
            21 => TypeRela32::R_PC16,
            22 => TypeRela32::R_8,
            23 => TypeRela32::R_PC8,
            38 => TypeRela32::R_SIZE32,
            _ => TypeRela32::Unknown(typ),
        }
    }

    /// The relocation number that a variant stands for.
    pub open spec fn spec_number(self) -> u8 {
        match self {
            TypeRela32::R_NONE => 0,
            TypeRela32::R_PC32 => 1,
            TypeRela32::R_32 => 2,
            TypeRela32::R_GOT32 => 3,
            TypeRela32::R_PLT32 => 4,
            TypeRela32::R_COPY => 5,
            TypeRela32::R_GLOB_DAT => 6,
            TypeRela32::R_JMP_SLOT => 7,
            TypeRela32::R_RELATIVE => 8,
            TypeRela32::R_GOTOFF => 9,
            TypeRela32::R_GOTPC => 10,
            TypeRela32::R_32PLT => 11,
            TypeRela32::R_16 => 20,
            TypeRela32::R_PC16 => 21,
            TypeRela32::R_8 => 22,
            TypeRela32::R_PC8 => 23,
            TypeRela32::R_SIZE32 => 38,
            TypeRela32::Unknown(x) => x,
        }
    }

    /// Construct a variant from a raw relocation number.
    ///
    /// The mapping is total: numbers outside the catalog yield `Unknown`.
    pub fn from(typ: u8) -> (r: TypeRela32)
        ensures
            r == TypeRela32::spec_from(typ),
    {
        match typ {
            0 => TypeRela32::R_NONE,
            1 => TypeRela32::R_PC32,
            2 => TypeRela32::R_32,
            3 => TypeRela32::R_GOT32,
            4 => TypeRela32::R_PLT32,
            5 => TypeRela32::R_COPY,
            6 => TypeRela32::R_GLOB_DAT,
            7 => TypeRela32::R_JMP_SLOT,
            8 => TypeRela32::R_RELATIVE,
            9 => TypeRela32::R_GOTOFF,
            10 => TypeRela32::R_GOTPC,
            11 => TypeRela32::R_32PLT,
            20 => TypeRela32::R_16,
            21 => TypeRela32::R_PC16,
            22 => TypeRela32::R_8,
            23 => TypeRela32::R_PC8,
            38 => TypeRela32::R_SIZE32,
            _ => TypeRela32::Unknown(typ),
        }
    }

    /// Decoding a number and re-decoding the number of the result is stable:
    /// the round trip through the catalog changes nothing.
    pub proof fn lemma_from_idempotent(typ: u8)
        ensures
            TypeRela32::spec_from(TypeRela32::spec_from(typ).spec_number()) == TypeRela32::spec_from(typ),
    {
    }
}

/// Relocation types of x86-64 ELF files, as carried in a RELA record.
#[derive(Eq, PartialEq, Structural, Debug, Clone, Copy)]
#[allow(non_camel_case_types)]
pub enum TypeRela64 {
    /// No relocation.
    R_NONE,
    /// Add 64 bit symbol value.
    R_64,
    /// PC-relative 32 bit signed sym value.
    R_PC32,
    /// PC-relative 32 bit GOT offset.
    R_GOT32,
    /// PC-relative 32 bit PLT offset.
    R_PLT32,
    /// Copy data from shared object.
    R_COPY,
    /// Set GOT entry to data address.
    R_GLOB_DAT,
    /// Set GOT entry to code address.
    R_JMP_SLOT,
    /// Add load address of shared object.
    R_RELATIVE,
    /// Add 32 bit signed pcrel offset to GOT.
    R_GOTPCREL,
    /// Add 32 bit zero extended symbol value
    R_32,
    /// Add 32 bit sign extended symbol value
    R_32S,
    /// Add 16 bit zero extended symbol value
    R_16,
    /// Add 16 bit signed extended pc relative symbol value
    R_PC16,
    /// Add 8 bit zero extended symbol value
    R_8,
    /// Add 8 bit signed extended pc relative symbol value
    R_PC8,
    /// ID of module containing symbol
    R_DTPMOD64,
    /// Offset in TLS block
    R_DTPOFF64,
    /// Offset in static TLS block
    R_TPOFF64,
    /// PC relative offset to GD GOT entry
    R_TLSGD,
    /// PC relative offset to LD GOT entry
    R_TLSLD,
    /// Offset in TLS block
    R_DTPOFF32,
    /// PC relative offset to IE GOT entry
    R_GOTTPOFF,
    /// Offset in static TLS block
    R_TPOFF32,
    /// Any relocation number outside the catalog, preserved for error reporting.
    Unknown(u32),
}

impl TypeRela64 {
    /// The catalog as a total function from relocation number to variant.
    pub open spec fn spec_from(typ: u32) -> TypeRela64 {
        match typ {
            0 => TypeRela64::R_NONE,
            1 => TypeRela64::R_64,
            2 => TypeRela64::R_PC32,
            3 => TypeRela64::R_GOT32,
            4 => TypeRela64::R_PLT32,
            5 => TypeRela64::R_COPY,
            6 => TypeRela64::R_GLOB_DAT,
            7 => TypeRela64::R_JMP_SLOT,
            8 => TypeRela64::R_RELATIVE,
            9 => TypeRela64::R_GOTPCREL,
            10 => TypeRela64::R_32,
            11 => TypeRela64::R_32S,
            12 => TypeRela64::R_16,
            13 => TypeRela64::R_PC16,
            14 => TypeRela64::R_8,
            15 => TypeRela64::R_PC8,
            16 => TypeRela64::R_DTPMOD64,
            17 => TypeRela64::R_DTPOFF64,
            18 => TypeRela64::R_TPOFF64,
            19 => TypeRela64::R_TLSGD,
            20 => TypeRela64::R_TLSLD,
            21 => TypeRela64::R_DTPOFF32,
            22 => TypeRela64::R_GOTTPOFF,
            23 => TypeRela64::R_TPOFF32,
            _ => TypeRela64::Unknown(typ),
        }
    }

    /// The relocation number that a variant stands for.
    pub open spec fn spec_number(self) -> u32 {
        match self {
            TypeRela64::R_NONE => 0,
            TypeRela64::R_64 => 1,
            TypeRela64::R_PC32 => 2,
            TypeRela64::R_GOT32 => 3,
            TypeRela64::R_PLT32 => 4,
            TypeRela64::R_COPY => 5,
            TypeRela64::R_GLOB_DAT => 6,
            TypeRela64::R_JMP_SLOT => 7,
            TypeRela64::R_RELATIVE => 8,
            TypeRela64::R_GOTPCREL => 9,
            TypeRela64::R_32 => 10,
            TypeRela64::R_32S => 11,
            TypeRela64::R_16 => 12,
            TypeRela64::R_PC16 => 13,
            TypeRela64::R_8 => 14,
            TypeRela64::R_PC8 => 15,
            TypeRela64::R_DTPMOD64 => 16,
            TypeRela64::R_DTPOFF64 => 17,
            TypeRela64::R_TPOFF64 => 18,
            TypeRela64::R_TLSGD => 19,
            TypeRela64::R_TLSLD => 20,
            TypeRela64::R_DTPOFF32 => 21,
            TypeRela64::R_GOTTPOFF => 22,
            TypeRela64::R_TPOFF32 => 23,
            TypeRela64::Unknown(x) => x,
        }
    }

    /// Construct a variant from a raw relocation number.
    ///
    /// The mapping is total: numbers outside the catalog yield `Unknown`.
    pub fn from(typ: u32) -> (r: TypeRela64)
        ensures
            r == TypeRela64::spec_from(typ),
    {
        match typ {
            0 => TypeRela64::R_NONE,
            1 => TypeRela64::R_64,
            2 => TypeRela64::R_PC32,
            3 => TypeRela64::R_GOT32,
            4 => TypeRela64::R_PLT32,
            5 => TypeRela64::R_COPY,
            6 => TypeRela64::R_GLOB_DAT,
            7 => TypeRela64::R_JMP_SLOT,
            8 => TypeRela64::R_RELATIVE,
            9 => TypeRela64::R_GOTPCREL,
            10 => TypeRela64::R_32,
            11 => TypeRela64::R_32S,
            12 => TypeRela64::R_16,
            13 => TypeRela64::R_PC16,
            14 => TypeRela64::R_8,
            15 => TypeRela64::R_PC8,
            16 => TypeRela64::R_DTPMOD64,
            17 => TypeRela64::R_DTPOFF64,
            18 => TypeRela64::R_TPOFF64,
            19 => TypeRela64::R_TLSGD,
            20 => TypeRela64::R_TLSLD,
            21 => TypeRela64::R_DTPOFF32,
            22 => TypeRela64::R_GOTTPOFF,
            23 => TypeRela64::R_TPOFF32,
            _ => TypeRela64::Unknown(typ),
        }
    }

    /// Decoding a number and re-decoding the number of the result is stable:
    /// the round trip through the catalog changes nothing.
    pub proof fn lemma_from_idempotent(typ: u32)
        ensures
            TypeRela64::spec_from(TypeRela64::spec_from(typ).spec_number()) == TypeRela64::spec_from(typ),
    {
    }
}


/// Bitset over the standard `DF_1_*` masks of a `DT_FLAGS_1` dynamic entry.
/// Constructed from the raw 64-bit value without validation: unknown bits
/// are preserved.
#[derive(PartialEq, Eq, Structural, Clone, Copy, Debug, Default)]
pub struct DynamicFlags1 {
    /// The raw mask.
    pub bits: u64,
}

impl DynamicFlags1 {
    pub const NOW: u64 = 0x00000001;

    pub const GLOBAL: u64 = 0x00000002;

    pub const GROUP: u64 = 0x00000004;

    pub const NODELETE: u64 = 0x00000008;

    pub const LOADFLTR: u64 = 0x00000010;

    pub const INITFIRST: u64 = 0x00000020;

    pub const NOOPEN: u64 = 0x00000040;

    pub const ORIGIN: u64 = 0x00000080;

    pub const DIRECT: u64 = 0x00000100;

    pub const TRANS: u64 = 0x00000200;

    pub const INTERPOSE: u64 = 0x00000400;

    pub const NODEFLIB: u64 = 0x00000800;

    pub const NODUMP: u64 = 0x00001000;

    pub const CONFALT: u64 = 0x00002000;

    pub const ENDFILTEE: u64 = 0x00004000;

    pub const DISPRELDNE: u64 = 0x00008000;

    pub const DISPRELPND: u64 = 0x00010000;

    pub const NODIRECT: u64 = 0x00020000;

    pub const IGNMULDEF: u64 = 0x00040000;

    pub const NOKSYMS: u64 = 0x00080000;

    pub const NOHDR: u64 = 0x00100000;

    pub const EDITED: u64 = 0x00200000;

    pub const NORELOC: u64 = 0x00400000;

    pub const SYMINTPOSE: u64 = 0x00800000;

    pub const GLOBAUDIT: u64 = 0x01000000;

    pub const SINGLETON: u64 = 0x02000000;

    pub const STUB: u64 = 0x04000000;

    pub const PIE: u64 = 0x08000000;

    /// Wrap a raw `DT_FLAGS_1` value, preserving unknown bits.
    pub fn from_bits_retain(bits: u64) -> (r: DynamicFlags1)
        ensures
            r.bits == bits,
    {
        DynamicFlags1 { bits }
    }

    /// True iff every bit of `mask` is set in the flags.
    pub fn contains(&self, mask: u64) -> (r: bool)
        ensures
            r == (self.bits & mask == mask),
    {
        self.bits & mask == mask
    }
}

/// Summary of the `.dynamic` segment: the relocation table's virtual address
/// and byte size, and the `FLAGS_1` mask. Absent when the binary has no
/// `PT_DYNAMIC` program header.
#[derive(PartialEq, Eq, Structural, Clone, Copy, Debug)]
pub struct DynamicInfo {
    /// `DT_FLAGS_1` (for a 32-bit binary, `DT_FLAGS` widened to 64 bits).
    pub flags1: DynamicFlags1,
    /// Virtual address of the relocation table (`DT_RELA` / `DT_REL`).
    pub rela: u64,
    /// Size in bytes of the relocation table (`DT_RELASZ` / `DT_RELSZ`).
    pub rela_size: u64,
}

/// Parser message for a dynamic entry whose tag is outside every defined range.
pub const MSG_INVALID_DYN_TAG: &'static str = "Invalid tag value";

/// Parser message for segment or section bytes that lie outside the region.
pub const MSG_DATA_OUT_OF_RANGE: &'static str = "segment data outside the byte region";

/// Parser message for a program header whose type value is outside every
/// defined range.
pub const MSG_INVALID_SEGMENT_TYPE: &'static str = "Invalid type";

/// Parser message for a region that the ELF-structure parser does not accept
/// as an ELF file header.
pub const MSG_BAD_HEADER: &'static str = "Invalid ELF file header";


/// A REL record of a 32-bit file: offset and info, no addend.
#[derive(PartialEq, Eq, Structural, Clone, Copy, Debug)]
pub struct Rel32Record {
    /// The ELF `r_offset`.
    pub offset: u32,
    /// The ELF `r_info`: symbol index in the high 24 bits, type in the low 8.
    pub info: u32,
}

/// A REL record of a 64-bit file: offset and info, no addend.
#[derive(PartialEq, Eq, Structural, Clone, Copy, Debug)]
pub struct Rel64Record {
    /// The ELF `r_offset`.
    pub offset: u64,
    /// The ELF `r_info`: symbol index in the high 32 bits, type in the low 32.
    pub info: u64,
}

/// A RELA record of a 32-bit file: offset, info, and explicit addend.
#[derive(PartialEq, Eq, Structural, Clone, Copy, Debug)]
pub struct Rela32Record {
    /// The ELF `r_offset`.
    pub offset: u32,
    /// The ELF `r_info`: symbol index in the high 24 bits, type in the low 8.
    pub info: u32,
    /// The ELF `r_addend`, as its raw 32-bit pattern (signed in the ABI).
    pub addend: u32,
}

/// A RELA record of a 64-bit file: offset, info, and explicit addend.
#[derive(PartialEq, Eq, Structural, Clone, Copy, Debug)]
pub struct Rela64Record {
    /// The ELF `r_offset`.
    pub offset: u64,
    /// The ELF `r_info`: symbol index in the high 32 bits, type in the low 32.
    pub info: u64,
    /// The ELF `r_addend`, as its raw 64-bit pattern (signed in the ABI).
    pub addend: u64,
}

/// One relocation record in one of the four underlying ELF shapes
/// (32- or 64-bit, with or without addend). The dispatcher synthesizes a
/// uniform [`RelocationEntry`] from it.
#[derive(PartialEq, Eq, Structural, Clone, Copy, Debug)]
pub enum RelaEntry {
    Rel32(Rel32Record),
    Rel64(Rel64Record),
    Rela32(Rela32Record),
    Rela64(Rela64Record),
}

/// A relocation kind, tagged with the architecture selected by the ELF
/// machine field.
#[derive(PartialEq, Eq, Structural, Clone, Copy, Debug)]
#[allow(non_camel_case_types)]
pub enum RelocationType {
    /// x86 (i386) relocation.
    x86(arch::x86::RelocationTypes),
    /// x86-64 relocation.
    x86_64(arch::x86_64::RelocationTypes),
    /// AArch64 relocation.
    AArch64(arch::aarch64::RelocationTypes),
    /// RISC-V relocation.
    RiscV(arch::riscv::RelocationTypes),
}

/// The record handed to the loader for one relocation.
#[derive(PartialEq, Eq, Clone, Copy, Debug)]
pub struct RelocationEntry {
    /// Architecture and relocation kind.
    pub rtype: RelocationType,
    /// The ELF `r_offset`.
    pub offset: u64,
    /// Symbol-table index (may be 0).
    pub index: u32,
    /// Explicit addend: present for RELA records, absent for REL records,
    /// whose addend the loader reads from memory at `offset`.
    pub addend: Option<i64>,
}

/// The `PT_LOAD` program headers of a binary, in file order: the finite,
/// restartable sequence handed to [`ElfLoader::allocate`].
pub type LoadableHeaders = Vec<ProgramHeader>;

/// Implement this trait for customized ELF loading.
///
/// The load protocol first calls `allocate` once for all the regions that
/// need address space (the `PT_LOAD` program headers), then `load` for each
/// such region's file-backed bytes, then `relocate` for every entry of the
/// dynamic relocation section, and last `make_readonly` for every
/// `PT_GNU_RELRO` header.
///
/// The trait carries a ghost call history: each method appends the call it
/// received, whether it succeeds or fails. The contract of
/// [`ElfBinary::load`](binary::ElfBinary::load) pins the calls a load makes
/// through that history; what it guarantees therefore holds of exactly the
/// implementations that keep the history faithful, which a verified
/// implementation proves and an unverified one promises.
pub trait ElfLoader {
    /// The calls received so far, newest last. A verified implementation
    /// overrides this with its own model of the calls it has absorbed; the
    /// default stands for implementations that keep no model.
    open spec fn history(&self) -> Seq<TraceCall> {
        Seq::empty()
    }

    /// Allocate the virtual regions given by `load_headers`: at each header's
    /// `virtual_addr`, `mem_size` bytes, with protection per `flags`.
    fn allocate(&mut self, load_headers: &LoadableHeaders) -> (r: Result<(), ElfLoaderErr>)
        ensures
            final(self).history() == old(self).history().push(
                TraceCall::Allocate { headers: load_headers@ },
            ),
    ;

    /// Copy `region` into memory at `base`, zero-filling up to the allocated
    /// `mem_size`.
    fn load(&mut self, flags: Flags, base: VAddr, region: &[u8]) -> (r: Result<(), ElfLoaderErr>)
        ensures
            final(self).history() == old(self).history().push(
                TraceCall::Load { flags, base, size: region@.len() as u64 },
            ),
    ;

    /// Apply the relocation `entry` to previously loaded memory.
    fn relocate(&mut self, entry: RelocationEntry) -> (r: Result<(), ElfLoaderErr>)
        ensures
            final(self).history() == old(self).history().push(TraceCall::Relocate(entry)),
    ;

    /// Record where the initial thread-local-storage image lies. May be a
    /// no-op that succeeds.
    fn tls(
        &mut self,
        tdata_start: VAddr,
        tdata_length: u64,
        total_size: u64,
        align: u64,
    ) -> (r: Result<(), ElfLoaderErr>)
        ensures
            final(self).history() == old(self).history().push(
                TraceCall::Tls { tdata_start, tdata_length, total_size, align },
            ),
    ;

    /// Downgrade `[base, base + size)` to read-only; called after all
    /// relocations are applied. May be a no-op that succeeds.
    fn make_readonly(&mut self, base: VAddr, size: usize) -> (r: Result<(), ElfLoaderErr>)
        ensures
            final(self).history() == old(self).history().push(
                TraceCall::MakeReadonly { base, size: size as u64 },
            ),
    ;
}


/// One call of the load protocol, as trace data: each [`ElfLoader`] method
/// appends one of these to the loader's history, and the laws of the driver
/// are stated over sequences of them.
pub enum TraceCall {
    /// The single `allocate` call, with the sequence of `PT_LOAD` headers it
    /// receives.
    Allocate { headers: Seq<ProgramHeader> },
    /// A `load` call: flags, base virtual address, and the byte count of the
    /// file-backed region.
    Load { flags: Flags, base: u64, size: u64 },
    /// A `tls` call.
    Tls { tdata_start: u64, tdata_length: u64, total_size: u64, align: u64 },
    /// A `relocate` call.
    Relocate(RelocationEntry),
    /// A `make_readonly` call: base and size as handed over (the `mem_size`
    /// of the header, as `usize`).
    MakeReadonly { base: u64, size: u64 },
}

} // verus!
