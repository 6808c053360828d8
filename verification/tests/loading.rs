//! End-to-end tests of the load protocol on synthetic ELF images.
//!
//! The images are built byte by byte (little-endian, classes 1 and 2) with
//! program headers, dynamic segments, relocation sections, and section-name
//! string tables, and then driven through `ElfBinary::load` against a
//! recording loader.

use elfloader::ElfBinary;
use elfloader::ElfLoader;
use elfloader::ElfLoaderErr;
use elfloader::Flags;
use elfloader::LoadableHeaders;
use elfloader::RelocationEntry;
use elfloader::VAddr;
use elfloader::arch::aarch64::RelocationTypes::R_AARCH64_GLOB_DAT;
use elfloader::arch::aarch64::RelocationTypes::R_AARCH64_RELATIVE;
use elfloader::arch::riscv::RelocationTypes::R_RISCV_64;
use elfloader::arch::riscv::RelocationTypes::R_RISCV_NONE;
use elfloader::arch::riscv::RelocationTypes::R_RISCV_RELATIVE;
use elfloader::arch::x86::RelocationTypes::R_386_32;
use elfloader::arch::x86::RelocationTypes::R_386_GLOB_DAT;
use elfloader::arch::x86::RelocationTypes::R_386_NONE;
use elfloader::arch::x86::RelocationTypes::R_386_RELATIVE;
use elfloader::arch::x86_64::RelocationTypes::R_AMD64_64;
use elfloader::arch::x86_64::RelocationTypes::R_AMD64_GLOB_DAT;
use elfloader::arch::x86_64::RelocationTypes::R_AMD64_NONE;
use elfloader::arch::x86_64::RelocationTypes::R_AMD64_RELATIVE;
use elfloader::RelocationType::x86;
use elfloader::RelocationType::x86_64;
use elfloader::RelocationType::AArch64;
use elfloader::RelocationType::RiscV;

const VBASE: u64 = 0x1000_0000;

const EM_386: u16 = 3;
const EM_ARM: u16 = 0x28;
const EM_X86_64: u16 = 0x3e;
const EM_AARCH64: u16 = 0xb7;
const EM_RISCV: u16 = 0xf3;

const ET_EXEC: u16 = 2;
const ET_DYN: u16 = 3;

const PT_LOAD: u32 = 1;
const PT_DYNAMIC: u32 = 2;
const PT_TLS: u32 = 7;
const PT_GNU_RELRO: u32 = 0x6474e552;

const SHT_PROGBITS: u32 = 1;
const SHT_SYMTAB: u32 = 2;
const SHT_STRTAB: u32 = 3;
const SHT_RELA: u32 = 4;
const SHT_REL: u32 = 9;

const DT_NULL: u64 = 0;
const DT_RELA: u64 = 7;
const DT_RELASZ: u64 = 8;
const DT_FLAGS: u64 = 30;
const DT_FLAGS_1: u64 = 0x6ffffffb;
const DF_1_PIE: u64 = 0x0800_0000;

#[derive(Clone, Copy)]
struct BPhdr {
    p_type: u32,
    flags: u32,
    offset: u64,
    vaddr: u64,
    filesz: u64,
    memsz: u64,
    align: u64,
}

#[derive(Clone, Copy)]
struct BSect {
    name: &'static str,
    sh_type: u32,
    offset: u64,
    size: u64,
}

fn w16(b: &mut Vec<u8>, off: usize, v: u16) {
    b[off..off + 2].copy_from_slice(&v.to_le_bytes());
}

fn w32(b: &mut Vec<u8>, off: usize, v: u32) {
    b[off..off + 4].copy_from_slice(&v.to_le_bytes());
}

fn w64(b: &mut Vec<u8>, off: usize, v: u64) {
    b[off..off + 8].copy_from_slice(&v.to_le_bytes());
}

fn ensure_len(b: &mut Vec<u8>, n: usize) {
    if b.len() < n {
        b.resize(n, 0);
    }
}

fn align8(n: usize) -> usize {
    (n + 7) & !7
}

/// Build a little-endian ELF image of the given class with the given program
/// headers, sections (plus a NULL section and the `.shstrtab`), and raw byte
/// blobs placed at fixed file offsets.
fn build_elf(
    class: u8,
    machine: u16,
    elf_type: u16,
    entry: u64,
    phdrs: &[BPhdr],
    sections: &[BSect],
    blobs: &[(u64, Vec<u8>)],
) -> Vec<u8> {
    let is64 = class == 2;
    let ehsize: usize = if is64 { 64 } else { 52 };
    let phent: usize = if is64 { 56 } else { 32 };
    let shent: usize = if is64 { 64 } else { 40 };
    let phoff: usize = ehsize;
    let mut img = vec![0u8; ehsize + phent * phdrs.len()];

    for (off, data) in blobs {
        ensure_len(&mut img, *off as usize + data.len());
        img[*off as usize..*off as usize + data.len()].copy_from_slice(data);
    }
    for ph in phdrs {
        ensure_len(&mut img, (ph.offset + ph.filesz) as usize);
    }
    for s in sections {
        ensure_len(&mut img, (s.offset + s.size) as usize);
    }

    // Section-name string table: one NUL for the null section's empty name,
    // then each section name, then ".shstrtab" itself.
    let mut strtab: Vec<u8> = vec![0];
    let mut name_offs: Vec<u32> = Vec::new();
    for s in sections {
        name_offs.push(strtab.len() as u32);
        strtab.extend(s.name.bytes());
        strtab.push(0);
    }
    let shstr_name_off = strtab.len() as u32;
    strtab.extend(".shstrtab".bytes());
    strtab.push(0);

    let shstr_off = align8(img.len());
    ensure_len(&mut img, shstr_off + strtab.len());
    img[shstr_off..shstr_off + strtab.len()].copy_from_slice(&strtab);

    let shoff = align8(img.len());
    let shnum = sections.len() + 2;
    ensure_len(&mut img, shoff + shent * shnum);

    let write_shdr = |img: &mut Vec<u8>, idx: usize, name: u32, ty: u32, off: u64, size: u64| {
        let base = shoff + idx * shent;
        w32(img, base, name);
        w32(img, base + 4, ty);
        if is64 {
            w64(img, base + 24, off);
            w64(img, base + 32, size);
        } else {
            w32(img, base + 16, off as u32);
            w32(img, base + 20, size as u32);
        }
    };
    // Index 0 stays the all-zero null section.
    for (i, s) in sections.iter().enumerate() {
        write_shdr(&mut img, i + 1, name_offs[i], s.sh_type, s.offset, s.size);
    }
    let shstrndx = (shnum - 1) as u16;
    write_shdr(
        &mut img,
        shstrndx as usize,
        shstr_name_off,
        SHT_STRTAB,
        shstr_off as u64,
        strtab.len() as u64,
    );

    // File header.
    img[0] = 0x7f;
    img[1] = b'E';
    img[2] = b'L';
    img[3] = b'F';
    img[4] = class;
    img[5] = 1; // little-endian
    img[6] = 1; // current identification version
    img[7] = 0; // System V
    w16(&mut img, 16, elf_type);
    w16(&mut img, 18, machine);
    w32(&mut img, 20, 1); // file version
    if is64 {
        w64(&mut img, 24, entry);
        w64(&mut img, 32, phoff as u64);
        w64(&mut img, 40, shoff as u64);
        w16(&mut img, 52, 64);
        w16(&mut img, 54, phent as u16);
        w16(&mut img, 56, phdrs.len() as u16);
        w16(&mut img, 58, shent as u16);
        w16(&mut img, 60, shnum as u16);
        w16(&mut img, 62, shstrndx);
    } else {
        w32(&mut img, 24, entry as u32);
        w32(&mut img, 28, phoff as u32);
        w32(&mut img, 32, shoff as u32);
        w16(&mut img, 40, 52);
        w16(&mut img, 42, phent as u16);
        w16(&mut img, 44, phdrs.len() as u16);
        w16(&mut img, 46, shent as u16);
        w16(&mut img, 48, shnum as u16);
        w16(&mut img, 50, shstrndx);
    }

    // Program headers.
    for (i, ph) in phdrs.iter().enumerate() {
        let base = phoff + i * phent;
        w32(&mut img, base, ph.p_type);
        if is64 {
            w32(&mut img, base + 4, ph.flags);
            w64(&mut img, base + 8, ph.offset);
            w64(&mut img, base + 16, ph.vaddr);
            w64(&mut img, base + 24, ph.vaddr);
            w64(&mut img, base + 32, ph.filesz);
            w64(&mut img, base + 40, ph.memsz);
            w64(&mut img, base + 48, ph.align);
        } else {
            w32(&mut img, base + 4, ph.offset as u32);
            w32(&mut img, base + 8, ph.vaddr as u32);
            w32(&mut img, base + 12, ph.vaddr as u32);
            w32(&mut img, base + 16, ph.filesz as u32);
            w32(&mut img, base + 20, ph.memsz as u32);
            w32(&mut img, base + 24, ph.flags);
            w32(&mut img, base + 28, ph.align as u32);
        }
    }

    img
}

fn dyn64(entries: &[(u64, u64)]) -> Vec<u8> {
    let mut out = Vec::new();
    for (tag, val) in entries {
        out.extend(tag.to_le_bytes());
        out.extend(val.to_le_bytes());
    }
    out
}

fn dyn32(entries: &[(u32, u32)]) -> Vec<u8> {
    let mut out = Vec::new();
    for (tag, val) in entries {
        out.extend(tag.to_le_bytes());
        out.extend(val.to_le_bytes());
    }
    out
}

/// RELA records of a 64-bit file: (r_offset, symbol index, type, addend).
fn rela64(recs: &[(u64, u32, u32, u64)]) -> Vec<u8> {
    let mut out = Vec::new();
    for (off, sym, ty, addend) in recs {
        out.extend(off.to_le_bytes());
        out.extend((((*sym as u64) << 32) | *ty as u64).to_le_bytes());
        out.extend(addend.to_le_bytes());
    }
    out
}

/// REL records of a 32-bit file: (r_offset, symbol index, type).
fn rel32(recs: &[(u32, u32, u8)]) -> Vec<u8> {
    let mut out = Vec::new();
    for (off, sym, ty) in recs {
        out.extend(off.to_le_bytes());
        out.extend(((sym << 8) | *ty as u32).to_le_bytes());
    }
    out
}

/// Symbol records of a 64-bit file: (name index, value, size).
fn sym64(recs: &[(u32, u64, u64)]) -> Vec<u8> {
    let mut out = Vec::new();
    for (name, value, size) in recs {
        out.extend(name.to_le_bytes());
        out.extend([0u8, 0, 0, 0]); // info, other, shndx
        out.extend(value.to_le_bytes());
        out.extend(size.to_le_bytes());
    }
    out
}

#[derive(Eq, Clone, PartialEq, Copy, Debug)]
enum LoaderAction {
    Allocate(VAddr, usize, Flags),
    Load(VAddr, usize),
    Relocate(VAddr, u64),
    Tls(VAddr, u64, u64, u64),
    MakeReadonly(VAddr, usize),
}

struct TestLoader {
    vbase: VAddr,
    actions: Vec<LoaderAction>,
    allocate_calls: usize,
}

impl TestLoader {
    fn new(offset: VAddr) -> TestLoader {
        TestLoader { vbase: offset, actions: Vec::with_capacity(12), allocate_calls: 0 }
    }
}

impl ElfLoader for TestLoader {
    fn allocate(&mut self, load_headers: &LoadableHeaders) -> Result<(), ElfLoaderErr> {
        self.allocate_calls += 1;
        for header in load_headers.iter() {
            self.actions.push(LoaderAction::Allocate(
                header.virtual_addr,
                header.mem_size as usize,
                header.flags,
            ));
        }
        Ok(())
    }

    fn relocate(&mut self, entry: RelocationEntry) -> Result<(), ElfLoaderErr> {
        // Where the relocation writes, after placing the binary at vbase.
        let addr: u64 = self.vbase + entry.offset;

        match entry.rtype {
            x86(R_386_32) => Ok(()),
            x86(R_386_RELATIVE) => {
                // REL record: no explicit addend, the loader substitutes the
                // base address.
                self.actions.push(LoaderAction::Relocate(addr, self.vbase));
                Ok(())
            }
            x86(R_386_GLOB_DAT) => Ok(()),
            x86(R_386_NONE) => Ok(()),
            RiscV(R_RISCV_64) => Ok(()),
            RiscV(R_RISCV_NONE) => Ok(()),
            RiscV(R_RISCV_RELATIVE) => {
                let addend = entry.addend.ok_or(ElfLoaderErr::UnsupportedRelocationEntry)?;
                self.actions
                    .push(LoaderAction::Relocate(addr, self.vbase.wrapping_add(addend as u64)));
                Ok(())
            }
            x86_64(R_AMD64_64) => Ok(()),
            x86_64(R_AMD64_RELATIVE) => {
                let addend = entry.addend.ok_or(ElfLoaderErr::UnsupportedRelocationEntry)?;
                self.actions
                    .push(LoaderAction::Relocate(addr, self.vbase.wrapping_add(addend as u64)));
                Ok(())
            }
            AArch64(R_AARCH64_RELATIVE) => {
                let addend = entry.addend.ok_or(ElfLoaderErr::UnsupportedRelocationEntry)?;
                self.actions
                    .push(LoaderAction::Relocate(addr, self.vbase.wrapping_add(addend as u64)));
                Ok(())
            }
            AArch64(R_AARCH64_GLOB_DAT) => Ok(()),
            x86_64(R_AMD64_GLOB_DAT) => Ok(()),
            x86_64(R_AMD64_NONE) => Ok(()),
            _ => Err(ElfLoaderErr::UnsupportedRelocationEntry),
        }
    }

    fn load(&mut self, _flags: Flags, base: VAddr, region: &[u8]) -> Result<(), ElfLoaderErr> {
        self.actions.push(LoaderAction::Load(base, region.len()));
        Ok(())
    }

    fn tls(
        &mut self,
        tdata_start: VAddr,
        tdata_length: u64,
        total_size: u64,
        alignment: u64,
    ) -> Result<(), ElfLoaderErr> {
        self.actions.push(LoaderAction::Tls(tdata_start, tdata_length, total_size, alignment));
        Ok(())
    }

    fn make_readonly(&mut self, base: VAddr, size: usize) -> Result<(), ElfLoaderErr> {
        self.actions.push(LoaderAction::MakeReadonly(base, size));
        Ok(())
    }
}

/// The phase of an action in the load protocol's happens-before chain.
fn action_phase(a: &LoaderAction) -> u32 {
    match a {
        LoaderAction::Allocate(..) => 0,
        LoaderAction::Load(..) => 1,
        LoaderAction::Tls(..) => 1,
        LoaderAction::Relocate(..) => 2,
        LoaderAction::MakeReadonly(..) => 3,
    }
}

/// The callback order must follow the happens-before chain: allocation, then
/// copying and TLS, then relocation, then read-only enforcement.
fn check_phase_order(actions: &[LoaderAction]) {
    for pair in actions.windows(2) {
        assert!(
            action_phase(&pair[0]) <= action_phase(&pair[1]),
            "out of order: {:?} before {:?}",
            pair[0],
            pair[1]
        );
    }
}

/// Every `Load` action must be preceded by an `Allocate` covering its range.
fn check_loads_covered(actions: &[LoaderAction]) {
    for (i, a) in actions.iter().enumerate() {
        if let LoaderAction::Load(base, len) = a {
            let covered = actions[..i].iter().any(|e| match e {
                LoaderAction::Allocate(abase, asize, _) => {
                    abase <= base && base + *len as u64 <= abase + *asize as u64
                }
                _ => false,
            });
            assert!(covered, "load at {:#x} not covered by a prior allocate", base);
        }
    }
}

/// Every `Relocate` action must reference an address inside a previously
/// allocated range (once the binary is placed at `vbase`).
fn check_relocates_allocated(actions: &[LoaderAction], vbase: u64) {
    for (i, a) in actions.iter().enumerate() {
        if let LoaderAction::Relocate(target, _) = a {
            let va = target - vbase;
            let inside = actions[..i].iter().any(|e| match e {
                LoaderAction::Allocate(abase, asize, _) => {
                    *abase <= va && va < abase + *asize as u64
                }
                _ => false,
            });
            assert!(inside, "relocation target {:#x} outside allocated ranges", target);
        }
    }
}

fn pie_image_x86_64() -> Vec<u8> {
    build_elf(
        2,
        EM_X86_64,
        ET_DYN,
        0x630,
        &[
            BPhdr { p_type: PT_LOAD, flags: 5, offset: 0, vaddr: 0, filesz: 0x888, memsz: 0x888, align: 0x200000 },
            BPhdr { p_type: PT_LOAD, flags: 6, offset: 0x900, vaddr: 0x200db8, filesz: 0x258, memsz: 0x260, align: 0x200000 },
            BPhdr { p_type: PT_DYNAMIC, flags: 6, offset: 0xb60, vaddr: 0x200fb8, filesz: 64, memsz: 64, align: 8 },
        ],
        &[BSect { name: ".rela.dyn", sh_type: SHT_RELA, offset: 0xbc0, size: 48 }],
        &[
            (0xb60, dyn64(&[(DT_RELA, 0x600), (DT_RELASZ, 48), (DT_FLAGS_1, DF_1_PIE), (DT_NULL, 0)])),
            (0xbc0, rela64(&[(0x200db8, 0, 8, 0x640), (0x200dc0, 0, 8, 0x600)])),
        ],
    )
}

#[test]
fn load_pie_x86_64() {
    let img = pie_image_x86_64();
    let binary = ElfBinary::new(&img).expect("valid ELF image");
    assert!(binary.is_pie());
    let mut loader = TestLoader::new(VBASE);
    binary.load(&mut loader).expect("load succeeds");

    assert_eq!(
        loader.actions,
        vec![
            LoaderAction::Allocate(0x0, 0x888, Flags(1 | 4)),
            LoaderAction::Allocate(0x200db8, 0x260, Flags(2 | 4)),
            LoaderAction::Load(0x0, 0x888),
            LoaderAction::Load(0x200db8, 0x258),
            LoaderAction::Relocate(VBASE + 0x200db8, VBASE + 0x000640),
            LoaderAction::Relocate(VBASE + 0x200dc0, VBASE + 0x000600),
        ]
    );
    assert_eq!(loader.allocate_calls, 1);
    check_phase_order(&loader.actions);
    check_loads_covered(&loader.actions);
    check_relocates_allocated(&loader.actions, VBASE);
}

fn pie_image_aarch64() -> Vec<u8> {
    build_elf(
        2,
        EM_AARCH64,
        ET_DYN,
        0x640,
        &[
            BPhdr { p_type: PT_LOAD, flags: 5, offset: 0, vaddr: 0, filesz: 0x8cc, memsz: 0x8cc, align: 0x10000 },
            BPhdr { p_type: PT_LOAD, flags: 6, offset: 0x900, vaddr: 0x10d90, filesz: 0x280, memsz: 0x288, align: 0x10000 },
            BPhdr { p_type: PT_DYNAMIC, flags: 6, offset: 0xb80, vaddr: 0x10fd0, filesz: 32, memsz: 32, align: 8 },
        ],
        &[BSect { name: ".rela.dyn", sh_type: SHT_RELA, offset: 0xbc0, size: 120 }],
        &[
            (0xb80, dyn64(&[(DT_FLAGS_1, DF_1_PIE), (DT_NULL, 0)])),
            (
                0xbc0,
                rela64(&[
                    (0x10d90, 0, 1027, 0x750),
                    (0x10d98, 0, 1027, 0x700),
                    (0x10ff0, 0, 1027, 0x754),
                    (0x10ff8, 1, 1025, 0), // GLOB_DAT: present, ignored by this loader
                    (0x11008, 0, 1027, 0x11008),
                ]),
            ),
        ],
    )
}

#[test]
fn load_pie_aarch64() {
    let img = pie_image_aarch64();
    let binary = ElfBinary::new(&img).expect("valid ELF image");
    assert!(binary.is_pie());
    let mut loader = TestLoader::new(VBASE);
    binary.load(&mut loader).expect("load succeeds");

    // Exactly eight recorded actions, in order; the GLOB_DAT entry is handled
    // without being recorded.
    assert_eq!(
        loader.actions,
        vec![
            LoaderAction::Allocate(0x0, 0x8cc, Flags(5)),
            LoaderAction::Allocate(0x10d90, 0x288, Flags(6)),
            LoaderAction::Load(0x0, 0x8cc),
            LoaderAction::Load(0x10d90, 0x280),
            LoaderAction::Relocate(VBASE + 0x10d90, 0x1000_0750),
            LoaderAction::Relocate(VBASE + 0x10d98, 0x1000_0700),
            LoaderAction::Relocate(VBASE + 0x10ff0, 0x1000_0754),
            LoaderAction::Relocate(VBASE + 0x11008, 0x1001_1008),
        ]
    );
    assert_eq!(loader.allocate_calls, 1);
    check_phase_order(&loader.actions);
    check_loads_covered(&loader.actions);
    check_relocates_allocated(&loader.actions, VBASE);
}

fn pie_image_riscv64() -> Vec<u8> {
    build_elf(
        2,
        EM_RISCV,
        ET_DYN,
        0x600,
        &[
            BPhdr { p_type: PT_LOAD, flags: 5, offset: 0, vaddr: 0, filesz: 0x780, memsz: 0x780, align: 0x1000 },
            BPhdr { p_type: PT_LOAD, flags: 6, offset: 0x800, vaddr: 0x1e20, filesz: 0x250, memsz: 0x288, align: 0x1000 },
            BPhdr { p_type: PT_DYNAMIC, flags: 6, offset: 0xa60, vaddr: 0x2070, filesz: 32, memsz: 32, align: 8 },
        ],
        &[BSect { name: ".rela.dyn", sh_type: SHT_RELA, offset: 0xa80, size: 96 }],
        &[
            (0xa60, dyn64(&[(DT_FLAGS_1, DF_1_PIE), (DT_NULL, 0)])),
            (
                0xa80,
                rela64(&[
                    (0x1e20, 0, 3, 0x6ac),
                    (0x1e28, 0, 3, 0x644),
                    (0x2000, 0, 3, 0x2000),
                    (0x2058, 0, 3, 0x6e0),
                ]),
            ),
        ],
    )
}

#[test]
fn load_pie_riscv64() {
    let img = pie_image_riscv64();
    let binary = ElfBinary::new(&img).expect("valid ELF image");
    assert!(binary.is_pie());
    let mut loader = TestLoader::new(VBASE);
    binary.load(&mut loader).expect("load succeeds");

    assert_eq!(
        loader.actions,
        vec![
            LoaderAction::Allocate(0x0, 0x780, Flags(5)),
            LoaderAction::Allocate(0x1e20, 0x288, Flags(6)),
            LoaderAction::Load(0x0, 0x780),
            LoaderAction::Load(0x1e20, 0x250),
            LoaderAction::Relocate(VBASE + 0x1e20, VBASE + 0x6ac),
            LoaderAction::Relocate(VBASE + 0x1e28, VBASE + 0x644),
            LoaderAction::Relocate(VBASE + 0x2000, VBASE + 0x2000),
            LoaderAction::Relocate(VBASE + 0x2058, VBASE + 0x6e0),
        ]
    );
    assert_eq!(loader.allocate_calls, 1);
    check_phase_order(&loader.actions);
    check_loads_covered(&loader.actions);
    check_relocates_allocated(&loader.actions, VBASE);
}

fn pie_image_x86() -> Vec<u8> {
    build_elf(
        1,
        EM_386,
        ET_DYN,
        0x400,
        &[
            BPhdr { p_type: PT_LOAD, flags: 4, offset: 0, vaddr: 0, filesz: 0x3bc, memsz: 0x3bc, align: 0x1000 },
            BPhdr { p_type: PT_LOAD, flags: 5, offset: 0x1000, vaddr: 0x1000, filesz: 0x288, memsz: 0x288, align: 0x1000 },
            BPhdr { p_type: PT_LOAD, flags: 4, offset: 0x2000, vaddr: 0x2000, filesz: 0x16c, memsz: 0x16c, align: 0x1000 },
            BPhdr { p_type: PT_LOAD, flags: 6, offset: 0x2800, vaddr: 0x3ef4, filesz: 0x128, memsz: 0x12c, align: 0x1000 },
            BPhdr { p_type: PT_DYNAMIC, flags: 6, offset: 0x2a00, vaddr: 0x3f54, filesz: 16, memsz: 16, align: 4 },
        ],
        &[BSect { name: ".rel.dyn", sh_type: SHT_REL, offset: 0x2b00, size: 16 }],
        &[
            (0x2a00, dyn32(&[(DT_FLAGS as u32, DF_1_PIE as u32), (DT_NULL as u32, 0)])),
            (0x2b00, rel32(&[(0x3ef4, 0, 8), (0x3ef8, 0, 8)])),
        ],
    )
}

#[test]
fn load_pie_x86() {
    let img = pie_image_x86();
    let binary = ElfBinary::new(&img).expect("valid ELF image");
    // A 32-bit binary's flags come from DT_FLAGS, widened.
    assert!(binary.is_pie());
    let mut loader = TestLoader::new(VBASE);
    binary.load(&mut loader).expect("load succeeds");

    for expected in [
        LoaderAction::Allocate(0x0, 0x3bc, Flags(4)),
        LoaderAction::Allocate(0x1000, 0x288, Flags(5)),
        LoaderAction::Allocate(0x2000, 0x16c, Flags(4)),
        LoaderAction::Allocate(0x3ef4, 0x12c, Flags(6)),
        LoaderAction::Load(0x0, 0x3bc),
        LoaderAction::Load(0x1000, 0x288),
        LoaderAction::Load(0x2000, 0x16c),
        LoaderAction::Load(0x3ef4, 0x128),
        // REL records carry no addend: the loader substitutes the base.
        LoaderAction::Relocate(VBASE + 0x3ef4, VBASE),
        LoaderAction::Relocate(VBASE + 0x3ef8, VBASE),
    ] {
        assert!(loader.actions.contains(&expected), "missing action {:?}", expected);
    }
    assert_eq!(loader.allocate_calls, 1);
    check_phase_order(&loader.actions);
    check_loads_covered(&loader.actions);
    check_relocates_allocated(&loader.actions, VBASE);
}

fn tls_image(class: u8, machine: u16, tls_vaddr: u64) -> Vec<u8> {
    let phdrs = [
        BPhdr { p_type: PT_LOAD, flags: 5, offset: 0, vaddr: 0, filesz: 0x200, memsz: 0x200, align: 0x1000 },
        BPhdr { p_type: PT_TLS, flags: 4, offset: 0x180, vaddr: tls_vaddr, filesz: 4, memsz: 8, align: 4 },
    ];
    build_elf(class, machine, ET_DYN, 0x100, &phdrs, &[], &[])
}

#[test]
fn tls_segment_x86_64() {
    let img = tls_image(2, EM_X86_64, 0x200db4);
    let binary = ElfBinary::new(&img).expect("valid ELF image");
    let mut loader = TestLoader::new(VBASE);
    binary.load(&mut loader).expect("load succeeds");
    let tls: Vec<&LoaderAction> = loader
        .actions
        .iter()
        .filter(|a| matches!(a, LoaderAction::Tls(..)))
        .collect();
    assert_eq!(tls, vec![&LoaderAction::Tls(0x200db4, 0x4, 0x8, 0x4)]);
}

#[test]
fn tls_segment_aarch64() {
    let img = tls_image(2, EM_AARCH64, 0x10d8c);
    let binary = ElfBinary::new(&img).expect("valid ELF image");
    let mut loader = TestLoader::new(VBASE);
    binary.load(&mut loader).expect("load succeeds");
    let tls: Vec<&LoaderAction> = loader
        .actions
        .iter()
        .filter(|a| matches!(a, LoaderAction::Tls(..)))
        .collect();
    assert_eq!(tls, vec![&LoaderAction::Tls(0x10d8c, 0x4, 0x8, 0x4)]);
}

#[test]
fn tls_segment_riscv64() {
    let img = tls_image(2, EM_RISCV, 0x1e0c);
    let binary = ElfBinary::new(&img).expect("valid ELF image");
    let mut loader = TestLoader::new(VBASE);
    binary.load(&mut loader).expect("load succeeds");
    let tls: Vec<&LoaderAction> = loader
        .actions
        .iter()
        .filter(|a| matches!(a, LoaderAction::Tls(..)))
        .collect();
    assert_eq!(tls, vec![&LoaderAction::Tls(0x1e0c, 0x4, 0x8, 0x4)]);
}

#[test]
fn tls_segment_x86() {
    let img = tls_image(1, EM_386, 0x3ef0);
    let binary = ElfBinary::new(&img).expect("valid ELF image");
    let mut loader = TestLoader::new(VBASE);
    binary.load(&mut loader).expect("load succeeds");
    let tls: Vec<&LoaderAction> = loader
        .actions
        .iter()
        .filter(|a| matches!(a, LoaderAction::Tls(..)))
        .collect();
    assert_eq!(tls, vec![&LoaderAction::Tls(0x3ef0, 0x4, 0x8, 0x4)]);
}

fn nopie_image(class: u8, machine: u16) -> Vec<u8> {
    // No dynamic segment at all: fully static, PIE is false.
    let phdrs = [BPhdr {
        p_type: PT_LOAD,
        flags: 5,
        offset: 0,
        vaddr: 0x400000,
        filesz: 0x100,
        memsz: 0x100,
        align: 0x1000,
    }];
    build_elf(class, machine, ET_EXEC, 0x400000, &phdrs, &[], &[])
}

#[test]
fn nopie_x86_64() {
    let img = nopie_image(2, EM_X86_64);
    let binary = ElfBinary::new(&img).expect("valid ELF image");
    assert!(!binary.is_pie());
}

#[test]
fn nopie_aarch64() {
    let img = nopie_image(2, EM_AARCH64);
    let binary = ElfBinary::new(&img).expect("valid ELF image");
    assert!(!binary.is_pie());
}

#[test]
fn nopie_riscv64() {
    let img = nopie_image(2, EM_RISCV);
    let binary = ElfBinary::new(&img).expect("valid ELF image");
    assert!(!binary.is_pie());
}

#[test]
fn nopie_x86() {
    let img = nopie_image(1, EM_386);
    let binary = ElfBinary::new(&img).expect("valid ELF image");
    assert!(!binary.is_pie());
}

#[test]
fn nopie_when_flag_unset() {
    // A dynamic segment is present but DF_1_PIE is unset.
    let img = build_elf(
        2,
        EM_X86_64,
        ET_DYN,
        0x100,
        &[
            BPhdr { p_type: PT_LOAD, flags: 5, offset: 0, vaddr: 0, filesz: 0x200, memsz: 0x200, align: 0x1000 },
            BPhdr { p_type: PT_DYNAMIC, flags: 6, offset: 0x200, vaddr: 0x200, filesz: 32, memsz: 32, align: 8 },
        ],
        &[],
        &[(0x200, dyn64(&[(DT_FLAGS_1, 0x1), (DT_NULL, 0)]))],
    );
    let binary = ElfBinary::new(&img).expect("valid ELF image");
    assert!(!binary.is_pie());
}

#[test]
fn relro_comes_after_relocation() {
    let mut phdrs = vec![
        BPhdr { p_type: PT_LOAD, flags: 5, offset: 0, vaddr: 0, filesz: 0x200, memsz: 0x200, align: 0x1000 },
        BPhdr { p_type: PT_GNU_RELRO, flags: 4, offset: 0x100, vaddr: 0x100, filesz: 0x80, memsz: 0x80, align: 1 },
    ];
    phdrs.push(BPhdr {
        p_type: PT_DYNAMIC,
        flags: 6,
        offset: 0x240,
        vaddr: 0x240,
        filesz: 32,
        memsz: 32,
        align: 8,
    });
    let img = build_elf(
        2,
        EM_X86_64,
        ET_DYN,
        0x100,
        &phdrs,
        &[BSect { name: ".rela.dyn", sh_type: SHT_RELA, offset: 0x280, size: 24 }],
        &[
            (0x240, dyn64(&[(DT_FLAGS_1, DF_1_PIE), (DT_NULL, 0)])),
            (0x280, rela64(&[(0x100, 0, 8, 0x40)])),
        ],
    );
    let binary = ElfBinary::new(&img).expect("valid ELF image");
    let mut loader = TestLoader::new(VBASE);
    binary.load(&mut loader).expect("load succeeds");
    assert_eq!(
        loader.actions,
        vec![
            LoaderAction::Allocate(0x0, 0x200, Flags(5)),
            LoaderAction::Load(0x0, 0x200),
            LoaderAction::Relocate(VBASE + 0x100, VBASE + 0x40),
            LoaderAction::MakeReadonly(0x100, 0x80),
        ]
    );
}

#[test]
fn entry_point_is_reported() {
    let img = nopie_image(2, EM_X86_64);
    let binary = ElfBinary::new(&img).expect("valid ELF image");
    assert_eq!(binary.entry_point(), 0x400000);
}

#[test]
fn program_headers_are_reported() {
    let img = pie_image_x86_64();
    let binary = ElfBinary::new(&img).expect("valid ELF image");
    let phs = binary.program_headers();
    assert_eq!(phs.len(), 3);
    assert_eq!(phs[0].p_type, PT_LOAD);
    assert_eq!(phs[0].file_size, 0x888);
    assert_eq!(phs[1].virtual_addr, 0x200db8);
    assert_eq!(phs[1].mem_size, 0x260);
    assert_eq!(phs[1].flags, Flags(6));
    assert_eq!(phs[2].p_type, PT_DYNAMIC);
}

#[test]
fn construction_rejects_bad_magic() {
    let mut img = nopie_image(2, EM_X86_64);
    img[1] = b'F';
    assert!(matches!(ElfBinary::new(&img), Err(ElfLoaderErr::ElfParser { .. })));
}

#[test]
fn construction_rejects_short_region() {
    let img = nopie_image(2, EM_X86_64);
    assert!(matches!(ElfBinary::new(&img[..40]), Err(ElfLoaderErr::ElfParser { .. })));
    assert!(matches!(ElfBinary::new(&[]), Err(ElfLoaderErr::ElfParser { .. })));
}

#[test]
fn construction_rejects_bad_class() {
    let mut img = nopie_image(2, EM_X86_64);
    img[4] = 7;
    assert!(matches!(ElfBinary::new(&img), Err(ElfLoaderErr::ElfParser { .. })));
}

#[test]
fn construction_accepts_header_only_image() {
    // A well-formed header with no program headers and no sections is enough.
    let img = build_elf(2, EM_X86_64, ET_EXEC, 0x1234, &[], &[], &[]);
    let binary = ElfBinary::new(&img).expect("valid ELF image");
    assert!(!binary.is_pie());
    assert_eq!(binary.entry_point(), 0x1234);
    assert_eq!(binary.program_headers().len(), 0);
}

#[test]
fn construction_rejects_invalid_dynamic_tag() {
    // Tag 31 is outside every defined range.
    let img = build_elf(
        2,
        EM_X86_64,
        ET_DYN,
        0x100,
        &[BPhdr { p_type: PT_DYNAMIC, flags: 6, offset: 0x200, vaddr: 0x200, filesz: 32, memsz: 32, align: 8 }],
        &[],
        &[(0x200, dyn64(&[(31, 0), (DT_NULL, 0)]))],
    );
    assert!(matches!(ElfBinary::new(&img), Err(ElfLoaderErr::ElfParser { .. })));
}

#[test]
fn construction_rejects_misshapen_dynamic() {
    // 20 bytes is not a whole number of 16-byte entries.
    let img = build_elf(
        2,
        EM_X86_64,
        ET_DYN,
        0x100,
        &[BPhdr { p_type: PT_DYNAMIC, flags: 6, offset: 0x200, vaddr: 0x200, filesz: 20, memsz: 20, align: 8 }],
        &[],
        &[(0x200, dyn64(&[(DT_NULL, 0)]))],
    );
    assert_eq!(ElfBinary::new(&img).err(), Some(ElfLoaderErr::UnsupportedSectionData));
}

#[test]
fn load_rejects_wrong_version() {
    let mut img = nopie_image(2, EM_X86_64);
    img[6] = 2;
    let binary = ElfBinary::new(&img).expect("construction checks only the header gate");
    let mut loader = TestLoader::new(VBASE);
    assert_eq!(binary.load(&mut loader), Err(ElfLoaderErr::UnsupportedElfVersion));
    assert!(loader.actions.is_empty());
}

#[test]
fn load_rejects_big_endian() {
    let mut img = nopie_image(2, EM_X86_64);
    img[5] = 2;
    let binary = ElfBinary::new(&img).expect("valid header");
    let mut loader = TestLoader::new(VBASE);
    assert_eq!(binary.load(&mut loader), Err(ElfLoaderErr::UnsupportedEndianness));
    assert!(loader.actions.is_empty());
}

#[test]
fn load_rejects_unsupported_abi() {
    let mut img = nopie_image(2, EM_X86_64);
    img[7] = 9; // FreeBSD
    let binary = ElfBinary::new(&img).expect("valid header");
    let mut loader = TestLoader::new(VBASE);
    assert_eq!(binary.load(&mut loader), Err(ElfLoaderErr::UnsupportedAbi));
    assert!(loader.actions.is_empty());
}

#[test]
fn load_accepts_linux_abi() {
    let mut img = nopie_image(2, EM_X86_64);
    img[7] = 3; // Linux
    let binary = ElfBinary::new(&img).expect("valid header");
    let mut loader = TestLoader::new(VBASE);
    assert_eq!(binary.load(&mut loader), Ok(()));
}

#[test]
fn load_rejects_relocatable_type() {
    let img = build_elf(2, EM_X86_64, 1, 0, &[], &[], &[]); // ET_REL
    let binary = ElfBinary::new(&img).expect("valid header");
    let mut loader = TestLoader::new(VBASE);
    assert_eq!(binary.load(&mut loader), Err(ElfLoaderErr::UnsupportedElfType));
    assert!(loader.actions.is_empty());
}

#[test]
fn load_rejects_misshapen_reloc_section() {
    // 30 bytes is not a whole number of 24-byte RELA records.
    let img = build_elf(
        2,
        EM_X86_64,
        ET_DYN,
        0x100,
        &[BPhdr { p_type: PT_LOAD, flags: 5, offset: 0, vaddr: 0, filesz: 0x100, memsz: 0x100, align: 0x1000 }],
        &[BSect { name: ".rela.dyn", sh_type: SHT_RELA, offset: 0x200, size: 30 }],
        &[],
    );
    let binary = ElfBinary::new(&img).expect("valid ELF image");
    let mut loader = TestLoader::new(VBASE);
    assert_eq!(binary.load(&mut loader), Err(ElfLoaderErr::UnsupportedSectionData));
}

#[test]
fn load_rejects_reloc_section_of_wrong_type() {
    // A section named .rela.dyn whose type is not a relocation type.
    let img = build_elf(
        2,
        EM_X86_64,
        ET_DYN,
        0x100,
        &[BPhdr { p_type: PT_LOAD, flags: 5, offset: 0, vaddr: 0, filesz: 0x100, memsz: 0x100, align: 0x1000 }],
        &[BSect { name: ".rela.dyn", sh_type: SHT_PROGBITS, offset: 0x200, size: 24 }],
        &[],
    );
    let binary = ElfBinary::new(&img).expect("valid ELF image");
    let mut loader = TestLoader::new(VBASE);
    assert_eq!(binary.load(&mut loader), Err(ElfLoaderErr::UnsupportedSectionData));
}

#[test]
fn load_rejects_relocations_of_unsupported_machine() {
    // An ARM binary with relocation entries: the catalog exists, but the
    // dispatcher serves only x86, x86-64, AArch64, and RISC-V.
    let img = build_elf(
        2,
        EM_ARM,
        ET_DYN,
        0x100,
        &[BPhdr { p_type: PT_LOAD, flags: 5, offset: 0, vaddr: 0, filesz: 0x100, memsz: 0x100, align: 0x1000 }],
        &[BSect { name: ".rela.dyn", sh_type: SHT_RELA, offset: 0x200, size: 24 }],
        &[(0x200, rela64(&[(0x40, 0, 23, 0)]))],
    );
    let binary = ElfBinary::new(&img).expect("valid ELF image");
    let mut loader = TestLoader::new(VBASE);
    assert_eq!(binary.load(&mut loader), Err(ElfLoaderErr::UnsupportedRelocationEntry));
}

#[test]
fn loader_rejects_unknown_relocation_kind() {
    // Relocation number 0xff is Unknown for x86-64; this loader rejects it,
    // the error propagates unchanged, and the remainder of the protocol — a
    // second relocation and the read-only phase — is aborted.
    let img = build_elf(
        2,
        EM_X86_64,
        ET_DYN,
        0x100,
        &[
            BPhdr { p_type: PT_LOAD, flags: 5, offset: 0, vaddr: 0, filesz: 0x300, memsz: 0x300, align: 0x1000 },
            BPhdr { p_type: PT_GNU_RELRO, flags: 4, offset: 0x100, vaddr: 0x100, filesz: 0x80, memsz: 0x80, align: 1 },
        ],
        &[BSect { name: ".rela.dyn", sh_type: SHT_RELA, offset: 0x200, size: 48 }],
        &[(0x200, rela64(&[(0x40, 0, 0xff, 0), (0x48, 0, 8, 0x10)]))],
    );
    let binary = ElfBinary::new(&img).expect("valid ELF image");
    let mut loader = TestLoader::new(VBASE);
    assert_eq!(binary.load(&mut loader), Err(ElfLoaderErr::UnsupportedRelocationEntry));
    assert!(loader.actions.iter().all(|a| !matches!(a, LoaderAction::Relocate(..))));
    assert!(loader.actions.iter().all(|a| !matches!(a, LoaderAction::MakeReadonly(..))));
}

#[test]
fn load_without_reloc_section_skips_relocation() {
    let img = nopie_image(2, EM_X86_64);
    let binary = ElfBinary::new(&img).expect("valid ELF image");
    let mut loader = TestLoader::new(VBASE);
    binary.load(&mut loader).expect("load succeeds");
    assert_eq!(
        loader.actions,
        vec![
            LoaderAction::Allocate(0x400000, 0x100, Flags(5)),
            LoaderAction::Load(0x400000, 0x100),
        ]
    );
}

#[test]
fn interpreter_is_read_from_interp_section() {
    let path = b"/lib64/ld-linux-x86-64.so.2\0";
    let img = build_elf(
        2,
        EM_X86_64,
        ET_DYN,
        0x100,
        &[],
        &[BSect { name: ".interp", sh_type: SHT_PROGBITS, offset: 0x200, size: path.len() as u64 }],
        &[(0x200, path.to_vec())],
    );
    let binary = ElfBinary::new(&img).expect("valid ELF image");
    assert_eq!(binary.interpreter(), Some("/lib64/ld-linux-x86-64.so.2"));
}

#[test]
fn interpreter_absent_without_interp_section() {
    let img = nopie_image(2, EM_X86_64);
    let binary = ElfBinary::new(&img).expect("valid ELF image");
    assert_eq!(binary.interpreter(), None);
}

#[test]
fn interpreter_rejects_invalid_utf8() {
    let img = build_elf(
        2,
        EM_X86_64,
        ET_DYN,
        0x100,
        &[],
        &[BSect { name: ".interp", sh_type: SHT_PROGBITS, offset: 0x200, size: 3 }],
        &[(0x200, vec![0xff, 0xfe, 0x00])],
    );
    let binary = ElfBinary::new(&img).expect("valid ELF image");
    assert_eq!(binary.interpreter(), None);
}

fn symbols_image() -> Vec<u8> {
    // .symtab with a null symbol and two named symbols, .strtab with
    // "\0main\0foo\0".
    let symtab = sym64(&[(0, 0, 0), (1, 0x1000, 16), (6, 0x2000, 32)]);
    let strtab = b"\0main\0foo\0".to_vec();
    build_elf(
        2,
        EM_X86_64,
        ET_DYN,
        0x100,
        &[],
        &[
            BSect { name: ".symtab", sh_type: SHT_SYMTAB, offset: 0x200, size: symtab.len() as u64 },
            BSect { name: ".strtab", sh_type: SHT_STRTAB, offset: 0x300, size: strtab.len() as u64 },
        ],
        &[(0x200, symtab), (0x300, strtab)],
    )
}

#[test]
fn symbols_are_enumerated_in_order() {
    let img = symbols_image();
    let binary = ElfBinary::new(&img).expect("valid ELF image");
    let mut seen: Vec<(u32, u64, u64)> = Vec::new();
    binary
        .for_each_symbol(|s: elfloader::SymbolEntry| {
            seen.push((s.name, s.value, s.size));
        })
        .expect("symbol table present");
    assert_eq!(seen, vec![(0, 0, 0), (1, 0x1000, 16), (6, 0x2000, 32)]);
}

#[test]
fn symbol_names_are_resolved() {
    let img = symbols_image();
    let binary = ElfBinary::new(&img).expect("valid ELF image");
    let mut names: Vec<String> = Vec::new();
    binary
        .for_each_symbol(|s: elfloader::SymbolEntry| {
            names.push(binary.symbol_name(&s).to_string());
        })
        .expect("symbol table present");
    assert_eq!(names, vec!["".to_string(), "main".to_string(), "foo".to_string()]);
}

#[test]
fn symbol_name_falls_back_to_unknown() {
    let img = symbols_image();
    let binary = ElfBinary::new(&img).expect("valid ELF image");
    let bogus = elfloader::SymbolEntry { name: 0x4000, info: 0, other: 0, shndx: 0, value: 0, size: 0 };
    assert_eq!(binary.symbol_name(&bogus), "unknown");
}

#[test]
fn symbols_missing_table_is_an_error() {
    let img = nopie_image(2, EM_X86_64);
    let binary = ElfBinary::new(&img).expect("valid ELF image");
    let r = binary.for_each_symbol(|_s: elfloader::SymbolEntry| {});
    assert_eq!(r, Err(ElfLoaderErr::SymbolTableNotFound));
}

#[test]
fn agrees_with_the_elf_structure_parser() {
    // The same image read through xmas-elf directly: the header fields and
    // the program headers must agree with this crate's view.
    let img = pie_image_x86_64();
    let file = xmas_elf::ElfFile::new(&img).expect("xmas-elf accepts the image");
    let binary = ElfBinary::new(&img).expect("valid ELF image");
    assert_eq!(binary.entry_point(), file.header.pt2.entry_point());
    let ours = binary.program_headers();
    let theirs: Vec<_> = file.program_iter().collect();
    assert_eq!(ours.len(), theirs.len());
    for (a, b) in ours.iter().zip(theirs.iter()) {
        assert_eq!(a.virtual_addr, b.virtual_addr());
        assert_eq!(a.offset, b.offset());
        assert_eq!(a.file_size, b.file_size());
        assert_eq!(a.mem_size, b.mem_size());
        assert_eq!(a.align, b.align());
        assert_eq!(a.flags.0, b.flags().0);
    }
    // And the header gate agrees on rejection.
    let mut bad = img.clone();
    bad[0] = 0;
    assert!(xmas_elf::ElfFile::new(&bad).is_err());
    assert!(ElfBinary::new(&bad).is_err());
}

#[test]
fn truncated_load_segment_is_a_parse_error() {
    // A PT_LOAD whose file bytes extend past the end of the region.
    let img = build_elf(
        2,
        EM_X86_64,
        ET_DYN,
        0x100,
        &[BPhdr { p_type: PT_LOAD, flags: 5, offset: 0, vaddr: 0, filesz: 0x100, memsz: 0x100, align: 0x1000 }],
        &[],
        &[],
    );
    // Rewrite the header's file size to reach beyond the image.
    let mut img = img;
    let huge = (img.len() + 0x1000) as u64;
    w64(&mut img, 64 + 32, huge);
    let binary = ElfBinary::new(&img).expect("valid ELF image");
    let mut loader = TestLoader::new(VBASE);
    assert!(matches!(binary.load(&mut loader), Err(ElfLoaderErr::ElfParser { .. })));
}

#[test]
fn dynamic_summary_records_rela_and_size() {
    let img = pie_image_x86_64();
    let binary = ElfBinary::new(&img).expect("valid ELF image");
    let d = binary.dynamic.expect("dynamic segment present");
    assert_eq!(d.rela, 0x600);
    assert_eq!(d.rela_size, 48);
    assert_eq!(d.flags1.bits, DF_1_PIE);
}

#[test]
fn dynamic_summary_records_rel_and_relsz() {
    // DT_REL / DT_RELSZ feed the same summary fields as DT_RELA / DT_RELASZ.
    let img = build_elf(
        2,
        EM_X86_64,
        ET_DYN,
        0x100,
        &[BPhdr { p_type: PT_DYNAMIC, flags: 6, offset: 0x200, vaddr: 0x200, filesz: 48, memsz: 48, align: 8 }],
        &[],
        &[(0x200, dyn64(&[(17, 0x700), (18, 32), (DT_NULL, 0)]))],
    );
    let binary = ElfBinary::new(&img).expect("valid ELF image");
    let d = binary.dynamic.expect("dynamic segment present");
    assert_eq!(d.rela, 0x700);
    assert_eq!(d.rela_size, 32);
}

#[test]
fn unknown_flag_bits_are_preserved() {
    let bits: u64 = DF_1_PIE | 0x8000_0000_0000;
    let img = build_elf(
        2,
        EM_X86_64,
        ET_DYN,
        0x100,
        &[BPhdr { p_type: PT_DYNAMIC, flags: 6, offset: 0x200, vaddr: 0x200, filesz: 32, memsz: 32, align: 8 }],
        &[],
        &[(0x200, dyn64(&[(DT_FLAGS_1, bits), (DT_NULL, 0)]))],
    );
    let binary = ElfBinary::new(&img).expect("valid ELF image");
    assert!(binary.is_pie());
    assert_eq!(binary.dynamic.expect("dynamic present").flags1.bits, bits);
}

#[test]
fn dt_flags_does_not_feed_a_64_bit_summary() {
    // On a 64-bit binary only DT_FLAGS_1 carries the flags-1 mask; DT_FLAGS
    // is acknowledged and skipped.
    let img = build_elf(
        2,
        EM_X86_64,
        ET_DYN,
        0x100,
        &[BPhdr { p_type: PT_DYNAMIC, flags: 6, offset: 0x200, vaddr: 0x200, filesz: 32, memsz: 32, align: 8 }],
        &[],
        &[(0x200, dyn64(&[(DT_FLAGS, DF_1_PIE), (DT_NULL, 0)]))],
    );
    let binary = ElfBinary::new(&img).expect("valid ELF image");
    assert!(!binary.is_pie());
}

#[test]
fn rel_records_of_a_64_bit_file_are_decoded() {
    // A 64-bit .rel.dyn section: 16-byte records without addends.
    let mut rel = Vec::new();
    rel.extend(0x40u64.to_le_bytes());
    rel.extend(0u64.to_le_bytes()); // type 0: R_AMD64_NONE
    let img = build_elf(
        2,
        EM_X86_64,
        ET_DYN,
        0x100,
        &[BPhdr { p_type: PT_LOAD, flags: 5, offset: 0, vaddr: 0, filesz: 0x300, memsz: 0x300, align: 0x1000 }],
        &[BSect { name: ".rel.dyn", sh_type: SHT_REL, offset: 0x200, size: 16 }],
        &[(0x200, rel)],
    );
    let binary = ElfBinary::new(&img).expect("valid ELF image");
    let mut loader = TestLoader::new(VBASE);
    binary.load(&mut loader).expect("NONE relocations are accepted");
    assert!(loader.actions.iter().all(|a| !matches!(a, LoaderAction::Relocate(..))));
}

#[test]
fn flags_bits_are_posix_protection_bits() {
    let f = Flags(1 | 4);
    assert!(f.is_execute());
    assert!(!f.is_write());
    assert!(f.is_read());
    let g = Flags(2);
    assert!(!g.is_execute());
    assert!(g.is_write());
    assert!(!g.is_read());
}

#[test]
fn other_header_kinds_are_skipped_silently() {
    // PT_INTERP, PT_NOTE, PT_PHDR, PT_GNU_EH_FRAME, and PT_GNU_STACK produce
    // no loader calls.
    let img = build_elf(
        2,
        EM_X86_64,
        ET_DYN,
        0x100,
        &[
            BPhdr { p_type: 6, flags: 4, offset: 64, vaddr: 64, filesz: 56, memsz: 56, align: 8 },
            BPhdr { p_type: 3, flags: 4, offset: 0x200, vaddr: 0x200, filesz: 16, memsz: 16, align: 1 },
            BPhdr { p_type: PT_LOAD, flags: 5, offset: 0, vaddr: 0, filesz: 0x300, memsz: 0x300, align: 0x1000 },
            BPhdr { p_type: 4, flags: 4, offset: 0x240, vaddr: 0x240, filesz: 32, memsz: 32, align: 4 },
            BPhdr { p_type: 0x6474e550, flags: 4, offset: 0x280, vaddr: 0x280, filesz: 16, memsz: 16, align: 4 },
            BPhdr { p_type: 0x6474e551, flags: 6, offset: 0, vaddr: 0, filesz: 0, memsz: 0, align: 16 },
        ],
        &[],
        &[],
    );
    let binary = ElfBinary::new(&img).expect("valid ELF image");
    let mut loader = TestLoader::new(VBASE);
    binary.load(&mut loader).expect("load succeeds");
    assert_eq!(
        loader.actions,
        vec![LoaderAction::Allocate(0x0, 0x300, Flags(5)), LoaderAction::Load(0x0, 0x300)]
    );
}

#[test]
fn rela32_addend_is_sign_extended() {
    // A 32-bit RELA record's addend is a signed 32-bit value; -4 must reach
    // the loader as -4, not as 0xfffffffc zero-extended.
    let mut rela = Vec::new();
    rela.extend(0x40u32.to_le_bytes());
    rela.extend(3u32.to_le_bytes()); // symbol 0, type 3: R_RISCV_RELATIVE
    rela.extend((-4i32).to_le_bytes());
    let img = build_elf(
        1,
        EM_RISCV,
        ET_DYN,
        0x100,
        &[BPhdr { p_type: PT_LOAD, flags: 5, offset: 0, vaddr: 0, filesz: 0x300, memsz: 0x300, align: 0x1000 }],
        &[BSect { name: ".rela.dyn", sh_type: SHT_RELA, offset: 0x200, size: 12 }],
        &[(0x200, rela)],
    );
    let binary = ElfBinary::new(&img).expect("valid ELF image");
    let mut loader = TestLoader::new(VBASE);
    binary.load(&mut loader).expect("load succeeds");
    assert!(loader
        .actions
        .contains(&LoaderAction::Relocate(VBASE + 0x40, VBASE - 4)));
}

#[test]
fn error_messages_name_the_failure() {
    assert_eq!(ElfLoaderErr::SymbolTableNotFound.message(), "No symbol table in the ELF file");
    assert_eq!(ElfLoaderErr::UnsupportedElfVersion.message(), "ELF version not supported");
    assert_eq!(
        ElfLoaderErr::UnsupportedRelocationEntry.message(),
        "Can't handle relocation entry"
    );
    let e = ElfBinary::new(&[0u8; 8]).expect_err("not an ELF image");
    assert!(matches!(e, ElfLoaderErr::ElfParser { .. }));
    assert!(!e.message().is_empty());
    let from_msg = ElfLoaderErr::from("bad dynamic entry");
    assert_eq!(from_msg, ElfLoaderErr::ElfParser { source: "bad dynamic entry" });
    assert_eq!(from_msg.message(), "bad dynamic entry");
}
