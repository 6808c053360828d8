//! The loadable-binary view and the load driver.
//!
//! [`ElfBinary`] is a non-owning view over an immutable byte region holding a
//! complete ELF image, together with the parsed file header, the program
//! headers, and the `.dynamic` summary. [`ElfBinary::load`] runs the
//! five-phase load protocol against a caller-supplied [`ElfLoader`]:
//! eligibility check, one `allocate`, the `load`/`tls` calls in file order,
//! the `relocate` calls in section order, and last the `make_readonly` calls.
//!
//! The calls a load makes are pinned through the loader's ghost call history:
//! a successful load appends exactly the trace [`spec_load_trace`], and the
//! laws below fix that trace's order and content header by header and record
//! by record.

use crate::dynamic::spec_parse_dynamic;
use crate::dynamic::parse_dynamic;
use crate::header::elf_header_accepted;
use crate::header::elf_header_ok;
use crate::header::read_header;
use crate::header::spec_header;
use crate::header::ElfHeader;
use crate::program::read_program_headers;
use crate::program::segment_kind;
use crate::program::spec_phdrs;
use crate::program::spec_segment_kind;
use crate::program::ProgramHeader;
use crate::program::SegmentKind;
use crate::reloc::dispatch;
use crate::sections::find_section;
use crate::sections::spec_find_section;
use crate::sections::SHT_STRTAB;
use crate::symbols::find_nul;
use crate::symbols::lemma_first_nul_bounds;
use crate::symbols::read_symbols;
use crate::symbols::spec_first_nul;
use crate::symbols::spec_symbols;
use crate::symbols::strtab_name;
use crate::symbols::utf8_from_bytes;
use crate::symbols::SymbolEntry;
use crate::reloc::read_reloc_records;
use crate::reloc::spec_dispatch;
use crate::reloc::spec_reloc_records;
use crate::DynamicInfo;
use crate::DynamicFlags1;
use crate::ElfLoader;
use crate::ElfLoaderErr;
use crate::LoadableHeaders;
use crate::RelaEntry;
use crate::RelocationEntry;
use crate::TraceCall;
use crate::MSG_BAD_HEADER;
use crate::MSG_DATA_OUT_OF_RANGE;
use crate::MSG_INVALID_SEGMENT_TYPE;
use vstd::prelude::*;
use vstd::slice::slice_subrange;

verus! {

/// Abstract representation of a loadable ELF binary.
#[derive(Debug)]
pub struct ElfBinary<'s> {
    /// The ELF image bytes.
    pub region: &'s [u8],
    /// The parsed file-header fields.
    pub header: ElfHeader,
    /// The program headers, in file order.
    pub phdrs: Vec<ProgramHeader>,
    /// Parsed information from the `.dynamic` segment, if the binary has one.
    pub dynamic: Option<DynamicInfo>,
}

/// The scan of the program headers for the first `PT_DYNAMIC` entry, from
/// index `i` on: a header with an invalid type is a parse error; the first
/// dynamic segment is parsed and ends the scan.
pub open spec fn spec_scan_dynamic(
    b: Seq<u8>,
    class: u8,
    phs: Seq<ProgramHeader>,
    i: int,
) -> Result<Option<DynamicInfo>, ElfLoaderErr>
    decreases phs.len() - i,
{
    if i < 0 || i >= phs.len() {
        Ok(None)
    } else {
        let k = spec_segment_kind(phs[i].p_type);
        if k == SegmentKind::Invalid {
            Err(ElfLoaderErr::ElfParser { source: MSG_INVALID_SEGMENT_TYPE })
        } else if k == SegmentKind::Dynamic {
            match spec_parse_dynamic(b, class, phs[i].offset as int, phs[i].file_size as int) {
                Ok(d) => Ok(Some(d)),
                Err(e) => Err(e),
            }
        } else {
            spec_scan_dynamic(b, class, phs, i + 1)
        }
    }
}

/// What constructing a binary from `b` yields: the header fields, the program
/// headers, and the dynamic summary — or the first parse error.
pub open spec fn spec_new(b: Seq<u8>) -> Result<
    (ElfHeader, Seq<ProgramHeader>, Option<DynamicInfo>),
    ElfLoaderErr,
> {
    if !elf_header_ok(b) {
        Err(ElfLoaderErr::ElfParser { source: MSG_BAD_HEADER })
    } else {
        let h = spec_header(b);
        let phs = spec_phdrs(b, h);
        match spec_scan_dynamic(b, h.class, phs, 0) {
            Ok(d) => Ok((h, phs, d)),
            Err(e) => Err(e),
        }
    }
}

/// The eligibility check of the load protocol: the identification version
/// must be current, the data encoding little-endian, the OS/ABI System V or
/// Linux, and the file type `ET_EXEC` or `ET_DYN` — each with its own error.
pub open spec fn spec_loadable_check(h: ElfHeader) -> Result<(), ElfLoaderErr> {
    if h.version != 1 {
        Err(ElfLoaderErr::UnsupportedElfVersion)
    } else if h.data != 1 {
        Err(ElfLoaderErr::UnsupportedEndianness)
    } else if h.os_abi != 0 && h.os_abi != 3 {
        Err(ElfLoaderErr::UnsupportedAbi)
    } else if h.elf_type != 2 && h.elf_type != 3 {
        Err(ElfLoaderErr::UnsupportedElfType)
    } else {
        Ok(())
    }
}

/// The `PT_LOAD` headers of `phs`, in file order.
pub open spec fn spec_loadables(phs: Seq<ProgramHeader>) -> Seq<ProgramHeader>
    decreases phs.len(),
{
    if phs.len() == 0 {
        Seq::empty()
    } else {
        spec_loadables(phs.drop_last()) + (if spec_segment_kind(phs.last().p_type)
            == SegmentKind::Load {
            seq![phs.last()]
        } else {
            Seq::empty()
        })
    }
}

/// The checks of the copy phase, from header `i` on: a header with an invalid
/// type is a parse error, and a `PT_LOAD` whose file-backed bytes lie outside
/// the region is a parse error.
pub open spec fn spec_copy_check(b: Seq<u8>, phs: Seq<ProgramHeader>, i: int) -> Result<
    (),
    ElfLoaderErr,
>
    decreases phs.len() - i,
{
    if i < 0 || i >= phs.len() {
        Ok(())
    } else {
        let k = spec_segment_kind(phs[i].p_type);
        if k == SegmentKind::Invalid {
            Err(ElfLoaderErr::ElfParser { source: MSG_INVALID_SEGMENT_TYPE })
        } else if k == SegmentKind::Load && phs[i].file_size > 0 && phs[i].offset + phs[i].file_size
            > b.len() {
            Err(ElfLoaderErr::ElfParser { source: MSG_DATA_OUT_OF_RANGE })
        } else {
            spec_copy_check(b, phs, i + 1)
        }
    }
}

/// The `load` and `tls` calls that one program header contributes to the copy
/// phase: a `PT_LOAD` yields one `load` of its `file_size` file bytes at its
/// `virtual_addr`; a `PT_TLS` yields one `tls`; every other kind contributes
/// nothing.
pub open spec fn spec_copy_calls_of(p: ProgramHeader) -> Seq<TraceCall> {
    let k = spec_segment_kind(p.p_type);
    if k == SegmentKind::Load {
        seq![TraceCall::Load { flags: p.flags, base: p.virtual_addr, size: p.file_size }]
    } else if k == SegmentKind::Tls {
        seq![
            TraceCall::Tls {
                tdata_start: p.virtual_addr,
                tdata_length: p.file_size,
                total_size: p.mem_size,
                align: p.align,
            },
        ]
    } else {
        Seq::empty()
    }
}

/// The copy phase of the trace: the `load` and `tls` calls of all headers, in
/// file order.
pub open spec fn spec_copy_trace(phs: Seq<ProgramHeader>) -> Seq<TraceCall>
    decreases phs.len(),
{
    if phs.len() == 0 {
        Seq::empty()
    } else {
        spec_copy_trace(phs.drop_last()) + spec_copy_calls_of(phs.last())
    }
}

/// The relocation phase of the trace: one `relocate` call per record, in
/// section order — or the record on which dispatch fails.
pub open spec fn spec_reloc_trace(machine: u16, recs: Seq<RelaEntry>) -> Result<
    Seq<TraceCall>,
    ElfLoaderErr,
>
    decreases recs.len(),
{
    if recs.len() == 0 {
        Ok(Seq::empty())
    } else {
        match spec_reloc_trace(machine, recs.drop_last()) {
            Err(e) => Err(e),
            Ok(t) => match spec_dispatch(machine, recs.last()) {
                Err(e) => Err(e),
                Ok(entry) => Ok(t.push(TraceCall::Relocate(entry))),
            },
        }
    }
}

/// The read-only phase of the trace: one `make_readonly` call per
/// `PT_GNU_RELRO` header, in file order.
pub open spec fn spec_relro_trace(phs: Seq<ProgramHeader>) -> Seq<TraceCall>
    decreases phs.len(),
{
    if phs.len() == 0 {
        Seq::empty()
    } else {
        spec_relro_trace(phs.drop_last()) + (if spec_segment_kind(phs.last().p_type)
            == SegmentKind::GnuRelro {
            seq![
                TraceCall::MakeReadonly {
                    base: phs.last().virtual_addr,
                    size: phs.last().mem_size as usize as u64,
                },
            ]
        } else {
            Seq::empty()
        })
    }
}

/// The full trace of loader calls that a successful `load` makes, or the
/// error of the first failing phase: one `allocate`, then the copy phase,
/// then the relocation phase, then the read-only phase.
pub open spec fn spec_load_trace(b: Seq<u8>, h: ElfHeader, phs: Seq<ProgramHeader>) -> Result<
    Seq<TraceCall>,
    ElfLoaderErr,
> {
    match spec_loadable_check(h) {
        Err(e) => Err(e),
        Ok(_) => match spec_copy_check(b, phs, 0) {
            Err(e) => Err(e),
            Ok(_) => match spec_reloc_records(b, h) {
                Err(e) => Err(e),
                Ok(recs) => match spec_reloc_trace(h.machine, recs) {
                    Err(e) => Err(e),
                    Ok(rt) => Ok(
                        seq![TraceCall::Allocate { headers: spec_loadables(phs) }]
                            + spec_copy_trace(phs) + rt + spec_relro_trace(phs),
                    ),
                },
            },
        },
    }
}

impl<'s> ElfBinary<'s> {
    /// The binary is the faithful parse of its region.
    pub open spec fn wf(&self) -> bool {
        spec_new(self.region@) == Ok::<_, ElfLoaderErr>((self.header, self.phdrs@, self.dynamic))
    }

    /// Create a new `ElfBinary`: accept the region as an ELF image, read the
    /// file header and the program headers, and parse the first `PT_DYNAMIC`
    /// segment if there is one.
    pub fn new(region: &'s [u8]) -> (r: Result<ElfBinary<'s>, ElfLoaderErr>)
        ensures
            match r {
                Ok(bin) => bin.wf() && bin.region@ == region@ && spec_new(region@) == Ok::<
                    _,
                    ElfLoaderErr,
                >((bin.header, bin.phdrs@, bin.dynamic)),
                Err(e) => spec_new(region@) == Err::<
                    (ElfHeader, Seq<ProgramHeader>, Option<DynamicInfo>),
                    _,
                >(e),
            },
    {
        if !elf_header_accepted(region) {
            return Err(ElfLoaderErr::ElfParser { source: MSG_BAD_HEADER });
        }
        let header = read_header(region);
        let phdrs = read_program_headers(region, &header);
        let ghost b = region@;
        let ghost phs = phdrs@;
        let mut dynamic: Option<DynamicInfo> = None;
        let mut i: usize = 0;
        loop
            invariant_except_break
                dynamic is None,
            invariant
                b == region@,
                phs == phdrs@,
                header == spec_header(b),
                phs == spec_phdrs(b, header),
                0 <= i <= phs.len(),
                elf_header_ok(b),
                spec_scan_dynamic(b, header.class, phs, 0) == spec_scan_dynamic(
                    b,
                    header.class,
                    phs,
                    i as int,
                ),
            ensures
                spec_scan_dynamic(b, header.class, phs, 0) == Ok::<_, ElfLoaderErr>(dynamic),
            decreases phs.len() - i,
        {
            if i >= phdrs.len() {
                break ;
            }
            let k = segment_kind(phdrs[i].p_type);
            if k == SegmentKind::Invalid {
                return Err(ElfLoaderErr::ElfParser { source: MSG_INVALID_SEGMENT_TYPE });
            }
            if k == SegmentKind::Dynamic {
                match parse_dynamic(region, header.class, phdrs[i].offset, phdrs[i].file_size) {
                    Ok(d) => {
                        dynamic = Some(d);
                        break ;
                    },
                    Err(e) => {
                        return Err(e);
                    },
                }
            }
            i = i + 1;
        }
        Ok(ElfBinary { region, header, phdrs, dynamic })
    }

    /// True iff the binary is compiled as a position-independent executable:
    /// it has a dynamic section whose flags contain `PIE`.
    pub fn is_pie(&self) -> (r: bool)
        ensures
            r == spec_is_pie(self.dynamic),
    {
        match &self.dynamic {
            Some(d) => d.flags1.contains(DynamicFlags1::PIE),
            None => false,
        }
    }

    /// The entry virtual address of the file header. May be 0 for
    /// position-independent executables.
    pub fn entry_point(&self) -> (r: u64)
        ensures
            r == self.header.entry,
    {
        self.header.entry
    }

    /// The program headers, in file order.
    pub fn program_headers(&self) -> (r: &Vec<ProgramHeader>)
        ensures
            r == &self.phdrs,
    {
        &self.phdrs
    }

    /// Can this binary be loaded on our platform?
    fn is_loadable(&self) -> (r: Result<(), ElfLoaderErr>)
        ensures
            r == spec_loadable_check(self.header),
    {
        let h = &self.header;
        if h.version != 1 {
            Err(ElfLoaderErr::UnsupportedElfVersion)
        } else if h.data != 1 {
            Err(ElfLoaderErr::UnsupportedEndianness)
        } else if h.os_abi != 0 && h.os_abi != 3 {
            Err(ElfLoaderErr::UnsupportedAbi)
        } else if h.elf_type != 2 && h.elf_type != 3 {
            Err(ElfLoaderErr::UnsupportedElfType)
        } else {
            Ok(())
        }
    }

    /// The `PT_LOAD` program headers, in file order: what `allocate`
    /// receives.
    fn iter_loadable_headers(&self) -> (r: LoadableHeaders)
        ensures
            r@ == spec_loadables(self.phdrs@),
    {
        let mut out: Vec<ProgramHeader> = Vec::new();
        let mut i: usize = 0;
        while i < self.phdrs.len()
            invariant
                0 <= i <= self.phdrs@.len(),
                out@ == spec_loadables(self.phdrs@.take(i as int)),
            decreases self.phdrs@.len() - i,
        {
            let ph = self.phdrs[i];
            proof {
                assert(self.phdrs@.take(i as int + 1).drop_last() =~= self.phdrs@.take(i as int));
                assert(self.phdrs@.take(i as int + 1).last() == self.phdrs@[i as int]);
            }
            if segment_kind(ph.p_type) == SegmentKind::Load {
                out.push(ph);
            }
            i = i + 1;
        }
        proof {
            assert(self.phdrs@.take(self.phdrs@.len() as int) =~= self.phdrs@);
        }
        out
    }


    /// The dynamic loader (interpreter) path, if present and valid UTF-8: the
    /// NUL-terminated string of the `.interp` section. For a statically
    /// compiled binary this is `None`.
    pub fn interpreter(&'s self) -> (r: Option<&'s str>)
        ensures
            match spec_interp_bytes(self.region@, self.header) {
                Some(bs) => {
                    if vstd::utf8::valid_utf8(bs) {
                        r matches Some(s) && s@ == vstd::utf8::decode_utf8(bs)
                    } else {
                        r is None
                    }
                },
                None => r is None,
            },
    {
        let name: [u8; 7] = [0x2e, 0x69, 0x6e, 0x74, 0x65, 0x72, 0x70];
        assert(name@ =~= interp_name());
        let s = match find_section(self.region, &self.header, name.as_slice()) {
            None => {
                return None;
            },
            Some(s) => s,
        };
        if !(s.sh_type == 1 || s.sh_type == 10 || s.sh_type >= 0x60000000) {
            return None;
        }
        let rlen: usize = self.region.len();
        let len_u64 = rlen as u64;
        if s.offset > len_u64 || s.size > len_u64 - s.offset {
            return None;
        }
        if s.size < 2 {
            return None;
        }
        let val = slice_subrange(
            self.region,
            s.offset as usize,
            (s.offset + s.size) as usize - 1,
        );
        utf8_from_bytes(val)
    }

    /// The name of a symbol, looked up in the `.strtab` string table;
    /// `"unknown"` on any lookup failure (the query is diagnostic, so the
    /// fallback is deliberate).
    pub fn symbol_name(&'s self, symbol: &SymbolEntry) -> (r: &'s str)
        ensures
            match spec_symbol_name_bytes(self.region@, self.header, symbol.name) {
                Some(bs) => {
                    if vstd::utf8::valid_utf8(bs) {
                        r@ == vstd::utf8::decode_utf8(bs)
                    } else {
                        r@ == "unknown"@
                    }
                },
                None => r@ == "unknown"@,
            },
    {
        let name: [u8; 7] = [0x2e, 0x73, 0x74, 0x72, 0x74, 0x61, 0x62];
        assert(name@ =~= strtab_name());
        let s = match find_section(self.region, &self.header, name.as_slice()) {
            None => {
                return "unknown";
            },
            Some(s) => s,
        };
        if s.sh_type != SHT_STRTAB {
            return "unknown";
        }
        let rlen: usize = self.region.len();
        let len_u64 = rlen as u64;
        if s.offset > len_u64 || s.size > len_u64 - s.offset {
            return "unknown";
        }
        if symbol.name as u64 > s.size {
            return "unknown";
        }
        let start: usize = (s.offset + symbol.name as u64) as usize;
        let end: usize = (s.offset + s.size) as usize;
        proof {
            lemma_first_nul_bounds(self.region@, start as int, end as int);
        }
        match find_nul(self.region, start, end) {
            None => "unknown",
            Some(k) => {
                match utf8_from_bytes(slice_subrange(self.region, start, k)) {
                    None => "unknown",
                    Some(st) => st,
                }
            },
        }
    }

    /// Enumerate all the symbols of the `.symtab` section, handing each to
    /// `func` in table order. Fails with `SymbolTableNotFound` when the
    /// binary has no symbol table.
    ///
    /// The contract pins when the enumeration happens, not the calls of
    /// `func` themselves (a closure carries no call history); the enumerated
    /// table itself is available with an exact contract through
    /// [`read_symbols`](crate::symbols::read_symbols).
    pub fn for_each_symbol<F: FnMut(SymbolEntry)>(&self, func: F) -> (r: Result<(), ElfLoaderErr>)
        requires
            forall|s: SymbolEntry| call_requires(func, (s,)),
        ensures
            r is Ok <==> spec_symbols(self.region@, self.header) is Ok,
            (spec_symbols(self.region@, self.header) matches Err(e) ==> r == Err::<
                (),
                ElfLoaderErr,
            >(e)),
    {
        let syms = match read_symbols(self.region, &self.header) {
            Ok(v) => v,
            Err(e) => {
                return Err(e);
            },
        };
        let mut g = func;
        let mut i: usize = 0;
        while i < syms.len()
            invariant
                0 <= i <= syms@.len(),
                forall|s: SymbolEntry| call_requires(g, (s,)),
            decreases syms@.len() - i,
        {
            g(syms[i]);
            i = i + 1;
        }
        Ok(())
    }

    /// Process the program headers and issue the load protocol's calls to
    /// `loader`: the eligibility check, one `allocate` with the `PT_LOAD`
    /// headers, the `load` and `tls` calls in file order, the `relocate`
    /// calls in section order, and last the `make_readonly` calls. A failure
    /// in any phase aborts the remainder; the loader keeps whatever state its
    /// earlier calls produced.
    ///
    /// The loader's call history pins what was done: a successful load
    /// appends to it exactly the trace `spec_load_trace`, an aborted one a
    /// prefix of that trace, and an ineligible binary appends nothing.
    pub fn load<L: ElfLoader>(&self, loader: &mut L) -> (r: Result<(), ElfLoaderErr>)
        ensures
            (spec_loadable_check(self.header) matches Err(e) ==> r == Err::<(), _>(e)
                && final(loader).history() == old(loader).history()),
            spec_load_trace(self.region@, self.header, self.phdrs@) is Err ==> r is Err,
            r is Ok ==> (spec_load_trace(self.region@, self.header, self.phdrs@) matches Ok(t)
                && final(loader).history() == old(loader).history() + t),
            (spec_load_trace(self.region@, self.header, self.phdrs@) matches Ok(t)
                ==> exists|n: int|
                1 <= n <= t.len() && final(loader).history() == old(loader).history()
                    + #[trigger] t.take(n)),
            ((spec_copy_check(self.region@, self.phdrs@, 0) is Err || spec_reloc_records(
                self.region@,
                self.header,
            ) is Err) ==> exists|n: int|
                0 <= n <= spec_pre_reloc_trace(self.phdrs@).len() && final(loader).history()
                    == old(loader).history() + #[trigger] spec_pre_reloc_trace(
                    self.phdrs@,
                ).take(n)),
    {
        let ghost b = self.region@;
        let ghost phs = self.phdrs@;
        let ghost h0 = old(loader).history();
        let ghost acall = TraceCall::Allocate { headers: spec_loadables(phs) };
        match self.is_loadable() {
            Ok(_) => {},
            Err(e) => {
                proof {
                    assert(loader.history() =~= h0 + spec_pre_reloc_trace(phs).take(0));
                }
                return Err(e);
            },
        }
        let loadable = self.iter_loadable_headers();
        match loader.allocate(&loadable) {
            Ok(_) => {},
            Err(e) => {
                proof {
                    lemma_pre_reloc_prefix(phs, 0);
                    assert(spec_copy_trace(phs.take(0)) =~= Seq::<TraceCall>::empty());
                    assert(seq![acall] + spec_copy_trace(phs.take(0)) =~= seq![acall]);
                    assert(loader.history() =~= h0 + seq![acall]);
                    assert(loader.history() == h0 + spec_pre_reloc_trace(phs).take(1));
                    if spec_load_trace(b, self.header, phs) is Ok {
                        let t = spec_load_trace(b, self.header, phs)->Ok_0;
                        lemma_prefix_through_copy(b, self.header, phs, 0);
                        assert(loader.history() == h0 + t.take(1));
                    }
                }
                return Err(e);
            },
        }
        assert(loader.history() =~= h0 + seq![acall] + spec_copy_trace(phs.take(0)));
        let rlen: usize = self.region.len();
        let len_u64 = rlen as u64;
        // Copy phase: `load` for each PT_LOAD, `tls` for each PT_TLS, in
        // file order.
        let mut i: usize = 0;
        loop
            invariant
                b == self.region@,
                phs == self.phdrs@,
                h0 == old(loader).history(),
                acall == (TraceCall::Allocate { headers: spec_loadables(phs) }),
                rlen == b.len(),
                len_u64 == rlen as u64,
                0 <= i <= phs.len(),
                spec_loadable_check(self.header) is Ok,
                spec_copy_check(b, phs, 0) == spec_copy_check(b, phs, i as int),
                loader.history() == h0 + seq![acall] + spec_copy_trace(phs.take(i as int)),
            ensures
                spec_copy_check(b, phs, 0) is Ok,
                loader.history() == h0 + seq![acall] + spec_copy_trace(phs),
            decreases phs.len() - i,
        {
            if i >= self.phdrs.len() {
                assert(phs.take(phs.len() as int) =~= phs);
                break ;
            }
            let ph = self.phdrs[i];
            proof {
                lemma_copy_trace_take_step(phs, i as int);
            }
            let k = segment_kind(ph.p_type);
            if k == SegmentKind::Invalid {
                proof {
                    lemma_pre_reloc_prefix(phs, i as int);
                    let p = seq![acall] + spec_copy_trace(phs.take(i as int));
                    assert(loader.history() == h0 + spec_pre_reloc_trace(phs).take(p.len() as int));
                }
                return Err(ElfLoaderErr::ElfParser { source: MSG_INVALID_SEGMENT_TYPE });
            }
            if k == SegmentKind::Load {
                if ph.file_size > 0 && (ph.offset > len_u64 || ph.file_size > len_u64 - ph.offset) {
                    proof {
                        lemma_pre_reloc_prefix(phs, i as int);
                        let p = seq![acall] + spec_copy_trace(phs.take(i as int));
                        assert(loader.history() == h0 + spec_pre_reloc_trace(phs).take(
                            p.len() as int,
                        ));
                    }
                    return Err(ElfLoaderErr::ElfParser { source: MSG_DATA_OUT_OF_RANGE });
                }
                let raw: &[u8] = if ph.file_size == 0 {
                    slice_subrange(self.region, 0, 0)
                } else {
                    slice_subrange(
                        self.region,
                        ph.offset as usize,
                        (ph.offset + ph.file_size) as usize,
                    )
                };
                assert(raw@.len() as u64 == ph.file_size);
                match loader.load(ph.flags, ph.virtual_addr, raw) {
                    Ok(_) => {},
                    Err(e) => {
                        proof {
                            let p = seq![acall] + spec_copy_trace(phs.take(i as int + 1));
                            assert(loader.history() =~= h0 + p);
                            lemma_pre_reloc_prefix(phs, i as int + 1);
                            assert(loader.history() == h0 + spec_pre_reloc_trace(phs).take(
                                p.len() as int,
                            ));
                            if spec_load_trace(b, self.header, phs) is Ok {
                                let t = spec_load_trace(b, self.header, phs)->Ok_0;
                                lemma_prefix_through_copy(b, self.header, phs, i as int + 1);
                                assert(loader.history() == h0 + t.take(p.len() as int));
                            }
                        }
                        return Err(e);
                    },
                }
                proof {
                    assert(loader.history() =~= h0 + seq![acall] + spec_copy_trace(
                        phs.take(i as int + 1),
                    ));
                }
            } else if k == SegmentKind::Tls {
                match loader.tls(ph.virtual_addr, ph.file_size, ph.mem_size, ph.align) {
                    Ok(_) => {},
                    Err(e) => {
                        proof {
                            let p = seq![acall] + spec_copy_trace(phs.take(i as int + 1));
                            assert(loader.history() =~= h0 + p);
                            lemma_pre_reloc_prefix(phs, i as int + 1);
                            assert(loader.history() == h0 + spec_pre_reloc_trace(phs).take(
                                p.len() as int,
                            ));
                            if spec_load_trace(b, self.header, phs) is Ok {
                                let t = spec_load_trace(b, self.header, phs)->Ok_0;
                                lemma_prefix_through_copy(b, self.header, phs, i as int + 1);
                                assert(loader.history() == h0 + t.take(p.len() as int));
                            }
                        }
                        return Err(e);
                    },
                }
                proof {
                    assert(loader.history() =~= h0 + seq![acall] + spec_copy_trace(
                        phs.take(i as int + 1),
                    ));
                }
            } else {
                proof {
                    assert(spec_copy_trace(phs.take(i as int)) + spec_copy_calls_of(phs[i as int])
                        =~= spec_copy_trace(phs.take(i as int)));
                }
            }
            i = i + 1;
        }
        // Relocation phase: one `relocate` per record of the dynamic
        // relocation section, in section order.
        let recs = match read_reloc_records(self.region, &self.header) {
            Ok(v) => v,
            Err(e) => {
                proof {
                    assert(loader.history() =~= h0 + spec_pre_reloc_trace(phs));
                    assert(spec_pre_reloc_trace(phs).take(spec_pre_reloc_trace(phs).len() as int)
                        =~= spec_pre_reloc_trace(phs));
                    assert(loader.history() == h0 + spec_pre_reloc_trace(phs).take(
                        spec_pre_reloc_trace(phs).len() as int,
                    ));
                }
                return Err(e);
            },
        };
        let ghost recs_seq = recs@;
        assert(spec_reloc_trace(self.header.machine, recs_seq.take(0)) == Ok::<_, ElfLoaderErr>(
            Seq::<TraceCall>::empty(),
        ));
        assert(loader.history() == h0 + seq![acall] + spec_copy_trace(phs) + spec_reloc_trace(
            self.header.machine,
            recs_seq.take(0),
        )->Ok_0) by {
            assert((h0 + seq![acall] + spec_copy_trace(phs)) + Seq::<TraceCall>::empty() =~= h0
                + seq![acall] + spec_copy_trace(phs));
        }
        let mut j: usize = 0;
        loop
            invariant
                b == self.region@,
                phs == self.phdrs@,
                h0 == old(loader).history(),
                acall == (TraceCall::Allocate { headers: spec_loadables(phs) }),
                recs_seq == recs@,
                spec_reloc_records(b, self.header) == Ok::<_, ElfLoaderErr>(recs_seq),
                0 <= j <= recs_seq.len(),
                spec_loadable_check(self.header) is Ok,
                spec_copy_check(b, phs, 0) is Ok,
                spec_reloc_trace(self.header.machine, recs_seq.take(j as int)) is Ok,
                loader.history() == h0 + seq![acall] + spec_copy_trace(phs) + spec_reloc_trace(
                    self.header.machine,
                    recs_seq.take(j as int),
                )->Ok_0,
            ensures
                spec_reloc_trace(self.header.machine, recs_seq) is Ok,
                loader.history() == h0 + seq![acall] + spec_copy_trace(phs) + spec_reloc_trace(
                    self.header.machine,
                    recs_seq,
                )->Ok_0,
            decreases recs_seq.len() - j,
        {
            if j >= recs.len() {
                proof {
                    assert(recs_seq.take(recs_seq.len() as int) =~= recs_seq);
                }
                break ;
            }
            proof {
                assert(recs_seq.take(j as int + 1).drop_last() =~= recs_seq.take(j as int));
                assert(recs_seq.take(j as int + 1).last() == recs_seq[j as int]);
            }
            let entry = match dispatch(self.header.machine, &recs[j]) {
                Ok(en) => en,
                Err(e) => {
                    proof {
                        if spec_load_trace(b, self.header, phs) is Ok {
                            lemma_reloc_trace_calls(self.header.machine, recs_seq);
                        }
                    }
                    return Err(e);
                },
            };
            match loader.relocate(entry) {
                Ok(_) => {},
                Err(e) => {
                    proof {
                        if spec_load_trace(b, self.header, phs) is Ok {
                            let t = spec_load_trace(b, self.header, phs)->Ok_0;
                            lemma_prefix_through_reloc(b, self.header, phs, j as int + 1);
                            let p = seq![acall] + spec_copy_trace(phs) + spec_reloc_trace(
                                self.header.machine,
                                recs_seq.take(j as int + 1),
                            )->Ok_0;
                            assert(loader.history() =~= h0 + p);
                            assert(loader.history() == h0 + t.take(p.len() as int));
                        }
                    }
                    return Err(e);
                },
            }
            proof {
                assert(loader.history() =~= h0 + seq![acall] + spec_copy_trace(phs)
                    + spec_reloc_trace(self.header.machine, recs_seq.take(j as int + 1))->Ok_0);
            }
            j = j + 1;
        }
        // Read-only phase: one `make_readonly` per PT_GNU_RELRO header, in
        // file order, strictly after all relocations.
        let ghost rt = spec_reloc_trace(self.header.machine, recs_seq)->Ok_0;
        assert(spec_relro_trace(phs.take(0)) =~= Seq::<TraceCall>::empty());
        assert(loader.history() == h0 + seq![acall] + spec_copy_trace(phs) + rt
            + spec_relro_trace(phs.take(0))) by {
            assert(loader.history() + spec_relro_trace(phs.take(0)) =~= loader.history());
        }
        let mut m: usize = 0;
        loop
            invariant
                b == self.region@,
                phs == self.phdrs@,
                h0 == old(loader).history(),
                acall == (TraceCall::Allocate { headers: spec_loadables(phs) }),
                0 <= m <= phs.len(),
                spec_loadable_check(self.header) is Ok,
                spec_copy_check(b, phs, 0) is Ok,
                spec_reloc_records(b, self.header) == Ok::<_, ElfLoaderErr>(recs_seq),
                spec_reloc_trace(self.header.machine, recs_seq) == Ok::<_, ElfLoaderErr>(rt),
                loader.history() == h0 + seq![acall] + spec_copy_trace(phs) + rt
                    + spec_relro_trace(phs.take(m as int)),
            ensures
                loader.history() == h0 + seq![acall] + spec_copy_trace(phs) + rt
                    + spec_relro_trace(phs),
            decreases phs.len() - m,
        {
            if m >= self.phdrs.len() {
                assert(phs.take(phs.len() as int) =~= phs);
                break ;
            }
            let ph = self.phdrs[m];
            proof {
                lemma_relro_trace_take_step(phs, m as int);
            }
            if segment_kind(ph.p_type) == SegmentKind::GnuRelro {
                match loader.make_readonly(ph.virtual_addr, ph.mem_size as usize) {
                    Ok(_) => {},
                    Err(e) => {
                        proof {
                            assert(spec_load_trace(b, self.header, phs) == Ok::<_, ElfLoaderErr>(
                                seq![acall] + spec_copy_trace(phs) + rt + spec_relro_trace(phs),
                            ));
                            if spec_load_trace(b, self.header, phs) is Ok {
                                let t = spec_load_trace(b, self.header, phs)->Ok_0;
                                lemma_prefix_through_relro(b, self.header, phs, m as int + 1);
                                let p = seq![acall] + spec_copy_trace(phs) + rt
                                    + spec_relro_trace(phs.take(m as int + 1));
                                assert(loader.history() =~= h0 + p);
                                assert(loader.history() == h0 + t.take(p.len() as int));
                            }
                        }
                        return Err(e);
                    },
                }
                proof {
                    assert(loader.history() =~= h0 + seq![acall] + spec_copy_trace(phs) + rt
                        + spec_relro_trace(phs.take(m as int + 1)));
                }
            } else {
                proof {
                    assert(spec_relro_trace(phs.take(m as int)) + Seq::<TraceCall>::empty()
                        =~= spec_relro_trace(phs.take(m as int)));
                }
            }
            m = m + 1;
        }
        proof {
            let t = seq![acall] + spec_copy_trace(phs) + rt + spec_relro_trace(phs);
            assert(spec_load_trace(b, self.header, phs) == Ok::<_, ElfLoaderErr>(t));
            assert(loader.history() =~= h0 + t);
            assert(t.take(t.len() as int) =~= t);
            assert(loader.history() == h0 + t.take(t.len() as int));
        }
        Ok(())
    }
}


/// The name of the `.interp` section, as bytes.
pub open spec fn interp_name() -> Seq<u8> {
    seq![0x2eu8, 0x69u8, 0x6eu8, 0x74u8, 0x65u8, 0x72u8, 0x70u8]
}

/// The section types whose data is an undefined raw byte run (the shape the
/// `.interp` section must have for its bytes to be read).
pub open spec fn spec_undefined_data_type(t: u32) -> bool {
    t == 1 || t == 10 || t >= 0x60000000
}

/// The raw interpreter path of `b`: the bytes of the `.interp` section
/// without the trailing NUL — absent when there is no such section, when its
/// shape is not a raw byte run, when its bytes lie outside the region, or
/// when it is shorter than two bytes.
pub open spec fn spec_interp_bytes(b: Seq<u8>, h: ElfHeader) -> Option<Seq<u8>> {
    match spec_find_section(b, h, interp_name()) {
        None => None,
        Some(s) => {
            if !spec_undefined_data_type(s.sh_type) {
                None
            } else if s.offset + s.size > b.len() {
                None
            } else if s.size < 2 {
                None
            } else {
                Some(b.subrange(s.offset as int, s.offset + s.size - 1))
            }
        },
    }
}

/// The bytes of a symbol name: the run of the `.strtab` string table that
/// starts at the name index and ends before the first NUL — absent when
/// there is no `.strtab` section of string-table type, when its bytes lie
/// outside the region, when the index lies outside the table, or when no NUL
/// follows.
pub open spec fn spec_symbol_name_bytes(b: Seq<u8>, h: ElfHeader, idx: u32) -> Option<Seq<u8>> {
    match spec_find_section(b, h, strtab_name()) {
        None => None,
        Some(s) => {
            if s.sh_type != SHT_STRTAB {
                None
            } else if s.offset + s.size > b.len() {
                None
            } else if idx > s.size {
                None
            } else {
                match spec_first_nul(b, s.offset + idx, s.offset + s.size) {
                    None => None,
                    Some(k) => Some(b.subrange(s.offset + idx, k)),
                }
            }
        },
    }
}

/// Position independence as read off the dynamic summary: a summary is
/// present and its flags contain the `PIE` bit.
pub open spec fn spec_is_pie(d: Option<DynamicInfo>) -> bool {
    match d {
        Some(d) => d.flags1.bits & DynamicFlags1::PIE == DynamicFlags1::PIE,
        None => false,
    }
}

/// The phase a traced call belongs to: allocation, copy, relocation, or
/// read-only enforcement.
pub open spec fn spec_phase(c: TraceCall) -> int {
    match c {
        TraceCall::Allocate { .. } => 0,
        TraceCall::Load { .. } => 1,
        TraceCall::Tls { .. } => 1,
        TraceCall::Relocate(_) => 2,
        TraceCall::MakeReadonly { .. } => 3,
    }
}

/// The `PT_GNU_RELRO` headers of `phs`, in file order.
pub open spec fn spec_relro_headers(phs: Seq<ProgramHeader>) -> Seq<ProgramHeader>
    decreases phs.len(),
{
    if phs.len() == 0 {
        Seq::empty()
    } else {
        spec_relro_headers(phs.drop_last()) + (if spec_segment_kind(phs.last().p_type)
            == SegmentKind::GnuRelro {
            seq![phs.last()]
        } else {
            Seq::empty()
        })
    }
}

/// The `PT_TLS` headers of `phs`, in file order.
pub open spec fn spec_tls_headers(phs: Seq<ProgramHeader>) -> Seq<ProgramHeader>
    decreases phs.len(),
{
    if phs.len() == 0 {
        Seq::empty()
    } else {
        spec_tls_headers(phs.drop_last()) + (if spec_segment_kind(phs.last().p_type)
            == SegmentKind::Tls {
            seq![phs.last()]
        } else {
            Seq::empty()
        })
    }
}

/// The `load` calls of a trace, in order.
pub open spec fn spec_trace_loads(t: Seq<TraceCall>) -> Seq<TraceCall>
    decreases t.len(),
{
    if t.len() == 0 {
        Seq::empty()
    } else {
        spec_trace_loads(t.drop_last()) + (if t.last() is Load {
            seq![t.last()]
        } else {
            Seq::empty()
        })
    }
}

/// The `tls` calls of a trace, in order.
pub open spec fn spec_trace_tls(t: Seq<TraceCall>) -> Seq<TraceCall>
    decreases t.len(),
{
    if t.len() == 0 {
        Seq::empty()
    } else {
        spec_trace_tls(t.drop_last()) + (if t.last() is Tls {
            seq![t.last()]
        } else {
            Seq::empty()
        })
    }
}

/// Every call of the copy phase is a `load` or a `tls`.
proof fn lemma_copy_trace_phase(phs: Seq<ProgramHeader>)
    ensures
        forall|k: int|
            0 <= k < spec_copy_trace(phs).len() ==> spec_phase(
                #[trigger] spec_copy_trace(phs)[k],
            ) == 1,
    decreases phs.len(),
{
    if phs.len() > 0 {
        let d = phs.drop_last();
        lemma_copy_trace_phase(d);
        assert forall|k: int| 0 <= k < spec_copy_trace(phs).len() implies spec_phase(
            #[trigger] spec_copy_trace(phs)[k],
        ) == 1 by {
            if k < spec_copy_trace(d).len() {
                assert(spec_copy_trace(phs)[k] == spec_copy_trace(d)[k]);
            } else {
                assert(spec_copy_trace(phs)[k] == spec_copy_calls_of(phs.last())[k
                    - spec_copy_trace(d).len()]);
            }
        }
    }
}

/// A successful relocation phase holds one `relocate` per record, in section
/// order, carrying exactly the dispatched entry.
pub proof fn lemma_reloc_trace_calls(machine: u16, recs: Seq<RelaEntry>)
    requires
        spec_reloc_trace(machine, recs) is Ok,
    ensures
        spec_reloc_trace(machine, recs)->Ok_0.len() == recs.len(),
        forall|k: int|
            0 <= k < recs.len() ==> spec_dispatch(machine, recs[k]) is Ok && #[trigger] spec_reloc_trace(
                machine,
                recs,
            )->Ok_0[k] == TraceCall::Relocate(spec_dispatch(machine, recs[k])->Ok_0),
    decreases recs.len(),
{
    if recs.len() > 0 {
        lemma_reloc_trace_calls(machine, recs.drop_last());
        assert forall|k: int| 0 <= k < recs.len() implies spec_dispatch(machine, recs[k]) is Ok
            && #[trigger] spec_reloc_trace(machine, recs)->Ok_0[k] == TraceCall::Relocate(
            spec_dispatch(machine, recs[k])->Ok_0,
        ) by {
            if k < recs.len() - 1 {
                assert(recs.drop_last()[k] == recs[k]);
            }
        }
    }
}

/// Every call of the read-only phase is a `make_readonly`.
proof fn lemma_relro_trace_phase(phs: Seq<ProgramHeader>)
    ensures
        forall|k: int|
            0 <= k < spec_relro_trace(phs).len() ==> spec_phase(
                #[trigger] spec_relro_trace(phs)[k],
            ) == 3,
    decreases phs.len(),
{
    if phs.len() > 0 {
        let d = phs.drop_last();
        lemma_relro_trace_phase(d);
        assert forall|k: int| 0 <= k < spec_relro_trace(phs).len() implies spec_phase(
            #[trigger] spec_relro_trace(phs)[k],
        ) == 3 by {
            if k < spec_relro_trace(d).len() {
                assert(spec_relro_trace(phs)[k] == spec_relro_trace(d)[k]);
            }
        }
    }
}

/// Every `PT_GNU_RELRO` header yields exactly one `make_readonly` call: in
/// file order, the read-only phase carries exactly the virtual address and
/// memory size of each `PT_GNU_RELRO` header.
pub proof fn lemma_relro_calls(phs: Seq<ProgramHeader>)
    ensures
        spec_relro_trace(phs).len() == spec_relro_headers(phs).len(),
        forall|k: int|
            0 <= k < spec_relro_headers(phs).len() ==> #[trigger] spec_relro_trace(phs)[k]
                == (TraceCall::MakeReadonly {
                base: spec_relro_headers(phs)[k].virtual_addr,
                size: spec_relro_headers(phs)[k].mem_size as usize as u64,
            }),
    decreases phs.len(),
{
    if phs.len() > 0 {
        let d = phs.drop_last();
        lemma_relro_calls(d);
        assert forall|k: int| 0 <= k < spec_relro_headers(phs).len() implies #[trigger] spec_relro_trace(
            phs,
        )[k] == (TraceCall::MakeReadonly {
            base: spec_relro_headers(phs)[k].virtual_addr,
            size: spec_relro_headers(phs)[k].mem_size as usize as u64,
        }) by {
            if k < spec_relro_headers(d).len() {
                assert(spec_relro_trace(phs)[k] == spec_relro_trace(d)[k]);
                assert(spec_relro_headers(phs)[k] == spec_relro_headers(d)[k]);
            } else {
                assert(spec_relro_headers(phs)[k] == phs.last());
            }
        }
    }
}

/// Every `PT_LOAD` header yields exactly one `load` call: in file order, the
/// `load` calls of the copy phase carry exactly the flags, the virtual
/// address as base, and `file_size` as the length of the handed-over region
/// of each `PT_LOAD` header.
pub proof fn lemma_load_calls(phs: Seq<ProgramHeader>)
    ensures
        spec_trace_loads(spec_copy_trace(phs)).len() == spec_loadables(phs).len(),
        forall|k: int|
            0 <= k < spec_loadables(phs).len() ==> #[trigger] spec_trace_loads(
                spec_copy_trace(phs),
            )[k] == (TraceCall::Load {
                flags: spec_loadables(phs)[k].flags,
                base: spec_loadables(phs)[k].virtual_addr,
                size: spec_loadables(phs)[k].file_size,
            }),
    decreases phs.len(),
{
    if phs.len() > 0 {
        let d = phs.drop_last();
        lemma_load_calls(d);
        let ct = spec_copy_trace(d);
        let tail = spec_copy_calls_of(phs.last());
        assert(spec_copy_trace(phs) == ct + tail);
        if tail.len() == 0 {
            assert(ct + tail =~= ct);
        } else {
            assert((ct + tail).drop_last() =~= ct);
            assert((ct + tail).last() == tail[0]);
        }
        assert forall|k: int| 0 <= k < spec_loadables(phs).len() implies #[trigger] spec_trace_loads(
            spec_copy_trace(phs),
        )[k] == (TraceCall::Load {
            flags: spec_loadables(phs)[k].flags,
            base: spec_loadables(phs)[k].virtual_addr,
            size: spec_loadables(phs)[k].file_size,
        }) by {
            if k < spec_loadables(d).len() {
                assert(spec_loadables(phs)[k] == spec_loadables(d)[k]);
                assert(spec_trace_loads(spec_copy_trace(phs))[k] == spec_trace_loads(ct)[k]);
            } else {
                assert(spec_loadables(phs)[k] == phs.last());
            }
        }
    }
}

/// Every `PT_TLS` header yields exactly one `tls` call: in file order, the
/// `tls` calls of the copy phase carry exactly the virtual address, file
/// size, memory size, and alignment of each `PT_TLS` header.
pub proof fn lemma_tls_calls(phs: Seq<ProgramHeader>)
    ensures
        spec_trace_tls(spec_copy_trace(phs)).len() == spec_tls_headers(phs).len(),
        forall|k: int|
            0 <= k < spec_tls_headers(phs).len() ==> #[trigger] spec_trace_tls(
                spec_copy_trace(phs),
            )[k] == (TraceCall::Tls {
                tdata_start: spec_tls_headers(phs)[k].virtual_addr,
                tdata_length: spec_tls_headers(phs)[k].file_size,
                total_size: spec_tls_headers(phs)[k].mem_size,
                align: spec_tls_headers(phs)[k].align,
            }),
    decreases phs.len(),
{
    if phs.len() > 0 {
        let d = phs.drop_last();
        lemma_tls_calls(d);
        let ct = spec_copy_trace(d);
        let tail = spec_copy_calls_of(phs.last());
        assert(spec_copy_trace(phs) == ct + tail);
        if tail.len() == 0 {
            assert(ct + tail =~= ct);
        } else {
            assert((ct + tail).drop_last() =~= ct);
            assert((ct + tail).last() == tail[0]);
        }
        assert forall|k: int| 0 <= k < spec_tls_headers(phs).len() implies #[trigger] spec_trace_tls(
            spec_copy_trace(phs),
        )[k] == (TraceCall::Tls {
            tdata_start: spec_tls_headers(phs)[k].virtual_addr,
            tdata_length: spec_tls_headers(phs)[k].file_size,
            total_size: spec_tls_headers(phs)[k].mem_size,
            align: spec_tls_headers(phs)[k].align,
        }) by {
            if k < spec_tls_headers(d).len() {
                assert(spec_tls_headers(phs)[k] == spec_tls_headers(d)[k]);
                assert(spec_trace_tls(spec_copy_trace(phs))[k] == spec_trace_tls(ct)[k]);
            } else {
                assert(spec_tls_headers(phs)[k] == phs.last());
            }
        }
    }
}

/// For any binary whose load succeeds, the callback order obeys the
/// happens-before chain exactly: the one `allocate` comes first and appears
/// exactly once, every `load` and `tls` precedes every `relocate`, and every
/// `relocate` precedes every `make_readonly`.
pub proof fn lemma_load_trace_order(b: Seq<u8>, h: ElfHeader, phs: Seq<ProgramHeader>)
    requires
        spec_load_trace(b, h, phs) is Ok,
    ensures
        ({
            let t = spec_load_trace(b, h, phs)->Ok_0;
            &&& t.len() >= 1
            &&& t[0] == TraceCall::Allocate { headers: spec_loadables(phs) }
            &&& (forall|i: int| 1 <= i < t.len() ==> !(#[trigger] t[i] is Allocate))
            &&& (forall|i: int, j: int|
                0 <= i <= j < t.len() ==> spec_phase(#[trigger] t[i]) <= spec_phase(
                    #[trigger] t[j],
                ))
        }),
{
    let recs = spec_reloc_records(b, h)->Ok_0;
    let ct = spec_copy_trace(phs);
    let rt = spec_reloc_trace(h.machine, recs)->Ok_0;
    let rr = spec_relro_trace(phs);
    let t = spec_load_trace(b, h, phs)->Ok_0;
    assert(t == seq![TraceCall::Allocate { headers: spec_loadables(phs) }] + ct + rt + rr);
    lemma_copy_trace_phase(phs);
    lemma_reloc_trace_calls(h.machine, recs);
    lemma_relro_trace_phase(phs);
    assert forall|i: int| 0 <= i < t.len() implies spec_phase(#[trigger] t[i]) == (if i == 0 {
        0int
    } else if i < 1 + ct.len() {
        1int
    } else if i < 1 + ct.len() + rt.len() {
        2int
    } else {
        3int
    }) by {
        if i == 0 {
            assert(t[0] == TraceCall::Allocate { headers: spec_loadables(phs) });
        } else if i < 1 + ct.len() {
            assert(t[i] == ct[i - 1]);
        } else if i < 1 + ct.len() + rt.len() {
            assert(t[i] == rt[i - 1 - ct.len()]);
            assert(spec_phase(rt[i - 1 - ct.len()]) == 2) by {
                assert(rt[i - 1 - ct.len()] == TraceCall::Relocate(
                    spec_dispatch(h.machine, recs[i - 1 - ct.len()])->Ok_0,
                ));
            }
        } else {
            assert(t[i] == rr[i - 1 - ct.len() - rt.len()]);
        }
    }
    assert(t[0] == TraceCall::Allocate { headers: spec_loadables(phs) });
}


/// Taking one more header grows the copy trace by exactly that header's
/// calls.
proof fn lemma_copy_trace_take_step(phs: Seq<ProgramHeader>, i: int)
    requires
        0 <= i < phs.len(),
    ensures
        spec_copy_trace(phs.take(i + 1)) == spec_copy_trace(phs.take(i)) + spec_copy_calls_of(
            phs[i],
        ),
{
    assert(phs.take(i + 1).drop_last() =~= phs.take(i));
    assert(phs.take(i + 1).last() == phs[i]);
}

/// Taking one more header grows the read-only trace by exactly that header's
/// call, if any.
proof fn lemma_relro_trace_take_step(phs: Seq<ProgramHeader>, i: int)
    requires
        0 <= i < phs.len(),
    ensures
        spec_relro_trace(phs.take(i + 1)) == spec_relro_trace(phs.take(i)) + (if spec_segment_kind(
            phs[i].p_type,
        ) == SegmentKind::GnuRelro {
            seq![
                TraceCall::MakeReadonly {
                    base: phs[i].virtual_addr,
                    size: phs[i].mem_size as usize as u64,
                },
            ]
        } else {
            Seq::empty()
        }),
{
    assert(phs.take(i + 1).drop_last() =~= phs.take(i));
    assert(phs.take(i + 1).last() == phs[i]);
}

/// The copy trace of the first `i` headers is a prefix of the whole copy
/// trace.
proof fn lemma_copy_trace_prefix(phs: Seq<ProgramHeader>, i: int)
    requires
        0 <= i <= phs.len(),
    ensures
        spec_copy_trace(phs.take(i)).len() <= spec_copy_trace(phs).len(),
        spec_copy_trace(phs.take(i)) == spec_copy_trace(phs).take(
            spec_copy_trace(phs.take(i)).len() as int,
        ),
    decreases phs.len() - i,
{
    if i == phs.len() {
        assert(phs.take(i) =~= phs);
        assert(spec_copy_trace(phs).take(spec_copy_trace(phs).len() as int) =~= spec_copy_trace(
            phs,
        ));
    } else {
        lemma_copy_trace_prefix(phs, i + 1);
        lemma_copy_trace_take_step(phs, i);
        let a = spec_copy_trace(phs.take(i));
        let bnext = spec_copy_trace(phs.take(i + 1));
        let full = spec_copy_trace(phs);
        assert(bnext.take(a.len() as int) =~= a);
        assert(full.take(bnext.len() as int).take(a.len() as int) =~= full.take(a.len() as int));
    }
}

/// The read-only trace of the first `i` headers is a prefix of the whole
/// read-only trace.
proof fn lemma_relro_trace_prefix(phs: Seq<ProgramHeader>, i: int)
    requires
        0 <= i <= phs.len(),
    ensures
        spec_relro_trace(phs.take(i)).len() <= spec_relro_trace(phs).len(),
        spec_relro_trace(phs.take(i)) == spec_relro_trace(phs).take(
            spec_relro_trace(phs.take(i)).len() as int,
        ),
    decreases phs.len() - i,
{
    if i == phs.len() {
        assert(phs.take(i) =~= phs);
        assert(spec_relro_trace(phs).take(spec_relro_trace(phs).len() as int) =~= spec_relro_trace(
            phs,
        ));
    } else {
        lemma_relro_trace_prefix(phs, i + 1);
        lemma_relro_trace_take_step(phs, i);
        let a = spec_relro_trace(phs.take(i));
        let bnext = spec_relro_trace(phs.take(i + 1));
        let full = spec_relro_trace(phs);
        assert(bnext.take(a.len() as int) =~= a);
        assert(full.take(bnext.len() as int).take(a.len() as int) =~= full.take(a.len() as int));
    }
}

/// The calls of the load protocol that precede relocation: the one allocate
/// call and the whole copy phase.
pub open spec fn spec_pre_reloc_trace(phs: Seq<ProgramHeader>) -> Seq<TraceCall> {
    seq![TraceCall::Allocate { headers: spec_loadables(phs) }] + spec_copy_trace(phs)
}

/// The allocate call and the copy calls of the first `i` headers are a
/// prefix of the calls that precede relocation.
proof fn lemma_pre_reloc_prefix(phs: Seq<ProgramHeader>, i: int)
    requires
        0 <= i <= phs.len(),
    ensures
        ({
            let p = seq![TraceCall::Allocate { headers: spec_loadables(phs) }] + spec_copy_trace(
                phs.take(i),
            );
            &&& p.len() <= spec_pre_reloc_trace(phs).len()
            &&& p == spec_pre_reloc_trace(phs).take(p.len() as int)
        }),
{
    lemma_copy_trace_prefix(phs, i);
    let p = seq![TraceCall::Allocate { headers: spec_loadables(phs) }] + spec_copy_trace(
        phs.take(i),
    );
    assert(p =~= spec_pre_reloc_trace(phs).take(p.len() as int));
}

/// The allocate call followed by the copy calls of the first `i` headers is
/// the corresponding prefix of any defined full trace.
proof fn lemma_prefix_through_copy(b: Seq<u8>, h: ElfHeader, phs: Seq<ProgramHeader>, i: int)
    requires
        0 <= i <= phs.len(),
        spec_load_trace(b, h, phs) is Ok,
    ensures
        ({
            let t = spec_load_trace(b, h, phs)->Ok_0;
            let p = seq![TraceCall::Allocate { headers: spec_loadables(phs) }] + spec_copy_trace(
                phs.take(i),
            );
            &&& p.len() <= t.len()
            &&& p == t.take(p.len() as int)
        }),
{
    let t = spec_load_trace(b, h, phs)->Ok_0;
    let recs = spec_reloc_records(b, h)->Ok_0;
    let a = seq![TraceCall::Allocate { headers: spec_loadables(phs) }];
    let ct = spec_copy_trace(phs);
    let cti = spec_copy_trace(phs.take(i));
    let rt = spec_reloc_trace(h.machine, recs)->Ok_0;
    let rr = spec_relro_trace(phs);
    lemma_copy_trace_prefix(phs, i);
    assert(t == a + ct + rt + rr);
    assert(a + cti =~= t.take((a + cti).len() as int));
}

/// The allocate call, the whole copy phase, and the relocations of the first
/// `j` records are the corresponding prefix of any defined full trace.
proof fn lemma_prefix_through_reloc(b: Seq<u8>, h: ElfHeader, phs: Seq<ProgramHeader>, j: int)
    requires
        spec_load_trace(b, h, phs) is Ok,
        0 <= j <= spec_reloc_records(b, h)->Ok_0.len(),
        spec_reloc_trace(h.machine, spec_reloc_records(b, h)->Ok_0.take(j)) is Ok,
    ensures
        ({
            let t = spec_load_trace(b, h, phs)->Ok_0;
            let p = seq![TraceCall::Allocate { headers: spec_loadables(phs) }] + spec_copy_trace(
                phs,
            ) + spec_reloc_trace(h.machine, spec_reloc_records(b, h)->Ok_0.take(j))->Ok_0;
            &&& p.len() <= t.len()
            &&& p == t.take(p.len() as int)
        }),
{
    let t = spec_load_trace(b, h, phs)->Ok_0;
    let recs = spec_reloc_records(b, h)->Ok_0;
    let a = seq![TraceCall::Allocate { headers: spec_loadables(phs) }];
    let ct = spec_copy_trace(phs);
    let rt = spec_reloc_trace(h.machine, recs)->Ok_0;
    let rtj = spec_reloc_trace(h.machine, recs.take(j))->Ok_0;
    let rr = spec_relro_trace(phs);
    lemma_reloc_trace_calls(h.machine, recs);
    lemma_reloc_trace_calls(h.machine, recs.take(j));
    assert(rtj =~= rt.take(j)) by {
        assert forall|k: int| 0 <= k < j implies rtj[k] == rt[k] by {
            assert(recs.take(j)[k] == recs[k]);
        }
    }
    assert(t == a + ct + rt + rr);
    assert(a + ct + rtj =~= t.take((a + ct + rtj).len() as int));
}

/// The allocate call, the whole copy and relocation phases, and the
/// read-only calls of the first `m` headers are the corresponding prefix of
/// any defined full trace.
proof fn lemma_prefix_through_relro(b: Seq<u8>, h: ElfHeader, phs: Seq<ProgramHeader>, m: int)
    requires
        spec_load_trace(b, h, phs) is Ok,
        0 <= m <= phs.len(),
    ensures
        ({
            let t = spec_load_trace(b, h, phs)->Ok_0;
            let p = seq![TraceCall::Allocate { headers: spec_loadables(phs) }] + spec_copy_trace(
                phs,
            ) + spec_reloc_trace(h.machine, spec_reloc_records(b, h)->Ok_0)->Ok_0
                + spec_relro_trace(phs.take(m));
            &&& p.len() <= t.len()
            &&& p == t.take(p.len() as int)
        }),
{
    let t = spec_load_trace(b, h, phs)->Ok_0;
    let recs = spec_reloc_records(b, h)->Ok_0;
    let a = seq![TraceCall::Allocate { headers: spec_loadables(phs) }];
    let ct = spec_copy_trace(phs);
    let rt = spec_reloc_trace(h.machine, recs)->Ok_0;
    let rr = spec_relro_trace(phs);
    let rrm = spec_relro_trace(phs.take(m));
    lemma_relro_trace_prefix(phs, m);
    assert(t == a + ct + rt + rr);
    assert(a + ct + rt + rrm =~= t.take((a + ct + rt + rrm).len() as int));
}

/// Construction is decided by the header gate and the dynamic scan:
/// a region that the ELF-structure parser refuses fails with a parse error;
/// a region it accepts constructs successfully unless the scan of the
/// program headers for the dynamic segment raises a parse error; and every
/// successful construction started from an accepted region.
pub proof fn lemma_construction_accepts(b: Seq<u8>)
    ensures
        spec_new(b) is Ok ==> elf_header_ok(b),
        !elf_header_ok(b) ==> spec_new(b) == Err::<
            (ElfHeader, Seq<ProgramHeader>, Option<DynamicInfo>),
            ElfLoaderErr,
        >(ElfLoaderErr::ElfParser { source: MSG_BAD_HEADER }),
        (elf_header_ok(b) && spec_scan_dynamic(
            b,
            spec_header(b).class,
            spec_phdrs(b, spec_header(b)),
            0,
        ) is Ok) ==> spec_new(b) is Ok,
{
}

} // verus!
