//! The parts of a parsed ELF file that the feature extractors read, held as
//! plain values. Parsing is done by `goblin`.
use goblin::elf::Elf;
use vstd::prelude::*;

verus! {

#[verifier::external_type_specification]
#[verifier::external_body]
pub struct ExElf<'a>(Elf<'a>);

/// The ELF header fields that the extractors read.
#[derive(Debug, Clone, Copy)]
pub struct ElfHeader {
    pub is_64: bool,
    pub e_type: u16,
    pub e_machine: u16,
    pub e_entry: u64,
    pub e_shoff: u64,
    pub e_shnum: u16,
    pub e_shentsize: u16,
}

/// One section header, with its name looked up in the section name table.
#[derive(Debug)]
pub struct SectionInfo {
    /// The section's name, if the name table has one at its `sh_name` offset.
    pub name: Option<String>,
    pub sh_type: u32,
    pub sh_flags: u64,
    pub sh_addr: u64,
    pub sh_offset: u64,
    pub sh_size: u64,
}

/// The text of an optional string.
pub open spec fn opt_text(s: Option<String>) -> Option<Seq<char>> {
    match s {
        Some(t) => Some(t@),
        None => None,
    }
}

impl View for SectionInfo {
    type V = (Option<Seq<char>>, u32, u64, u64, u64, u64);

    open spec fn view(&self) -> Self::V {
        (opt_text(self.name), self.sh_type, self.sh_flags, self.sh_addr, self.sh_offset, self.sh_size)
    }
}

/// One dynamic symbol: its name offset, and the name found there in the
/// dynamic string table.
#[derive(Debug)]
pub struct DynSymbol {
    pub st_name: usize,
    pub name: Option<String>,
}

impl View for DynSymbol {
    type V = (usize, Option<Seq<char>>);

    open spec fn view(&self) -> Self::V {
        (self.st_name, opt_text(self.name))
    }
}

/// The relocation types of the three dynamic relocation tables.
#[derive(Debug)]
pub struct RelocTypes {
    /// Types of the dynamic relocations with addend (`.rela.dyn`).
    pub dynrela: Vec<u32>,
    /// Types of the dynamic relocations without addend (`.rel.dyn`).
    pub dynrel: Vec<u32>,
    /// Types of the PLT relocations.
    pub pltreloc: Vec<u32>,
}

/// What the feature extractors read of an ELF file.
#[derive(Debug)]
pub struct ElfInfo {
    pub header: ElfHeader,
    pub sections: Vec<SectionInfo>,
    /// `p_flags` of each program header.
    pub segment_flags: Vec<u32>,
    /// Number of entries of the (debugging) symbol table.
    pub symbol_count: usize,
    pub dynamic_symbols: Vec<DynSymbol>,
    /// Number of `DT_NEEDED` libraries.
    pub library_count: usize,
    pub relocs: RelocTypes,
    /// The strings of the symbol string table, or why it could not be read.
    pub strtab: Result<Vec<String>, String>,
    /// The strings of the dynamic string table, or why it could not be read.
    pub dynstrtab: Result<Vec<String>, String>,
}

/// What `goblin` parses out of `data`: the ELF file, or the `Display` text
/// of the error where it refuses the bytes.
pub uninterp spec fn elf_parse_result(data: Seq<u8>) -> Result<Elf<'static>, Seq<char>>;

/// Whether `goblin` accepts `data` as an ELF file.
pub open spec fn elf_parses(data: Seq<u8>) -> bool {
    elf_parse_result(data) is Ok
}

/// The ELF file that `goblin` parses out of `data`, where it accepts it.
pub open spec fn parsed_elf(data: Seq<u8>) -> Elf<'static> {
    elf_parse_result(data)->Ok_0
}

/// `goblin`'s error message for `data`, where it refuses the bytes.
pub open spec fn elf_parse_error(data: Seq<u8>) -> Seq<char> {
    elf_parse_result(data)->Err_0
}

/// The header fields of a parsed ELF file.
pub uninterp spec fn elf_header_of(elf: Elf) -> ElfHeader;

/// The section headers of a parsed ELF file, names resolved.
pub uninterp spec fn elf_sections_of(elf: Elf) -> Seq<(Option<Seq<char>>, u32, u64, u64, u64, u64)>;

/// The `p_flags` of the program headers of a parsed ELF file.
pub uninterp spec fn elf_segment_flags_of(elf: Elf) -> Seq<u32>;

/// The number of entries of the symbol table of a parsed ELF file.
pub uninterp spec fn elf_symbol_count_of(elf: Elf) -> usize;

/// The dynamic symbols of a parsed ELF file, names resolved.
pub uninterp spec fn elf_dynamic_symbols_of(elf: Elf) -> Seq<(usize, Option<Seq<char>>)>;

/// The number of needed libraries of a parsed ELF file.
pub uninterp spec fn elf_library_count_of(elf: Elf) -> usize;

/// The relocation types of the dynamic RELA, dynamic REL and PLT tables of a parsed ELF file.
pub uninterp spec fn elf_reloc_types_of(elf: Elf) -> (Seq<u32>, Seq<u32>, Seq<u32>);

/// The strings of the symbol string table of a parsed ELF file, or the error text.
pub uninterp spec fn elf_symbol_strings_of(elf: Elf) -> Result<Seq<Seq<char>>, Seq<char>>;

/// The strings of the dynamic string table of a parsed ELF file, or the error text.
pub uninterp spec fn elf_dynamic_strings_of(elf: Elf) -> Result<Seq<Seq<char>>, Seq<char>>;

/// `goblin::elf::Elf::parse`, the error given by its `Display` text.
///
/// Trusted: what it returns is `elf_parse_result(data)`, a function of the
/// bytes alone; what is read of the parsed value is stated by the accessors
/// below.
#[verifier::external_body]
fn parse_elf<'a>(data: &'a [u8]) -> (r: Result<Elf<'a>, String>)
    ensures
        r is Ok == elf_parse_result(data@) is Ok,
        r matches Ok(elf) ==> elf_parse_result(data@) matches Ok(p) && p == elf,
        r matches Err(e) ==> elf_parse_result(data@) matches Err(m) && m == e@,
{
    match Elf::parse(data) {
        Ok(elf) => Ok(elf),
        Err(e) => Err(format!("{}", e)),
    }
}

/// Reads `Elf::is_64` and the `header` fields `e_type`, `e_machine`,
/// `e_entry`, `e_shoff`, `e_shnum`, `e_shentsize`.
///
/// Trusted: the result is `elf_header_of(elf)`.
#[verifier::external_body]
fn elf_header(elf: &Elf) -> (r: ElfHeader)
    ensures
        r == elf_header_of(*elf),
{
    let h = &elf.header;
    ElfHeader {
        is_64: elf.is_64,
        e_type: h.e_type,
        e_machine: h.e_machine,
        e_entry: h.e_entry,
        e_shoff: h.e_shoff,
        e_shnum: h.e_shnum,
        e_shentsize: h.e_shentsize,
    }
}

/// Reads `Elf::section_headers`, each name looked up with
/// `Strtab::get_at(sh_name)` in `Elf::shdr_strtab`.
///
/// Trusted: the result, by views, is `elf_sections_of(elf)`.
#[verifier::external_body]
fn elf_sections(elf: &Elf) -> (r: Vec<SectionInfo>)
    ensures
        r@.map_values(|s: SectionInfo| s@) == elf_sections_of(*elf),
{
    elf.section_headers.iter().map(|sh| SectionInfo {
        name: elf.shdr_strtab.get_at(sh.sh_name).map(String::from),
        sh_type: sh.sh_type,
        sh_flags: sh.sh_flags,
        sh_addr: sh.sh_addr,
        sh_offset: sh.sh_offset,
        sh_size: sh.sh_size,
    }).collect()
}

/// Reads `p_flags` of each of `Elf::program_headers`.
///
/// Trusted: the result is `elf_segment_flags_of(elf)`.
#[verifier::external_body]
fn elf_segment_flags(elf: &Elf) -> (r: Vec<u32>)
    ensures
        r@ == elf_segment_flags_of(*elf),
{
    elf.program_headers.iter().map(|ph| ph.p_flags).collect()
}

/// `Symtab::len` of `Elf::syms`.
///
/// Trusted: the result is `elf_symbol_count_of(elf)`.
#[verifier::external_body]
fn elf_symbol_count(elf: &Elf) -> (r: usize)
    ensures
        r == elf_symbol_count_of(*elf),
{
    elf.syms.len()
}

/// Iterates `Elf::dynsyms`, looking each `st_name` up with
/// `Strtab::get_at` in `Elf::dynstrtab`.
///
/// Trusted: the result, by views, is `elf_dynamic_symbols_of(elf)`.
#[verifier::external_body]
fn elf_dynamic_symbols(elf: &Elf) -> (r: Vec<DynSymbol>)
    ensures
        r@.map_values(|s: DynSymbol| s@) == elf_dynamic_symbols_of(*elf),
{
    elf.dynsyms.iter().map(|s| DynSymbol {
        st_name: s.st_name,
        name: elf.dynstrtab.get_at(s.st_name).map(String::from),
    }).collect()
}

/// The length of `Elf::libraries`.
///
/// Trusted: the result is `elf_library_count_of(elf)`.
#[verifier::external_body]
fn elf_library_count(elf: &Elf) -> (r: usize)
    ensures
        r == elf_library_count_of(*elf),
{
    elf.libraries.len()
}

/// `r_type` of each relocation of `Elf::dynrelas`, `Elf::dynrels` and
/// `Elf::pltrelocs`, each in the order that `RelocSection::iter` gives.
///
/// Trusted: the result is `elf_reloc_types_of(elf)`.
#[verifier::external_body]
fn elf_reloc_types(elf: &Elf) -> (r: RelocTypes)
    ensures
        (r.dynrela@, r.dynrel@, r.pltreloc@) == elf_reloc_types_of(*elf),
{
    RelocTypes {
        dynrela: elf.dynrelas.iter().map(|r| r.r_type).collect(),
        dynrel: elf.dynrels.iter().map(|r| r.r_type).collect(),
        pltreloc: elf.pltrelocs.iter().map(|r| r.r_type).collect(),
    }
}

/// `Strtab::to_vec` of `Elf::strtab`, the error given by its `Display` text.
///
/// Trusted: the result, by views, is `elf_symbol_strings_of(elf)`.
#[verifier::external_body]
fn elf_symbol_strings(elf: &Elf) -> (r: Result<Vec<String>, String>)
    ensures
        table_text(r) == elf_symbol_strings_of(*elf),
{
    match elf.strtab.to_vec() {
        Ok(v) => Ok(v.into_iter().map(String::from).collect()),
        Err(e) => Err(format!("{}", e)),
    }
}

/// `Strtab::to_vec` of `Elf::dynstrtab`, the error given by its `Display` text.
///
/// Trusted: the result, by views, is `elf_dynamic_strings_of(elf)`.
#[verifier::external_body]
fn elf_dynamic_strings(elf: &Elf) -> (r: Result<Vec<String>, String>)
    ensures
        table_text(r) == elf_dynamic_strings_of(*elf),
{
    match elf.dynstrtab.to_vec() {
        Ok(v) => Ok(v.into_iter().map(String::from).collect()),
        Err(e) => Err(format!("{}", e)),
    }
}

/// The strings of a string table, by views.
pub open spec fn table_text(t: Result<Vec<String>, String>) -> Result<Seq<Seq<char>>, Seq<char>> {
    match t {
        Ok(v) => Ok(v@.map_values(|s: String| s@)),
        Err(e) => Err(e@),
    }
}

/// `info` holds what the accessors read of `elf`.
pub open spec fn is_info_of(info: &ElfInfo, elf: Elf) -> bool {
    &&& info.header == elf_header_of(elf)
    &&& info.sections@.map_values(|s: SectionInfo| s@) == elf_sections_of(elf)
    &&& info.segment_flags@ == elf_segment_flags_of(elf)
    &&& info.symbol_count == elf_symbol_count_of(elf)
    &&& info.dynamic_symbols@.map_values(|s: DynSymbol| s@) == elf_dynamic_symbols_of(elf)
    &&& info.library_count == elf_library_count_of(elf)
    &&& (info.relocs.dynrela@, info.relocs.dynrel@, info.relocs.pltreloc@) == elf_reloc_types_of(elf)
    &&& table_text(info.strtab) == elf_symbol_strings_of(elf)
    &&& table_text(info.dynstrtab) == elf_dynamic_strings_of(elf)
}

impl ElfInfo {
    /// Reads the parts of a parsed ELF file that the extractors need.
    pub fn from_elf(elf: &Elf) -> (r: Self)
        ensures
            is_info_of(&r, *elf),
    {
        let strtab = elf_symbol_strings(elf);
        let dynstrtab = elf_dynamic_strings(elf);
        ElfInfo {
            header: elf_header(elf),
            sections: elf_sections(elf),
            segment_flags: elf_segment_flags(elf),
            symbol_count: elf_symbol_count(elf),
            dynamic_symbols: elf_dynamic_symbols(elf),
            library_count: elf_library_count(elf),
            relocs: elf_reloc_types(elf),
            strtab,
            dynstrtab,
        }
    }

    /// Parses `data` as an ELF file; the error is `goblin`'s message.
    pub fn parse(data: &[u8]) -> (r: Result<Self, String>)
        ensures
            r is Ok == elf_parses(data@),
            r matches Ok(info) ==> is_info_of(&info, parsed_elf(data@)),
            r matches Err(e) ==> e@ == elf_parse_error(data@),
    {
        match parse_elf(data) {
            Ok(elf) => Ok(Self::from_elf(&elf)),
            Err(e) => Err(e),
        }
    }
}

} // verus!
